//! Source locations.
use vstd::prelude::*;

verus! {

/// A half-open range `start..end` of positions in one source file.
#[derive(Clone, Copy, Debug, PartialEq, Eq, Structural)]
pub struct Span {
    /// The source file the range lies in.
    pub file: u32,
    /// The first position in the range.
    pub start: usize,
    /// The first position after the range.
    pub end: usize,
}

impl Span {
    /// A span in `file` from `start` up to (not including) `end`.
    pub fn new(file: u32, start: usize, end: usize) -> (r: Span)
        ensures
            r == (Span { file, start, end }),
    {
        Span { file, start, end }
    }
}

/// A value together with the span it came from.
#[derive(Debug)]
pub struct Spanned<T> {
    /// The value.
    pub v: T,
    /// Where in the source the value stands.
    pub span: Span,
}

impl<T> Spanned<T> {
    /// Attaches `span` to `v`.
    pub fn new(v: T, span: Span) -> (r: Spanned<T>)
        ensures
            r.v == v,
            r.span == span,
    {
        Spanned { v, span }
    }
}

} // verus!
