//! Diagnostics and the sink that collects them.
use vstd::prelude::*;
use vstd::string::*;

use crate::span::Span;

verus! {

/// How severe a diagnostic is.
#[derive(Clone, Copy, Debug, PartialEq, Eq, Structural)]
pub enum Level {
    Error,
    Warning,
    Info,
}

/// What went wrong at a call.
#[derive(Debug)]
pub enum Problem {
    /// A required argument with this name was not given.
    MissingArgument(String),
    /// An argument was given that the function did not claim.
    UnexpectedArgument,
    /// A body was given to a function that takes none.
    UnexpectedBody,
}

/// The mathematical content of a [`Problem`].
pub ghost enum ProblemView {
    MissingArgument(Seq<char>),
    UnexpectedArgument,
    UnexpectedBody,
}

impl View for Problem {
    type V = ProblemView;

    open spec fn view(&self) -> ProblemView {
        match self {
            Problem::MissingArgument(name) => ProblemView::MissingArgument(name@),
            Problem::UnexpectedArgument => ProblemView::UnexpectedArgument,
            Problem::UnexpectedBody => ProblemView::UnexpectedBody,
        }
    }
}

/// The text shown to the user for a problem.
pub open spec fn message_of(p: ProblemView) -> Seq<char> {
    match p {
        ProblemView::MissingArgument(name) => "missing argument: "@ + name,
        ProblemView::UnexpectedArgument => "unexpected argument"@,
        ProblemView::UnexpectedBody => "unexpected body"@,
    }
}

impl Problem {
    /// The text shown to the user for this problem.
    pub fn message(&self) -> (r: String)
        ensures
            r@ == message_of(self@),
    {
        match self {
            Problem::MissingArgument(name) => {
                String::from_str("missing argument: ").concat(name.as_str())
            },
            Problem::UnexpectedArgument => String::from_str("unexpected argument"),
            Problem::UnexpectedBody => String::from_str("unexpected body"),
        }
    }
}

/// One reported problem, with its severity and the span it blames.
#[derive(Debug)]
pub struct Diagnostic {
    pub level: Level,
    pub problem: Problem,
    pub span: Span,
}

/// The mathematical content of a [`Diagnostic`].
pub ghost struct DiagnosticView {
    pub level: Level,
    pub problem: ProblemView,
    pub span: Span,
}

impl View for Diagnostic {
    type V = DiagnosticView;

    open spec fn view(&self) -> DiagnosticView {
        DiagnosticView { level: self.level, problem: self.problem@, span: self.span }
    }
}

/// An error of kind `p` located at `span`.
pub open spec fn error_at(span: Span, p: ProblemView) -> DiagnosticView {
    DiagnosticView { level: Level::Error, problem: p, span }
}

impl Diagnostic {
    /// The text shown to the user for this diagnostic.
    pub fn message(&self) -> (r: String)
        ensures
            r@ == message_of(self@.problem),
    {
        self.problem.message()
    }
}

/// The sink of one pass: every diagnostic reported so far, in the order in
/// which they were found.
#[derive(Debug)]
pub struct Feedback {
    pub diagnostics: Vec<Diagnostic>,
}

impl View for Feedback {
    type V = Seq<DiagnosticView>;

    open spec fn view(&self) -> Seq<DiagnosticView> {
        self.diagnostics@.map_values(|d: Diagnostic| d@)
    }
}

impl Feedback {
    /// A sink with nothing reported yet.
    pub fn new() -> (r: Feedback)
        ensures
            r@ == Seq::<DiagnosticView>::empty(),
    {
        Feedback { diagnostics: Vec::new() }
    }

    /// How many diagnostics have been reported.
    pub fn len(&self) -> (r: usize)
        ensures
            r == self@.len(),
    {
        self.diagnostics.len()
    }

    /// Appends an error of kind `problem` located at `span`.
    pub fn error(&mut self, span: Span, problem: Problem)
        ensures
            final(self)@ == old(self)@.push(error_at(span, problem@)),
    {
        self.diagnostics.push(Diagnostic { level: Level::Error, problem, span });
        proof {
            assert(final(self)@ =~= old(self)@.push(error_at(span, problem@)));
        }
    }
}

} // verus!
