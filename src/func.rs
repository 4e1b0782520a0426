//! Helpers that function implementations use to consume their arguments.
use vstd::prelude::*;
use vstd::string::*;

use crate::args::{key_spans, pos_spans, FuncArgs};
use crate::feedback::{error_at, message_of, DiagnosticView, Feedback, Problem, ProblemView};
use crate::span::{Span, Spanned};

verus! {

/// The sink `s` after a required argument named `name` was looked for:
/// one "missing argument" error at `span` more if it was absent.
pub open spec fn after_required(
    s: Seq<DiagnosticView>,
    absent: bool,
    span: Span,
    name: Seq<char>,
) -> Seq<DiagnosticView> {
    if absent {
        s.push(error_at(span, ProblemView::MissingArgument(name)))
    } else {
        s
    }
}

/// One "unexpected argument" error at each of `spans`, in order.
pub open spec fn unexpected_at(spans: Seq<Span>) -> Seq<DiagnosticView> {
    spans.map_values(|sp: Span| error_at(sp, ProblemView::UnexpectedArgument))
}

/// The sink `s` after the unexpected-body check on `body`.
pub open spec fn after_body_check<B>(
    s: Seq<DiagnosticView>,
    body: Option<Spanned<B>>,
) -> Seq<DiagnosticView> {
    match body {
        Some(b) => s.push(error_at(b.span, ProblemView::UnexpectedBody)),
        None => s,
    }
}

/// Reports of a missing argument are never merged: looking twice for the same
/// absent argument leaves two identical errors, each at `span` and naming
/// `name`.
pub proof fn required_reports_are_not_merged(s: Seq<DiagnosticView>, span: Span, name: Seq<char>)
    ensures
        after_required(after_required(s, true, span, name), true, span, name) == s + seq![
            error_at(span, ProblemView::MissingArgument(name)),
            error_at(span, ProblemView::MissingArgument(name)),
        ],
        after_required(after_required(s, true, span, name), true, span, name).len() == s.len()
            + 2,
{
    assert(after_required(after_required(s, true, span, name), true, span, name) =~= s + seq![
        error_at(span, ProblemView::MissingArgument(name)),
        error_at(span, ProblemView::MissingArgument(name)),
    ]);
}

/// The message of a missing-argument error contains the argument's name.
pub proof fn missing_message_names_argument(name: Seq<char>)
    ensures
        exists|i: int|
            0 <= i && i + name.len() <= message_of(ProblemView::MissingArgument(name)).len()
                && #[trigger] message_of(ProblemView::MissingArgument(name)).subrange(
                i,
                i + name.len(),
            ) == name,
{
    let m = message_of(ProblemView::MissingArgument(name));
    let i = "missing argument: "@.len() as int;
    assert(m.subrange(i, i + name.len()) =~= name);
}

/// Extra methods on `Option`s used for function argument parsing.
pub trait OptionExt<T>: Sized {
    /// The optional value itself.
    spec fn value(&self) -> Option<T>;

    /// Call `f` with `val` if this is `Some(val)`.
    fn with<F: FnOnce(T)>(self, f: F)
        requires
            self.value() matches Some(x) ==> f.requires((x,)),
        ensures
            self.value() matches Some(x) ==> f.ensures((x,), ()),
    ;

    /// Report an error about a missing argument with the given name and span if
    /// the option is `None`.
    fn or_missing(self, span: Span, arg: &str, f: &mut Feedback) -> (r: Self)
        ensures
            r == self,
            final(f)@ == after_required(old(f)@, self.value() is None, span, arg@),
    ;
}

impl<T> OptionExt<T> for Option<T> {
    open spec fn value(&self) -> Option<T> {
        *self
    }

    fn with<F: FnOnce(T)>(self, f: F) {
        if let Some(val) = self {
            f(val);
        }
    }

    fn or_missing(self, span: Span, arg: &str, f: &mut Feedback) -> (r: Self) {
        if self.is_none() {
            f.error(span, Problem::MissingArgument(String::from_str(arg)));
        }
        self
    }
}

/// Generate `unexpected argument` errors for all remaining arguments.
///
/// Every positional argument left in `args` gets one error at its own span, in
/// order, and then every keyed argument left does, in order. The bag is used
/// up.
pub fn drain_args<V>(args: FuncArgs<V>, f: &mut Feedback)
    ensures
        final(f)@ == old(f)@ + unexpected_at(pos_spans(args.pos@) + key_spans(args.key@)),
        final(f)@.len() == old(f)@.len() + args.pos@.len() + args.key@.len(),
        forall|i: int|
            0 <= i < args.pos@.len() ==> final(f)@[old(f)@.len() + i] == error_at(
                args.pos@[i].span,
                ProblemView::UnexpectedArgument,
            ),
        forall|i: int|
            0 <= i < args.key@.len() ==> final(f)@[old(f)@.len() + args.pos@.len() + i]
                == error_at(args.key@[i].span, ProblemView::UnexpectedArgument),
{
    let ghost start = f@;
    let ghost spans = pos_spans(args.pos@) + key_spans(args.key@);
    let mut i: usize = 0;
    while i < args.pos.len()
        invariant
            0 <= i <= args.pos@.len(),
            f@ == start + unexpected_at(pos_spans(args.pos@).take(i as int)),
        decreases args.pos@.len() - i,
    {
        f.error(args.pos[i].span, Problem::UnexpectedArgument);
        proof {
            assert(pos_spans(args.pos@).take(i + 1) =~= pos_spans(args.pos@).take(i as int).push(
                args.pos@[i as int].span,
            ));
            assert(unexpected_at(pos_spans(args.pos@).take(i + 1)) =~= unexpected_at(
                pos_spans(args.pos@).take(i as int),
            ).push(error_at(args.pos@[i as int].span, ProblemView::UnexpectedArgument)));
        }
        i = i + 1;
    }
    proof {
        assert(pos_spans(args.pos@).take(i as int) =~= spans.take(i as int));
    }
    let mut j: usize = 0;
    while j < args.key.len()
        invariant
            0 <= j <= args.key@.len(),
            i == args.pos@.len(),
            spans == pos_spans(args.pos@) + key_spans(args.key@),
            f@ == start + unexpected_at(spans.take(i + j)),
        decreases args.key@.len() - j,
    {
        f.error(args.key[j].span, Problem::UnexpectedArgument);
        proof {
            assert(spans.take(i + j + 1) =~= spans.take(i + j).push(args.key@[j as int].span));
            assert(unexpected_at(spans.take(i + j + 1)) =~= unexpected_at(spans.take(i + j)).push(
                error_at(args.key@[j as int].span, ProblemView::UnexpectedArgument),
            ));
        }
        j = j + 1;
    }
    proof {
        assert(spans.take(i + j) =~= spans);
    }
}

/// Generate an error if there is function body even though none was expected.
pub fn expect_no_body<B>(body: Option<Spanned<B>>, f: &mut Feedback)
    ensures
        final(f)@ == after_body_check(old(f)@, body),
        body is None ==> final(f)@ == old(f)@,
        body matches Some(b) ==> final(f)@.len() == old(f)@.len() + 1 && final(f)@.last()
            == error_at(b.span, ProblemView::UnexpectedBody),
{
    if let Some(body) = body {
        f.error(body.span, Problem::UnexpectedBody);
    }
}

} // verus!
