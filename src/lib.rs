//! Checking the arguments and body of a function call.
//!
//! A function implementation claims the arguments it understands from a
//! [`FuncArgs`] bag, reports required arguments that were not given, and then
//! hands what is left to two closing checks that turn every unclaimed argument
//! and an unwanted body into diagnostics. Nothing here stops at the first
//! problem: every problem becomes one entry of a [`Feedback`] sink.

pub mod span;
pub mod feedback;
pub mod args;
pub mod func;

pub use span::{Span, Spanned};
pub use feedback::{Diagnostic, Feedback, Level, Problem};
pub use args::{FuncArgs, Pair};
pub use func::{drain_args, expect_no_body, OptionExt};
