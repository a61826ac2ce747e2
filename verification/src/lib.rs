//! A source-to-source transform that wraps a function's body so that any
//! failure it produces is annotated with a contextual message before being
//! returned to the caller.
//!
//! The transform takes a function definition and a context expression. It
//! emits a function with the same signature whose body first evaluates the
//! context expression, then runs the original body unchanged, and finally
//! hands the body's result together with the message to a wrap-with-context
//! operation: success values pass through untouched, failure values get the
//! message prepended to their chain.

pub mod ast;
pub mod chain;
pub mod parse;
pub mod transform;

pub use parse::eyre;
