//! A tree-walking evaluator for a small expression-oriented language.
//!
//! Programs arrive as an already-parsed abstract syntax tree ([`ast::Term`]).
//! The evaluator ([`eval::eval`]) walks the tree, producing a runtime value
//! ([`value::Val`]), extending a variable environment ([`value::Scope`]), and
//! collecting the text written by `print` expressions into an output buffer
//! ([`value::Output`]).  Its behaviour is pinned down by the mathematical
//! semantics in [`model`], and the laws in [`laws`] are proved from it.

pub mod ast;
pub mod model;
pub mod value;
pub mod eval;
pub mod laws;
