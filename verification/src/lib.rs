//! A minimal expression-language evaluator.
//!
//! An expression is a finite, owned tree of five node kinds (`Number`, `Id`,
//! `Add`, `If`, `Let`).  `interpret` walks such a tree with a single mutable
//! name-to-value [`env::Environment`] and returns an `i32`.  A `Let` binding
//! is permanent for the remainder of the evaluation: there is no scope-exit
//! restoration.  Addition wraps at the `i32` boundary.

pub mod ast;
pub mod env;
pub mod eval;
pub mod laws;
