//! A small functional expression evaluator for a Lisp-like term language.
//!
//! Every procedure takes exactly one parameter; multi-argument procedures are
//! curried chains. Evaluation proceeds by capture-avoiding substitution, with
//! hygienic renaming of binders, rather than by a runtime environment. Native
//! (built-in) procedures are integrated into the substitution model as
//! first-class curried values.

pub mod ast;
pub mod buildin;
pub mod eval;
pub mod laws;
pub mod render;
