//! Growing a concrete program from a partial one: terms with holes, an evaluator
//! with closures and lazily unfolded recursive bindings, positions that locate a
//! subterm with the scope visible there, and the type-directed steps that resolve
//! one hole at a time through an outside oracle.

pub mod ast;
pub mod eval;
pub mod gen;
pub mod hints;
pub mod position;
pub mod run;
