//! Laws of the accessors, of records, of the evaluator, of equality, of
//! substitution and of replay, each proved from the definitions in `model`
//! and `semantics`.
pub mod accessors;
pub mod equality;
pub mod evaluation;
pub mod records;
pub mod replay;
pub mod substitution;
