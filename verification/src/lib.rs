//! Propositional logic formulas as immutable trees, rendered to a
//! canonical fully-bracketed textual form.

pub mod balance;
pub mod formula;
