//! A static type checker for a small expression language with booleans,
//! integers, conditionals and binary operators.

pub mod expr;
pub mod infer;
pub mod laws;
