//! Front end of a small table-based expression language: a parser that turns
//! source text into a full-fidelity syntax tree and a single-step desugarer
//! that rewrites the tree until only core forms remain.

pub mod ast;
pub mod builtin;
pub mod desugar;
pub mod parse;
pub mod parser;
pub mod span;
