//! The desugarer: a single-step rewrite relation on syntax trees.
//!
//! Every `desugar` function reduces at most one redex and reports whether it
//! did. A node first tries the expressions that it holds, from left to right
//! in their order in the source, and stops at the first that changes; only
//! when none changes does it apply its own rule, which its `rewrite`
//! function gives. Calling `desugar` until it reports no change reduces a
//! program to literals alone.
//!
//! The rewrite is given on the views of the tree: for each node type the
//! view has a `desugar` function of its own, and the executable function is
//! proved to compute it.

pub mod basic;
pub mod call;
pub mod expr;
pub mod field;
pub mod func_def;
pub mod laws;
pub mod lit;
pub mod normal;
pub mod program;
pub mod table_constr;
pub mod table_destr;
pub mod var;
pub mod weight;
