//! Parsers for single values: signed integers and booleans at the start of
//! a text. Each gives the value and the rest of the text behind it.

pub mod boolean;
pub mod integer;
pub mod table;
