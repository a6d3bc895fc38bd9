//! The parser: from source text to a full-fidelity syntax tree.
//!
//! The grammar is a set of functions on the characters of the source, one
//! for each rule. Each takes a position and gives the value it read and the
//! position behind it, or an error. Alternatives are tried in order and the
//! first that succeeds is taken. No rule reads the trivia before or behind
//! what it parses: the rule that calls it does, and stores it in the tree.
//!
//! For each rule there are two functions: a `spec` function, which
//! says what the rule makes of any sequence of characters, and an
//! executable function, which is proved to compute the same.

pub mod basic;
pub mod depth;
pub mod error;
pub mod expr;
pub mod func_def;
pub mod lit;
pub mod prefix;
pub mod program;
pub mod suffix;
pub mod table_constr;
pub mod table_destr;
pub mod var;

use vstd::prelude::*;

use crate::ast::program::{Program, ProgramView};
use crate::parser::error::{unexpected, unexpected_at, ParseError};
use crate::parser::program::{program, spec_program};
use crate::span::stream_from_str;

verus! {

/// How deeply expressions may be nested in one another in source text that
/// [`parse`] reads.
pub const NESTING_LIMIT: usize = 64;

/// What parsing makes of a whole source: the program that covers all of
/// it, or an error. Input behind the program is an error.
pub open spec fn spec_parser(s: Seq<char>, depth: nat) -> Result<ProgramView, ParseError> {
    match spec_program(s, 0, depth) {
        Err(e) => Err(e),
        Ok((program, end)) => if end == s.len() {
            Ok(program)
        } else {
            Err(unexpected(s, end))
        },
    }
}

/// Parses a whole source, given as its characters. Expressions may be
/// nested `depth` deep.
pub fn parser(stream: &Vec<char>, depth: usize) -> (r: Result<Program, Vec<ParseError>>)
    ensures
        match r {
            Ok(program) => spec_parser(stream@, depth as nat) == Ok::<ProgramView, ParseError>(
                program@,
            ),
            Err(errors) => errors@.len() == 1 && spec_parser(stream@, depth as nat) == Err::<
                ProgramView,
                ParseError,
            >(errors@[0]),
        },
{
    let error = match program(stream, 0, depth) {
        Err(e) => e,
        Ok((program, end)) => {
            if end == stream.len() {
                return Ok(program);
            }
            unexpected_at(stream, end)
        },
    };
    let mut errors = Vec::new();
    errors.push(error);
    Err(errors)
}

/// Parses source text. Expressions may be nested [`NESTING_LIMIT`] deep.
pub fn parse(text: &str) -> (r: Result<Program, Vec<ParseError>>)
    ensures
        match r {
            Ok(program) => spec_parser(text@, NESTING_LIMIT as nat) == Ok::<
                ProgramView,
                ParseError,
            >(program@),
            Err(errors) => errors@.len() == 1 && spec_parser(text@, NESTING_LIMIT as nat) == Err::<
                ProgramView,
                ParseError,
            >(errors@[0]),
        },
{
    let stream = stream_from_str(text);
    parser(&stream, NESTING_LIMIT)
}

} // verus!

verus! {

/// A program that parses covers the whole source: its span runs from the
/// first offset to the length of the source.
pub proof fn lemma_program_covers_source(s: Seq<char>, depth: nat)
    ensures
        spec_parser(s, depth) matches Ok(program) ==> program.span() == crate::span::Span::at(
            0,
            s.len() as int,
        ),
{
    reveal(spec_program);
    reveal(crate::parser::program::spec_module);
    reveal(crate::parser::program::spec_expr_program);
}

} // verus!
