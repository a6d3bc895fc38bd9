//! Whole programs.

use vstd::prelude::*;

use crate::ast::expr::Expr;
use crate::ast::lit::{TableLitElem, TableLitElemView};
use crate::ast::program::{Program, ProgramView};
use crate::parser::basic::{
    bounded_separated, elem_agrees, keyword, space, spec_bounded_separated, spec_keyword,
    spec_space, Bracket,
};
use crate::parser::error::{agrees, or_else, ParseError, Parsed};
use crate::parser::expr::spec_expr;
use crate::parser::lit::{lit_elem_model, lit_elem_parser};
use crate::span::Span;

verus! {

/// A module: `s0 module elems`, the entries being those of a table literal,
/// without tokens around them.
#[verifier::opaque]
pub open spec fn spec_module(s: Seq<char>, pos: int, depth: nat) -> Parsed<ProgramView> {
    let s0 = spec_space(s, pos);
    match spec_keyword(s, s0.1, "module"@) {
        Err(e) => Err(e),
        Ok(p1) => match spec_bounded_separated(s, p1, Bracket::Bare, lit_elem_parser(s, depth)) {
            Err(e) => Err(e),
            Ok((elems, end)) => Ok(
                (ProgramView::Module { s0: s0.0, elems, span: Span::at(pos, end) }, end),
            ),
        },
    }
}

/// A program that is one expression: `s0 expr s1`.
#[verifier::opaque]
pub open spec fn spec_expr_program(s: Seq<char>, pos: int, depth: nat) -> Parsed<ProgramView> {
    let s0 = spec_space(s, pos);
    match spec_expr(s, s0.1, depth) {
        Err(e) => Err(e),
        Ok((expr, p1)) => {
            let s1 = spec_space(s, p1);
            Ok((ProgramView::Expr { s0: s0.0, expr, s1: s1.0, span: Span::at(pos, s1.1) }, s1.1))
        },
    }
}

/// A program: a module, or else an expression.
#[verifier::opaque]
pub open spec fn spec_program(s: Seq<char>, pos: int, depth: nat) -> Parsed<ProgramView> {
    or_else(spec_module(s, pos, depth), spec_expr_program(s, pos, depth))
}

} // verus!

verus! {

/// Reads what [`spec_module`] describes.
pub fn module(src: &Vec<char>, pos: usize, depth: usize) -> (r: Result<(Program, usize), ParseError>)
    requires
        pos <= src.len(),
    ensures
        agrees(r, spec_module(src@, pos as int, depth as nat)),
        r matches Ok((_, end)) ==> pos <= end <= src.len(),
{
    proof {
        reveal(spec_module);
    }
    let (s0, p1) = space(src, pos);
    let p2 = match keyword(src, p1, "module") {
        Ok(end) => end,
        Err(e) => {
            return Err(e);
        },
    };
    let elem = |p: usize| -> (r: Result<(TableLitElem, usize), ParseError>)
        requires
            p <= src.len(),
        ensures
            elem_agrees(
                r,
                crate::parser::lit::spec_table_lit_elem(src@, p as int, depth as nat),
                lit_elem_model(),
                p,
                src@.len(),
            ),
        { crate::parser::lit::table_lit_elem(src, p, depth) };
    match bounded_separated::<TableLitElem, TableLitElemView, _>(
        src,
        p2,
        Bracket::Bare,
        elem,
        Ghost(lit_elem_parser(src@, depth as nat)),
        Ghost(lit_elem_model()),
    ) {
        Err(e) => Err(e),
        Ok((elems, end)) => {
            assert(elems@.elems =~= elems.view_with(lit_elem_model()).elems);
            Ok((Program::Module { s0, elems, span: Span::new(pos, end) }, end))
        },
    }
}

/// Reads what [`spec_expr_program`] describes.
pub fn expr_program(src: &Vec<char>, pos: usize, depth: usize) -> (r: Result<
    (Program, usize),
    ParseError,
>)
    requires
        pos <= src.len(),
    ensures
        agrees(r, spec_expr_program(src@, pos as int, depth as nat)),
        r matches Ok((_, end)) ==> pos <= end <= src.len(),
{
    proof {
        reveal(spec_expr_program);
    }
    let (s0, p1) = space(src, pos);
    match crate::parser::expr::expr(src, p1, depth) {
        Err(e) => Err(e),
        Ok((expr, p2)) => {
            let (s1, end) = space(src, p2);
            Ok((Program::Expr { s0, expr, s1, span: Span::new(pos, end) }, end))
        },
    }
}

/// Reads what [`spec_program`] describes.
pub fn program(src: &Vec<char>, pos: usize, depth: usize) -> (r: Result<
    (Program, usize),
    ParseError,
>)
    requires
        pos <= src.len(),
    ensures
        agrees(r, spec_program(src@, pos as int, depth as nat)),
        r matches Ok((_, end)) ==> pos <= end <= src.len(),
{
    proof {
        reveal(spec_program);
    }
    let e1 = match module(src, pos, depth) {
        Ok(found) => {
            return Ok(found);
        },
        Err(e) => e,
    };
    if e1.fatal() {
        return Err(e1);
    }
    match expr_program(src, pos, depth) {
        Ok(found) => Ok(found),
        Err(e2) => Err(e1.merge(e2)),
    }
}

} // verus!
