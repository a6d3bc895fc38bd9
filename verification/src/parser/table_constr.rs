//! Table constructors.

use vstd::prelude::*;

use crate::ast::basic::BoundedSeparatedView;
use crate::ast::lit::TableLitElemView;
use crate::ast::table_constr::{TableConstr, TableConstrElem, TableConstrElemView, TableConstrView};
use crate::parser::basic::{
    bounded_separated, elem_agrees, just, space, spec_bounded_separated, spec_just, spec_space,
    Bracket,
};
use crate::parser::error::{agrees, map_ok, or_else, ParseError, Parsed};
use crate::parser::expr::spec_expr;
use crate::parser::lit::spec_table_lit_elem;
use crate::span::Span;

verus! {

/// An indexed entry of a table constructor:
/// `[ s0 index s1 ] s2 : s3 value`.
pub open spec fn spec_indexed_elem(s: Seq<char>, pos: int, depth: nat) -> Parsed<
    TableConstrElemView,
>
    decreases depth, 13int, 0int,
{
    match spec_just(s, pos, '[') {
        Err(e) => Err(e),
        Ok(p1) => {
            let s0 = spec_space(s, p1);
            match spec_expr(s, s0.1, depth) {
                Err(e) => Err(e),
                Ok((index, p2)) => {
                    let s1 = spec_space(s, p2);
                    match spec_just(s, s1.1, ']') {
                        Err(e) => Err(e),
                        Ok(p3) => {
                            let s2 = spec_space(s, p3);
                            match spec_just(s, s2.1, ':') {
                                Err(e) => Err(e),
                                Ok(p4) => {
                                    let s3 = spec_space(s, p4);
                                    match spec_expr(s, s3.1, depth) {
                                        Err(e) => Err(e),
                                        Ok((value, end)) => Ok(
                                            (
                                                TableConstrElemView::Indexed {
                                                    s0: s0.0,
                                                    index: Box::new(index),
                                                    s1: s1.0,
                                                    s2: s2.0,
                                                    s3: s3.0,
                                                    value: Box::new(value),
                                                    span: Span::at(pos, end),
                                                },
                                                end,
                                            ),
                                        ),
                                    }
                                },
                            }
                        },
                    }
                },
            }
        },
    }
}

/// An entry of a table constructor: an indexed entry, or else an entry of a
/// table literal.
pub open spec fn spec_table_constr_elem(s: Seq<char>, pos: int, depth: nat) -> Parsed<
    TableConstrElemView,
>
    decreases depth, 14int, 0int,
{
    or_else(
        spec_indexed_elem(s, pos, depth),
        map_ok(
            spec_table_lit_elem(s, pos, depth),
            |lit: TableLitElemView| TableConstrElemView::Lit(lit),
        ),
    )
}

/// The model of an entry of a table constructor, as a function.
pub open spec fn constr_elem_model() -> spec_fn(TableConstrElem) -> TableConstrElemView {
    |elem: TableConstrElem| elem@
}

/// The parser of an entry of a table constructor, as a function of the
/// position.
pub open spec fn constr_elem_parser(s: Seq<char>, depth: nat) -> spec_fn(int) -> Parsed<
    TableConstrElemView,
>
    decreases depth, 15int, 0int,
{
    |pos: int| spec_table_constr_elem(s, pos, depth)
}

/// A table constructor: entries between `{` and `}`.
pub open spec fn spec_table_constr(s: Seq<char>, pos: int, depth: nat) -> Parsed<TableConstrView>
    decreases depth, 20int, 0int,
{
    map_ok(
        spec_bounded_separated(s, pos, Bracket::Brace, constr_elem_parser(s, depth)),
        |list: BoundedSeparatedView<TableConstrElemView>| TableConstrView(list),
    )
}

} // verus!

verus! {

/// Reads what [`spec_indexed_elem`] describes.
pub fn indexed_elem(src: &Vec<char>, pos: usize, depth: usize) -> (r: Result<
    (TableConstrElem, usize),
    ParseError,
>)
    requires
        pos <= src.len(),
    ensures
        agrees(r, spec_indexed_elem(src@, pos as int, depth as nat)),
        r matches Ok((_, end)) ==> pos < end <= src.len(),
    decreases depth, 13int, 0int,
{
    let p1 = match just(src, pos, '[') {
        Ok(end) => end,
        Err(e) => {
            return Err(e);
        },
    };
    let (s0, p2) = space(src, p1);
    let (index, p3) = match crate::parser::expr::expr(src, p2, depth) {
        Ok(found) => found,
        Err(e) => {
            return Err(e);
        },
    };
    let (s1, p4) = space(src, p3);
    let p5 = match just(src, p4, ']') {
        Ok(end) => end,
        Err(e) => {
            return Err(e);
        },
    };
    let (s2, p6) = space(src, p5);
    let p7 = match just(src, p6, ':') {
        Ok(end) => end,
        Err(e) => {
            return Err(e);
        },
    };
    let (s3, p8) = space(src, p7);
    let (value, end) = match crate::parser::expr::expr(src, p8, depth) {
        Ok(found) => found,
        Err(e) => {
            return Err(e);
        },
    };
    let elem = TableConstrElem::Indexed {
        s0,
        index: Box::new(index),
        s1,
        s2,
        s3,
        value: Box::new(value),
        span: Span::new(pos, end),
    };
    assert(elem@ is Indexed);
    Ok((elem, end))
}

/// Reads what [`spec_table_constr_elem`] describes.
pub fn table_constr_elem(src: &Vec<char>, pos: usize, depth: usize) -> (r: Result<
    (TableConstrElem, usize),
    ParseError,
>)
    requires
        pos <= src.len(),
    ensures
        agrees(r, spec_table_constr_elem(src@, pos as int, depth as nat)),
        r matches Ok((_, end)) ==> pos < end <= src.len(),
    decreases depth, 14int, 0int,
{
    let e1 = match indexed_elem(src, pos, depth) {
        Ok(found) => {
            return Ok(found);
        },
        Err(e) => e,
    };
    if e1.fatal() {
        return Err(e1);
    }
    match crate::parser::lit::table_lit_elem(src, pos, depth) {
        Ok((lit, end)) => {
            let elem = TableConstrElem::Lit(lit);
            assert(elem@ is Lit);
            Ok((elem, end))
        },
        Err(e2) => Err(e1.merge(e2)),
    }
}

/// Reads what [`spec_table_constr`] describes.
pub fn table_constr(src: &Vec<char>, pos: usize, depth: usize) -> (r: Result<
    (TableConstr, usize),
    ParseError,
>)
    requires
        pos <= src.len(),
    ensures
        agrees(r, spec_table_constr(src@, pos as int, depth as nat)),
        r matches Ok((_, end)) ==> pos < end <= src.len(),
    decreases depth, 20int, 0int,
{
    let elem = |p: usize| -> (r: Result<(TableConstrElem, usize), ParseError>)
        requires
            p <= src.len(),
        ensures
            elem_agrees(
                r,
                spec_table_constr_elem(src@, p as int, depth as nat),
                constr_elem_model(),
                p,
                src@.len(),
            ),
        { table_constr_elem(src, p, depth) };
    match bounded_separated::<TableConstrElem, TableConstrElemView, _>(
        src,
        pos,
        Bracket::Brace,
        elem,
        Ghost(constr_elem_parser(src@, depth as nat)),
        Ghost(constr_elem_model()),
    ) {
        Err(e) => Err(e),
        Ok((list, end)) => {
            assert(list@.elems =~= list.view_with(constr_elem_model()).elems);
            Ok((list.table_constr(), end))
        },
    }
}

} // verus!
