//! Table patterns and table destructuring.

use vstd::prelude::*;

use crate::ast::basic::{BoundedSeparatedView, IdentView};
use crate::ast::table_destr::{
    TableDestr, TableDestrView, TablePattern, TablePatternElem, TablePatternElemView,
    TablePatternView,
};
use crate::parser::basic::{
    bounded_separated, elem_agrees, ident, just, local, space, spec_bounded_separated, spec_ident,
    spec_just, spec_local, spec_space, Bracket,
};
use crate::parser::error::{agrees, map_ok, or_else, ParseError, Parsed};
use crate::parser::expr::spec_expr;
use crate::span::Span;

verus! {

/// A named entry of a table pattern: `name s0 : s1 ident`.
#[verifier::opaque]
pub open spec fn spec_named_pattern_elem(s: Seq<char>, pos: int) -> Parsed<TablePatternElemView> {
    match spec_ident(s, pos) {
        Err(e) => Err(e),
        Ok((name, p1)) => {
            let s0 = spec_space(s, p1);
            match spec_just(s, s0.1, ':') {
                Err(e) => Err(e),
                Ok(p2) => {
                    let s1 = spec_space(s, p2);
                    match spec_ident(s, s1.1) {
                        Err(e) => Err(e),
                        Ok((ident, end)) => Ok(
                            (
                                TablePatternElemView::Named {
                                    name,
                                    s0: s0.0,
                                    s1: s1.0,
                                    ident,
                                    span: Span::at(pos, end),
                                },
                                end,
                            ),
                        ),
                    }
                },
            }
        },
    }
}

/// An entry of a table pattern: a named entry, or else a name.
#[verifier::opaque]
pub open spec fn spec_table_pattern_elem(s: Seq<char>, pos: int) -> Parsed<TablePatternElemView> {
    or_else(
        spec_named_pattern_elem(s, pos),
        map_ok(spec_ident(s, pos), |ident: IdentView| TablePatternElemView::Positional(ident)),
    )
}

/// The model of an entry of a table pattern, as a function.
pub open spec fn pattern_elem_model() -> spec_fn(TablePatternElem) -> TablePatternElemView {
    |elem: TablePatternElem| elem@
}

/// The parser of an entry of a table pattern, as a function of the
/// position.
pub open spec fn pattern_elem_parser(s: Seq<char>) -> spec_fn(int) -> Parsed<TablePatternElemView> {
    |pos: int| spec_table_pattern_elem(s, pos)
}

/// A table pattern: entries between `{` and `}`.
#[verifier::opaque]
pub open spec fn spec_table_pattern(s: Seq<char>, pos: int) -> Parsed<TablePatternView> {
    map_ok(
        spec_bounded_separated(s, pos, Bracket::Brace, pattern_elem_parser(s)),
        |list: BoundedSeparatedView<TablePatternElemView>| TablePatternView(list),
    )
}

/// A table destructuring: `local pattern s0 = s1 value`.
pub open spec fn spec_table_destr(s: Seq<char>, pos: int, depth: nat) -> Parsed<TableDestrView>
    decreases depth, 30int, 0int,
{
    let local = spec_local(s, pos);
    match spec_table_pattern(s, local.1) {
        Err(e) => Err(e),
        Ok((pattern, p1)) => {
            let s0 = spec_space(s, p1);
            match spec_just(s, s0.1, '=') {
                Err(e) => Err(e),
                Ok(p2) => {
                    let s1 = spec_space(s, p2);
                    match spec_expr(s, s1.1, depth) {
                        Err(e) => Err(e),
                        Ok((value, end)) => Ok(
                            (
                                TableDestrView {
                                    local: local.0,
                                    pattern,
                                    s0: s0.0,
                                    s1: s1.0,
                                    value: Box::new(value),
                                    span: Span::at(pos, end),
                                },
                                end,
                            ),
                        ),
                    }
                },
            }
        },
    }
}

} // verus!

verus! {

/// Reads what [`spec_named_pattern_elem`] describes.
pub fn named_pattern_elem(src: &Vec<char>, pos: usize) -> (r: Result<
    (TablePatternElem, usize),
    ParseError,
>)
    requires
        pos <= src.len(),
    ensures
        agrees(r, spec_named_pattern_elem(src@, pos as int)),
        r matches Ok((_, end)) ==> pos < end <= src.len(),
{
    proof {
        reveal(spec_named_pattern_elem);
    }
    let (name, p1) = match ident(src, pos) {
        Ok(found) => found,
        Err(e) => {
            return Err(e);
        },
    };
    let (s0, p2) = space(src, p1);
    let p3 = match just(src, p2, ':') {
        Ok(end) => end,
        Err(e) => {
            return Err(e);
        },
    };
    let (s1, p4) = space(src, p3);
    match ident(src, p4) {
        Err(e) => Err(e),
        Ok((ident, end)) => Ok(
            (TablePatternElem::Named { name, s0, s1, ident, span: Span::new(pos, end) }, end),
        ),
    }
}

/// Reads what [`spec_table_pattern_elem`] describes.
pub fn table_pattern_elem(src: &Vec<char>, pos: usize) -> (r: Result<
    (TablePatternElem, usize),
    ParseError,
>)
    requires
        pos <= src.len(),
    ensures
        agrees(r, spec_table_pattern_elem(src@, pos as int)),
        r matches Ok((_, end)) ==> pos < end <= src.len(),
{
    proof {
        reveal(spec_table_pattern_elem);
    }
    let e1 = match named_pattern_elem(src, pos) {
        Ok(found) => {
            return Ok(found);
        },
        Err(e) => e,
    };
    if e1.fatal() {
        return Err(e1);
    }
    match ident(src, pos) {
        Ok((ident, end)) => Ok((TablePatternElem::Positional(ident), end)),
        Err(e2) => Err(e1.merge(e2)),
    }
}

/// Reads what [`spec_table_pattern`] describes.
pub fn table_pattern(src: &Vec<char>, pos: usize) -> (r: Result<(TablePattern, usize), ParseError>)
    requires
        pos <= src.len(),
    ensures
        agrees(r, spec_table_pattern(src@, pos as int)),
        r matches Ok((_, end)) ==> pos < end <= src.len(),
{
    proof {
        reveal(spec_table_pattern);
    }
    let elem = |p: usize| -> (r: Result<(TablePatternElem, usize), ParseError>)
        requires
            p <= src.len(),
        ensures
            elem_agrees(
                r,
                spec_table_pattern_elem(src@, p as int),
                pattern_elem_model(),
                p,
                src@.len(),
            ),
        { table_pattern_elem(src, p) };
    match bounded_separated::<TablePatternElem, TablePatternElemView, _>(
        src,
        pos,
        Bracket::Brace,
        elem,
        Ghost(pattern_elem_parser(src@)),
        Ghost(pattern_elem_model()),
    ) {
        Err(e) => Err(e),
        Ok((list, end)) => {
            assert(list@.elems =~= list.view_with(pattern_elem_model()).elems);
            Ok((TablePattern(list), end))
        },
    }
}

/// Reads what [`spec_table_destr`] describes.
pub fn table_destr(src: &Vec<char>, pos: usize, depth: usize) -> (r: Result<
    (TableDestr, usize),
    ParseError,
>)
    requires
        pos <= src.len(),
    ensures
        agrees(r, spec_table_destr(src@, pos as int, depth as nat)),
        r matches Ok((_, end)) ==> pos < end <= src.len(),
    decreases depth, 30int, 0int,
{
    let (local, p0) = local(src, pos);
    let (pattern, p1) = match table_pattern(src, p0) {
        Ok(found) => found,
        Err(e) => {
            return Err(e);
        },
    };
    let (s0, p2) = space(src, p1);
    let p3 = match just(src, p2, '=') {
        Ok(end) => end,
        Err(e) => {
            return Err(e);
        },
    };
    let (s1, p4) = space(src, p3);
    let (value, end) = match crate::parser::expr::expr(src, p4, depth) {
        Ok(found) => found,
        Err(e) => {
            return Err(e);
        },
    };
    let destr = TableDestr {
        local,
        pattern,
        s0,
        s1,
        value: Box::new(value),
        span: Span::new(pos, end),
    };
    assert(destr@.span == Span::at(pos as int, end as int));
    Ok((destr, end))
}

} // verus!
