//! Variable access and assignment.

use vstd::prelude::*;

use crate::ast::basic::IdentView;
use crate::ast::var::{Var, VarView};
use crate::parser::basic::{
    ident, just, local, space, spec_ident, spec_just, spec_local, spec_space,
};
use crate::parser::error::{agrees, map_ok, or_else, ParseError, Parsed};
use crate::parser::expr::spec_expr;
use crate::span::Span;

verus! {

/// `[ s0 index s1 ]`
pub open spec fn spec_var_access(s: Seq<char>, pos: int, depth: nat) -> Parsed<VarView>
    decreases depth, 29int, 0int,
{
    match spec_just(s, pos, '[') {
        Err(e) => Err(e),
        Ok(p1) => {
            let s0 = spec_space(s, p1);
            match spec_expr(s, s0.1, depth) {
                Err(e) => Err(e),
                Ok((index, p2)) => {
                    let s1 = spec_space(s, p2);
                    match spec_just(s, s1.1, ']') {
                        Err(e) => Err(e),
                        Ok(end) => Ok(
                            (
                                VarView::Access {
                                    s0: s0.0,
                                    index: Box::new(index),
                                    s1: s1.0,
                                    span: Span::at(pos, end),
                                },
                                end,
                            ),
                        ),
                    }
                },
            }
        },
    }
}

/// `local [ s0 index s1 ] s2 = s3 value`
pub open spec fn spec_var_assign(s: Seq<char>, pos: int, depth: nat) -> Parsed<VarView>
    decreases depth, 29int, 0int,
{
    let local = spec_local(s, pos);
    match spec_just(s, local.1, '[') {
        Err(e) => Err(e),
        Ok(p1) => {
            let s0 = spec_space(s, p1);
            match spec_expr(s, s0.1, depth) {
                Err(e) => Err(e),
                Ok((index, p2)) => {
                    let s1 = spec_space(s, p2);
                    match spec_just(s, s1.1, ']') {
                        Err(e) => Err(e),
                        Ok(p3) => {
                            let s2 = spec_space(s, p3);
                            match spec_just(s, s2.1, '=') {
                                Err(e) => Err(e),
                                Ok(p4) => {
                                    let s3 = spec_space(s, p4);
                                    match spec_expr(s, s3.1, depth) {
                                        Err(e) => Err(e),
                                        Ok((value, end)) => Ok(
                                            (
                                                VarView::Assign {
                                                    local: local.0,
                                                    s0: s0.0,
                                                    index: Box::new(index),
                                                    s1: s1.0,
                                                    s2: s2.0,
                                                    s3: s3.0,
                                                    value: Box::new(value),
                                                    span: Span::at(pos, end),
                                                },
                                                end,
                                            ),
                                        ),
                                    }
                                },
                            }
                        },
                    }
                },
            }
        },
    }
}

/// `local name s0 = s1 value`
pub open spec fn spec_var_assign_ident(s: Seq<char>, pos: int, depth: nat) -> Parsed<VarView>
    decreases depth, 29int, 0int,
{
    let local = spec_local(s, pos);
    match spec_ident(s, local.1) {
        Err(e) => Err(e),
        Ok((name, p1)) => {
            let s0 = spec_space(s, p1);
            match spec_just(s, s0.1, '=') {
                Err(e) => Err(e),
                Ok(p2) => {
                    let s1 = spec_space(s, p2);
                    match spec_expr(s, s1.1, depth) {
                        Err(e) => Err(e),
                        Ok((value, end)) => Ok(
                            (
                                VarView::AssignIdent {
                                    local: local.0,
                                    name,
                                    s0: s0.0,
                                    s1: s1.0,
                                    value: Box::new(value),
                                    span: Span::at(pos, end),
                                },
                                end,
                            ),
                        ),
                    }
                },
            }
        },
    }
}

/// A variable: an assignment with brackets, an access with brackets, an
/// assignment to a name, or a name, tried in this order.
pub open spec fn spec_var(s: Seq<char>, pos: int, depth: nat) -> Parsed<VarView>
    decreases depth, 30int, 0int,
{
    or_else(
        spec_var_assign(s, pos, depth),
        or_else(
            spec_var_access(s, pos, depth),
            or_else(
                spec_var_assign_ident(s, pos, depth),
                map_ok(spec_ident(s, pos), |ident: IdentView| VarView::AccessIdent(ident)),
            ),
        ),
    )
}

} // verus!

verus! {

/// Reads what [`spec_var_access`] describes.
pub fn var_access(src: &Vec<char>, pos: usize, depth: usize) -> (r: Result<(Var, usize), ParseError>)
    requires
        pos <= src.len(),
    ensures
        agrees(r, spec_var_access(src@, pos as int, depth as nat)),
        r matches Ok((_, end)) ==> pos < end <= src.len(),
    decreases depth, 29int, 0int,
{
    let p1 = match just(src, pos, '[') {
        Ok(end) => end,
        Err(e) => {
            return Err(e);
        },
    };
    let (s0, p2) = space(src, p1);
    let (index, p3) = match crate::parser::expr::expr(src, p2, depth) {
        Ok(found) => found,
        Err(e) => {
            return Err(e);
        },
    };
    let (s1, p4) = space(src, p3);
    let end = match just(src, p4, ']') {
        Ok(end) => end,
        Err(e) => {
            return Err(e);
        },
    };
    let var = Var::Access { s0, index: Box::new(index), s1, span: Span::new(pos, end) };
    assert(var@ is Access);
    Ok((var, end))
}

/// Reads what [`spec_var_assign`] describes.
pub fn var_assign(src: &Vec<char>, pos: usize, depth: usize) -> (r: Result<(Var, usize), ParseError>)
    requires
        pos <= src.len(),
    ensures
        agrees(r, spec_var_assign(src@, pos as int, depth as nat)),
        r matches Ok((_, end)) ==> pos < end <= src.len(),
    decreases depth, 29int, 0int,
{
    let (local, p0) = local(src, pos);
    let p1 = match just(src, p0, '[') {
        Ok(end) => end,
        Err(e) => {
            return Err(e);
        },
    };
    let (s0, p2) = space(src, p1);
    let (index, p3) = match crate::parser::expr::expr(src, p2, depth) {
        Ok(found) => found,
        Err(e) => {
            return Err(e);
        },
    };
    let (s1, p4) = space(src, p3);
    let p5 = match just(src, p4, ']') {
        Ok(end) => end,
        Err(e) => {
            return Err(e);
        },
    };
    let (s2, p6) = space(src, p5);
    let p7 = match just(src, p6, '=') {
        Ok(end) => end,
        Err(e) => {
            return Err(e);
        },
    };
    let (s3, p8) = space(src, p7);
    let (value, end) = match crate::parser::expr::expr(src, p8, depth) {
        Ok(found) => found,
        Err(e) => {
            return Err(e);
        },
    };
    let var = Var::Assign {
        local,
        s0,
        index: Box::new(index),
        s1,
        s2,
        s3,
        value: Box::new(value),
        span: Span::new(pos, end),
    };
    assert(var@ is Assign);
    Ok((var, end))
}

/// Reads what [`spec_var_assign_ident`] describes.
pub fn var_assign_ident(src: &Vec<char>, pos: usize, depth: usize) -> (r: Result<
    (Var, usize),
    ParseError,
>)
    requires
        pos <= src.len(),
    ensures
        agrees(r, spec_var_assign_ident(src@, pos as int, depth as nat)),
        r matches Ok((_, end)) ==> pos < end <= src.len(),
    decreases depth, 29int, 0int,
{
    let (local, p0) = local(src, pos);
    let (name, p1) = match ident(src, p0) {
        Ok(found) => found,
        Err(e) => {
            return Err(e);
        },
    };
    let (s0, p2) = space(src, p1);
    let p3 = match just(src, p2, '=') {
        Ok(end) => end,
        Err(e) => {
            return Err(e);
        },
    };
    let (s1, p4) = space(src, p3);
    let (value, end) = match crate::parser::expr::expr(src, p4, depth) {
        Ok(found) => found,
        Err(e) => {
            return Err(e);
        },
    };
    let var = Var::AssignIdent {
        local,
        name,
        s0,
        s1,
        value: Box::new(value),
        span: Span::new(pos, end),
    };
    assert(var@ is AssignIdent);
    Ok((var, end))
}

/// Reads what [`spec_var`] describes.
pub fn var(src: &Vec<char>, pos: usize, depth: usize) -> (r: Result<(Var, usize), ParseError>)
    requires
        pos <= src.len(),
    ensures
        agrees(r, spec_var(src@, pos as int, depth as nat)),
        r matches Ok((_, end)) ==> pos < end <= src.len(),
    decreases depth, 30int, 0int,
{
    let e1 = match var_assign(src, pos, depth) {
        Ok(found) => {
            return Ok(found);
        },
        Err(e) => e,
    };
    if e1.fatal() {
        return Err(e1);
    }
    let e2 = match var_access(src, pos, depth) {
        Ok(found) => {
            return Ok(found);
        },
        Err(e) => e,
    };
    if e2.fatal() {
        return Err(e2);
    }
    let e3 = match var_assign_ident(src, pos, depth) {
        Ok(found) => {
            return Ok(found);
        },
        Err(e) => e,
    };
    if e3.fatal() {
        return Err(e3);
    }
    match ident(src, pos) {
        Ok((ident, end)) => {
            let var = Var::AccessIdent(ident);
            assert(var@ is AccessIdent);
            Ok((var, end))
        },
        Err(e4) => Err(e1.merge(e2.merge(e3.merge(e4)))),
    }
}

} // verus!
