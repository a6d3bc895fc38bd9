//! Function definitions.

use vstd::prelude::*;

use crate::ast::basic::{opt_space_view, Ident, IdentView, Space, SpaceView};
use crate::ast::expr::{Expr, ExprView};
use crate::ast::func_def::{FuncDef, FuncDefView};
use crate::ast::table_destr::{TablePattern, TablePatternView};
use crate::parser::basic::{
    ident, just, keyword, local, space, spec_ident, spec_just, spec_keyword, spec_local, spec_space,
};
use crate::parser::error::{agrees, or_else, ParseError, Parsed};
use crate::parser::expr::spec_expr;
use crate::parser::table_destr::spec_table_pattern;
use crate::span::Span;

verus! {

/// What a function definition takes: nothing, one argument, or a table
/// that it destructures.
pub enum Params {
    /// Structure: `( s0 )`
    Empty { s0: Space },
    /// Structure: `( s0 arg s1 )`
    Arg { s0: Space, arg: Ident, s1: Space },
    /// Structure: `pattern`
    Destr { pattern: TablePattern },
}

/// The model of [`Params`].
pub enum ParamsView {
    Empty { s0: SpaceView },
    Arg { s0: SpaceView, arg: IdentView, s1: SpaceView },
    Destr { pattern: TablePatternView },
}

impl View for Params {
    type V = ParamsView;

    open spec fn view(&self) -> ParamsView {
        match self {
            Params::Empty { s0 } => ParamsView::Empty { s0: s0@ },
            Params::Arg { s0, arg, s1 } => ParamsView::Arg { s0: s0@, arg: arg@, s1: s1@ },
            Params::Destr { pattern } => ParamsView::Destr { pattern: pattern@ },
        }
    }
}

/// `( s0 )`
#[verifier::opaque]
pub open spec fn spec_params_none(s: Seq<char>, pos: int) -> Parsed<ParamsView> {
    match spec_just(s, pos, '(') {
        Err(e) => Err(e),
        Ok(p1) => {
            let s0 = spec_space(s, p1);
            match spec_just(s, s0.1, ')') {
                Err(e) => Err(e),
                Ok(end) => Ok((ParamsView::Empty { s0: s0.0 }, end)),
            }
        },
    }
}

/// `( s0 arg s1 )`
#[verifier::opaque]
pub open spec fn spec_params_arg(s: Seq<char>, pos: int) -> Parsed<ParamsView> {
    match spec_just(s, pos, '(') {
        Err(e) => Err(e),
        Ok(p1) => {
            let s0 = spec_space(s, p1);
            match spec_ident(s, s0.1) {
                Err(e) => Err(e),
                Ok((arg, p2)) => {
                    let s1 = spec_space(s, p2);
                    match spec_just(s, s1.1, ')') {
                        Err(e) => Err(e),
                        Ok(end) => Ok((ParamsView::Arg { s0: s0.0, arg, s1: s1.0 }, end)),
                    }
                },
            }
        },
    }
}

/// `pattern`
#[verifier::opaque]
pub open spec fn spec_params_destr(s: Seq<char>, pos: int) -> Parsed<ParamsView> {
    match spec_table_pattern(s, pos) {
        Err(e) => Err(e),
        Ok((pattern, end)) => Ok((ParamsView::Destr { pattern }, end)),
    }
}

/// The anonymous definition with the given parts:
/// `function s0 params s1 body`.
pub open spec fn anon_def(
    s0: SpaceView,
    params: ParamsView,
    s1: SpaceView,
    body: ExprView,
    span: Span,
) -> FuncDefView {
    match params {
        ParamsView::Empty { s0: inner } => FuncDefView::AnonNoArg {
            s0,
            s1: inner,
            s2: s1,
            body: Box::new(body),
            span,
        },
        ParamsView::Arg { s0: before, arg, s1: behind } => FuncDefView::AnonArg {
            s0,
            s1: before,
            arg,
            s2: behind,
            s3: s1,
            body: Box::new(body),
            span,
        },
        ParamsView::Destr { pattern } => FuncDefView::AnonDestr {
            s0,
            pattern,
            s1,
            body: Box::new(body),
            span,
        },
    }
}

/// The named definition with the given parts:
/// `local function s0 name s1 params s2 body`.
pub open spec fn named_def(
    local: Option<SpaceView>,
    s0: SpaceView,
    name: IdentView,
    s1: SpaceView,
    params: ParamsView,
    s2: SpaceView,
    body: ExprView,
    span: Span,
) -> FuncDefView {
    match params {
        ParamsView::Empty { s0: inner } => FuncDefView::NamedNoArg {
            local,
            s0,
            name,
            s1,
            s2: inner,
            s3: s2,
            body: Box::new(body),
            span,
        },
        ParamsView::Arg { s0: before, arg, s1: behind } => FuncDefView::NamedArg {
            local,
            s0,
            name,
            s1,
            s2: before,
            arg,
            s3: behind,
            s4: s2,
            body: Box::new(body),
            span,
        },
        ParamsView::Destr { pattern } => FuncDefView::NamedDestr {
            local,
            s0,
            name,
            s1,
            pattern,
            s2,
            body: Box::new(body),
            span,
        },
    }
}

/// An anonymous definition whose parameters `params` has read at `at`,
/// behind `function s0`.
pub open spec fn spec_anon_body(
    s: Seq<char>,
    pos: int,
    depth: nat,
    s0: SpaceView,
    params: Parsed<ParamsView>,
) -> Parsed<FuncDefView>
    decreases depth, 28int, 0int,
{
    match params {
        Err(e) => Err(e),
        Ok((params, p1)) => {
            let s1 = spec_space(s, p1);
            match spec_expr(s, s1.1, depth) {
                Err(e) => Err(e),
                Ok((body, end)) => Ok(
                    (anon_def(s0, params, s1.0, body, Span::at(pos, end)), end),
                ),
            }
        },
    }
}

/// An anonymous definition: `function s0 params s1 body`, the parameters
/// being `()`, `(arg)` or a table pattern, tried in this order.
pub open spec fn spec_func_def_anon(s: Seq<char>, pos: int, depth: nat) -> Parsed<FuncDefView>
    decreases depth, 29int, 0int,
{
    match spec_keyword(s, pos, "function"@) {
        Err(e) => Err(e),
        Ok(p1) => {
            let s0 = spec_space(s, p1);
            or_else(
                spec_anon_body(s, pos, depth, s0.0, spec_params_none(s, s0.1)),
                or_else(
                    spec_anon_body(s, pos, depth, s0.0, spec_params_arg(s, s0.1)),
                    spec_anon_body(s, pos, depth, s0.0, spec_params_destr(s, s0.1)),
                ),
            )
        },
    }
}

/// A named definition whose parameters `params` has read, behind
/// `local function s0 name s1`.
pub open spec fn spec_named_body(
    s: Seq<char>,
    pos: int,
    depth: nat,
    local: Option<SpaceView>,
    s0: SpaceView,
    name: IdentView,
    s1: SpaceView,
    params: Parsed<ParamsView>,
) -> Parsed<FuncDefView>
    decreases depth, 28int, 0int,
{
    match params {
        Err(e) => Err(e),
        Ok((params, p1)) => {
            let s2 = spec_space(s, p1);
            match spec_expr(s, s2.1, depth) {
                Err(e) => Err(e),
                Ok((body, end)) => Ok(
                    (named_def(local, s0, name, s1, params, s2.0, body, Span::at(pos, end)), end),
                ),
            }
        },
    }
}

/// A named definition: `local function s0 name s1 params s2 body`, the
/// parameters being `()`, `(arg)` or a table pattern, tried in this order.
pub open spec fn spec_func_def_named(s: Seq<char>, pos: int, depth: nat) -> Parsed<FuncDefView>
    decreases depth, 29int, 0int,
{
    let local = spec_local(s, pos);
    match spec_keyword(s, local.1, "function"@) {
        Err(e) => Err(e),
        Ok(p1) => {
            let s0 = spec_space(s, p1);
            match spec_ident(s, s0.1) {
                Err(e) => Err(e),
                Ok((name, p2)) => {
                    let s1 = spec_space(s, p2);
                    or_else(
                        spec_named_body(
                            s,
                            pos,
                            depth,
                            local.0,
                            s0.0,
                            name,
                            s1.0,
                            spec_params_none(s, s1.1),
                        ),
                        or_else(
                            spec_named_body(
                                s,
                                pos,
                                depth,
                                local.0,
                                s0.0,
                                name,
                                s1.0,
                                spec_params_arg(s, s1.1),
                            ),
                            spec_named_body(
                                s,
                                pos,
                                depth,
                                local.0,
                                s0.0,
                                name,
                                s1.0,
                                spec_params_destr(s, s1.1),
                            ),
                        ),
                    )
                },
            }
        },
    }
}

/// A function definition: anonymous, or else named.
pub open spec fn spec_func_def(s: Seq<char>, pos: int, depth: nat) -> Parsed<FuncDefView>
    decreases depth, 30int, 0int,
{
    or_else(spec_func_def_anon(s, pos, depth), spec_func_def_named(s, pos, depth))
}

} // verus!

verus! {

/// Reads what [`spec_params_none`] describes.
pub fn params_none(src: &Vec<char>, pos: usize) -> (r: Result<(Params, usize), ParseError>)
    requires
        pos <= src.len(),
    ensures
        agrees(r, spec_params_none(src@, pos as int)),
        r matches Ok((_, end)) ==> pos < end <= src.len(),
{
    proof {
        reveal(spec_params_none);
    }
    let p1 = match just(src, pos, '(') {
        Ok(end) => end,
        Err(e) => {
            return Err(e);
        },
    };
    let (s0, p2) = space(src, p1);
    match just(src, p2, ')') {
        Err(e) => Err(e),
        Ok(end) => Ok((Params::Empty { s0 }, end)),
    }
}

/// Reads what [`spec_params_arg`] describes.
pub fn params_arg(src: &Vec<char>, pos: usize) -> (r: Result<(Params, usize), ParseError>)
    requires
        pos <= src.len(),
    ensures
        agrees(r, spec_params_arg(src@, pos as int)),
        r matches Ok((_, end)) ==> pos < end <= src.len(),
{
    proof {
        reveal(spec_params_arg);
    }
    let p1 = match just(src, pos, '(') {
        Ok(end) => end,
        Err(e) => {
            return Err(e);
        },
    };
    let (s0, p2) = space(src, p1);
    let (arg, p3) = match ident(src, p2) {
        Ok(found) => found,
        Err(e) => {
            return Err(e);
        },
    };
    let (s1, p4) = space(src, p3);
    match just(src, p4, ')') {
        Err(e) => Err(e),
        Ok(end) => Ok((Params::Arg { s0, arg, s1 }, end)),
    }
}

/// Reads what [`spec_params_destr`] describes.
pub fn params_destr(src: &Vec<char>, pos: usize) -> (r: Result<(Params, usize), ParseError>)
    requires
        pos <= src.len(),
    ensures
        agrees(r, spec_params_destr(src@, pos as int)),
        r matches Ok((_, end)) ==> pos < end <= src.len(),
{
    proof {
        reveal(spec_params_destr);
    }
    match crate::parser::table_destr::table_pattern(src, pos) {
        Err(e) => Err(e),
        Ok((pattern, end)) => Ok((Params::Destr { pattern }, end)),
    }
}

/// The anonymous definition with the given parts.
pub fn make_anon(s0: Space, params: Params, s1: Space, body: Expr, span: Span) -> (def: FuncDef)
    ensures
        def@ == anon_def(s0@, params@, s1@, body@, span),
{
    let body = Box::new(body);
    let def = match params {
        Params::Empty { s0: inner } => FuncDef::AnonNoArg { s0, s1: inner, s2: s1, body, span },
        Params::Arg { s0: before, arg, s1: behind } => FuncDef::AnonArg {
            s0,
            s1: before,
            arg,
            s2: behind,
            s3: s1,
            body,
            span,
        },
        Params::Destr { pattern } => FuncDef::AnonDestr { s0, pattern, s1, body, span },
    };
    assert(def@ is AnonNoArg || def@ is AnonArg || def@ is AnonDestr);
    def
}

/// The named definition with the given parts.
pub fn make_named(
    local: Option<Space>,
    s0: Space,
    name: Ident,
    s1: Space,
    params: Params,
    s2: Space,
    body: Expr,
    span: Span,
) -> (def: FuncDef)
    ensures
        def@ == named_def(opt_space_view(local), s0@, name@, s1@, params@, s2@, body@, span),
{
    let body = Box::new(body);
    let def = match params {
        Params::Empty { s0: inner } => FuncDef::NamedNoArg {
            local,
            s0,
            name,
            s1,
            s2: inner,
            s3: s2,
            body,
            span,
        },
        Params::Arg { s0: before, arg, s1: behind } => FuncDef::NamedArg {
            local,
            s0,
            name,
            s1,
            s2: before,
            arg,
            s3: behind,
            s4: s2,
            body,
            span,
        },
        Params::Destr { pattern } => FuncDef::NamedDestr {
            local,
            s0,
            name,
            s1,
            pattern,
            s2,
            body,
            span,
        },
    };
    assert(def@ is NamedNoArg || def@ is NamedArg || def@ is NamedDestr);
    def
}

/// The trivia and the body behind the parameters of a definition.
pub fn def_body(src: &Vec<char>, pos: usize, depth: usize) -> (r: Result<
    ((Space, Expr), usize),
    ParseError,
>)
    requires
        pos <= src.len(),
    ensures
        match r {
            Ok(((s1, body), end)) => spec_space(src@, pos as int).0 == s1@ && spec_expr(
                src@,
                spec_space(src@, pos as int).1,
                depth as nat,
            ) == Ok::<(ExprView, int), ParseError>((body@, end as int)) && pos < end <= src.len(),
            Err(e) => spec_expr(src@, spec_space(src@, pos as int).1, depth as nat) == Err::<
                (ExprView, int),
                ParseError,
            >(e),
        },
    decreases depth, 27int, 0int,
{
    let (s1, p1) = space(src, pos);
    match crate::parser::expr::expr(src, p1, depth) {
        Err(e) => Err(e),
        Ok((body, end)) => Ok(((s1, body), end)),
    }
}

/// Reads what [`spec_func_def_anon`] describes.
pub fn func_def_anon(src: &Vec<char>, pos: usize, depth: usize) -> (r: Result<
    (FuncDef, usize),
    ParseError,
>)
    requires
        pos <= src.len(),
    ensures
        agrees(r, spec_func_def_anon(src@, pos as int, depth as nat)),
        r matches Ok((_, end)) ==> pos < end <= src.len(),
    decreases depth, 29int, 0int,
{
    let p1 = match keyword(src, pos, "function") {
        Ok(end) => end,
        Err(e) => {
            return Err(e);
        },
    };
    let (s0, p2) = space(src, p1);
    let ghost (s, at, d) = (src@, p2 as int, depth as nat);
    let ghost first = spec_anon_body(s, pos as int, d, s0@, spec_params_none(s, at));
    let ghost second = spec_anon_body(s, pos as int, d, s0@, spec_params_arg(s, at));
    let ghost third = spec_anon_body(s, pos as int, d, s0@, spec_params_destr(s, at));
    let e1 = match params_none(src, p2) {
        Err(e) => e,
        Ok((params, p3)) => match def_body(src, p3, depth) {
            Err(e) => e,
            Ok(((s1, body), end)) => {
                return Ok((make_anon(s0, params, s1, body, Span::new(pos, end)), end));
            },
        },
    };
    assert(first == Err::<(FuncDefView, int), ParseError>(e1));
    if e1.fatal() {
        return Err(e1);
    }
    let e2 = match params_arg(src, p2) {
        Err(e) => e,
        Ok((params, p3)) => match def_body(src, p3, depth) {
            Err(e) => e,
            Ok(((s1, body), end)) => {
                return Ok((make_anon(s0, params, s1, body, Span::new(pos, end)), end));
            },
        },
    };
    assert(second == Err::<(FuncDefView, int), ParseError>(e2));
    if e2.fatal() {
        return Err(e2);
    }
    let e3 = match params_destr(src, p2) {
        Err(e) => e,
        Ok((params, p3)) => match def_body(src, p3, depth) {
            Err(e) => e,
            Ok(((s1, body), end)) => {
                return Ok((make_anon(s0, params, s1, body, Span::new(pos, end)), end));
            },
        },
    };
    assert(third == Err::<(FuncDefView, int), ParseError>(e3));
    Err(e1.merge(e2.merge(e3)))
}

/// Reads what [`spec_func_def_named`] describes.
pub fn func_def_named(src: &Vec<char>, pos: usize, depth: usize) -> (r: Result<
    (FuncDef, usize),
    ParseError,
>)
    requires
        pos <= src.len(),
    ensures
        agrees(r, spec_func_def_named(src@, pos as int, depth as nat)),
        r matches Ok((_, end)) ==> pos < end <= src.len(),
    decreases depth, 29int, 0int,
{
    let (local, p0) = local(src, pos);
    let p1 = match keyword(src, p0, "function") {
        Ok(end) => end,
        Err(e) => {
            return Err(e);
        },
    };
    let (s0, p2) = space(src, p1);
    let (name, p3) = match ident(src, p2) {
        Ok(found) => found,
        Err(e) => {
            return Err(e);
        },
    };
    let (s1, p4) = space(src, p3);
    let ghost (s, at, d) = (src@, p4 as int, depth as nat);
    let ghost l = opt_space_view(local);
    let ghost n = name@;
    let ghost first = spec_named_body(s, pos as int, d, l, s0@, n, s1@, spec_params_none(s, at));
    let ghost second = spec_named_body(s, pos as int, d, l, s0@, n, s1@, spec_params_arg(s, at));
    let ghost third = spec_named_body(s, pos as int, d, l, s0@, n, s1@, spec_params_destr(s, at));
    let e1 = match params_none(src, p4) {
        Err(e) => e,
        Ok((params, p5)) => match def_body(src, p5, depth) {
            Err(e) => e,
            Ok(((s2, body), end)) => {
                let def = make_named(local, s0, name, s1, params, s2, body, Span::new(pos, end));
                return Ok((def, end));
            },
        },
    };
    assert(first == Err::<(FuncDefView, int), ParseError>(e1));
    if e1.fatal() {
        return Err(e1);
    }
    let e2 = match params_arg(src, p4) {
        Err(e) => e,
        Ok((params, p5)) => match def_body(src, p5, depth) {
            Err(e) => e,
            Ok(((s2, body), end)) => {
                let def = make_named(local, s0, name, s1, params, s2, body, Span::new(pos, end));
                return Ok((def, end));
            },
        },
    };
    assert(second == Err::<(FuncDefView, int), ParseError>(e2));
    if e2.fatal() {
        return Err(e2);
    }
    let e3 = match params_destr(src, p4) {
        Err(e) => e,
        Ok((params, p5)) => match def_body(src, p5, depth) {
            Err(e) => e,
            Ok(((s2, body), end)) => {
                let def = make_named(local, s0, name, s1, params, s2, body, Span::new(pos, end));
                return Ok((def, end));
            },
        },
    };
    assert(third == Err::<(FuncDefView, int), ParseError>(e3));
    Err(e1.merge(e2.merge(e3)))
}

/// Reads what [`spec_func_def`] describes.
pub fn func_def(src: &Vec<char>, pos: usize, depth: usize) -> (r: Result<
    (FuncDef, usize),
    ParseError,
>)
    requires
        pos <= src.len(),
    ensures
        agrees(r, spec_func_def(src@, pos as int, depth as nat)),
        r matches Ok((_, end)) ==> pos < end <= src.len(),
    decreases depth, 30int, 0int,
{
    let e1 = match func_def_anon(src, pos, depth) {
        Ok(found) => {
            return Ok(found);
        },
        Err(e) => e,
    };
    if e1.fatal() {
        return Err(e1);
    }
    match func_def_named(src, pos, depth) {
        Ok(found) => Ok(found),
        Err(e2) => Err(e1.merge(e2)),
    }
}

} // verus!
