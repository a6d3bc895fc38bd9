//! Calls and field accesses: what can follow an atom.

use vstd::prelude::*;

use crate::ast::basic::{Ident, IdentView, Space, SpaceView};
use crate::ast::call::{Call, CallView};
use crate::ast::expr::{Expr, ExprView};
use crate::ast::field::{Field, FieldView};
use crate::ast::table_constr::{TableConstr, TableConstrView};
use crate::parser::basic::{ident, just, space, spec_ident, spec_just, spec_space};
use crate::parser::error::{agrees, or_else, ParseError, Parsed};
use crate::parser::expr::{spec_atom, spec_expr};
use crate::parser::table_constr::spec_table_constr;
use crate::span::{HasSpan, Span};

verus! {

/// What follows an expression in a call or a field access, with the trivia
/// before it.
pub enum Suffix {
    /// See [`Call::Arg`].
    CallArg { s0: Space, s1: Space, arg: Box<Expr>, s2: Space },
    /// See [`Call::NoArg`].
    CallNoArg { s0: Space, s1: Space },
    /// See [`Call::Constr`].
    CallConstr { s0: Space, constr: TableConstr },
    /// See [`Field::Access`].
    FieldAccess { s0: Space, s1: Space, index: Box<Expr>, s2: Space },
    /// See [`Field::Assign`].
    FieldAssign {
        s0: Space,
        s1: Space,
        index: Box<Expr>,
        s2: Space,
        s3: Space,
        s4: Space,
        value: Box<Expr>,
    },
    /// See [`Field::AccessIdent`].
    FieldAccessIdent { s0: Space, s1: Space, ident: Ident },
    /// See [`Field::AssignIdent`].
    FieldAssignIdent { s0: Space, s1: Space, ident: Ident, s2: Space, s3: Space, value: Box<Expr> },
}

/// The model of a [`Suffix`].
pub enum SuffixView {
    CallArg { s0: SpaceView, s1: SpaceView, arg: Box<ExprView>, s2: SpaceView },
    CallNoArg { s0: SpaceView, s1: SpaceView },
    CallConstr { s0: SpaceView, constr: TableConstrView },
    FieldAccess { s0: SpaceView, s1: SpaceView, index: Box<ExprView>, s2: SpaceView },
    FieldAssign {
        s0: SpaceView,
        s1: SpaceView,
        index: Box<ExprView>,
        s2: SpaceView,
        s3: SpaceView,
        s4: SpaceView,
        value: Box<ExprView>,
    },
    FieldAccessIdent { s0: SpaceView, s1: SpaceView, ident: IdentView },
    FieldAssignIdent {
        s0: SpaceView,
        s1: SpaceView,
        ident: IdentView,
        s2: SpaceView,
        s3: SpaceView,
        value: Box<ExprView>,
    },
}

impl View for Suffix {
    type V = SuffixView;

    open spec fn view(&self) -> SuffixView {
        match self {
            Suffix::CallArg { s0, s1, arg, s2 } => SuffixView::CallArg {
                s0: s0@,
                s1: s1@,
                arg: Box::new(arg@),
                s2: s2@,
            },
            Suffix::CallNoArg { s0, s1 } => SuffixView::CallNoArg { s0: s0@, s1: s1@ },
            Suffix::CallConstr { s0, constr } => SuffixView::CallConstr {
                s0: s0@,
                constr: constr@,
            },
            Suffix::FieldAccess { s0, s1, index, s2 } => SuffixView::FieldAccess {
                s0: s0@,
                s1: s1@,
                index: Box::new(index@),
                s2: s2@,
            },
            Suffix::FieldAssign { s0, s1, index, s2, s3, s4, value } => SuffixView::FieldAssign {
                s0: s0@,
                s1: s1@,
                index: Box::new(index@),
                s2: s2@,
                s3: s3@,
                s4: s4@,
                value: Box::new(value@),
            },
            Suffix::FieldAccessIdent { s0, s1, ident } => SuffixView::FieldAccessIdent {
                s0: s0@,
                s1: s1@,
                ident: ident@,
            },
            Suffix::FieldAssignIdent { s0, s1, ident, s2, s3, value } => {
                SuffixView::FieldAssignIdent {
                    s0: s0@,
                    s1: s1@,
                    ident: ident@,
                    s2: s2@,
                    s3: s3@,
                    value: Box::new(value@),
                }
            },
        }
    }
}

impl SuffixView {
    /// The expression `expr` with the suffix behind it.
    #[verifier::opaque]
    pub open spec fn into_expr(self, span: Span, expr: ExprView) -> ExprView {
        let expr = Box::new(expr);
        match self {
            SuffixView::CallArg { s0, s1, arg, s2 } => ExprView::Call(
                CallView::Arg { expr, s0, s1, arg, s2, span },
            ),
            SuffixView::CallNoArg { s0, s1 } => ExprView::Call(
                CallView::NoArg { expr, s0, s1, span },
            ),
            SuffixView::CallConstr { s0, constr } => ExprView::Call(
                CallView::Constr { expr, s0, constr, span },
            ),
            SuffixView::FieldAccess { s0, s1, index, s2 } => ExprView::Field(
                FieldView::Access { expr, s0, s1, index, s2, span },
            ),
            SuffixView::FieldAssign { s0, s1, index, s2, s3, s4, value } => ExprView::Field(
                FieldView::Assign { expr, s0, s1, index, s2, s3, s4, value, span },
            ),
            SuffixView::FieldAccessIdent { s0, s1, ident } => ExprView::Field(
                FieldView::AccessIdent { expr, s0, s1, ident, span },
            ),
            SuffixView::FieldAssignIdent { s0, s1, ident, s2, s3, value } => ExprView::Field(
                FieldView::AssignIdent { expr, s0, s1, ident, s2, s3, value, span },
            ),
        }
    }
}

/// `s0 ( s1 arg s2 )`
pub open spec fn spec_suffix_call_arg(s: Seq<char>, pos: int, depth: nat) -> Parsed<SuffixView>
    decreases depth, 36int, 0int,
{
    let s0 = spec_space(s, pos);
    match spec_just(s, s0.1, '(') {
        Err(e) => Err(e),
        Ok(p1) => {
            let s1 = spec_space(s, p1);
            match spec_expr(s, s1.1, depth) {
                Err(e) => Err(e),
                Ok((arg, p2)) => {
                    let s2 = spec_space(s, p2);
                    match spec_just(s, s2.1, ')') {
                        Err(e) => Err(e),
                        Ok(end) => Ok(
                            (
                                SuffixView::CallArg {
                                    s0: s0.0,
                                    s1: s1.0,
                                    arg: Box::new(arg),
                                    s2: s2.0,
                                },
                                end,
                            ),
                        ),
                    }
                },
            }
        },
    }
}

/// `s0 ( s1 )`
#[verifier::opaque]
pub open spec fn spec_suffix_call_no_arg(s: Seq<char>, pos: int) -> Parsed<SuffixView> {
    let s0 = spec_space(s, pos);
    match spec_just(s, s0.1, '(') {
        Err(e) => Err(e),
        Ok(p1) => {
            let s1 = spec_space(s, p1);
            match spec_just(s, s1.1, ')') {
                Err(e) => Err(e),
                Ok(end) => Ok((SuffixView::CallNoArg { s0: s0.0, s1: s1.0 }, end)),
            }
        },
    }
}

/// `s0 constr`
pub open spec fn spec_suffix_call_constr(s: Seq<char>, pos: int, depth: nat) -> Parsed<SuffixView>
    decreases depth, 36int, 0int,
{
    let s0 = spec_space(s, pos);
    match spec_table_constr(s, s0.1, depth) {
        Err(e) => Err(e),
        Ok((constr, end)) => Ok((SuffixView::CallConstr { s0: s0.0, constr }, end)),
    }
}

/// `s0 [ s1 index s2 ]`
pub open spec fn spec_suffix_field_access(s: Seq<char>, pos: int, depth: nat) -> Parsed<
    SuffixView,
>
    decreases depth, 35int, 0int,
{
    let s0 = spec_space(s, pos);
    match spec_just(s, s0.1, '[') {
        Err(e) => Err(e),
        Ok(p1) => {
            let s1 = spec_space(s, p1);
            match spec_expr(s, s1.1, depth) {
                Err(e) => Err(e),
                Ok((index, p2)) => {
                    let s2 = spec_space(s, p2);
                    match spec_just(s, s2.1, ']') {
                        Err(e) => Err(e),
                        Ok(end) => Ok(
                            (
                                SuffixView::FieldAccess {
                                    s0: s0.0,
                                    s1: s1.0,
                                    index: Box::new(index),
                                    s2: s2.0,
                                },
                                end,
                            ),
                        ),
                    }
                },
            }
        },
    }
}

/// `s0 [ s1 index s2 ] s3 = s4 value`
pub open spec fn spec_suffix_field_assign(s: Seq<char>, pos: int, depth: nat) -> Parsed<
    SuffixView,
>
    decreases depth, 36int, 0int,
{
    match spec_suffix_field_access(s, pos, depth) {
        Err(e) => Err(e),
        Ok((access, p1)) => {
            let s3 = spec_space(s, p1);
            match spec_just(s, s3.1, '=') {
                Err(e) => Err(e),
                Ok(p2) => {
                    let s4 = spec_space(s, p2);
                    match spec_expr(s, s4.1, depth) {
                        Err(e) => Err(e),
                        Ok((value, end)) => match access {
                            SuffixView::FieldAccess { s0, s1, index, s2 } => Ok(
                                (
                                    SuffixView::FieldAssign {
                                        s0,
                                        s1,
                                        index,
                                        s2,
                                        s3: s3.0,
                                        s4: s4.0,
                                        value: Box::new(value),
                                    },
                                    end,
                                ),
                            ),
                            _ => Ok((access, end)),
                        },
                    }
                },
            }
        },
    }
}

/// `s0 . s1 ident`
#[verifier::opaque]
pub open spec fn spec_suffix_field_access_ident(s: Seq<char>, pos: int) -> Parsed<SuffixView> {
    let s0 = spec_space(s, pos);
    match spec_just(s, s0.1, '.') {
        Err(e) => Err(e),
        Ok(p1) => {
            let s1 = spec_space(s, p1);
            match spec_ident(s, s1.1) {
                Err(e) => Err(e),
                Ok((ident, end)) => Ok(
                    (SuffixView::FieldAccessIdent { s0: s0.0, s1: s1.0, ident }, end),
                ),
            }
        },
    }
}

/// `s0 . s1 ident s2 = s3 value`
pub open spec fn spec_suffix_field_assign_ident(s: Seq<char>, pos: int, depth: nat) -> Parsed<
    SuffixView,
>
    decreases depth, 36int, 0int,
{
    match spec_suffix_field_access_ident(s, pos) {
        Err(e) => Err(e),
        Ok((access, p1)) => {
            let s2 = spec_space(s, p1);
            match spec_just(s, s2.1, '=') {
                Err(e) => Err(e),
                Ok(p2) => {
                    let s3 = spec_space(s, p2);
                    match spec_expr(s, s3.1, depth) {
                        Err(e) => Err(e),
                        Ok((value, end)) => match access {
                            SuffixView::FieldAccessIdent { s0, s1, ident } => Ok(
                                (
                                    SuffixView::FieldAssignIdent {
                                        s0,
                                        s1,
                                        ident,
                                        s2: s2.0,
                                        s3: s3.0,
                                        value: Box::new(value),
                                    },
                                    end,
                                ),
                            ),
                            _ => Ok((access, end)),
                        },
                    }
                },
            }
        },
    }
}

/// A suffix: a call with an argument, a call without, a call with a table
/// constructor, a field assignment, a field access, and the two with a dot,
/// tried in this order.
pub open spec fn spec_suffix(s: Seq<char>, pos: int, depth: nat) -> Parsed<SuffixView>
    decreases depth, 37int, 0int,
{
    or_else(
        spec_suffix_call_arg(s, pos, depth),
        or_else(
            spec_suffix_call_no_arg(s, pos),
            or_else(
                spec_suffix_call_constr(s, pos, depth),
                or_else(
                    spec_suffix_field_assign(s, pos, depth),
                    or_else(
                        spec_suffix_field_access(s, pos, depth),
                        or_else(
                            spec_suffix_field_assign_ident(s, pos, depth),
                            spec_suffix_field_access_ident(s, pos),
                        ),
                    ),
                ),
            ),
        ),
    )
}

/// The suffixes behind the expression `base`, applied from left to right.
/// The span of each application runs from the start of the expression to
/// the end of the suffix.
pub open spec fn spec_suffixes(s: Seq<char>, pos: int, depth: nat, base: ExprView) -> Parsed<
    ExprView,
>
    decreases depth, 38int, s.len() - pos,
{
    match spec_suffix(s, pos, depth) {
        Err(e) => if e.is_fatal() {
            Err(e)
        } else {
            Ok((base, pos))
        },
        Ok((suffix, end)) => if pos < end <= s.len() {
            spec_suffixes(
                s,
                end,
                depth,
                suffix.into_expr(base.span().join_spec(Span::at(pos, end)), base),
            )
        } else {
            Ok((base, pos))
        },
    }
}

/// A suffixed expression: an atom and any number of suffixes.
pub open spec fn spec_suffixed(s: Seq<char>, pos: int, depth: nat) -> Parsed<ExprView>
    decreases depth, 39int, 0int,
{
    match spec_atom(s, pos, depth) {
        Err(e) => Err(e),
        Ok((base, end)) => spec_suffixes(s, end, depth, base),
    }
}

} // verus!

verus! {

impl Suffix {
    pub fn into_expr(self, span: Span, expr: Expr) -> (r: Expr)
        ensures
            r@ == self@.into_expr(span, expr@),
    {
        proof {
            reveal(SuffixView::into_expr);
        }
        let expr = Box::new(expr);
        match self {
            Self::CallArg { s0, s1, arg, s2 } => {
                let call = Call::Arg { expr, s0, s1, arg, s2, span };
                assert(call@ is Arg);
                call.expr()
            },
            Self::CallNoArg { s0, s1 } => {
                let call = Call::NoArg { expr, s0, s1, span };
                assert(call@ is NoArg);
                call.expr()
            },
            Self::CallConstr { s0, constr } => {
                let call = Call::Constr { expr, s0, constr, span };
                assert(call@ is Constr);
                call.expr()
            },
            Self::FieldAccess { s0, s1, index, s2 } => {
                let field = Field::Access { expr, s0, s1, index, s2, span };
                assert(field@ is Access);
                field.expr()
            },
            Self::FieldAssign { s0, s1, index, s2, s3, s4, value } => {
                let field = Field::Assign { expr, s0, s1, index, s2, s3, s4, value, span };
                assert(field@ is Assign);
                field.expr()
            },
            Self::FieldAccessIdent { s0, s1, ident } => {
                let field = Field::AccessIdent { expr, s0, s1, ident, span };
                assert(field@ is AccessIdent);
                field.expr()
            },
            Self::FieldAssignIdent { s0, s1, ident, s2, s3, value } => {
                let field = Field::AssignIdent { expr, s0, s1, ident, s2, s3, value, span };
                assert(field@ is AssignIdent);
                field.expr()
            },
        }
    }
}

/// Reads what [`spec_suffix_call_arg`] describes.
pub fn suffix_call_arg(src: &Vec<char>, pos: usize, depth: usize) -> (r: Result<
    (Suffix, usize),
    ParseError,
>)
    requires
        pos <= src.len(),
    ensures
        agrees(r, spec_suffix_call_arg(src@, pos as int, depth as nat)),
        r matches Ok((_, end)) ==> pos < end <= src.len(),
    decreases depth, 36int, 0int,
{
    let (s0, p1) = space(src, pos);
    let p2 = match just(src, p1, '(') {
        Ok(end) => end,
        Err(e) => {
            return Err(e);
        },
    };
    let (s1, p3) = space(src, p2);
    let (arg, p4) = match crate::parser::expr::expr(src, p3, depth) {
        Ok(found) => found,
        Err(e) => {
            return Err(e);
        },
    };
    let (s2, p5) = space(src, p4);
    match just(src, p5, ')') {
        Err(e) => Err(e),
        Ok(end) => Ok((Suffix::CallArg { s0, s1, arg: Box::new(arg), s2 }, end)),
    }
}

/// Reads what [`spec_suffix_call_no_arg`] describes.
pub fn suffix_call_no_arg(src: &Vec<char>, pos: usize) -> (r: Result<(Suffix, usize), ParseError>)
    requires
        pos <= src.len(),
    ensures
        agrees(r, spec_suffix_call_no_arg(src@, pos as int)),
        r matches Ok((_, end)) ==> pos < end <= src.len(),
{
    proof {
        reveal(spec_suffix_call_no_arg);
    }
    let (s0, p1) = space(src, pos);
    let p2 = match just(src, p1, '(') {
        Ok(end) => end,
        Err(e) => {
            return Err(e);
        },
    };
    let (s1, p3) = space(src, p2);
    match just(src, p3, ')') {
        Err(e) => Err(e),
        Ok(end) => Ok((Suffix::CallNoArg { s0, s1 }, end)),
    }
}

/// Reads what [`spec_suffix_call_constr`] describes.
pub fn suffix_call_constr(src: &Vec<char>, pos: usize, depth: usize) -> (r: Result<
    (Suffix, usize),
    ParseError,
>)
    requires
        pos <= src.len(),
    ensures
        agrees(r, spec_suffix_call_constr(src@, pos as int, depth as nat)),
        r matches Ok((_, end)) ==> pos < end <= src.len(),
    decreases depth, 36int, 0int,
{
    let (s0, p1) = space(src, pos);
    match crate::parser::table_constr::table_constr(src, p1, depth) {
        Err(e) => Err(e),
        Ok((constr, end)) => Ok((Suffix::CallConstr { s0, constr }, end)),
    }
}

/// Reads what [`spec_suffix_field_access`] describes.
pub fn suffix_field_access(src: &Vec<char>, pos: usize, depth: usize) -> (r: Result<
    (Suffix, usize),
    ParseError,
>)
    requires
        pos <= src.len(),
    ensures
        agrees(r, spec_suffix_field_access(src@, pos as int, depth as nat)),
        r matches Ok((_, end)) ==> pos < end <= src.len(),
        r matches Ok((suffix, _)) ==> suffix is FieldAccess,
    decreases depth, 35int, 0int,
{
    let (s0, p1) = space(src, pos);
    let p2 = match just(src, p1, '[') {
        Ok(end) => end,
        Err(e) => {
            return Err(e);
        },
    };
    let (s1, p3) = space(src, p2);
    let (index, p4) = match crate::parser::expr::expr(src, p3, depth) {
        Ok(found) => found,
        Err(e) => {
            return Err(e);
        },
    };
    let (s2, p5) = space(src, p4);
    match just(src, p5, ']') {
        Err(e) => Err(e),
        Ok(end) => Ok((Suffix::FieldAccess { s0, s1, index: Box::new(index), s2 }, end)),
    }
}

/// Reads what [`spec_suffix_field_assign`] describes.
pub fn suffix_field_assign(src: &Vec<char>, pos: usize, depth: usize) -> (r: Result<
    (Suffix, usize),
    ParseError,
>)
    requires
        pos <= src.len(),
    ensures
        agrees(r, spec_suffix_field_assign(src@, pos as int, depth as nat)),
        r matches Ok((_, end)) ==> pos < end <= src.len(),
    decreases depth, 36int, 0int,
{
    let (access, p1) = match suffix_field_access(src, pos, depth) {
        Ok(found) => found,
        Err(e) => {
            return Err(e);
        },
    };
    let (s3, p2) = space(src, p1);
    let p3 = match just(src, p2, '=') {
        Ok(end) => end,
        Err(e) => {
            return Err(e);
        },
    };
    let (s4, p4) = space(src, p3);
    let (value, end) = match crate::parser::expr::expr(src, p4, depth) {
        Ok(found) => found,
        Err(e) => {
            return Err(e);
        },
    };
    match access {
        Suffix::FieldAccess { s0, s1, index, s2 } => Ok(
            (Suffix::FieldAssign { s0, s1, index, s2, s3, s4, value: Box::new(value) }, end),
        ),
        other => Ok((other, end)),
    }
}

/// Reads what [`spec_suffix_field_access_ident`] describes.
pub fn suffix_field_access_ident(src: &Vec<char>, pos: usize) -> (r: Result<
    (Suffix, usize),
    ParseError,
>)
    requires
        pos <= src.len(),
    ensures
        agrees(r, spec_suffix_field_access_ident(src@, pos as int)),
        r matches Ok((_, end)) ==> pos < end <= src.len(),
{
    proof {
        reveal(spec_suffix_field_access_ident);
    }
    let (s0, p1) = space(src, pos);
    let p2 = match just(src, p1, '.') {
        Ok(end) => end,
        Err(e) => {
            return Err(e);
        },
    };
    let (s1, p3) = space(src, p2);
    match ident(src, p3) {
        Err(e) => Err(e),
        Ok((ident, end)) => Ok((Suffix::FieldAccessIdent { s0, s1, ident }, end)),
    }
}

/// Reads what [`spec_suffix_field_assign_ident`] describes.
pub fn suffix_field_assign_ident(src: &Vec<char>, pos: usize, depth: usize) -> (r: Result<
    (Suffix, usize),
    ParseError,
>)
    requires
        pos <= src.len(),
    ensures
        agrees(r, spec_suffix_field_assign_ident(src@, pos as int, depth as nat)),
        r matches Ok((_, end)) ==> pos < end <= src.len(),
    decreases depth, 36int, 0int,
{
    let (access, p1) = match suffix_field_access_ident(src, pos) {
        Ok(found) => found,
        Err(e) => {
            return Err(e);
        },
    };
    let (s2, p2) = space(src, p1);
    let p3 = match just(src, p2, '=') {
        Ok(end) => end,
        Err(e) => {
            return Err(e);
        },
    };
    let (s3, p4) = space(src, p3);
    let (value, end) = match crate::parser::expr::expr(src, p4, depth) {
        Ok(found) => found,
        Err(e) => {
            return Err(e);
        },
    };
    match access {
        Suffix::FieldAccessIdent { s0, s1, ident } => Ok(
            (Suffix::FieldAssignIdent { s0, s1, ident, s2, s3, value: Box::new(value) }, end),
        ),
        other => Ok((other, end)),
    }
}

/// Reads what [`spec_suffix`] describes.
pub fn suffix(src: &Vec<char>, pos: usize, depth: usize) -> (r: Result<(Suffix, usize), ParseError>)
    requires
        pos <= src.len(),
    ensures
        agrees(r, spec_suffix(src@, pos as int, depth as nat)),
        r matches Ok((_, end)) ==> pos < end <= src.len(),
    decreases depth, 37int, 0int,
{
    let e1 = match suffix_call_arg(src, pos, depth) {
        Ok(found) => {
            return Ok(found);
        },
        Err(e) => e,
    };
    if e1.fatal() {
        return Err(e1);
    }
    let e2 = match suffix_call_no_arg(src, pos) {
        Ok(found) => {
            return Ok(found);
        },
        Err(e) => e,
    };
    if e2.fatal() {
        return Err(e2);
    }
    let e3 = match suffix_call_constr(src, pos, depth) {
        Ok(found) => {
            return Ok(found);
        },
        Err(e) => e,
    };
    if e3.fatal() {
        return Err(e3);
    }
    let e4 = match suffix_field_assign(src, pos, depth) {
        Ok(found) => {
            return Ok(found);
        },
        Err(e) => e,
    };
    if e4.fatal() {
        return Err(e4);
    }
    let e5 = match suffix_field_access(src, pos, depth) {
        Ok(found) => {
            return Ok(found);
        },
        Err(e) => e,
    };
    if e5.fatal() {
        return Err(e5);
    }
    let e6 = match suffix_field_assign_ident(src, pos, depth) {
        Ok(found) => {
            return Ok(found);
        },
        Err(e) => e,
    };
    if e6.fatal() {
        return Err(e6);
    }
    match suffix_field_access_ident(src, pos) {
        Ok(found) => Ok(found),
        Err(e7) => Err(e1.merge(e2.merge(e3.merge(e4.merge(e5.merge(e6.merge(e7))))))),
    }
}

/// Reads what [`spec_suffixed`] describes.
pub fn suffixed(src: &Vec<char>, pos: usize, depth: usize) -> (r: Result<
    (Expr, usize),
    ParseError,
>)
    requires
        pos <= src.len(),
    ensures
        agrees(r, spec_suffixed(src@, pos as int, depth as nat)),
        r matches Ok((_, end)) ==> pos < end <= src.len(),
    decreases depth, 39int, 0int,
{
    let (atom, start) = match crate::parser::expr::atom(src, pos, depth) {
        Ok(found) => found,
        Err(e) => {
            return Err(e);
        },
    };
    let ghost atom_view = atom@;
    let ghost whole = spec_suffixes(src@, start as int, depth as nat, atom_view);
    let mut base = atom;
    let mut cur = start;
    let mut done = false;
    while !done
        invariant
            pos < start <= cur <= src.len(),
            spec_atom(src@, pos as int, depth as nat) == Ok::<(ExprView, int), ParseError>(
                (atom_view, start as int),
            ),
            whole == spec_suffixes(src@, start as int, depth as nat, atom_view),
            !done ==> whole == spec_suffixes(src@, cur as int, depth as nat, base@),
            done ==> whole == Ok::<(ExprView, int), ParseError>((base@, cur as int)),
        decreases src.len() - cur, if done { 0int } else { 1int },
    {
        match suffix(src, cur, depth) {
            Err(e) => {
                if e.fatal() {
                    return Err(e);
                }
                done = true;
            },
            Ok((suffix, end)) => {
                let span = base.span().join(Span::new(cur, end));
                base = suffix.into_expr(span, base);
                cur = end;
            },
        }
    }
    Ok((base, cur))
}

} // verus!
