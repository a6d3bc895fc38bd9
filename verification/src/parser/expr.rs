//! Expressions: atoms, and operators by precedence.

use vstd::prelude::*;

use crate::ast::basic::{Space, SpaceView};
use crate::ast::expr::{BinOp, Expr, ExprView};
use crate::ast::func_def::FuncDefView;
use crate::ast::lit::LitView;
use crate::ast::table_constr::TableConstrView;
use crate::ast::table_destr::TableDestrView;
use crate::ast::var::VarView;
use crate::parser::basic::{just, keyword, space, spec_just, spec_keyword, spec_space};
use crate::parser::error::{
    agrees, agrees_plain, map_ok, or_else, unexpected, unexpected_at, ErrorKind, ParseError, Parsed,
};
use crate::parser::func_def::spec_func_def;
use crate::parser::lit::spec_lit;
use crate::parser::prefix::spec_prefixed;
use crate::parser::table_constr::spec_table_constr;
use crate::parser::table_destr::spec_table_destr;
use crate::parser::var::spec_var;
use crate::span::{HasSpan, Span};

verus! {

/// A parenthesized expression: `( s0 inner s1 )`.
pub open spec fn spec_atom_paren(s: Seq<char>, pos: int, depth: nat) -> Parsed<ExprView>
    decreases depth, 30int, 0int,
{
    match spec_just(s, pos, '(') {
        Err(e) => Err(e),
        Ok(p1) => {
            let s0 = spec_space(s, p1);
            match spec_expr(s, s0.1, depth) {
                Err(e) => Err(e),
                Ok((inner, p2)) => {
                    let s1 = spec_space(s, p2);
                    match spec_just(s, s1.1, ')') {
                        Err(e) => Err(e),
                        Ok(end) => Ok(
                            (
                                ExprView::Paren {
                                    s0: s0.0,
                                    inner: Box::new(inner),
                                    s1: s1.0,
                                    span: Span::at(pos, end),
                                },
                                end,
                            ),
                        ),
                    }
                },
            }
        },
    }
}

/// An atom: a literal, a parenthesized expression, a table destructuring,
/// a table constructor, a function definition or a variable, tried in this
/// order.
pub open spec fn spec_atom(s: Seq<char>, pos: int, depth: nat) -> Parsed<ExprView>
    decreases depth, 35int, 0int,
{
    or_else(
        map_ok(spec_lit(s, pos, depth), |lit: LitView| ExprView::Lit(lit)),
        or_else(
            spec_atom_paren(s, pos, depth),
            or_else(
                map_ok(
                    spec_table_destr(s, pos, depth),
                    |destr: TableDestrView| ExprView::TableDestr(destr),
                ),
                or_else(
                    map_ok(
                        spec_table_constr(s, pos, depth),
                        |constr: TableConstrView| ExprView::TableConstr(constr),
                    ),
                    or_else(
                        map_ok(
                            spec_func_def(s, pos, depth),
                            |def: FuncDefView| ExprView::FuncDef(def),
                        ),
                        map_ok(spec_var(s, pos, depth), |var: VarView| ExprView::Var(var)),
                    ),
                ),
            ),
        ),
    )
}

/// The operators of a precedence level, from 0 for `or` to 4 for `*`, `/`
/// and `%`. Of two operators that start alike, the longer is tried first.
#[verifier::opaque]
pub open spec fn spec_operator(s: Seq<char>, pos: int, level: nat) -> Parsed<BinOp> {
    let two = 0 <= pos && pos + 1 < s.len();
    if level == 0 {
        match spec_keyword(s, pos, "or"@) {
            Ok(end) => Ok((BinOp::Or, end)),
            Err(e) => Err(e),
        }
    } else if level == 1 {
        match spec_keyword(s, pos, "and"@) {
            Ok(end) => Ok((BinOp::And, end)),
            Err(e) => Err(e),
        }
    } else if !(0 <= pos < s.len()) {
        Err(unexpected(s, pos))
    } else if level == 2 {
        if two && s[pos] == '=' && s[pos + 1] == '=' {
            Ok((BinOp::Eq, pos + 2))
        } else if two && s[pos] == '!' && s[pos + 1] == '=' {
            Ok((BinOp::Neq, pos + 2))
        } else if two && s[pos] == '>' && s[pos + 1] == '=' {
            Ok((BinOp::Ge, pos + 2))
        } else if s[pos] == '>' {
            Ok((BinOp::Gt, pos + 1))
        } else if two && s[pos] == '<' && s[pos + 1] == '=' {
            Ok((BinOp::Le, pos + 2))
        } else if s[pos] == '<' {
            Ok((BinOp::Lt, pos + 1))
        } else {
            Err(unexpected(s, pos))
        }
    } else if level == 3 {
        if s[pos] == '+' {
            Ok((BinOp::Add, pos + 1))
        } else if s[pos] == '-' {
            Ok((BinOp::Sub, pos + 1))
        } else {
            Err(unexpected(s, pos))
        }
    } else if level == 4 {
        if s[pos] == '*' {
            Ok((BinOp::Mul, pos + 1))
        } else if s[pos] == '/' {
            Ok((BinOp::Div, pos + 1))
        } else if s[pos] == '%' {
            Ok((BinOp::Mod, pos + 1))
        } else {
            Err(unexpected(s, pos))
        }
    } else {
        Err(unexpected(s, pos))
    }
}

/// An operator of a precedence level between the trivia around it.
#[verifier::opaque]
pub open spec fn spec_op(s: Seq<char>, pos: int, level: nat) -> Parsed<
    (SpaceView, BinOp, SpaceView),
> {
    let s0 = spec_space(s, pos);
    match spec_operator(s, s0.1, level) {
        Err(e) => Err(e),
        Ok((op, p1)) => {
            let s1 = spec_space(s, p1);
            Ok(((s0.0, op, s1.0), s1.1))
        },
    }
}

/// The application of an operator. Its span covers both operands.
pub open spec fn bin_op(left: ExprView, op: (SpaceView, BinOp, SpaceView), right: ExprView)
    -> ExprView {
    ExprView::BinOp {
        left: Box::new(left),
        s0: op.0,
        op: op.1,
        s1: op.2,
        right: Box::new(right),
        span: left.span().join_spec(right.span()),
    }
}

/// The rank of a precedence level among the rules of the grammar.
pub open spec fn level_rank(level: nat) -> int {
    if level < 5 {
        60 - 3 * level
    } else {
        45
    }
}

/// What follows the left operand `left` in a chain of operators of a level
/// that groups to the left: operators of the level, each with an operand of
/// the next level behind it, for as long as the source holds them.
pub open spec fn spec_left_assoc(
    s: Seq<char>,
    pos: int,
    depth: nat,
    level: nat,
    left: ExprView,
) -> Parsed<ExprView>
    decreases depth, level_rank(level) - 1, s.len() - pos,
{
    if level >= 5 {
        Ok((left, pos))
    } else {
        match spec_op(s, pos, level) {
            Err(_) => Ok((left, pos)),
            Ok((op, p1)) => match spec_binary(s, p1, depth, level + 1) {
                Err(e) => if e.is_fatal() {
                    Err(e)
                } else {
                    Ok((left, pos))
                },
                Ok((right, end)) => if pos < end <= s.len() {
                    spec_left_assoc(s, end, depth, level, bin_op(left, op, right))
                } else {
                    Ok((left, pos))
                },
            },
        }
    }
}

/// An expression of a precedence level: operands of the next level with
/// operators of the level between them. The levels of `or` and `and` group
/// to the right, the others to the left. Behind the last level stand the
/// prefixed expressions.
pub open spec fn spec_binary(s: Seq<char>, pos: int, depth: nat, level: nat) -> Parsed<ExprView>
    decreases depth, level_rank(level), s.len() - pos,
{
    if level >= 5 {
        spec_prefixed(s, pos, depth)
    } else {
        match spec_binary(s, pos, depth, level + 1) {
            Err(e) => Err(e),
            Ok((left, p1)) => if level >= 2 {
                spec_left_assoc(s, p1, depth, level, left)
            } else {
                match spec_op(s, p1, level) {
                    Err(_) => Ok((left, p1)),
                    Ok((op, p2)) => if pos < p2 <= s.len() {
                        match spec_binary(s, p2, depth, level) {
                            Err(e) => Err(e),
                            Ok((right, end)) => Ok((bin_op(left, op, right), end)),
                        }
                    } else {
                        Ok((left, p1))
                    },
                }
            },
        }
    }
}

/// An expression. `depth` bounds how deeply expressions may be nested in
/// one another from here on: with no depth left, the error is `TooDeep`.
pub open spec fn spec_expr(s: Seq<char>, pos: int, depth: nat) -> Parsed<ExprView>
    decreases depth, 0int, 0int,
{
    if depth == 0 {
        Err(ParseError { span: Span::at(pos, pos), kind: ErrorKind::TooDeep })
    } else {
        spec_binary(s, pos, (depth - 1) as nat, 0)
    }
}

} // verus!

verus! {

/// Reads what [`spec_atom_paren`] describes.
pub fn atom_paren(src: &Vec<char>, pos: usize, depth: usize) -> (r: Result<
    (Expr, usize),
    ParseError,
>)
    requires
        pos <= src.len(),
    ensures
        agrees(r, spec_atom_paren(src@, pos as int, depth as nat)),
        r matches Ok((_, end)) ==> pos < end <= src.len(),
    decreases depth, 30int, 0int,
{
    let p1 = match just(src, pos, '(') {
        Ok(end) => end,
        Err(e) => {
            return Err(e);
        },
    };
    let (s0, p2) = space(src, p1);
    let (inner, p3) = match expr(src, p2, depth) {
        Ok(found) => found,
        Err(e) => {
            return Err(e);
        },
    };
    let (s1, p4) = space(src, p3);
    let end = match just(src, p4, ')') {
        Ok(end) => end,
        Err(e) => {
            return Err(e);
        },
    };
    let paren = Expr::Paren { s0, inner: Box::new(inner), s1, span: Span::new(pos, end) };
    assert(paren@ is Paren);
    Ok((paren, end))
}

/// Reads what [`spec_atom`] describes.
pub fn atom(src: &Vec<char>, pos: usize, depth: usize) -> (r: Result<(Expr, usize), ParseError>)
    requires
        pos <= src.len(),
    ensures
        agrees(r, spec_atom(src@, pos as int, depth as nat)),
        r matches Ok((_, end)) ==> pos < end <= src.len(),
    decreases depth, 35int, 0int,
{
    let e1 = match crate::parser::lit::lit(src, pos, depth) {
        Ok((lit, end)) => {
            return Ok((lit.expr(), end));
        },
        Err(e) => e,
    };
    if e1.fatal() {
        return Err(e1);
    }
    let e2 = match atom_paren(src, pos, depth) {
        Ok(found) => {
            return Ok(found);
        },
        Err(e) => e,
    };
    if e2.fatal() {
        return Err(e2);
    }
    let e3 = match crate::parser::table_destr::table_destr(src, pos, depth) {
        Ok((destr, end)) => {
            return Ok((destr.expr(), end));
        },
        Err(e) => e,
    };
    if e3.fatal() {
        return Err(e3);
    }
    let e4 = match crate::parser::table_constr::table_constr(src, pos, depth) {
        Ok((constr, end)) => {
            return Ok((constr.expr(), end));
        },
        Err(e) => e,
    };
    if e4.fatal() {
        return Err(e4);
    }
    let e5 = match crate::parser::func_def::func_def(src, pos, depth) {
        Ok((def, end)) => {
            let expr = Expr::FuncDef(def);
            assert(expr@ is FuncDef);
            return Ok((expr, end));
        },
        Err(e) => e,
    };
    if e5.fatal() {
        return Err(e5);
    }
    match crate::parser::var::var(src, pos, depth) {
        Ok((var, end)) => Ok((var.expr(), end)),
        Err(e6) => Err(e1.merge(e2.merge(e3.merge(e4.merge(e5.merge(e6)))))),
    }
}

/// Reads what [`spec_operator`] describes.
pub fn operator(src: &Vec<char>, pos: usize, level: usize) -> (r: Result<
    (BinOp, usize),
    ParseError,
>)
    requires
        pos <= src.len(),
    ensures
        agrees_plain(r, spec_operator(src@, pos as int, level as nat)),
        r matches Ok((_, end)) ==> pos < end <= src.len(),
{
    proof {
        reveal(spec_operator);
    }
    if level == 0 {
        return match keyword(src, pos, "or") {
            Ok(end) => Ok((BinOp::Or, end)),
            Err(e) => Err(e),
        };
    }
    if level == 1 {
        return match keyword(src, pos, "and") {
            Ok(end) => Ok((BinOp::And, end)),
            Err(e) => Err(e),
        };
    }
    if pos >= src.len() {
        return Err(unexpected_at(src, pos));
    }
    let c = crate::parser::basic::char_at(src, pos);
    let equals = crate::parser::basic::at(src, pos + 1, '=');
    if level == 2 {
        if c == '=' && equals {
            Ok((BinOp::Eq, pos + 2))
        } else if c == '!' && equals {
            Ok((BinOp::Neq, pos + 2))
        } else if c == '>' && equals {
            Ok((BinOp::Ge, pos + 2))
        } else if c == '>' {
            Ok((BinOp::Gt, pos + 1))
        } else if c == '<' && equals {
            Ok((BinOp::Le, pos + 2))
        } else if c == '<' {
            Ok((BinOp::Lt, pos + 1))
        } else {
            Err(unexpected_at(src, pos))
        }
    } else if level == 3 {
        if c == '+' {
            Ok((BinOp::Add, pos + 1))
        } else if c == '-' {
            Ok((BinOp::Sub, pos + 1))
        } else {
            Err(unexpected_at(src, pos))
        }
    } else if level == 4 {
        if c == '*' {
            Ok((BinOp::Mul, pos + 1))
        } else if c == '/' {
            Ok((BinOp::Div, pos + 1))
        } else if c == '%' {
            Ok((BinOp::Mod, pos + 1))
        } else {
            Err(unexpected_at(src, pos))
        }
    } else {
        Err(unexpected_at(src, pos))
    }
}

/// The model of an operator between the trivia around it.
pub open spec fn op_view(op: (Space, BinOp, Space)) -> (SpaceView, BinOp, SpaceView) {
    (op.0@, op.1, op.2@)
}

/// Reads what [`spec_op`] describes.
pub fn op(src: &Vec<char>, pos: usize, level: usize) -> (r: Result<
    ((Space, BinOp, Space), usize),
    ParseError,
>)
    requires
        pos <= src.len(),
    ensures
        match r {
            Ok((op, end)) => spec_op(src@, pos as int, level as nat) == Ok::<
                ((SpaceView, BinOp, SpaceView), int),
                ParseError,
            >((op_view(op), end as int)) && pos < end <= src.len(),
            Err(e) => spec_op(src@, pos as int, level as nat) == Err::<
                ((SpaceView, BinOp, SpaceView), int),
                ParseError,
            >(e),
        },
{
    proof {
        reveal(spec_op);
    }
    let (s0, p1) = space(src, pos);
    match operator(src, p1, level) {
        Err(e) => Err(e),
        Ok((op, p2)) => {
            let (s1, end) = space(src, p2);
            Ok(((s0, op, s1), end))
        },
    }
}

/// The application of an operator. Its span covers both operands.
pub fn apply(left: Expr, op: (Space, BinOp, Space), right: Expr) -> (expr: Expr)
    ensures
        expr@ == bin_op(left@, op_view(op), right@),
{
    let span = left.span().join(right.span());
    let expr = Expr::BinOp {
        left: Box::new(left),
        s0: op.0,
        op: op.1,
        s1: op.2,
        right: Box::new(right),
        span,
    };
    assert(expr@ is BinOp);
    expr
}

/// Reads what [`spec_binary`] describes.
pub fn binary(src: &Vec<char>, pos: usize, depth: usize, level: usize) -> (r: Result<
    (Expr, usize),
    ParseError,
>)
    requires
        pos <= src.len(),
    ensures
        agrees(r, spec_binary(src@, pos as int, depth as nat, level as nat)),
        r matches Ok((_, end)) ==> pos < end <= src.len(),
    decreases depth, level_rank(level as nat), src.len() - pos,
{
    if level >= 5 {
        return crate::parser::prefix::prefixed(src, pos, depth);
    }
    let (first, p1) = match binary(src, pos, depth, level + 1) {
        Ok(found) => found,
        Err(e) => {
            return Err(e);
        },
    };
    if level >= 2 {
        let ghost first_view = first@;
        let ghost whole = spec_left_assoc(src@, p1 as int, depth as nat, level as nat, first_view);
        let mut left = first;
        let mut cur = p1;
        let mut done = false;
        while !done
            invariant
                pos < p1 <= cur <= src.len(),
                2 <= level < 5,
                spec_binary(src@, pos as int, depth as nat, (level + 1) as nat) == Ok::<
                    (ExprView, int),
                    ParseError,
                >((first_view, p1 as int)),
                whole == spec_left_assoc(
                    src@,
                    p1 as int,
                    depth as nat,
                    level as nat,
                    first_view,
                ),
                !done ==> whole == spec_left_assoc(
                    src@,
                    cur as int,
                    depth as nat,
                    level as nat,
                    left@,
                ),
                done ==> whole == Ok::<(ExprView, int), ParseError>((left@, cur as int)),
            decreases src.len() - cur, if done { 0int } else { 1int },
        {
            match op(src, cur, level) {
                Err(_) => {
                    done = true;
                },
                Ok((op, p2)) => match binary(src, p2, depth, level + 1) {
                    Err(e) => {
                        if e.fatal() {
                            return Err(e);
                        }
                        done = true;
                    },
                    Ok((right, end)) => {
                        left = apply(left, op, right);
                        cur = end;
                    },
                },
            }
        }
        Ok((left, cur))
    } else {
        match op(src, p1, level) {
            Err(_) => Ok((first, p1)),
            Ok((op, p2)) => match binary(src, p2, depth, level) {
                Err(e) => Err(e),
                Ok((right, end)) => Ok((apply(first, op, right), end)),
            },
        }
    }
}

/// Reads what [`spec_expr`] describes.
pub fn expr(src: &Vec<char>, pos: usize, depth: usize) -> (r: Result<(Expr, usize), ParseError>)
    requires
        pos <= src.len(),
    ensures
        agrees(r, spec_expr(src@, pos as int, depth as nat)),
        r matches Ok((_, end)) ==> pos < end <= src.len(),
    decreases depth, 0int, 0int,
{
    if depth == 0 {
        Err(ParseError { span: Span::new(pos, pos), kind: ErrorKind::TooDeep })
    } else {
        binary(src, pos, depth - 1, 0)
    }
}

} // verus!

verus! {

/// The grammar and the table of operators agree: the operators that the
/// grammar reads at a level are those of that precedence, and the two
/// lowest levels, which the grammar groups to the right, hold the
/// operators that group to the right.
pub proof fn lemma_operator_level(s: Seq<char>, pos: int, level: nat)
    ensures
        spec_operator(s, pos, level) matches Ok((op, _)) ==> op.precedence_spec() == level && (
        op.assoc_spec() == crate::ast::expr::Assoc::Right <==> level < 2),
{
    reveal(spec_operator);
}

} // verus!
