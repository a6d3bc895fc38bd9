//! Negation and logical not.

use vstd::prelude::*;

use crate::ast::basic::{Space, SpaceView};
use crate::ast::expr::{Expr, ExprView};
use crate::parser::basic::{just, keyword, space, spec_just, spec_keyword, spec_space};
use crate::parser::error::{agrees, or_else, ParseError, Parsed};
use crate::parser::suffix::spec_suffixed;
use crate::span::{HasSpan, Span};

verus! {

/// A prefix operator with the trivia behind it.
pub enum Prefix {
    /// See [`Expr::Neg`].
    Neg { minus: Span, s0: Space },
    /// See [`Expr::Not`].
    Not { not: Span, s0: Space },
}

/// The model of a [`Prefix`].
pub enum PrefixView {
    Neg { minus: Span, s0: SpaceView },
    Not { not: Span, s0: SpaceView },
}

impl View for Prefix {
    type V = PrefixView;

    open spec fn view(&self) -> PrefixView {
        match self {
            Prefix::Neg { minus, s0 } => PrefixView::Neg { minus: *minus, s0: s0@ },
            Prefix::Not { not, s0 } => PrefixView::Not { not: *not, s0: s0@ },
        }
    }
}

impl PrefixView {
    /// The expression `expr` with the prefix before it.
    pub open spec fn into_expr(self, span: Span, expr: ExprView) -> ExprView {
        match self {
            PrefixView::Neg { minus, s0 } => ExprView::Neg { minus, s0, expr: Box::new(expr), span },
            PrefixView::Not { not, s0 } => ExprView::Not { not, s0, expr: Box::new(expr), span },
        }
    }
}

/// `-` and the trivia behind it.
#[verifier::opaque]
pub open spec fn spec_prefix_neg(s: Seq<char>, pos: int) -> Parsed<PrefixView> {
    match spec_just(s, pos, '-') {
        Err(e) => Err(e),
        Ok(p1) => {
            let s0 = spec_space(s, p1);
            Ok((PrefixView::Neg { minus: Span::at(pos, p1), s0: s0.0 }, s0.1))
        },
    }
}

/// `not` and the trivia behind it.
#[verifier::opaque]
pub open spec fn spec_prefix_not(s: Seq<char>, pos: int) -> Parsed<PrefixView> {
    match spec_keyword(s, pos, "not"@) {
        Err(e) => Err(e),
        Ok(p1) => {
            let s0 = spec_space(s, p1);
            Ok((PrefixView::Not { not: Span::at(pos, p1), s0: s0.0 }, s0.1))
        },
    }
}

/// A prefix operator.
#[verifier::opaque]
pub open spec fn spec_prefix(s: Seq<char>, pos: int) -> Parsed<PrefixView> {
    or_else(spec_prefix_neg(s, pos), spec_prefix_not(s, pos))
}

/// A prefixed expression: any number of prefix operators before a suffixed
/// expression. The operators apply from right to left, and the span of
/// each application runs from its operator to the end of the expression.
pub open spec fn spec_prefixed(s: Seq<char>, pos: int, depth: nat) -> Parsed<ExprView>
    decreases depth, 40int, s.len() - pos,
{
    match spec_prefix(s, pos) {
        Err(_) => spec_suffixed(s, pos, depth),
        Ok((prefix, p1)) => if pos < p1 <= s.len() {
            match spec_prefixed(s, p1, depth) {
                Err(e) => Err(e),
                Ok((expr, end)) => Ok(
                    (prefix.into_expr(expr.span().join_spec(Span::at(pos, p1)), expr), end),
                ),
            }
        } else {
            spec_suffixed(s, pos, depth)
        },
    }
}

} // verus!

verus! {

impl Prefix {
    pub fn into_expr(self, span: Span, expr: Expr) -> (r: Expr)
        ensures
            r@ == self@.into_expr(span, expr@),
    {
        let expr = Box::new(expr);
        let r = match self {
            Self::Neg { minus, s0 } => Expr::Neg { minus, s0, expr, span },
            Self::Not { not, s0 } => Expr::Not { not, s0, expr, span },
        };
        assert(r@ is Neg || r@ is Not);
        r
    }
}

/// Reads what [`spec_prefix_neg`] describes.
pub fn prefix_neg(src: &Vec<char>, pos: usize) -> (r: Result<(Prefix, usize), ParseError>)
    requires
        pos <= src.len(),
    ensures
        agrees(r, spec_prefix_neg(src@, pos as int)),
        r matches Ok((_, end)) ==> pos < end <= src.len(),
{
    proof {
        reveal(spec_prefix_neg);
    }
    match just(src, pos, '-') {
        Err(e) => Err(e),
        Ok(p1) => {
            let (s0, end) = space(src, p1);
            Ok((Prefix::Neg { minus: Span::new(pos, p1), s0 }, end))
        },
    }
}

/// Reads what [`spec_prefix_not`] describes.
pub fn prefix_not(src: &Vec<char>, pos: usize) -> (r: Result<(Prefix, usize), ParseError>)
    requires
        pos <= src.len(),
    ensures
        agrees(r, spec_prefix_not(src@, pos as int)),
        r matches Ok((_, end)) ==> pos < end <= src.len(),
{
    proof {
        reveal(spec_prefix_not);
    }
    match keyword(src, pos, "not") {
        Err(e) => Err(e),
        Ok(p1) => {
            let (s0, end) = space(src, p1);
            Ok((Prefix::Not { not: Span::new(pos, p1), s0 }, end))
        },
    }
}

/// Reads what [`spec_prefix`] describes.
pub fn prefix(src: &Vec<char>, pos: usize) -> (r: Result<(Prefix, usize), ParseError>)
    requires
        pos <= src.len(),
    ensures
        agrees(r, spec_prefix(src@, pos as int)),
        r matches Ok((_, end)) ==> pos < end <= src.len(),
{
    proof {
        reveal(spec_prefix);
    }
    let e1 = match prefix_neg(src, pos) {
        Ok(found) => {
            return Ok(found);
        },
        Err(e) => e,
    };
    if e1.fatal() {
        return Err(e1);
    }
    match prefix_not(src, pos) {
        Ok(found) => Ok(found),
        Err(e2) => Err(e1.merge(e2)),
    }
}

/// Reads what [`spec_prefixed`] describes.
pub fn prefixed(src: &Vec<char>, pos: usize, depth: usize) -> (r: Result<
    (Expr, usize),
    ParseError,
>)
    requires
        pos <= src.len(),
    ensures
        agrees(r, spec_prefixed(src@, pos as int, depth as nat)),
        r matches Ok((_, end)) ==> pos < end <= src.len(),
    decreases depth, 40int, src.len() - pos,
{
    match prefix(src, pos) {
        Err(_) => crate::parser::suffix::suffixed(src, pos, depth),
        Ok((prefix, p1)) => match prefixed(src, p1, depth) {
            Err(e) => Err(e),
            Ok((expr, end)) => {
                let span = expr.span().join(Span::new(pos, p1));
                Ok((prefix.into_expr(span, expr), end))
            },
        },
    }
}

} // verus!
