use vstd::prelude::*;

use crate::ast::basic::{Space, SpaceView};
use crate::ast::expr::{Expr, ExprView};
use crate::ast::lit::{Lit, LitView, TableLitView};
use crate::ast::program::{Program, ProgramView};

verus! {

impl ProgramView {
    /// One step of desugaring: a module becomes the table literal of its
    /// entries, and any other program takes a step of its expression.
    pub open spec fn desugar(self) -> (ProgramView, bool) {
        match self {
            ProgramView::Expr { s0, expr, s1, span } => {
                let r = expr.desugar();
                (ProgramView::Expr { s0, expr: r.0, s1, span }, r.1)
            },
            ProgramView::Module { s0, elems, span } => {
                let new = ProgramView::Expr {
                    s0,
                    expr: ExprView::Lit(LitView::Table(TableLitView(elems))),
                    s1: SpaceView::empty(span),
                    span,
                };
                (new, true)
            },
        }
    }
}

impl Program {
    /// One step of desugaring, as [`ProgramView::desugar`] describes it.
    pub fn desugar(self) -> (r: (Self, bool))
        ensures
            r.0@ == self@.desugar().0,
            r.1 == self@.desugar().1,
    {
        match self {
            Self::Expr { s0, expr, s1, span } => {
                let (expr, desugared) = expr.desugar();
                let new = Self::Expr { s0, expr, s1, span };
                (new, desugared)
            },
            Self::Module { s0, elems, span } => {
                let new = Self::Expr {
                    s0,
                    expr: elems.table_lit().lit().expr(),
                    s1: Space::empty(span),
                    span,
                };
                (new, true)
            },
        }
    }
}

} // verus!
