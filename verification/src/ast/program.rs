//! Whole programs.

use vstd::prelude::*;

use crate::ast::basic::{BoundedSeparated, BoundedSeparatedView, Space, SpaceView};
use crate::ast::expr::{Expr, ExprView};
use crate::ast::lit::{TableLitElem, TableLitElemView};
use crate::span::{HasSpan, Span};

verus! {

#[derive(Debug)]
pub enum Program {
    /// Structure: `s0 lit s1`
    Expr { s0: Space, expr: Expr, s1: Space, span: Span },
    /// Structure: `s0 module elems`
    Module { s0: Space, elems: BoundedSeparated<TableLitElem>, span: Span },
}

/// The model of a [`Program`].
pub enum ProgramView {
    Expr { s0: SpaceView, expr: ExprView, s1: SpaceView, span: Span },
    Module { s0: SpaceView, elems: BoundedSeparatedView<TableLitElemView>, span: Span },
}

impl ProgramView {
    pub open spec fn span(self) -> Span {
        match self {
            ProgramView::Expr { span, .. } => span,
            ProgramView::Module { span, .. } => span,
        }
    }
}

impl View for Program {
    type V = ProgramView;

    open spec fn view(&self) -> ProgramView {
        match self {
            Program::Expr { s0, expr, s1, span } => ProgramView::Expr {
                s0: s0@,
                expr: expr@,
                s1: s1@,
                span: *span,
            },
            Program::Module { s0, elems, span } => ProgramView::Module {
                s0: s0@,
                elems: elems@,
                span: *span,
            },
        }
    }
}

impl HasSpan for Program {
    open spec fn span_spec(&self) -> Span {
        self@.span()
    }

    fn span(&self) -> (span: Span) {
        match self {
            Self::Expr { span, .. } => *span,
            Self::Module { span, .. } => *span,
        }
    }
}

} // verus!

verus! {

impl Clone for Program {
    fn clone(&self) -> (copy: Self)
        ensures
            copy@ == self@,
    {
        match self {
            Program::Expr { s0, expr, s1, span } => Program::Expr {
                s0: s0.clone(),
                expr: expr.deep_clone(),
                s1: s1.clone(),
                span: *span,
            },
            Program::Module { s0, elems, span } => Program::Module {
                s0: s0.clone(),
                elems: elems.deep_clone(),
                span: *span,
            },
        }
    }
}

} // verus!
