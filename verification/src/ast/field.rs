//! Field access and assignment.

use vstd::prelude::*;

use crate::ast::basic::{Ident, IdentView, Space, SpaceView};
use crate::ast::expr::{Expr, ExprView};
use crate::span::{HasSpan, Span};

verus! {

#[derive(Debug)]
pub enum Field {
    /// `a[b]`
    ///
    /// Structure: `expr s0 [ s1 index s2 ]`
    Access { expr: Box<Expr>, s0: Space, s1: Space, index: Box<Expr>, s2: Space, span: Span },
    /// `a[b] = c`
    ///
    /// Structure: `expr s0 [ s1 index s2 ] s3 = s4 value`
    Assign {
        expr: Box<Expr>,
        s0: Space,
        s1: Space,
        index: Box<Expr>,
        s2: Space,
        s3: Space,
        s4: Space,
        value: Box<Expr>,
        span: Span,
    },
    /// `a.foo`
    ///
    /// Structure: `expr s0 . s1 ident`
    AccessIdent { expr: Box<Expr>, s0: Space, s1: Space, ident: Ident, span: Span },
    /// `a.foo = b`
    ///
    /// Structure: `expr s0 . s1 ident s2 = s3 value`
    AssignIdent {
        expr: Box<Expr>,
        s0: Space,
        s1: Space,
        ident: Ident,
        s2: Space,
        s3: Space,
        value: Box<Expr>,
        span: Span,
    },
}

/// The model of a [`Field`].
pub enum FieldView {
    Access {
        expr: Box<ExprView>,
        s0: SpaceView,
        s1: SpaceView,
        index: Box<ExprView>,
        s2: SpaceView,
        span: Span,
    },
    Assign {
        expr: Box<ExprView>,
        s0: SpaceView,
        s1: SpaceView,
        index: Box<ExprView>,
        s2: SpaceView,
        s3: SpaceView,
        s4: SpaceView,
        value: Box<ExprView>,
        span: Span,
    },
    AccessIdent { expr: Box<ExprView>, s0: SpaceView, s1: SpaceView, ident: IdentView, span: Span },
    AssignIdent {
        expr: Box<ExprView>,
        s0: SpaceView,
        s1: SpaceView,
        ident: IdentView,
        s2: SpaceView,
        s3: SpaceView,
        value: Box<ExprView>,
        span: Span,
    },
}

impl FieldView {
    /// The access `base[index]` without trivia.
    pub open spec fn access(base: ExprView, index: ExprView, span: Span) -> FieldView {
        FieldView::Access {
            expr: Box::new(base),
            s0: SpaceView::empty(span),
            s1: SpaceView::empty(span),
            index: Box::new(index),
            s2: SpaceView::empty(span),
            span,
        }
    }

    /// The assignment `base[index] = value` without trivia.
    pub open spec fn assign(base: ExprView, index: ExprView, value: ExprView, span: Span)
        -> FieldView {
        FieldView::Assign {
            expr: Box::new(base),
            s0: SpaceView::empty(span),
            s1: SpaceView::empty(span),
            index: Box::new(index),
            s2: SpaceView::empty(span),
            s3: SpaceView::empty(span),
            s4: SpaceView::empty(span),
            value: Box::new(value),
            span,
        }
    }

    pub open spec fn span(self) -> Span {
        match self {
            FieldView::Access { span, .. } => span,
            FieldView::Assign { span, .. } => span,
            FieldView::AccessIdent { span, .. } => span,
            FieldView::AssignIdent { span, .. } => span,
        }
    }
}

impl Field {
    /// The model of the node: the same tree over sequences.
    pub open spec fn model(self) -> FieldView
        decreases self,
    {
        match self {
            Field::Access { expr, s0, s1, index, s2, span } => FieldView::Access {
                expr: Box::new((*expr).model()),
                s0: s0@,
                s1: s1@,
                index: Box::new((*index).model()),
                s2: s2@,
                span,
            },
            Field::Assign { expr, s0, s1, index, s2, s3, s4, value, span } => FieldView::Assign {
                expr: Box::new((*expr).model()),
                s0: s0@,
                s1: s1@,
                index: Box::new((*index).model()),
                s2: s2@,
                s3: s3@,
                s4: s4@,
                value: Box::new((*value).model()),
                span,
            },
            Field::AccessIdent { expr, s0, s1, ident, span } => FieldView::AccessIdent {
                expr: Box::new((*expr).model()),
                s0: s0@,
                s1: s1@,
                ident: ident@,
                span,
            },
            Field::AssignIdent { expr, s0, s1, ident, s2, s3, value, span } => {
                FieldView::AssignIdent {
                    expr: Box::new((*expr).model()),
                    s0: s0@,
                    s1: s1@,
                    ident: ident@,
                    s2: s2@,
                    s3: s3@,
                    value: Box::new((*value).model()),
                    span,
                }
            },
        }
    }

    pub fn access(base: Box<Expr>, index: Box<Expr>, span: Span) -> (field: Self)
        ensures
            field@ == FieldView::access(base@, index@, span),
    {
        Self::Access {
            expr: base,
            s0: Space::empty(span),
            s1: Space::empty(span),
            index,
            s2: Space::empty(span),
            span,
        }
    }

    pub fn assign(base: Box<Expr>, index: Box<Expr>, value: Box<Expr>, span: Span) -> (field: Self)
        ensures
            field@ == FieldView::assign(base@, index@, value@, span),
    {
        Self::Assign {
            expr: base,
            s0: Space::empty(span),
            s1: Space::empty(span),
            index,
            s2: Space::empty(span),
            s3: Space::empty(span),
            s4: Space::empty(span),
            value,
            span,
        }
    }

    pub fn expr(self) -> (expr: Expr)
        ensures
            expr@ == ExprView::Field(self@),
    {
        Expr::Field(self)
    }
}

impl View for Field {
    type V = FieldView;

    open spec fn view(&self) -> FieldView {
        self.model()
    }
}

impl HasSpan for Field {
    open spec fn span_spec(&self) -> Span {
        self@.span()
    }

    fn span(&self) -> (span: Span) {
        match self {
            Self::Access { span, .. } => *span,
            Self::Assign { span, .. } => *span,
            Self::AccessIdent { span, .. } => *span,
            Self::AssignIdent { span, .. } => *span,
        }
    }
}

} // verus!

verus! {

impl Field {
    /// A copy of the field access or assignment and of all that it holds.
    pub fn deep_clone(&self) -> (copy: Self)
        ensures
            copy@ == self@,
        decreases self,
    {
        let copy = match self {
            Field::Access { expr, s0, s1, index, s2, span } => Field::Access {
                expr: Box::new(expr.deep_clone()),
                s0: s0.clone(),
                s1: s1.clone(),
                index: Box::new(index.deep_clone()),
                s2: s2.clone(),
                span: *span,
            },
            Field::Assign { expr, s0, s1, index, s2, s3, s4, value, span } => Field::Assign {
                expr: Box::new(expr.deep_clone()),
                s0: s0.clone(),
                s1: s1.clone(),
                index: Box::new(index.deep_clone()),
                s2: s2.clone(),
                s3: s3.clone(),
                s4: s4.clone(),
                value: Box::new(value.deep_clone()),
                span: *span,
            },
            Field::AccessIdent { expr, s0, s1, ident, span } => Field::AccessIdent {
                expr: Box::new(expr.deep_clone()),
                s0: s0.clone(),
                s1: s1.clone(),
                ident: ident.clone(),
                span: *span,
            },
            Field::AssignIdent { expr, s0, s1, ident, s2, s3, value, span } => Field::AssignIdent {
                expr: Box::new(expr.deep_clone()),
                s0: s0.clone(),
                s1: s1.clone(),
                ident: ident.clone(),
                s2: s2.clone(),
                s3: s3.clone(),
                value: Box::new(value.deep_clone()),
                span: *span,
            },
        };
        assert(copy@ is Access || copy@ is Assign || copy@ is AccessIdent || copy@ is AssignIdent);
        copy
    }
}

impl Clone for Field {
    fn clone(&self) -> (copy: Self)
        ensures
            copy@ == self@,
    {
        self.deep_clone()
    }
}

} // verus!
