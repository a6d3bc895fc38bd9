//! Calls.

use vstd::prelude::*;

use crate::ast::basic::{Space, SpaceView};
use crate::ast::expr::{Expr, ExprView};
use crate::ast::table_constr::{TableConstr, TableConstrView};
use crate::span::{HasSpan, Span};

verus! {

#[derive(Debug)]
pub enum Call {
    /// `a(b)`
    ///
    /// Structure: `expr s0 ( s1 arg s2 )`
    Arg { expr: Box<Expr>, s0: Space, s1: Space, arg: Box<Expr>, s2: Space, span: Span },
    /// `a()`
    ///
    /// Structure: `expr s0 ( s1 )`
    NoArg { expr: Box<Expr>, s0: Space, s1: Space, span: Span },
    /// `a{..}`
    ///
    /// Structure: `expr s0 constr`
    Constr { expr: Box<Expr>, s0: Space, constr: TableConstr, span: Span },
}

/// The model of a [`Call`].
pub enum CallView {
    Arg {
        expr: Box<ExprView>,
        s0: SpaceView,
        s1: SpaceView,
        arg: Box<ExprView>,
        s2: SpaceView,
        span: Span,
    },
    NoArg { expr: Box<ExprView>, s0: SpaceView, s1: SpaceView, span: Span },
    Constr { expr: Box<ExprView>, s0: SpaceView, constr: TableConstrView, span: Span },
}

impl CallView {
    /// The call `base(arg)` without trivia.
    pub open spec fn arg(base: ExprView, arg: ExprView, span: Span) -> CallView {
        CallView::Arg {
            expr: Box::new(base),
            s0: SpaceView::empty(span),
            s1: SpaceView::empty(span),
            arg: Box::new(arg),
            s2: SpaceView::empty(span),
            span,
        }
    }

    /// The call `base()` without trivia.
    pub open spec fn no_arg(base: ExprView, span: Span) -> CallView {
        CallView::NoArg {
            expr: Box::new(base),
            s0: SpaceView::empty(span),
            s1: SpaceView::empty(span),
            span,
        }
    }

    /// The call `base{..}` without trivia.
    pub open spec fn constr(base: ExprView, constr: TableConstrView, span: Span) -> CallView {
        CallView::Constr { expr: Box::new(base), s0: SpaceView::empty(span), constr, span }
    }

    pub open spec fn span(self) -> Span {
        match self {
            CallView::Arg { span, .. } => span,
            CallView::NoArg { span, .. } => span,
            CallView::Constr { span, .. } => span,
        }
    }
}

impl Call {
    /// The model of the node: the same tree over sequences.
    pub open spec fn model(self) -> CallView
        decreases self,
    {
        match self {
            Call::Arg { expr, s0, s1, arg, s2, span } => CallView::Arg {
                expr: Box::new((*expr).model()),
                s0: s0@,
                s1: s1@,
                arg: Box::new((*arg).model()),
                s2: s2@,
                span,
            },
            Call::NoArg { expr, s0, s1, span } => CallView::NoArg {
                expr: Box::new((*expr).model()),
                s0: s0@,
                s1: s1@,
                span,
            },
            Call::Constr { expr, s0, constr, span } => CallView::Constr {
                expr: Box::new((*expr).model()),
                s0: s0@,
                constr: constr.model(),
                span,
            },
        }
    }

    pub fn arg(base: Box<Expr>, arg: Box<Expr>, span: Span) -> (call: Self)
        ensures
            call@ == CallView::arg(base@, arg@, span),
    {
        Self::Arg {
            expr: base,
            s0: Space::empty(span),
            s1: Space::empty(span),
            arg,
            s2: Space::empty(span),
            span,
        }
    }

    pub fn no_arg(base: Box<Expr>, span: Span) -> (call: Self)
        ensures
            call@ == CallView::no_arg(base@, span),
    {
        Self::NoArg { expr: base, s0: Space::empty(span), s1: Space::empty(span), span }
    }

    pub fn constr(base: Box<Expr>, constr: TableConstr, span: Span) -> (call: Self)
        ensures
            call@ == CallView::constr(base@, constr@, span),
    {
        Self::Constr { expr: base, s0: Space::empty(span), constr, span }
    }

    pub fn expr(self) -> (expr: Expr)
        ensures
            expr@ == ExprView::Call(self@),
    {
        Expr::Call(self)
    }
}

impl View for Call {
    type V = CallView;

    open spec fn view(&self) -> CallView {
        self.model()
    }
}

impl HasSpan for Call {
    open spec fn span_spec(&self) -> Span {
        self@.span()
    }

    fn span(&self) -> (span: Span) {
        match self {
            Self::Arg { span, .. } => *span,
            Self::NoArg { span, .. } => *span,
            Self::Constr { span, .. } => *span,
        }
    }
}

} // verus!

verus! {

impl Call {
    /// A copy of the call and of all that it holds.
    pub fn deep_clone(&self) -> (copy: Self)
        ensures
            copy@ == self@,
        decreases self,
    {
        let copy = match self {
            Call::Arg { expr, s0, s1, arg, s2, span } => Call::Arg {
                expr: Box::new(expr.deep_clone()),
                s0: s0.clone(),
                s1: s1.clone(),
                arg: Box::new(arg.deep_clone()),
                s2: s2.clone(),
                span: *span,
            },
            Call::NoArg { expr, s0, s1, span } => Call::NoArg {
                expr: Box::new(expr.deep_clone()),
                s0: s0.clone(),
                s1: s1.clone(),
                span: *span,
            },
            Call::Constr { expr, s0, constr, span } => Call::Constr {
                expr: Box::new(expr.deep_clone()),
                s0: s0.clone(),
                constr: constr.deep_clone(),
                span: *span,
            },
        };
        assert(copy@ is Arg || copy@ is NoArg || copy@ is Constr);
        copy
    }
}

impl Clone for Call {
    fn clone(&self) -> (copy: Self)
        ensures
            copy@ == self@,
    {
        self.deep_clone()
    }
}

} // verus!
