//! Variable access and assignment.

use vstd::prelude::*;

use crate::ast::basic::{opt_space_view, Ident, IdentView, Space, SpaceView};
use crate::ast::expr::{Expr, ExprView};
use crate::span::{HasSpan, Span};

verus! {

#[derive(Debug)]
pub enum Var {
    /// `[a]`
    ///
    /// Structure: `[ s0 index s1 ]`
    Access { s0: Space, index: Box<Expr>, s1: Space, span: Span },
    /// - `[a] = b`
    /// - `local [a] = b`
    ///
    /// Structure: `local [ s0 index s1 ] s2 = s3 value`
    Assign {
        local: Option<Space>,
        s0: Space,
        index: Box<Expr>,
        s1: Space,
        s2: Space,
        s3: Space,
        value: Box<Expr>,
        span: Span,
    },
    /// `foo`
    AccessIdent(Ident),
    /// - `foo = a`
    /// - `local foo = a`
    ///
    /// Structure: `local name s0 = s1 value`
    AssignIdent {
        local: Option<Space>,
        name: Ident,
        s0: Space,
        s1: Space,
        value: Box<Expr>,
        span: Span,
    },
}

/// The model of a [`Var`].
pub enum VarView {
    Access { s0: SpaceView, index: Box<ExprView>, s1: SpaceView, span: Span },
    Assign {
        local: Option<SpaceView>,
        s0: SpaceView,
        index: Box<ExprView>,
        s1: SpaceView,
        s2: SpaceView,
        s3: SpaceView,
        value: Box<ExprView>,
        span: Span,
    },
    AccessIdent(IdentView),
    AssignIdent {
        local: Option<SpaceView>,
        name: IdentView,
        s0: SpaceView,
        s1: SpaceView,
        value: Box<ExprView>,
        span: Span,
    },
}

/// The trivia behind the keyword `local` of a node built without source
/// text: empty trivia where the node is local, none where it is not.
pub open spec fn local_view(local: bool, span: Span) -> Option<SpaceView> {
    if local {
        Some(SpaceView::empty(span))
    } else {
        None
    }
}

impl VarView {
    /// The access `[index]` without trivia.
    pub open spec fn access(index: ExprView, span: Span) -> VarView {
        VarView::Access {
            s0: SpaceView::empty(span),
            index: Box::new(index),
            s1: SpaceView::empty(span),
            span,
        }
    }

    /// The assignment `[index] = value` without trivia, with `local` before
    /// it where `local` is set.
    pub open spec fn assign(local: bool, index: ExprView, value: ExprView, span: Span) -> VarView {
        VarView::Assign {
            local: local_view(local, span),
            s0: SpaceView::empty(span),
            index: Box::new(index),
            s1: SpaceView::empty(span),
            s2: SpaceView::empty(span),
            s3: SpaceView::empty(span),
            value: Box::new(value),
            span,
        }
    }

    /// The assignment `name = value` without trivia, with `local` before it
    /// where `local` is set.
    pub open spec fn assign_ident(local: bool, name: IdentView, value: ExprView, span: Span)
        -> VarView {
        VarView::AssignIdent {
            local: local_view(local, span),
            name,
            s0: SpaceView::empty(span),
            s1: SpaceView::empty(span),
            value: Box::new(value),
            span,
        }
    }

    pub open spec fn span(self) -> Span {
        match self {
            VarView::Access { span, .. } => span,
            VarView::Assign { span, .. } => span,
            VarView::AccessIdent(ident) => ident.span,
            VarView::AssignIdent { span, .. } => span,
        }
    }
}

/// Trivia for the keyword `local` of a node built without source text.
pub fn local_space(local: bool, span: Span) -> (space: Option<Space>)
    ensures
        opt_space_view(space) == local_view(local, span),
{
    if local {
        Some(Space::empty(span))
    } else {
        None
    }
}

impl Var {
    /// The model of the node: the same tree over sequences.
    pub open spec fn model(self) -> VarView
        decreases self,
    {
        match self {
            Var::Access { s0, index, s1, span } => VarView::Access {
                s0: s0@,
                index: Box::new((*index).model()),
                s1: s1@,
                span,
            },
            Var::Assign { local, s0, index, s1, s2, s3, value, span } => VarView::Assign {
                local: opt_space_view(local),
                s0: s0@,
                index: Box::new((*index).model()),
                s1: s1@,
                s2: s2@,
                s3: s3@,
                value: Box::new((*value).model()),
                span,
            },
            Var::AccessIdent(ident) => VarView::AccessIdent(ident@),
            Var::AssignIdent { local, name, s0, s1, value, span } => VarView::AssignIdent {
                local: opt_space_view(local),
                name: name@,
                s0: s0@,
                s1: s1@,
                value: Box::new((*value).model()),
                span,
            },
        }
    }

    pub fn access(index: Box<Expr>, span: Span) -> (var: Self)
        ensures
            var@ == VarView::access(index@, span),
    {
        Self::Access { s0: Space::empty(span), index, s1: Space::empty(span), span }
    }

    pub fn assign(local: bool, index: Box<Expr>, value: Box<Expr>, span: Span) -> (var: Self)
        ensures
            var@ == VarView::assign(local, index@, value@, span),
    {
        Self::Assign {
            local: local_space(local, span),
            s0: Space::empty(span),
            index,
            s1: Space::empty(span),
            s2: Space::empty(span),
            s3: Space::empty(span),
            value,
            span,
        }
    }

    pub fn assign_ident(local: bool, name: Ident, value: Box<Expr>, span: Span) -> (var: Self)
        ensures
            var@ == VarView::assign_ident(local, name@, value@, span),
    {
        Self::AssignIdent {
            local: local_space(local, span),
            name,
            s0: Space::empty(span),
            s1: Space::empty(span),
            value,
            span,
        }
    }

    pub fn expr(self) -> (expr: Expr)
        ensures
            expr@ == ExprView::Var(self@),
    {
        Expr::Var(self)
    }
}

impl View for Var {
    type V = VarView;

    open spec fn view(&self) -> VarView {
        self.model()
    }
}

impl HasSpan for Var {
    open spec fn span_spec(&self) -> Span {
        self@.span()
    }

    fn span(&self) -> (span: Span) {
        match self {
            Self::Access { span, .. } => *span,
            Self::Assign { span, .. } => *span,
            Self::AccessIdent(ident) => ident.span(),
            Self::AssignIdent { span, .. } => *span,
        }
    }
}

} // verus!

verus! {

impl Var {
    /// A copy of the variable access or assignment and of all that it
    /// holds.
    pub fn deep_clone(&self) -> (copy: Self)
        ensures
            copy@ == self@,
        decreases self,
    {
        let copy = match self {
            Var::Access { s0, index, s1, span } => Var::Access {
                s0: s0.clone(),
                index: Box::new(index.deep_clone()),
                s1: s1.clone(),
                span: *span,
            },
            Var::Assign { local, s0, index, s1, s2, s3, value, span } => Var::Assign {
                local: crate::ast::basic::clone_opt_space(local),
                s0: s0.clone(),
                index: Box::new(index.deep_clone()),
                s1: s1.clone(),
                s2: s2.clone(),
                s3: s3.clone(),
                value: Box::new(value.deep_clone()),
                span: *span,
            },
            Var::AccessIdent(ident) => Var::AccessIdent(ident.clone()),
            Var::AssignIdent { local, name, s0, s1, value, span } => Var::AssignIdent {
                local: crate::ast::basic::clone_opt_space(local),
                name: name.clone(),
                s0: s0.clone(),
                s1: s1.clone(),
                value: Box::new(value.deep_clone()),
                span: *span,
            },
        };
        assert(copy@ is Access || copy@ is Assign || copy@ is AccessIdent || copy@ is AssignIdent);
        copy
    }
}

impl Clone for Var {
    fn clone(&self) -> (copy: Self)
        ensures
            copy@ == self@,
    {
        self.deep_clone()
    }
}

} // verus!
