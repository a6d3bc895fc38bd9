//! Function definitions.

use vstd::prelude::*;

use crate::ast::basic::{opt_space_view, Ident, IdentView, Space, SpaceView};
use crate::ast::expr::{Expr, ExprView};
use crate::ast::table_destr::{TablePattern, TablePatternView};
use crate::span::{HasSpan, Span};

verus! {

#[derive(Debug)]
pub enum FuncDef {
    /// `function() a`
    ///
    /// Structure: `function s0 ( s1 ) s2 body`
    AnonNoArg { s0: Space, s1: Space, s2: Space, body: Box<Expr>, span: Span },
    /// `function(foo) a`
    ///
    /// Structure: `function s0 ( s1 arg s2 ) s3 body`
    AnonArg { s0: Space, s1: Space, arg: Ident, s2: Space, s3: Space, body: Box<Expr>, span: Span },
    /// `function{..} a`
    ///
    /// Structure: `function s0 pattern s1 body`
    AnonDestr { s0: Space, pattern: TablePattern, s1: Space, body: Box<Expr>, span: Span },
    /// - `function foo() a`
    /// - `local function foo() a`
    ///
    /// Structure: `local function s0 name s1 ( s2 ) s3 body`
    NamedNoArg {
        local: Option<Space>,
        s0: Space,
        name: Ident,
        s1: Space,
        s2: Space,
        s3: Space,
        body: Box<Expr>,
        span: Span,
    },
    /// - `function foo(bar) a`
    /// - `local function foo(bar) a`
    ///
    /// Structure: `local function s0 name s1 ( s2 arg s3 ) s4 body`
    NamedArg {
        local: Option<Space>,
        s0: Space,
        name: Ident,
        s1: Space,
        s2: Space,
        arg: Ident,
        s3: Space,
        s4: Space,
        body: Box<Expr>,
        span: Span,
    },
    /// - `function foo{..} a`
    /// - `local function foo{..} a`
    ///
    /// Structure: `local function s0 name s1 pattern s2 body`
    NamedDestr {
        local: Option<Space>,
        s0: Space,
        name: Ident,
        s1: Space,
        pattern: TablePattern,
        s2: Space,
        body: Box<Expr>,
        span: Span,
    },
}

/// The model of a [`FuncDef`].
pub enum FuncDefView {
    AnonNoArg { s0: SpaceView, s1: SpaceView, s2: SpaceView, body: Box<ExprView>, span: Span },
    AnonArg {
        s0: SpaceView,
        s1: SpaceView,
        arg: IdentView,
        s2: SpaceView,
        s3: SpaceView,
        body: Box<ExprView>,
        span: Span,
    },
    AnonDestr {
        s0: SpaceView,
        pattern: TablePatternView,
        s1: SpaceView,
        body: Box<ExprView>,
        span: Span,
    },
    NamedNoArg {
        local: Option<SpaceView>,
        s0: SpaceView,
        name: IdentView,
        s1: SpaceView,
        s2: SpaceView,
        s3: SpaceView,
        body: Box<ExprView>,
        span: Span,
    },
    NamedArg {
        local: Option<SpaceView>,
        s0: SpaceView,
        name: IdentView,
        s1: SpaceView,
        s2: SpaceView,
        arg: IdentView,
        s3: SpaceView,
        s4: SpaceView,
        body: Box<ExprView>,
        span: Span,
    },
    NamedDestr {
        local: Option<SpaceView>,
        s0: SpaceView,
        name: IdentView,
        s1: SpaceView,
        pattern: TablePatternView,
        s2: SpaceView,
        body: Box<ExprView>,
        span: Span,
    },
}

impl FuncDefView {
    pub open spec fn span(self) -> Span {
        match self {
            FuncDefView::AnonNoArg { span, .. } => span,
            FuncDefView::AnonArg { span, .. } => span,
            FuncDefView::AnonDestr { span, .. } => span,
            FuncDefView::NamedNoArg { span, .. } => span,
            FuncDefView::NamedArg { span, .. } => span,
            FuncDefView::NamedDestr { span, .. } => span,
        }
    }
}

impl FuncDef {
    /// The model of the node: the same tree over sequences.
    pub open spec fn model(self) -> FuncDefView
        decreases self,
    {
        match self {
            FuncDef::AnonNoArg { s0, s1, s2, body, span } => FuncDefView::AnonNoArg {
                s0: s0@,
                s1: s1@,
                s2: s2@,
                body: Box::new((*body).model()),
                span,
            },
            FuncDef::AnonArg { s0, s1, arg, s2, s3, body, span } => FuncDefView::AnonArg {
                s0: s0@,
                s1: s1@,
                arg: arg@,
                s2: s2@,
                s3: s3@,
                body: Box::new((*body).model()),
                span,
            },
            FuncDef::AnonDestr { s0, pattern, s1, body, span } => FuncDefView::AnonDestr {
                s0: s0@,
                pattern: pattern@,
                s1: s1@,
                body: Box::new((*body).model()),
                span,
            },
            FuncDef::NamedNoArg { local, s0, name, s1, s2, s3, body, span } => {
                FuncDefView::NamedNoArg {
                    local: opt_space_view(local),
                    s0: s0@,
                    name: name@,
                    s1: s1@,
                    s2: s2@,
                    s3: s3@,
                    body: Box::new((*body).model()),
                    span,
                }
            },
            FuncDef::NamedArg { local, s0, name, s1, s2, arg, s3, s4, body, span } => {
                FuncDefView::NamedArg {
                    local: opt_space_view(local),
                    s0: s0@,
                    name: name@,
                    s1: s1@,
                    s2: s2@,
                    arg: arg@,
                    s3: s3@,
                    s4: s4@,
                    body: Box::new((*body).model()),
                    span,
                }
            },
            FuncDef::NamedDestr { local, s0, name, s1, pattern, s2, body, span } => {
                FuncDefView::NamedDestr {
                    local: opt_space_view(local),
                    s0: s0@,
                    name: name@,
                    s1: s1@,
                    pattern: pattern@,
                    s2: s2@,
                    body: Box::new((*body).model()),
                    span,
                }
            },
        }
    }
}

impl View for FuncDef {
    type V = FuncDefView;

    open spec fn view(&self) -> FuncDefView {
        self.model()
    }
}

impl HasSpan for FuncDef {
    open spec fn span_spec(&self) -> Span {
        self@.span()
    }

    fn span(&self) -> (span: Span) {
        match self {
            Self::AnonNoArg { span, .. } => *span,
            Self::AnonArg { span, .. } => *span,
            Self::AnonDestr { span, .. } => *span,
            Self::NamedNoArg { span, .. } => *span,
            Self::NamedArg { span, .. } => *span,
            Self::NamedDestr { span, .. } => *span,
        }
    }
}

} // verus!

verus! {

impl FuncDef {
    /// A copy of the definition and of all that it holds.
    pub fn deep_clone(&self) -> (copy: Self)
        ensures
            copy@ == self@,
        decreases self,
    {
        let copy = match self {
            FuncDef::AnonNoArg { s0, s1, s2, body, span } => FuncDef::AnonNoArg {
                s0: s0.clone(),
                s1: s1.clone(),
                s2: s2.clone(),
                body: Box::new(body.deep_clone()),
                span: *span,
            },
            FuncDef::AnonArg { s0, s1, arg, s2, s3, body, span } => FuncDef::AnonArg {
                s0: s0.clone(),
                s1: s1.clone(),
                arg: arg.clone(),
                s2: s2.clone(),
                s3: s3.clone(),
                body: Box::new(body.deep_clone()),
                span: *span,
            },
            FuncDef::AnonDestr { s0, pattern, s1, body, span } => FuncDef::AnonDestr {
                s0: s0.clone(),
                pattern: pattern.clone(),
                s1: s1.clone(),
                body: Box::new(body.deep_clone()),
                span: *span,
            },
            FuncDef::NamedNoArg { local, s0, name, s1, s2, s3, body, span } => {
                FuncDef::NamedNoArg {
                    local: crate::ast::basic::clone_opt_space(local),
                    s0: s0.clone(),
                    name: name.clone(),
                    s1: s1.clone(),
                    s2: s2.clone(),
                    s3: s3.clone(),
                    body: Box::new(body.deep_clone()),
                    span: *span,
                }
            },
            FuncDef::NamedArg { local, s0, name, s1, s2, arg, s3, s4, body, span } => {
                FuncDef::NamedArg {
                    local: crate::ast::basic::clone_opt_space(local),
                    s0: s0.clone(),
                    name: name.clone(),
                    s1: s1.clone(),
                    s2: s2.clone(),
                    arg: arg.clone(),
                    s3: s3.clone(),
                    s4: s4.clone(),
                    body: Box::new(body.deep_clone()),
                    span: *span,
                }
            },
            FuncDef::NamedDestr { local, s0, name, s1, pattern, s2, body, span } => {
                FuncDef::NamedDestr {
                    local: crate::ast::basic::clone_opt_space(local),
                    s0: s0.clone(),
                    name: name.clone(),
                    s1: s1.clone(),
                    pattern: pattern.clone(),
                    s2: s2.clone(),
                    body: Box::new(body.deep_clone()),
                    span: *span,
                }
            },
        };
        assert(copy@ is AnonNoArg || copy@ is AnonArg || copy@ is AnonDestr || copy@ is NamedNoArg
            || copy@ is NamedArg || copy@ is NamedDestr);
        copy
    }
}

impl Clone for FuncDef {
    fn clone(&self) -> (copy: Self)
        ensures
            copy@ == self@,
    {
        self.deep_clone()
    }
}

} // verus!
