//! Table destructuring.

use vstd::prelude::*;

use crate::ast::basic::{
    opt_space_view, BoundedSeparated, BoundedSeparatedView, Ident, IdentView, Space, SpaceView,
};
use crate::ast::expr::{Expr, ExprView};
use crate::ast::var::{local_space, local_view};
use crate::span::{HasSpan, Span};

verus! {

/// One entry of a table pattern.
#[derive(Debug)]
pub enum TablePatternElem {
    /// `foo`
    Positional(Ident),
    /// `foo: bar`
    ///
    /// Structure: `name s0 : s1 ident`
    Named { name: Ident, s0: Space, s1: Space, ident: Ident, span: Span },
}

/// The model of a [`TablePatternElem`].
pub enum TablePatternElemView {
    Positional(IdentView),
    Named { name: IdentView, s0: SpaceView, s1: SpaceView, ident: IdentView, span: Span },
}

impl TablePatternElemView {
    pub open spec fn span(self) -> Span {
        match self {
            TablePatternElemView::Positional(ident) => ident.span,
            TablePatternElemView::Named { span, .. } => span,
        }
    }
}

impl View for TablePatternElem {
    type V = TablePatternElemView;

    open spec fn view(&self) -> TablePatternElemView {
        match self {
            TablePatternElem::Positional(ident) => TablePatternElemView::Positional(ident@),
            TablePatternElem::Named { name, s0, s1, ident, span } => TablePatternElemView::Named {
                name: name@,
                s0: s0@,
                s1: s1@,
                ident: ident@,
                span: *span,
            },
        }
    }
}

impl HasSpan for TablePatternElem {
    open spec fn span_spec(&self) -> Span {
        self@.span()
    }

    fn span(&self) -> (span: Span) {
        match self {
            Self::Positional(ident) => ident.span(),
            Self::Named { span, .. } => *span,
        }
    }
}

impl View for BoundedSeparated<TablePatternElem> {
    type V = BoundedSeparatedView<TablePatternElemView>;

    open spec fn view(&self) -> BoundedSeparatedView<TablePatternElemView> {
        self.view_with(|elem: TablePatternElem| elem@)
    }
}

/// `{ foo, bar: baz }`
///
/// Structure: `{ s0 elems s1 }`
#[derive(Debug)]
pub struct TablePattern(pub BoundedSeparated<TablePatternElem>);

/// The model of a [`TablePattern`].
pub struct TablePatternView(pub BoundedSeparatedView<TablePatternElemView>);

impl View for TablePattern {
    type V = TablePatternView;

    open spec fn view(&self) -> TablePatternView {
        TablePatternView(self.0@)
    }
}

impl HasSpan for TablePattern {
    open spec fn span_spec(&self) -> Span {
        self@.0.span
    }

    fn span(&self) -> (span: Span) {
        self.0.span()
    }
}

/// - `{ foo, bar: baz } = a`
/// - `local { foo, bar: baz } = a`
///
/// Structure: `local pattern s0 = s1 value`
#[derive(Debug)]
pub struct TableDestr {
    pub local: Option<Space>,
    pub pattern: TablePattern,
    pub s0: Space,
    pub s1: Space,
    pub value: Box<Expr>,
    pub span: Span,
}

/// The model of a [`TableDestr`].
pub struct TableDestrView {
    pub local: Option<SpaceView>,
    pub pattern: TablePatternView,
    pub s0: SpaceView,
    pub s1: SpaceView,
    pub value: Box<ExprView>,
    pub span: Span,
}

impl TableDestrView {
    /// The destructuring `pattern = value` without trivia, with `local`
    /// before it where `local` is set.
    pub open spec fn new(local: bool, pattern: TablePatternView, value: ExprView, span: Span)
        -> TableDestrView {
        TableDestrView {
            local: local_view(local, span),
            pattern,
            s0: SpaceView::empty(span),
            s1: SpaceView::empty(span),
            value: Box::new(value),
            span,
        }
    }
}

impl TableDestr {
    /// The model of the node: the same tree over sequences.
    pub open spec fn model(self) -> TableDestrView
        decreases self,
    {
        TableDestrView {
            local: opt_space_view(self.local),
            pattern: self.pattern@,
            s0: self.s0@,
            s1: self.s1@,
            value: Box::new((*self.value).model()),
            span: self.span,
        }
    }

    pub fn new(local: bool, pattern: TablePattern, value: Box<Expr>, span: Span) -> (destr: Self)
        ensures
            destr@ == TableDestrView::new(local, pattern@, value@, span),
    {
        Self {
            local: local_space(local, span),
            pattern,
            s0: Space::empty(span),
            s1: Space::empty(span),
            value,
            span,
        }
    }

    pub fn expr(self) -> (expr: Expr)
        ensures
            expr@ == ExprView::TableDestr(self@),
    {
        Expr::TableDestr(self)
    }
}

impl View for TableDestr {
    type V = TableDestrView;

    open spec fn view(&self) -> TableDestrView {
        self.model()
    }
}

impl HasSpan for TableDestr {
    open spec fn span_spec(&self) -> Span {
        self@.span
    }

    fn span(&self) -> (span: Span) {
        self.span
    }
}

} // verus!

verus! {

impl Clone for TablePatternElem {
    fn clone(&self) -> (copy: Self)
        ensures
            copy@ == self@,
    {
        match self {
            TablePatternElem::Positional(ident) => TablePatternElem::Positional(ident.clone()),
            TablePatternElem::Named { name, s0, s1, ident, span } => TablePatternElem::Named {
                name: name.clone(),
                s0: s0.clone(),
                s1: s1.clone(),
                ident: ident.clone(),
                span: *span,
            },
        }
    }
}

impl Clone for TablePattern {
    fn clone(&self) -> (copy: Self)
        ensures
            copy@ == self@,
    {
        let mut elems: Vec<(Space, TablePatternElem, Space)> = Vec::new();
        let mut i: usize = 0;
        while i < self.0.elems.len()
            invariant
                0 <= i <= self.0.elems.len(),
                elems@.len() == i,
                forall|j: int|
                    0 <= j < i ==> ((#[trigger] elems@[j]).0@, elems@[j].1@, elems@[j].2@) == (
                        self.0.elems@[j].0@,
                        self.0.elems@[j].1@,
                        self.0.elems@[j].2@,
                    ),
            decreases self.0.elems.len() - i,
        {
            let entry = &self.0.elems[i];
            elems.push((entry.0.clone(), entry.1.clone(), entry.2.clone()));
            i += 1;
        }
        let list = BoundedSeparated {
            elems,
            trailing: crate::ast::basic::clone_opt_space(&self.0.trailing),
            span: self.0.span,
        };
        assert(list@.elems =~= self@.0.elems);
        TablePattern(list)
    }
}

impl TableDestr {
    /// A copy of the destructuring and of all that it holds.
    pub fn deep_clone(&self) -> (copy: Self)
        ensures
            copy@ == self@,
        decreases self,
    {
        let copy = TableDestr {
            local: crate::ast::basic::clone_opt_space(&self.local),
            pattern: self.pattern.clone(),
            s0: self.s0.clone(),
            s1: self.s1.clone(),
            value: Box::new(self.value.deep_clone()),
            span: self.span,
        };
        assert(copy@.span == self.span);
        copy
    }
}

impl Clone for TableDestr {
    fn clone(&self) -> (copy: Self)
        ensures
            copy@ == self@,
    {
        self.deep_clone()
    }
}

} // verus!
