//! Table constructors.

use vstd::prelude::*;

use crate::ast::basic::{
    opt_space_view, BoundedSeparated, BoundedSeparatedView, Ident, IdentView, Space, SpaceView,
};
use crate::ast::expr::{Expr, ExprView};
use crate::ast::lit::{TableLitElem, TableLitElemView};
use crate::span::{HasSpan, Span};

verus! {

/// One entry of a table constructor.
#[derive(Debug)]
pub enum TableConstrElem {
    /// See [`TableLitElem`].
    Lit(TableLitElem),
    /// `[a]: b`
    ///
    /// Structure: `[ s0 index s1 ] s2 : s3 value`
    Indexed {
        s0: Space,
        index: Box<Expr>,
        s1: Space,
        s2: Space,
        s3: Space,
        value: Box<Expr>,
        span: Span,
    },
}

/// The model of a [`TableConstrElem`].
pub enum TableConstrElemView {
    Lit(TableLitElemView),
    Indexed {
        s0: SpaceView,
        index: Box<ExprView>,
        s1: SpaceView,
        s2: SpaceView,
        s3: SpaceView,
        value: Box<ExprView>,
        span: Span,
    },
}

impl TableConstrElemView {
    /// The entry `value`.
    pub open spec fn positional(value: ExprView) -> TableConstrElemView {
        TableConstrElemView::Lit(TableLitElemView::Positional(Box::new(value)))
    }

    /// The entry `name: value` without trivia.
    pub open spec fn named(name: IdentView, value: ExprView, span: Span) -> TableConstrElemView {
        TableConstrElemView::Lit(TableLitElemView::named(name, value, span))
    }

    /// The entry `[index]: value` without trivia.
    pub open spec fn indexed(index: ExprView, value: ExprView, span: Span) -> TableConstrElemView {
        TableConstrElemView::Indexed {
            s0: SpaceView::empty(span),
            index: Box::new(index),
            s1: SpaceView::empty(span),
            s2: SpaceView::empty(span),
            s3: SpaceView::empty(span),
            value: Box::new(value),
            span,
        }
    }

    pub open spec fn span(self) -> Span {
        match self {
            TableConstrElemView::Lit(lit) => lit.span(),
            TableConstrElemView::Indexed { span, .. } => span,
        }
    }
}

impl TableConstrElem {
    /// The model of the node: the same tree over sequences.
    pub open spec fn model(self) -> TableConstrElemView
        decreases self,
    {
        match self {
            TableConstrElem::Lit(lit) => TableConstrElemView::Lit(lit.model()),
            TableConstrElem::Indexed { s0, index, s1, s2, s3, value, span } => {
                TableConstrElemView::Indexed {
                    s0: s0@,
                    index: Box::new((*index).model()),
                    s1: s1@,
                    s2: s2@,
                    s3: s3@,
                    value: Box::new((*value).model()),
                    span,
                }
            },
        }
    }

    pub fn positional(value: Box<Expr>) -> (elem: Self)
        ensures
            elem@ == TableConstrElemView::positional(value@),
    {
        Self::Lit(TableLitElem::Positional(value))
    }

    pub fn named(name: Ident, value: Box<Expr>, span: Span) -> (elem: Self)
        ensures
            elem@ == TableConstrElemView::named(name@, value@, span),
    {
        Self::Lit(TableLitElem::named(name, value, span))
    }

    pub fn indexed(index: Box<Expr>, value: Box<Expr>, span: Span) -> (elem: Self)
        ensures
            elem@ == TableConstrElemView::indexed(index@, value@, span),
    {
        Self::Indexed {
            s0: Space::empty(span),
            index,
            s1: Space::empty(span),
            s2: Space::empty(span),
            s3: Space::empty(span),
            value,
            span,
        }
    }
}

impl View for TableConstrElem {
    type V = TableConstrElemView;

    open spec fn view(&self) -> TableConstrElemView {
        self.model()
    }
}

impl HasSpan for TableConstrElem {
    open spec fn span_spec(&self) -> Span {
        self@.span()
    }

    fn span(&self) -> (span: Span) {
        match self {
            Self::Lit(lit) => lit.span(),
            Self::Indexed { span, .. } => *span,
        }
    }
}

impl BoundedSeparated<TableConstrElem> {
    /// The model of the node: the same tree over sequences.
    pub open spec fn model(self) -> BoundedSeparatedView<TableConstrElemView>
        decreases self,
    {
        BoundedSeparatedView {
            elems: Seq::new(
                self.elems.len() as nat,
                |i: int|
                    if 0 <= i < self.elems.len() {
                        (self.elems[i].0@, self.elems[i].1.model(), self.elems[i].2@)
                    } else {
                        arbitrary()
                    },
            ),
            trailing: opt_space_view(self.trailing),
            span: self.span,
        }
    }

    pub fn table_constr(self) -> (constr: TableConstr)
        ensures
            constr@ == TableConstrView(self@),
    {
        TableConstr(self)
    }
}

impl View for BoundedSeparated<TableConstrElem> {
    type V = BoundedSeparatedView<TableConstrElemView>;

    open spec fn view(&self) -> BoundedSeparatedView<TableConstrElemView> {
        self.model()
    }
}

/// `{ a, b, foo: c, [d]: e }`
#[derive(Debug)]
pub struct TableConstr(pub BoundedSeparated<TableConstrElem>);

/// The model of a [`TableConstr`].
pub struct TableConstrView(pub BoundedSeparatedView<TableConstrElemView>);

impl TableConstr {
    /// The model of the node: the same tree over sequences.
    pub open spec fn model(self) -> TableConstrView
        decreases self,
    {
        TableConstrView(self.0.model())
    }

    pub fn expr(self) -> (expr: Expr)
        ensures
            expr@ == ExprView::TableConstr(self@),
    {
        Expr::TableConstr(self)
    }
}

impl View for TableConstr {
    type V = TableConstrView;

    open spec fn view(&self) -> TableConstrView {
        self.model()
    }
}

impl HasSpan for TableConstr {
    open spec fn span_spec(&self) -> Span {
        self@.0.span
    }

    fn span(&self) -> (span: Span) {
        self.0.span()
    }
}

} // verus!

verus! {

impl TableConstrElem {
    /// A copy of the entry and of all that it holds.
    pub fn deep_clone(&self) -> (copy: Self)
        ensures
            copy@ == self@,
        decreases self,
    {
        let copy = match self {
            TableConstrElem::Lit(lit) => TableConstrElem::Lit(lit.deep_clone()),
            TableConstrElem::Indexed { s0, index, s1, s2, s3, value, span } => {
                TableConstrElem::Indexed {
                    s0: s0.clone(),
                    index: Box::new(index.deep_clone()),
                    s1: s1.clone(),
                    s2: s2.clone(),
                    s3: s3.clone(),
                    value: Box::new(value.deep_clone()),
                    span: *span,
                }
            },
        };
        assert(copy@ is Lit || copy@ is Indexed);
        copy
    }
}

impl Clone for TableConstrElem {
    fn clone(&self) -> (copy: Self)
        ensures
            copy@ == self@,
    {
        self.deep_clone()
    }
}

impl BoundedSeparated<TableConstrElem> {
    /// A copy of the list and of all that it holds.
    pub fn deep_clone(&self) -> (copy: Self)
        ensures
            copy@ == self@,
        decreases self,
    {
        let mut elems: Vec<(Space, TableConstrElem, Space)> = Vec::new();
        let mut i: usize = 0;
        assert(forall|j: int|
            0 <= j < self.elems@.len() ==> decreases_to!(self => (#[trigger] self.elems@[j]).1));
        while i < self.elems.len()
            invariant
                0 <= i <= self.elems.len(),
                elems@.len() == i,
                forall|j: int|
                    0 <= j < self.elems@.len() ==> decreases_to!(self => (#[trigger] self.elems@[j]).1),
                forall|j: int|
                    0 <= j < i ==> ((#[trigger] elems@[j]).0@, elems@[j].1@, elems@[j].2@) == (
                        self.elems@[j].0@,
                        self.elems@[j].1@,
                        self.elems@[j].2@,
                    ),
            decreases self.elems.len() - i,
        {
            let entry = &self.elems[i];
            elems.push((entry.0.clone(), entry.1.deep_clone(), entry.2.clone()));
            i += 1;
        }
        let copy = BoundedSeparated {
            elems,
            trailing: crate::ast::basic::clone_opt_space(&self.trailing),
            span: self.span,
        };
        assert(copy@.elems =~= self@.elems);
        copy
    }
}

impl TableConstr {
    /// A copy of the table constructor and of all that it holds.
    pub fn deep_clone(&self) -> (copy: Self)
        ensures
            copy@ == self@,
        decreases self,
    {
        self.0.deep_clone().table_constr()
    }
}

impl Clone for TableConstr {
    fn clone(&self) -> (copy: Self)
        ensures
            copy@ == self@,
    {
        self.deep_clone()
    }
}

} // verus!
