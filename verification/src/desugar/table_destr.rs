use vstd::prelude::*;

use crate::ast::basic::{BoundedSeparated, BoundedSeparatedView, Ident, IdentView, Space, SpaceView};
use crate::ast::call::{Call, CallView};
use crate::ast::expr::{Expr, ExprView};
use crate::ast::lit::{Lit, LitView, TableLitElem, TableLitElemView};
use crate::ast::table_constr::{TableConstr, TableConstrElem, TableConstrElemView, TableConstrView};
use crate::ast::table_destr::{
    TableDestr, TableDestrView, TablePattern, TablePatternElem, TablePatternElemView,
    TablePatternView,
};
use crate::builtin::Builtin;
use crate::desugar::call::builtin_expr;
use crate::desugar::expr::step_child;
use crate::desugar::field::string_expr;

verus! {

impl TablePatternElemView {
    /// The constructor entry that spells the pattern entry: `foo` becomes
    /// `"foo"` and `foo: bar` becomes `foo: "bar"`.
    pub open spec fn to_constr(self) -> TableConstrElemView {
        match self {
            TablePatternElemView::Positional(ident) => TableConstrElemView::positional(
                ExprView::string_of(ident),
            ),
            TablePatternElemView::Named { name, s0, s1, ident, span } => TableConstrElemView::Lit(
                TableLitElemView::Named {
                    name,
                    s0,
                    s1,
                    value: Box::new(ExprView::string_of(ident)),
                    span,
                },
            ),
        }
    }
}

impl TablePatternView {
    /// The constructor that spells the pattern: every name that the pattern
    /// binds becomes a string.
    pub open spec fn to_constr(self) -> TableConstrView {
        TableConstrView(
            BoundedSeparatedView {
                elems: self.0.elems.map_values(
                    |t: (SpaceView, TablePatternElemView, SpaceView)| (t.0, t.1.to_constr(), t.2),
                ),
                trailing: self.0.trailing,
                span: self.0.span,
            },
        )
    }
}

impl TableDestrView {
    /// The entries of the constructor that `'destructure` is called with:
    /// the pattern, the value, and `local: true` where the destructuring is
    /// local.
    pub open spec fn destructure_args(self) -> BoundedSeparatedView<TableConstrElemView> {
        let span = self.span;
        let args = BoundedSeparatedView::new(span).then_elem(
            TableConstrElemView::positional(ExprView::TableConstr(self.pattern.to_constr())),
        ).then_elem(TableConstrElemView::positional(*self.value));
        if self.local is Some {
            args.then_elem(
                TableConstrElemView::named(
                    IdentView { name: "local"@, span },
                    ExprView::Lit(LitView::Bool(true, span)),
                    span,
                ),
            )
        } else {
            args
        }
    }

    /// The rule of the node itself: `pattern = v` becomes
    /// `'destructure{pattern, v}` and `local pattern = v` becomes
    /// `'destructure{pattern, v, local: true}`, with the pattern spelled as
    /// a constructor of strings.
    #[verifier::opaque]
    pub open spec fn rewrite(self) -> ExprView {
        let new = CallView::constr(
            ExprView::builtin(Builtin::Destructure, self.span),
            TableConstrView(self.destructure_args()),
            self.span,
        );
        ExprView::Call(new)
    }
}

fn pattern_elem_to_constr(elem: TablePatternElem) -> (constr: TableConstrElem)
    ensures
        constr@ == elem@.to_constr(),
{
    match elem {
        TablePatternElem::Positional(ident) => TableConstrElem::positional(string_expr(ident)),
        TablePatternElem::Named { name, s0, s1, ident, span } => {
            let lit = TableLitElem::Named { name, s0, s1, value: string_expr(ident), span };
            assert(lit@ is Named);
            let constr = TableConstrElem::Lit(lit);
            assert(constr@ is Lit);
            constr
        },
    }
}

pub fn pattern_to_constr(pattern: TablePattern) -> (constr: TableConstr)
    ensures
        constr@ == pattern@.to_constr(),
{
    let ghost before = pattern@;
    let to_constr = |elem: TablePatternElem| -> (constr: TableConstrElem)
        ensures
            constr@ == elem@.to_constr(),
        { pattern_elem_to_constr(elem) };
    let list = pattern.0.map(to_constr);
    assert(list@.elems =~= before.to_constr().0.elems);
    list.table_constr()
}

impl TableDestr {
    /// The rule of the node itself, as [`TableDestrView::rewrite`] describes it.
    pub fn rewrite(self) -> (r: Expr)
        ensures
            r@ == self@.rewrite(),
    {
        proof {
            reveal(TableDestrView::rewrite);
        }
        let ghost view = self@;
        let Self { local, pattern, s0: _, s1: _, value, span } = self;
        let mut elems: Vec<(Space, TableConstrElem, Space)> = Vec::new();
        elems.push(
            (
                Space::empty(span),
                TableConstrElem::positional(pattern_to_constr(pattern).expr().boxed()),
                Space::empty(span),
            ),
        );
        elems.push((Space::empty(span), TableConstrElem::positional(value), Space::empty(span)));
        if local.is_some() {
            elems.push(
                (
                    Space::empty(span),
                    TableConstrElem::named(
                        Ident::new("local", span),
                        Lit::Bool(true, span).expr().boxed(),
                        span,
                    ),
                    Space::empty(span),
                ),
            );
        }
        let list = BoundedSeparated { elems, trailing: None, span };
        assert(list@.elems =~= view.destructure_args().elems);
        let constr = list.table_constr();
        Call::constr(builtin_expr(Builtin::Destructure, span), constr, span).expr()
    }
}

} // verus!

verus! {

impl TableDestrView {
    /// One step of desugaring: the value takes a step if it can, and all
    /// else stays. Only if it cannot is the destructuring itself rewritten,
    /// by its rule.
    pub open spec fn desugar(self) -> (ExprView, bool)
        decreases self, 0int,
    {
        let value_step = self.value.desugar();
        if value_step.1 {
            (
                ExprView::TableDestr(
                    TableDestrView {
                        local: self.local,
                        pattern: self.pattern,
                        s0: self.s0,
                        s1: self.s1,
                        value: Box::new(value_step.0),
                        span: self.span,
                    },
                ),
                true,
            )
        } else {
            (self.rewrite(), true)
        }
    }
}

impl TableDestr {
    /// One step of desugaring, as [`TableDestrView::desugar`] describes it.
    pub fn desugar(self) -> (r: (Expr, bool))
        ensures
            r.0@ == self@.desugar().0,
            r.1 == self@.desugar().1,
        decreases self, 0int,
    {
        let Self { local, pattern, s0, s1, value, span } = self;
        let (value, changed) = step_child(value);
        let new = Self { local, pattern, s0, s1, value, span };
        assert(new@.span == span);
        if changed {
            (new.expr(), true)
        } else {
            (new.rewrite(), true)
        }
    }
}

} // verus!
