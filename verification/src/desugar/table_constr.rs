use vstd::prelude::*;

use crate::ast::basic::{
    BoundedSeparated, BoundedSeparatedView, Ident, IdentView, Line, LineView, Space, SpaceView,
};
use crate::ast::expr::{Expr, ExprView};
use crate::ast::field::{Field, FieldView};
use crate::ast::lit::{Lit, LitView, TableLit, TableLitElem, TableLitElemView, TableLitView};
use crate::ast::table_constr::{TableConstr, TableConstrElem, TableConstrElemView, TableConstrView};
use crate::desugar::expr::step_child;
use crate::desugar::laws::lemma_unchanged_elem;
use crate::desugar::lit::entries_view;
use crate::span::HasSpan;

verus! {

/// The literal entries among the entries of a table constructor, in their
/// order and with their trivia.
pub open spec fn lit_entries(elems: Seq<(SpaceView, TableConstrElemView, SpaceView)>) -> Seq<
    (SpaceView, TableLitElemView, SpaceView),
>
    decreases elems.len(),
{
    if elems.len() == 0 {
        Seq::empty()
    } else {
        match elems.last().1 {
            TableConstrElemView::Lit(lit) => lit_entries(elems.drop_last()).push(
                (elems.last().0, lit, elems.last().2),
            ),
            TableConstrElemView::Indexed { .. } => lit_entries(elems.drop_last()),
        }
    }
}

/// The indexed entries among the entries of a table constructor, in their
/// order and with their trivia.
pub open spec fn indexed_entries(elems: Seq<(SpaceView, TableConstrElemView, SpaceView)>) -> Seq<
    (SpaceView, TableConstrElemView, SpaceView),
>
    decreases elems.len(),
{
    if elems.len() == 0 {
        Seq::empty()
    } else {
        match elems.last().1 {
            TableConstrElemView::Lit(_) => indexed_entries(elems.drop_last()),
            TableConstrElemView::Indexed { .. } => indexed_entries(elems.drop_last()).push(
                elems.last(),
            ),
        }
    }
}

/// The assignment `target[index] = value` that stands for the indexed entry
/// `[index]: value` of a table constructor. The trivia before the entry goes
/// before the bracket, the trivia behind it before the value.
pub open spec fn setter(target: ExprView, entry: (SpaceView, TableConstrElemView, SpaceView))
    -> ExprView {
    match entry.1 {
        TableConstrElemView::Indexed { s0, index, s1, s2, s3, value, span } => ExprView::Field(
            FieldView::Assign {
                expr: Box::new(target),
                s0: entry.0,
                s1: s0,
                index,
                s2: s1,
                s3: s2,
                s4: s3.then_line(LineView::Empty).then_space(entry.2),
                value,
                span,
            },
        ),
        TableConstrElemView::Lit(_) => target,
    }
}

/// The assignments for the entries, chained from left to right on `base`.
pub open spec fn apply_setters(
    base: ExprView,
    entries: Seq<(SpaceView, TableConstrElemView, SpaceView)>,
) -> ExprView
    decreases entries.len(),
{
    if entries.len() == 0 {
        base
    } else {
        setter(apply_setters(base, entries.drop_last()), entries.last())
    }
}

impl TableConstrView {
    /// The table literal `'{raw: '{..}}` that holds the literal entries of
    /// the constructor.
    pub open spec fn raw_table(self) -> ExprView {
        let span = self.0.span;
        let raw = TableLitView(
            BoundedSeparatedView {
                elems: lit_entries(self.0.elems),
                trailing: self.0.trailing,
                span,
            },
        );
        let raw_elem = TableLitElemView::named(
            IdentView { name: "raw"@, span },
            ExprView::Lit(LitView::Table(raw)),
            span,
        );
        ExprView::Lit(
            LitView::Table(TableLitView(BoundedSeparatedView::new(span).then_elem(raw_elem))),
        )
    }

    /// The rule of the node itself: `{a, foo: b, [k]: v}` becomes
    /// `'{raw: '{a, foo: b}}[k] = v`, with one assignment for each indexed
    /// entry, chained from left to right.
    #[verifier::opaque]
    pub open spec fn rewrite(self) -> ExprView {
        apply_setters(self.raw_table(), indexed_entries(self.0.elems))
    }
}

/// The views of the entries of a table constructor.
pub open spec fn constr_entries_view(elems: Seq<(Space, TableConstrElem, Space)>) -> Seq<
    (SpaceView, TableConstrElemView, SpaceView),
> {
    elems.map_values(|t: (Space, TableConstrElem, Space)| (t.0@, t.1@, t.2@))
}

/// The table literal that holds `elem` alone, without trivia.
pub fn table_lit_of_one(elem: TableLitElem, span: crate::span::Span) -> (table: TableLit)
    ensures
        table@ == TableLitView(BoundedSeparatedView::new(span).then_elem(elem@)),
{
    let list = BoundedSeparated::new(span).then_elem(elem);
    assert(list@.elems =~= BoundedSeparatedView::new(span).then_elem(elem@).elems);
    list.table_lit()
}

impl TableConstr {
    /// The rule of the node itself, as [`TableConstrView::rewrite`] describes it.
    pub fn rewrite(self) -> (r: Expr)
        ensures
            r@ == self@.rewrite(),
    {
        proof {
            reveal(TableConstrView::rewrite);
        }
        let ghost before = self@.0.elems;
        let span = self.span();
        let trailing = self.0.trailing;
        let elems = self.0.elems;
        assert(before =~= constr_entries_view(elems@));

        let mut kept: Vec<(Space, TableLitElem, Space)> = Vec::new();
        let mut setters: Vec<(Space, TableConstrElem, Space)> = Vec::new();
        let ghost total = elems@;
        for entry in it: elems
            invariant
                it.seq() == total,
                before == constr_entries_view(total),
                entries_view(kept@) == lit_entries(before.take(it.index() as int)),
                constr_entries_view(setters@) == indexed_entries(before.take(it.index() as int)),
        {
            let ghost k = it.index() as int;
            assert(before.take(k + 1).drop_last() =~= before.take(k));
            assert(before.take(k + 1).last() == before[k]);
            let (s0, elem, s1) = entry;
            assert(before[k] == (s0@, elem@, s1@));
            match elem {
                TableConstrElem::Lit(lit) => {
                    kept.push((s0, lit, s1));
                    assert(entries_view(kept@) =~= lit_entries(before.take(k)).push(
                        (s0@, lit@, s1@),
                    ));
                },
                indexed => {
                    setters.push((s0, indexed, s1));
                    assert(constr_entries_view(setters@) =~= indexed_entries(before.take(k)).push(
                        before[k],
                    ));
                },
            }
        }
        assert(before.take(total.len() as int) =~= before);

        let raw = BoundedSeparated { elems: kept, trailing, span };
        assert(raw@.elems =~= lit_entries(before));
        let raw_elem = TableLitElem::named(
            Ident::new("raw", span),
            raw.table_lit().lit().expr().boxed(),
            span,
        );
        let mut expr = table_lit_of_one(raw_elem, span).lit().expr();
        let ghost base = expr@;
        assert(base == self@.raw_table());

        let ghost entries = constr_entries_view(setters@);
        let ghost all = setters@;
        for entry in it: setters
            invariant
                it.seq() == all,
                entries == constr_entries_view(all),
                expr@ == apply_setters(base, entries.take(it.index() as int)),
        {
            let ghost k = it.index() as int;
            assert(entries.take(k + 1).drop_last() =~= entries.take(k));
            assert(entries.take(k + 1).last() == entries[k]);
            let (s0, elem, s5) = entry;
            assert(entries[k] == (s0@, elem@, s5@));
            match elem {
                TableConstrElem::Indexed { s0: s1, index, s1: s2, s2: s3, s3: s4, value, span } => {
                    let assign = Field::Assign {
                        expr: expr.boxed(),
                        s0,
                        s1,
                        index,
                        s2,
                        s3,
                        s4: s4.then_line(Line::Empty).then_space(s5),
                        value,
                        span,
                    };
                    assert(assign@ is Assign);
                    expr = assign.expr();
                },
                TableConstrElem::Lit(_) => {},
            }
        }
        assert(entries.take(all.len() as int) =~= entries);
        expr
    }
}

} // verus!

verus! {

impl TableConstrElemView {
    /// One step of desugaring on an entry: the first of the expressions
    /// that it holds that can take a step takes it.
    pub open spec fn desugar(self) -> (TableConstrElemView, bool)
        decreases self, 0int,
    {
        match self {
            TableConstrElemView::Lit(lit) => {
                let r = lit.desugar();
                if r.1 {
                    (TableConstrElemView::Lit(r.0), true)
                } else {
                    (self, false)
                }
            },
            TableConstrElemView::Indexed { s0, index, s1, s2, s3, value, span } => {
                let index_step = index.desugar();
                let value_step = value.desugar();
                if index_step.1 {
                    (
                        TableConstrElemView::Indexed {
                            s0,
                            index: Box::new(index_step.0),
                            s1,
                            s2,
                            s3,
                            value,
                            span,
                        },
                        true,
                    )
                } else if value_step.1 {
                    (
                        TableConstrElemView::Indexed {
                            s0,
                            index,
                            s1,
                            s2,
                            s3,
                            value: Box::new(value_step.0),
                            span,
                        },
                        true,
                    )
                } else {
                    (self, false)
                }
            },
        }
    }
}

/// One step of desugaring on the entries of a table constructor from index
/// `from` on: the first of them that can take a step takes it, and the
/// others stay as they are.
pub open spec fn constr_first(
    elems: Seq<(SpaceView, TableConstrElemView, SpaceView)>,
    from: int,
) -> (Seq<(SpaceView, TableConstrElemView, SpaceView)>, bool)
    decreases elems, elems.len() - from,
{
    if 0 <= from < elems.len() {
        let r = elems[from].1.desugar();
        if r.1 {
            (elems.update(from, (elems[from].0, r.0, elems[from].2)), true)
        } else {
            constr_first(elems, from + 1)
        }
    } else {
        (elems, false)
    }
}

impl TableConstrView {
    /// A step of the first entry of the constructor that can take one.
    pub open spec fn step_children(self) -> (TableConstrView, bool)
        decreases self, 0int,
    {
        let r = constr_first(self.0.elems, 0);
        (
            TableConstrView(
                BoundedSeparatedView { elems: r.0, trailing: self.0.trailing, span: self.0.span },
            ),
            r.1,
        )
    }

    /// One step of desugaring: the first of the expressions that the
    /// constructor holds, in their order in the source, that can take a
    /// step takes it, and all else stays. Only if none can step is the
    /// constructor itself rewritten, by its rule.
    pub open spec fn desugar(self) -> (ExprView, bool)
        decreases self, 1int,
    {
        let r = self.step_children();
        if r.1 {
            (ExprView::TableConstr(r.0), true)
        } else {
            (self.rewrite(), true)
        }
    }
}

impl TableConstrElem {
    /// One step of desugaring, as [`TableConstrElemView::desugar`]
    /// describes it.
    pub fn desugar(self) -> (r: (Self, bool))
        ensures
            r.0@ == self@.desugar().0,
            r.1 == self@.desugar().1,
        decreases self, 0int,
    {
        match self {
            Self::Lit(lit) => {
                proof {
                    lemma_unchanged_elem(lit@);
                }
                let (lit, changed) = lit.desugar();
                let new = Self::Lit(lit);
                assert(new@ is Lit);
                (new, changed)
            },
            Self::Indexed { s0, index, s1, s2, s3, value, span } => {
                let (index, changed) = step_child(index);
                if changed {
                    let new = Self::Indexed { s0, index, s1, s2, s3, value, span };
                    assert(new@ is Indexed);
                    return (new, true);
                }
                let (value, changed) = step_child(value);
                let new = Self::Indexed { s0, index, s1, s2, s3, value, span };
                assert(new@ is Indexed);
                (new, changed)
            },
        }
    }
}

impl TableConstr {
    /// A step of the first entry that can take one, as
    /// [`TableConstrView::step_children`] describes it. Where no entry can,
    /// the constructor comes back as it was.
    pub fn step_children(self) -> (r: (Self, bool))
        ensures
            r.0@ == self@.step_children().0,
            r.1 == self@.step_children().1,
            !r.1 ==> r.0@ == self@,
        decreases self, 0int,
    {
        let ghost before = self@.0.elems;
        let trailing = self.0.trailing;
        let span = self.0.span;
        let elems = self.0.elems;
        assert(forall|i: int|
            0 <= i < elems@.len() ==> decreases_to!(self => (#[trigger] elems@[i]).1));

        let mut stepped: Vec<(Space, TableConstrElem, Space)> = Vec::new();
        let mut desugared = false;
        let ghost total = elems@;
        let ghost mut target = before;
        for entry in it: elems
            invariant
                it.seq() == total,
                before.len() == total.len(),
                forall|i: int|
                    0 <= i < total.len() ==> before[i] == (
                        (#[trigger] total[i]).0@,
                        total[i].1@,
                        total[i].2@,
                    ),
                forall|i: int|
                    0 <= i < total.len() ==> decreases_to!(self => (#[trigger] total[i]).1),
                stepped@.len() == it.index(),
                target.len() == before.len(),
                forall|j: int|
                    0 <= j < it.index() ==> (
                        (#[trigger] stepped@[j]).0@,
                        stepped@[j].1@,
                        stepped@[j].2@,
                    ) == target[j],
                forall|j: int| it.index() <= j < before.len() ==> #[trigger] target[j] == before[j],
                desugared ==> constr_first(before, 0) == (target, true),
                !desugared ==> target == before,
                !desugared ==> constr_first(before, 0) == constr_first(before, it.index() as int),
        {
            let ghost k = it.index() as int;
            let (s0, elem, s1) = entry;
            if desugared {
                stepped.push((s0, elem, s1));
            } else {
                let (elem, elem_desugared) = elem.desugar();
                proof {
                    if elem_desugared {
                        target = before.update(k, (before[k].0, elem@, before[k].2));
                    }
                }
                desugared = elem_desugared;
                stepped.push((s0, elem, s1));
            }
        }
        assert(constr_entries_view(stepped@) =~= target);
        let list = BoundedSeparated { elems: stepped, trailing, span };
        assert(list@.elems =~= constr_entries_view(stepped@));
        (list.table_constr(), desugared)
    }

    /// One step of desugaring, as [`TableConstrView::desugar`] describes it.
    pub fn desugar(self) -> (r: (Expr, bool))
        ensures
            r.0@ == self@.desugar().0,
            r.1 == self@.desugar().1,
        decreases self, 1int,
    {
        let (stepped, changed) = self.step_children();
        if changed {
            (stepped.expr(), true)
        } else {
            (stepped.rewrite(), true)
        }
    }
}

} // verus!
