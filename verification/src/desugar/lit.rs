use vstd::prelude::*;

use crate::ast::basic::{BoundedSeparated, BoundedSeparatedView, Space, SpaceView};
use crate::ast::expr::{Expr, ExprView};
use crate::ast::lit::{Lit, LitView, TableLit, TableLitElem, TableLitElemView, TableLitView};
use crate::desugar::laws::lemma_unchanged_elem;

verus! {

impl TableLitElemView {
    /// One step of desugaring: a step of the expression that the entry
    /// holds.
    pub open spec fn desugar(self) -> (TableLitElemView, bool)
        decreases self, 0int,
    {
        match self {
            TableLitElemView::Positional(value) => {
                let r = value.desugar();
                (TableLitElemView::Positional(Box::new(r.0)), r.1)
            },
            TableLitElemView::Named { name, s0, s1, value, span } => {
                let r = value.desugar();
                (TableLitElemView::Named { name, s0, s1, value: Box::new(r.0), span }, r.1)
            },
        }
    }

    /// Whether this is a named entry whose value is the literal `nil`.
    pub open spec fn is_nil_entry(self) -> bool {
        self matches TableLitElemView::Named { value, .. } && *value matches ExprView::Lit(
            LitView::Nil(_),
        )
    }
}

/// One step of desugaring on the entries of a table literal from index
/// `from` on: the first of them that can take a step takes it, and the
/// others stay as they are.
pub open spec fn desugar_first(
    elems: Seq<(SpaceView, TableLitElemView, SpaceView)>,
    from: int,
) -> (Seq<(SpaceView, TableLitElemView, SpaceView)>, bool)
    decreases elems, elems.len() - from,
{
    if 0 <= from < elems.len() {
        let r = elems[from].1.desugar();
        if r.1 {
            (elems.update(from, (elems[from].0, r.0, elems[from].2)), true)
        } else {
            desugar_first(elems, from + 1)
        }
    } else {
        (elems, false)
    }
}

/// The entries without the named entries whose value is the literal `nil`.
pub open spec fn without_nil(elems: Seq<(SpaceView, TableLitElemView, SpaceView)>) -> Seq<
    (SpaceView, TableLitElemView, SpaceView),
>
    decreases elems.len(),
{
    if elems.len() == 0 {
        elems
    } else if elems.last().1.is_nil_entry() {
        without_nil(elems.drop_last())
    } else {
        without_nil(elems.drop_last()).push(elems.last())
    }
}

impl TableLitView {
    /// One step of desugaring: the first entry that can take a step takes
    /// it. If none can, the named entries whose value is the literal `nil`
    /// are dropped, all at once.
    pub open spec fn desugar(self) -> (TableLitView, bool)
        decreases self, 0int,
    {
        let r = desugar_first(self.0.elems, 0);
        if r.1 {
            (
                TableLitView(
                    BoundedSeparatedView {
                        elems: r.0,
                        trailing: self.0.trailing,
                        span: self.0.span,
                    },
                ),
                true,
            )
        } else {
            let kept = without_nil(self.0.elems);
            (
                TableLitView(
                    BoundedSeparatedView {
                        elems: kept,
                        trailing: self.0.trailing,
                        span: self.0.span,
                    },
                ),
                kept.len() != self.0.elems.len(),
            )
        }
    }
}

impl LitView {
    /// One step of desugaring: a step of the table literal, if it is one.
    /// No other literal can be reduced.
    pub open spec fn desugar(self) -> (LitView, bool)
        decreases self, 0int,
    {
        match self {
            LitView::Table(table) => {
                let r = table.desugar();
                (LitView::Table(r.0), r.1)
            },
            _ => (self, false),
        }
    }
}

impl TableLitElem {
    /// One step of desugaring, as [`TableLitElemView::desugar`] describes it.
    pub fn desugar(self) -> (r: (Self, bool))
        ensures
            r.0@ == self@.desugar().0,
            r.1 == self@.desugar().1,
        decreases self, 0int,
    {
        match self {
            Self::Positional(expr) => {
                let (expr, desugared) = (*expr).desugar();
                let new = Self::Positional(expr.boxed());
                assert(new@ is Positional);
                (new, desugared)
            },
            Self::Named { name, s0, s1, value, span } => {
                let (value, desugared) = (*value).desugar();
                let new = Self::Named { name, s0, s1, value: value.boxed(), span };
                assert(new@ is Named);
                (new, desugared)
            },
        }
    }

    /// Whether this is a named entry whose value is the literal `nil`.
    pub fn is_nil_entry(&self) -> (nil: bool)
        ensures
            nil == self@.is_nil_entry(),
    {
        match self {
            Self::Named { value, .. } => match &**value {
                Expr::Lit(Lit::Nil(_)) => true,
                _ => false,
            },
            Self::Positional(_) => false,
        }
    }
}

/// The views of the entries of a table literal.
pub open spec fn entries_view(elems: Seq<(Space, TableLitElem, Space)>) -> Seq<
    (SpaceView, TableLitElemView, SpaceView),
> {
    elems.map_values(|t: (Space, TableLitElem, Space)| (t.0@, t.1@, t.2@))
}

impl TableLit {
    /// One step of desugaring, as [`TableLitView::desugar`] describes it.
    pub fn desugar(self) -> (r: (Self, bool))
        ensures
            r.0@ == self@.desugar().0,
            r.1 == self@.desugar().1,
        decreases self, 0int,
    {
        let ghost before = self@.0.elems;
        let trailing = self.0.trailing;
        let span = self.0.span;
        let elems = self.0.elems;
        assert(forall|i: int|
            0 <= i < elems@.len() ==> decreases_to!(self => (#[trigger] elems@[i]).1));

        let mut stepped: Vec<(Space, TableLitElem, Space)> = Vec::new();
        let mut desugared = false;
        let ghost total = elems@;
        let ghost mut target = before;
        for entry in it: elems
            invariant
                it.seq() == total,
                before.len() == total.len(),
                forall|i: int|
                    0 <= i < total.len() ==> before[i] == (
                        (#[trigger] total[i]).0@,
                        total[i].1@,
                        total[i].2@,
                    ),
                forall|i: int|
                    0 <= i < total.len() ==> decreases_to!(self => (#[trigger] total[i]).1),
                stepped@.len() == it.index(),
                target.len() == before.len(),
                forall|j: int|
                    0 <= j < it.index() ==> (
                        (#[trigger] stepped@[j]).0@,
                        stepped@[j].1@,
                        stepped@[j].2@,
                    ) == target[j],
                forall|j: int| it.index() <= j < before.len() ==> #[trigger] target[j] == before[j],
                desugared ==> desugar_first(before, 0) == (target, true),
                !desugared ==> target == before,
                !desugared ==> desugar_first(before, 0) == desugar_first(before, it.index() as int),
        {
            let ghost k = it.index() as int;
            let (s0, elem, s1) = entry;
            if desugared {
                stepped.push((s0, elem, s1));
            } else {
                let (elem, elem_desugared) = elem.desugar();
                proof {
                    if elem_desugared {
                        target = before.update(k, (before[k].0, elem@, before[k].2));
                    } else {
                        lemma_unchanged_elem(before[k].1);
                    }
                }
                desugared = elem_desugared;
                stepped.push((s0, elem, s1));
            }
        }
        assert(entries_view(stepped@) =~= target);
        if desugared {
            let list = BoundedSeparated { elems: stepped, trailing, span };
            assert(list@.elems =~= entries_view(stepped@));
            (list.table_lit(), true)
        } else {
            let mut kept: Vec<(Space, TableLitElem, Space)> = Vec::new();
            let ghost all = stepped@;
            let count = stepped.len();
            assert(before == entries_view(all));
            for entry in it: stepped
                invariant
                    it.seq() == all,
                    before == entries_view(all),
                    entries_view(kept@) == without_nil(before.take(it.index() as int)),
            {
                let ghost k = it.index() as int;
                assert(before.take(k + 1).drop_last() =~= before.take(k));
                assert(before.take(k + 1).last() == before[k]);
                assert(before[k] == (entry.0@, entry.1@, entry.2@));
                if !entry.1.is_nil_entry() {
                    kept.push(entry);
                    assert(entries_view(kept@) =~= without_nil(before.take(k)).push(before[k]));
                }
            }
            assert(before.take(all.len() as int) =~= before);
            let removed = kept.len() != count;
            let list = BoundedSeparated { elems: kept, trailing, span };
            assert(list@.elems =~= entries_view(kept@));
            (list.table_lit(), removed)
        }
    }
}

impl Lit {
    /// One step of desugaring, as [`LitView::desugar`] describes it.
    pub fn desugar(self) -> (r: (Self, bool))
        ensures
            r.0@ == self@.desugar().0,
            r.1 == self@.desugar().1,
        decreases self, 0int,
    {
        match self {
            Self::Table(table) => {
                let (table, desugared) = table.desugar();
                (table.lit(), desugared)
            },
            lit => (lit, false),
        }
    }
}

} // verus!
