use vstd::prelude::*;

use crate::ast::basic::{BoundedSeparated, Space};

verus! {

/// The entries for which `outcomes` holds an `Ok`, each with the value of
/// its `Ok` in place of its element, in their order.
pub open spec fn kept_entries<E, E1, E2>(
    entries: Seq<(Space, E, Space)>,
    outcomes: Seq<Result<E1, E2>>,
) -> Seq<(Space, E1, Space)>
    decreases entries.len(),
{
    if entries.len() == 0 || outcomes.len() != entries.len() {
        Seq::empty()
    } else {
        let rest = kept_entries(entries.drop_last(), outcomes.drop_last());
        match outcomes.last() {
            Ok(elem) => rest.push((entries.last().0, elem, entries.last().2)),
            Err(_) => rest,
        }
    }
}

/// The entries for which `outcomes` holds an `Err`, each with the value of
/// its `Err` in place of its element, in their order.
pub open spec fn removed_entries<E, E1, E2>(
    entries: Seq<(Space, E, Space)>,
    outcomes: Seq<Result<E1, E2>>,
) -> Seq<(Space, E2, Space)>
    decreases entries.len(),
{
    if entries.len() == 0 || outcomes.len() != entries.len() {
        Seq::empty()
    } else {
        let rest = removed_entries(entries.drop_last(), outcomes.drop_last());
        match outcomes.last() {
            Ok(_) => rest,
            Err(elem) => rest.push((entries.last().0, elem, entries.last().2)),
        }
    }
}

impl<E> BoundedSeparated<E> {
    /// One step of desugaring on a list: `desugar_elem` is tried on the
    /// elements from left to right, up to and including the first that it
    /// changes. The elements behind that one, and all trivia, stay as they
    /// are.
    pub fn desugar<F: Fn(E) -> (E, bool)>(self, desugar_elem: F) -> (r: (Self, bool))
        requires
            forall|i: int|
                0 <= i < self.elems@.len() ==> desugar_elem.requires(((#[trigger] self.elems@[i]).1,)),
        ensures
            r.0.span == self.span,
            r.0.trailing == self.trailing,
            r.0.elems@.len() == self.elems@.len(),
            forall|i: int|
                0 <= i < self.elems@.len() ==> (#[trigger] r.0.elems@[i]).0 == self.elems@[i].0
                    && r.0.elems@[i].2 == self.elems@[i].2,
            !r.1 ==> forall|i: int|
                0 <= i < self.elems@.len() ==> desugar_elem.ensures(
                    (self.elems@[i].1,),
                    ((#[trigger] r.0.elems@[i]).1, false),
                ),
            r.1 ==> exists|at: int|
                0 <= at < self.elems@.len() && desugar_elem.ensures(
                    (self.elems@[at].1,),
                    (r.0.elems@[at].1, true),
                ) && (forall|i: int|
                    0 <= i < at ==> desugar_elem.ensures(
                        (self.elems@[i].1,),
                        ((#[trigger] r.0.elems@[i]).1, false),
                    )) && (forall|i: int|
                    at < i < self.elems@.len() ==> (#[trigger] r.0.elems@[i]).1
                        == self.elems@[i].1),
    {
        let mut desugared = false;
        let mut elems: Vec<(Space, E, Space)> = Vec::new();
        let ghost total = self.elems@;
        let ghost mut found: int = 0;
        for entry in it: self.elems
            invariant
                it.seq() == total,
                forall|i: int|
                    0 <= i < total.len() ==> desugar_elem.requires(((#[trigger] total[i]).1,)),
                elems@.len() == it.index(),
                forall|i: int|
                    0 <= i < it.index() ==> (#[trigger] elems@[i]).0 == total[i].0 && elems@[i].2
                        == total[i].2,
                !desugared ==> forall|i: int|
                    0 <= i < it.index() ==> desugar_elem.ensures(
                        (total[i].1,),
                        ((#[trigger] elems@[i]).1, false),
                    ),
                desugared ==> 0 <= found < it.index() && desugar_elem.ensures(
                    (total[found].1,),
                    (elems@[found].1, true),
                ) && (forall|i: int|
                    0 <= i < found ==> desugar_elem.ensures(
                        (total[i].1,),
                        ((#[trigger] elems@[i]).1, false),
                    )) && (forall|i: int|
                    found < i < it.index() ==> (#[trigger] elems@[i]).1 == total[i].1),
        {
            let (s0, elem, s1) = entry;
            if desugared {
                elems.push((s0, elem, s1));
            } else {
                let (elem, elem_desugared) = desugar_elem(elem);
                proof {
                    if elem_desugared {
                        found = it.index() as int;
                    }
                }
                desugared = desugared || elem_desugared;
                elems.push((s0, elem, s1));
            }
        }
        let new = Self { elems, trailing: self.trailing, span: self.span };
        (new, desugared)
    }

    /// The list with `f` applied to every element. The trivia stays as it
    /// is.
    pub fn map<E2, F: Fn(E) -> E2>(self, f: F) -> (list: BoundedSeparated<E2>)
        requires
            forall|i: int| 0 <= i < self.elems@.len() ==> f.requires(((#[trigger] self.elems@[i]).1,)),
        ensures
            list.span == self.span,
            list.trailing == self.trailing,
            list.elems@.len() == self.elems@.len(),
            forall|i: int|
                0 <= i < self.elems@.len() ==> (#[trigger] list.elems@[i]).0 == self.elems@[i].0
                    && f.ensures((self.elems@[i].1,), list.elems@[i].1) && list.elems@[i].2
                    == self.elems@[i].2,
    {
        let mut elems: Vec<(Space, E2, Space)> = Vec::new();
        let ghost total = self.elems@;
        for entry in it: self.elems
            invariant
                it.seq() == total,
                forall|i: int| 0 <= i < total.len() ==> f.requires(((#[trigger] total[i]).1,)),
                elems@.len() == it.index(),
                forall|i: int|
                    0 <= i < it.index() ==> (#[trigger] elems@[i]).0 == total[i].0 && f.ensures(
                        (total[i].1,),
                        elems@[i].1,
                    ) && elems@[i].2 == total[i].2,
        {
            let (s0, elem, s1) = entry;
            elems.push((s0, f(elem), s1));
        }
        BoundedSeparated { elems, trailing: self.trailing, span: self.span }
    }

    /// Splits the list by `f`: the elements for which `f` gives an `Ok`
    /// stay, with the value of the `Ok` in their place, and those for which
    /// it gives an `Err` leave, with the value of the `Err`. Both keep their
    /// order and the trivia around them.
    pub fn remove_map<E1, E2, F: Fn(E) -> Result<E1, E2>>(self, f: F) -> (r: (
        BoundedSeparated<E1>,
        Vec<(Space, E2, Space)>,
    ))
        requires
            forall|i: int| 0 <= i < self.elems@.len() ==> f.requires(((#[trigger] self.elems@[i]).1,)),
        ensures
            r.0.span == self.span,
            r.0.trailing == self.trailing,
            exists|outcomes: Seq<Result<E1, E2>>|
                outcomes.len() == self.elems@.len() && (forall|i: int|
                    0 <= i < self.elems@.len() ==> f.ensures(
                        (self.elems@[i].1,),
                        #[trigger] outcomes[i],
                    )) && r.0.elems@ == kept_entries(self.elems@, outcomes) && r.1@
                    == removed_entries(self.elems@, outcomes),
    {
        let mut kept: Vec<(Space, E1, Space)> = Vec::new();
        let mut removed: Vec<(Space, E2, Space)> = Vec::new();
        let ghost total = self.elems@;
        let ghost mut outcomes: Seq<Result<E1, E2>> = Seq::empty();
        for entry in it: self.elems
            invariant
                it.seq() == total,
                forall|i: int| 0 <= i < total.len() ==> f.requires(((#[trigger] total[i]).1,)),
                outcomes.len() == it.index(),
                forall|i: int|
                    0 <= i < it.index() ==> f.ensures((total[i].1,), #[trigger] outcomes[i]),
                kept@ == kept_entries(total.take(it.index()), outcomes),
                removed@ == removed_entries(total.take(it.index()), outcomes),
        {
            let ghost k = it.index() as int;
            let ghost before = outcomes;
            let (s0, elem, s1) = entry;
            let outcome = f(elem);
            proof {
                outcomes = before.push(outcome);
                assert(total.take(k + 1).drop_last() =~= total.take(k));
                assert(outcomes.drop_last() =~= before);
                assert(total.take(k + 1).last() == total[k]);
            }
            match outcome {
                Ok(elem) => kept.push((s0, elem, s1)),
                Err(elem) => removed.push((s0, elem, s1)),
            }
        }
        assert(total.take(total.len() as int) =~= total);
        let new = BoundedSeparated { elems: kept, trailing: self.trailing, span: self.span };
        (new, removed)
    }
}

} // verus!
