//! Normal forms: what is left when desugaring can take no further step.

use vstd::prelude::*;

use crate::ast::basic::SpaceView;
use crate::ast::call::CallView;
use crate::ast::expr::ExprView;
use crate::ast::field::FieldView;
use crate::ast::lit::{LitView, TableLitElemView};
use crate::ast::program::ProgramView;
use crate::ast::var::VarView;
use crate::desugar::laws::{
    lemma_desugar_idempotent, lemma_desugar_lighter, lemma_expr_steps, lemma_without_nil_len,
};
use crate::desugar::lit::{desugar_first, without_nil};

verus! {

impl TableLitElemView {
    /// Whether the entry holds a reduced expression.
    pub open spec fn is_reduced(self) -> bool
        decreases self, 0int,
    {
        match self {
            TableLitElemView::Positional(value) => value.is_reduced(),
            TableLitElemView::Named { value, .. } => value.is_reduced(),
        }
    }

    /// Whether the entry holds an expression of the core calculus.
    pub open spec fn is_core(self) -> bool
        decreases self, 0int,
    {
        match self {
            TableLitElemView::Positional(value) => value.is_core(),
            TableLitElemView::Named { value, .. } => value.is_core(),
        }
    }
}

/// Whether every entry is reduced and no named entry holds the literal
/// `nil`.
pub open spec fn entries_reduced(elems: Seq<(SpaceView, TableLitElemView, SpaceView)>) -> bool
    decreases elems,
{
    forall|i: int|
        0 <= i < elems.len() ==> !(#[trigger] elems[i]).1.is_nil_entry()
            && elems[i].1.is_reduced()
}

impl LitView {
    /// Whether the literal is reduced: in a table literal every entry is
    /// reduced and no named entry holds the literal `nil`.
    pub open spec fn is_reduced(self) -> bool
        decreases self, 0int,
    {
        match self {
            LitView::Table(table) => entries_reduced(table.0.elems),
            _ => true,
        }
    }

    /// Whether the literal holds expressions of the core calculus only.
    pub open spec fn is_core(self) -> bool
        decreases self, 0int,
    {
        match self {
            LitView::Table(table) => forall|i: int|
                0 <= i < table.0.elems.len() ==> (#[trigger] table.0.elems[i]).1.is_core(),
            _ => true,
        }
    }
}

impl ExprView {
    /// Whether the expression is reduced: it is a reduced literal.
    pub open spec fn is_reduced(self) -> bool
        decreases self, 0int,
    {
        match self {
            ExprView::Lit(lit) => lit.is_reduced(),
            _ => false,
        }
    }

    /// Whether the expression is built from the forms of the core calculus
    /// only: literals, calls with one argument, field access and assignment
    /// with brackets, and variable access and assignment with brackets.
    pub open spec fn is_core(self) -> bool
        decreases self, 0int,
    {
        match self {
            ExprView::Lit(lit) => lit.is_core(),
            ExprView::Call(CallView::Arg { expr, arg, .. }) => expr.is_core() && arg.is_core(),
            ExprView::Field(FieldView::Access { expr, index, .. }) => expr.is_core()
                && index.is_core(),
            ExprView::Field(FieldView::Assign { expr, index, value, .. }) => expr.is_core()
                && index.is_core() && value.is_core(),
            ExprView::Var(VarView::Access { index, .. }) => index.is_core(),
            ExprView::Var(VarView::Assign { index, value, .. }) => index.is_core()
                && value.is_core(),
            _ => false,
        }
    }
}

impl ProgramView {
    /// Whether the program is reduced: it is a reduced expression.
    pub open spec fn is_reduced(self) -> bool {
        self matches ProgramView::Expr { expr, .. } && expr.is_reduced()
    }

    /// Whether the program is an expression of the core calculus.
    pub open spec fn is_core(self) -> bool {
        self matches ProgramView::Expr { expr, .. } && expr.is_core()
    }

    /// The program after `steps` steps of desugaring.
    pub open spec fn desugar_times(self, steps: nat) -> ProgramView
        decreases steps,
    {
        if steps == 0 {
            self
        } else {
            self.desugar().0.desugar_times((steps - 1) as nat)
        }
    }
}

/// The entries of a table literal can take a step exactly if one of them
/// can.
pub proof fn lemma_first_steps(elems: Seq<(SpaceView, TableLitElemView, SpaceView)>, from: int)
    requires
        0 <= from,
    ensures
        !desugar_first(elems, from).1 <==> forall|i: int|
            from <= i < elems.len() ==> !(#[trigger] elems[i]).1.desugar().1,
    decreases elems.len() - from,
{
    if from < elems.len() {
        lemma_first_steps(elems, from + 1);
    }
}

/// Dropping the `nil` entries keeps the length of a list exactly if the
/// list has no such entry.
pub proof fn lemma_without_nil_keeps(elems: Seq<(SpaceView, TableLitElemView, SpaceView)>)
    ensures
        without_nil(elems).len() == elems.len() <==> forall|i: int|
            0 <= i < elems.len() ==> !(#[trigger] elems[i]).1.is_nil_entry(),
    decreases elems.len(),
{
    if elems.len() > 0 {
        let shorter = elems.drop_last();
        lemma_without_nil_keeps(shorter);
        lemma_without_nil_len(shorter);
        if without_nil(elems).len() == elems.len() {
            assert forall|i: int| 0 <= i < elems.len() implies !(#[trigger] elems[i]).1.is_nil_entry() by {
                if i < shorter.len() {
                    assert(shorter[i] == elems[i]);
                }
            }
        }
        if forall|i: int| 0 <= i < elems.len() ==> !(#[trigger] elems[i]).1.is_nil_entry() {
            assert(!elems.last().1.is_nil_entry());
            assert forall|i: int| 0 <= i < shorter.len() implies !(#[trigger] shorter[i]).1.is_nil_entry() by {
                assert(shorter[i] == elems[i]);
            }
        }
    }
}

/// An entry can take no step exactly if it is reduced.
pub proof fn lemma_elem_normal(elem: TableLitElemView)
    ensures
        !elem.desugar().1 <==> elem.is_reduced(),
    decreases elem, 0int,
{
    match elem {
        TableLitElemView::Positional(value) => lemma_expr_normal(*value),
        TableLitElemView::Named { value, .. } => lemma_expr_normal(*value),
    }
}

/// The entries of a table literal can take no step, and none of them is
/// dropped, exactly if they are reduced.
pub proof fn lemma_entries_normal(elems: Seq<(SpaceView, TableLitElemView, SpaceView)>)
    ensures
        (!desugar_first(elems, 0).1 && without_nil(elems).len() == elems.len())
            <==> entries_reduced(elems),
    decreases elems, 1int,
{
    lemma_first_steps(elems, 0);
    lemma_without_nil_keeps(elems);
    lemma_each_elem_normal(elems);
}

/// Each entry of a table literal can take no step exactly if it is
/// reduced.
pub proof fn lemma_each_elem_normal(elems: Seq<(SpaceView, TableLitElemView, SpaceView)>)
    ensures
        forall|i: int|
            0 <= i < elems.len() ==> (!(#[trigger] elems[i]).1.desugar().1
                <==> elems[i].1.is_reduced()),
    decreases elems, 0int,
{
    assert forall|i: int| 0 <= i < elems.len() implies (!(#[trigger] elems[i]).1.desugar().1
        <==> elems[i].1.is_reduced()) by {
        lemma_elem_normal(elems[i].1);
    }
}

/// A literal can take no step exactly if it is reduced.
pub proof fn lemma_lit_normal(lit: LitView)
    ensures
        !lit.desugar().1 <==> lit.is_reduced(),
    decreases lit, 0int,
{
    if let LitView::Table(table) = lit {
        let elems = table.0.elems;
        lemma_entries_normal(elems);
        assert(table.desugar().1 == (desugar_first(elems, 0).1 || without_nil(elems).len()
            != elems.len()));
        assert(lit.desugar().1 == table.desugar().1);
        assert(lit.is_reduced() == entries_reduced(elems));
    }
}

/// Normal forms: an expression can take no step exactly if it is reduced,
/// that is, if it is a literal in which every table entry is reduced and no
/// named entry holds `nil`.
pub proof fn lemma_expr_normal(expr: ExprView)
    ensures
        !expr.desugar().1 <==> expr.is_reduced(),
    decreases expr, 0int,
{
    lemma_expr_steps(expr);
    if let ExprView::Lit(lit) = expr {
        lemma_lit_normal(lit);
    }
}

/// A reduced entry holds an expression of the core calculus.
pub proof fn lemma_elem_core(elem: TableLitElemView)
    requires
        elem.is_reduced(),
    ensures
        elem.is_core(),
    decreases elem,
{
    match elem {
        TableLitElemView::Positional(value) => lemma_expr_core(*value),
        TableLitElemView::Named { value, .. } => lemma_expr_core(*value),
    }
}

/// A reduced expression is built from the forms of the core calculus only.
pub proof fn lemma_expr_core(expr: ExprView)
    requires
        expr.is_reduced(),
    ensures
        expr.is_core(),
    decreases expr,
{
    if let ExprView::Lit(lit) = expr {
        if let LitView::Table(table) = lit {
            let elems = table.0.elems;
            assert(lit.is_reduced());
            assert(entries_reduced(elems));
            assert forall|i: int| 0 <= i < elems.len() implies (#[trigger] elems[i]).1.is_core() by {
                lemma_elem_core(elems[i].1);
            }
        }
        assert(lit.is_core());
    }
}

/// Normal forms of programs: a program can take no step exactly if it is
/// reduced, and a reduced program is an expression of the core calculus.
pub proof fn lemma_program_normal(program: ProgramView)
    ensures
        !program.desugar().1 <==> program.is_reduced(),
        program.is_reduced() ==> program.is_core(),
{
    if let ProgramView::Expr { expr, .. } = program {
        lemma_expr_normal(expr);
        if expr.is_reduced() {
            lemma_expr_core(expr);
        }
    }
}

/// A program that can take no step stays as it is, however many steps are
/// tried.
pub proof fn lemma_normal_stays(program: ProgramView, steps: nat)
    requires
        !program.desugar().1,
    ensures
        program.desugar_times(steps) == program,
    decreases steps,
{
    if steps > 0 {
        lemma_desugar_idempotent(program);
        lemma_normal_stays(program, (steps - 1) as nat);
    }
}

/// Desugaring reaches a fixed point within a bounded number of steps: after
/// as many steps as the program weighs, or more, no further step changes
/// the program, and what is left is an expression of the core calculus.
pub proof fn lemma_desugar_terminates(program: ProgramView, steps: nat)
    requires
        steps >= program.weight(),
    ensures
        !program.desugar_times(steps).desugar().1,
        program.desugar_times(steps).is_reduced(),
        program.desugar_times(steps).is_core(),
    decreases steps,
{
    if program.desugar().1 {
        lemma_desugar_lighter(program);
        lemma_desugar_terminates(program.desugar().0, (steps - 1) as nat);
    } else {
        lemma_normal_stays(program, steps);
        lemma_program_normal(program);
    }
}

} // verus!
