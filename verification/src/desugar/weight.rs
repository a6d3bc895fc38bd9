//! A measure on syntax trees that every step of desugaring makes smaller.

use vstd::prelude::*;

use crate::ast::basic::SpaceView;
use crate::ast::call::CallView;
use crate::ast::expr::ExprView;
use crate::ast::field::FieldView;
use crate::ast::func_def::FuncDefView;
use crate::ast::lit::{LitView, TableLitElemView, TableLitView};
use crate::ast::program::ProgramView;
use crate::ast::table_constr::{TableConstrElemView, TableConstrView};
use crate::ast::table_destr::TableDestrView;
use crate::ast::var::VarView;

verus! {

/// The weight of the entries of a table literal: one for each entry, and
/// the weight of what it holds.
pub open spec fn entries_weight(elems: Seq<(SpaceView, TableLitElemView, SpaceView)>) -> nat
    decreases elems, 0int,
{
    if elems.len() == 0 {
        0
    } else {
        entries_weight(elems.drop_last()) + 1 + elems.last().1.weight()
    }
}

/// The weight of the entries of a table constructor.
pub open spec fn constr_entries_weight(
    elems: Seq<(SpaceView, TableConstrElemView, SpaceView)>,
) -> nat
    decreases elems, 0int,
{
    if elems.len() == 0 {
        0
    } else {
        constr_entries_weight(elems.drop_last()) + elems.last().1.weight()
    }
}

impl TableLitElemView {
    /// The weight of the node: more than that of what a step makes of it.
    pub open spec fn weight(self) -> nat
        decreases self, 0int,
    {
        match self {
            TableLitElemView::Positional(value) => value.weight(),
            TableLitElemView::Named { value, .. } => value.weight(),
        }
    }
}

impl TableLitView {
    /// The weight of the node: more than that of what a step makes of it.
    pub open spec fn weight(self) -> nat
        decreases self, 0int,
    {
        entries_weight(self.0.elems)
    }
}

impl LitView {
    /// The weight of the node: more than that of what a step makes of it.
    pub open spec fn weight(self) -> nat
        decreases self, 0int,
    {
        match self {
            LitView::Table(table) => table.weight(),
            _ => 0,
        }
    }
}

impl TableConstrElemView {
    /// The weight of the node: more than that of what a step makes of it.
    pub open spec fn weight(self) -> nat
        decreases self, 0int,
    {
        match self {
            TableConstrElemView::Lit(lit) => 1 + lit.weight(),
            TableConstrElemView::Indexed { index, value, .. } => 10 + index.weight()
                + value.weight(),
        }
    }
}

impl TableConstrView {
    /// The weight of the node: more than that of what a step makes of it.
    pub open spec fn weight(self) -> nat
        decreases self, 0int,
    {
        2 + constr_entries_weight(self.0.elems)
    }
}

impl CallView {
    /// The weight of the node: more than that of what a step makes of it.
    pub open spec fn weight(self) -> nat
        decreases self, 0int,
    {
        match self {
            CallView::Arg { expr, arg, .. } => 3 + expr.weight() + arg.weight(),
            CallView::NoArg { expr, .. } => 4 + expr.weight(),
            CallView::Constr { expr, constr, .. } => 4 + expr.weight() + constr.weight(),
        }
    }
}

impl FieldView {
    /// The weight of the node: more than that of what a step makes of it.
    pub open spec fn weight(self) -> nat
        decreases self, 0int,
    {
        match self {
            FieldView::Access { expr, index, .. } => 9 + expr.weight() + index.weight(),
            FieldView::Assign { expr, index, value, .. } => 10 + expr.weight() + index.weight()
                + value.weight(),
            FieldView::AccessIdent { expr, .. } => 10 + expr.weight(),
            FieldView::AssignIdent { expr, value, .. } => 11 + expr.weight() + value.weight(),
        }
    }
}

impl VarView {
    /// The weight of the node: more than that of what a step makes of it.
    pub open spec fn weight(self) -> nat
        decreases self, 0int,
    {
        match self {
            VarView::Access { index, .. } => 14 + index.weight(),
            VarView::Assign { index, value, .. } => 15 + index.weight() + value.weight(),
            VarView::AccessIdent(_) => 15,
            VarView::AssignIdent { value, .. } => 16 + value.weight(),
        }
    }
}

impl TableDestrView {
    /// The weight of the node: more than that of what a step makes of it.
    pub open spec fn weight(self) -> nat
        decreases self, 0int,
    {
        12 + self.pattern.0.elems.len() + self.value.weight()
    }
}

impl FuncDefView {
    /// The weight of the node: more than that of what a step makes of it.
    pub open spec fn weight(self) -> nat
        decreases self, 0int,
    {
        match self {
            FuncDefView::AnonNoArg { body, .. } => 10 + body.weight(),
            FuncDefView::AnonArg { body, .. } => 33 + body.weight(),
            FuncDefView::AnonDestr { pattern, body, .. } => 29 + pattern.0.elems.len()
                + body.weight(),
            FuncDefView::NamedNoArg { body, .. } => 27 + body.weight(),
            FuncDefView::NamedArg { body, .. } => 50 + body.weight(),
            FuncDefView::NamedDestr { pattern, body, .. } => 46 + pattern.0.elems.len()
                + body.weight(),
        }
    }
}

impl ExprView {
    /// A bound on the number of steps that desugaring the expression can
    /// take.
    pub open spec fn weight(self) -> nat
        decreases self, 0int,
    {
        match self {
            ExprView::Lit(lit) => lit.weight(),
            ExprView::Call(call) => call.weight(),
            ExprView::Field(field) => field.weight(),
            ExprView::Var(var) => var.weight(),
            ExprView::TableConstr(constr) => constr.weight(),
            ExprView::TableDestr(destr) => destr.weight(),
            ExprView::FuncDef(def) => def.weight(),
            ExprView::Paren { inner, .. } => 1 + inner.weight(),
            ExprView::Neg { expr, .. } => 4 + expr.weight(),
            ExprView::Not { expr, .. } => 4 + expr.weight(),
            ExprView::BinOp { left, right, .. } => 9 + left.weight() + right.weight(),
        }
    }
}

impl ProgramView {
    /// A bound on the number of steps that desugaring the program can take.
    pub open spec fn weight(self) -> nat {
        match self {
            ProgramView::Expr { expr, .. } => expr.weight(),
            ProgramView::Module { elems, .. } => 1 + entries_weight(elems.elems),
        }
    }
}

} // verus!
