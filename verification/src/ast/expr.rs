//! Expressions.

use vstd::prelude::*;

use crate::ast::basic::{Space, SpaceView};
use crate::ast::call::{Call, CallView};
use crate::ast::field::{Field, FieldView};
use crate::ast::func_def::{FuncDef, FuncDefView};
use crate::ast::lit::{Lit, LitView};
use crate::ast::table_constr::{TableConstr, TableConstrView};
use crate::ast::table_destr::{TableDestr, TableDestrView};
use crate::ast::var::{Var, VarView};
use crate::span::{HasSpan, Span};

verus! {

/// The side to which a chain of operators of one precedence groups.
#[derive(Clone, Copy, Debug, PartialEq, Eq, Structural)]
pub enum Assoc {
    Left,
    Right,
}

/// A binary operator.
#[derive(Clone, Copy, Debug, PartialEq, Eq, Structural)]
pub enum BinOp {
    /// `*`
    Mul,
    /// `/`
    Div,
    /// `%`
    Mod,
    /// `+`
    Add,
    /// `-`
    Sub,
    /// `==`
    Eq,
    /// `!=`
    Neq,
    /// `>`
    Gt,
    /// `>=`
    Ge,
    /// `<`
    Lt,
    /// `<=`
    Le,
    /// `and`
    And,
    /// `or`
    Or,
}

impl BinOp {
    /// The precedence of the operator, from 0 for `or` to 4 for `*`, `/`
    /// and `%`.
    pub open spec fn precedence_spec(self) -> u8 {
        match self {
            BinOp::Mul | BinOp::Div | BinOp::Mod => 4,
            BinOp::Add | BinOp::Sub => 3,
            BinOp::Eq | BinOp::Neq | BinOp::Gt | BinOp::Ge | BinOp::Lt | BinOp::Le => 2,
            BinOp::And => 1,
            BinOp::Or => 0,
        }
    }

    /// `and` and `or` group to the right, all other operators to the left.
    pub open spec fn assoc_spec(self) -> Assoc {
        match self {
            BinOp::And | BinOp::Or => Assoc::Right,
            _ => Assoc::Left,
        }
    }

    /// The higher the precedence, the more strongly the operator binds.
    pub fn precedence(self) -> (p: u8)
        ensures
            p == self.precedence_spec(),
    {
        match self {
            Self::Mul | Self::Div | Self::Mod => 4,
            Self::Add | Self::Sub => 3,
            Self::Eq | Self::Neq | Self::Gt | Self::Ge | Self::Lt | Self::Le => 2,
            Self::And => 1,
            Self::Or => 0,
        }
    }

    pub fn assoc(self) -> (a: Assoc)
        ensures
            a == self.assoc_spec(),
    {
        match self {
            Self::Mul
            | Self::Div
            | Self::Mod
            | Self::Add
            | Self::Sub
            | Self::Eq
            | Self::Neq
            | Self::Gt
            | Self::Ge
            | Self::Lt
            | Self::Le => Assoc::Left,
            Self::And | Self::Or => Assoc::Right,
        }
    }

    /// Whether `left` has to stand in parentheses as the left operand of
    /// this operator, so that it is read back as the same tree: an
    /// assignment would take the operator into its value, and a weaker
    /// operator would give its right operand away. An operator of the same
    /// precedence needs none where the operators group to the left.
    pub open spec fn left_needs_parens_spec(self, left: ExprView) -> bool {
        match left {
            ExprView::Field(FieldView::Assign { .. }) => true,
            ExprView::Field(FieldView::AssignIdent { .. }) => true,
            ExprView::Var(VarView::Assign { .. }) => true,
            ExprView::Var(VarView::AssignIdent { .. }) => true,
            ExprView::BinOp { op, .. } => match self.assoc_spec() {
                Assoc::Left => op.precedence_spec() < self.precedence_spec(),
                Assoc::Right => op.precedence_spec() <= self.precedence_spec(),
            },
            _ => false,
        }
    }

    /// Whether `right` has to stand in parentheses as the right operand of
    /// this operator: a weaker operator would give its left operand away.
    /// An operator of the same precedence needs none where the operators
    /// group to the right.
    pub open spec fn right_needs_parens_spec(self, right: ExprView) -> bool {
        match right {
            ExprView::BinOp { op, .. } => match self.assoc_spec() {
                Assoc::Left => op.precedence_spec() <= self.precedence_spec(),
                Assoc::Right => op.precedence_spec() < self.precedence_spec(),
            },
            _ => false,
        }
    }

    pub fn left_needs_parens(self, left: &Expr) -> (parens: bool)
        ensures
            parens == self.left_needs_parens_spec(left@),
    {
        match left {
            Expr::Field(field) => {
                assert(left@ == ExprView::Field(field@));
                match field {
                    Field::Assign { .. } => true,
                    Field::AssignIdent { .. } => true,
                    _ => false,
                }
            },
            Expr::Var(var) => {
                assert(left@ == ExprView::Var(var@));
                match var {
                    Var::Assign { .. } => true,
                    Var::AssignIdent { .. } => true,
                    _ => false,
                }
            },
            Expr::BinOp { op, .. } => match self.assoc() {
                Assoc::Left => op.precedence() < self.precedence(),
                Assoc::Right => op.precedence() <= self.precedence(),
            },
            _ => false,
        }
    }

    pub fn right_needs_parens(self, right: &Expr) -> (parens: bool)
        ensures
            parens == self.right_needs_parens_spec(right@),
    {
        match right {
            Expr::BinOp { op, .. } => match self.assoc() {
                Assoc::Left => op.precedence() <= self.precedence(),
                Assoc::Right => op.precedence() < self.precedence(),
            },
            _ => false,
        }
    }

    /// Operators of the same precedence group to the same side.
    pub proof fn lemma_precedence_fixes_assoc(self, other: BinOp)
        requires
            self.precedence_spec() == other.precedence_spec(),
        ensures
            self.assoc_spec() == other.assoc_spec(),
    {
    }
}

#[derive(Debug)]
pub enum Expr {
    Lit(Lit),
    Call(Call),
    Field(Field),
    Var(Var),
    TableConstr(TableConstr),
    TableDestr(TableDestr),
    FuncDef(FuncDef),
    /// `(a)`
    ///
    /// Structure: `( s0 inner s1 )`
    Paren { s0: Space, inner: Box<Expr>, s1: Space, span: Span },
    /// `-a`
    ///
    /// Structure: `- s0 expr`
    Neg { minus: Span, s0: Space, expr: Box<Expr>, span: Span },
    /// `not a`
    ///
    /// Structure: `'not' s0 expr`
    Not { not: Span, s0: Space, expr: Box<Expr>, span: Span },
    /// - `a + b`
    /// - `a == b`
    /// - `a and b`
    ///
    /// Structure: `left s0 op s1 right`
    BinOp { left: Box<Expr>, s0: Space, op: BinOp, s1: Space, right: Box<Expr>, span: Span },
}

/// The model of an [`Expr`].
pub enum ExprView {
    Lit(LitView),
    Call(CallView),
    Field(FieldView),
    Var(VarView),
    TableConstr(TableConstrView),
    TableDestr(TableDestrView),
    FuncDef(FuncDefView),
    Paren { s0: SpaceView, inner: Box<ExprView>, s1: SpaceView, span: Span },
    Neg { minus: Span, s0: SpaceView, expr: Box<ExprView>, span: Span },
    Not { not: Span, s0: SpaceView, expr: Box<ExprView>, span: Span },
    BinOp {
        left: Box<ExprView>,
        s0: SpaceView,
        op: BinOp,
        s1: SpaceView,
        right: Box<ExprView>,
        span: Span,
    },
}

impl ExprView {
    pub open spec fn span(self) -> Span {
        match self {
            ExprView::Lit(lit) => lit.span(),
            ExprView::Call(call) => call.span(),
            ExprView::Field(field) => field.span(),
            ExprView::Var(var) => var.span(),
            ExprView::TableConstr(constr) => constr.0.span,
            ExprView::TableDestr(destr) => destr.span,
            ExprView::FuncDef(def) => def.span(),
            ExprView::Paren { span, .. } => span,
            ExprView::Neg { span, .. } => span,
            ExprView::Not { span, .. } => span,
            ExprView::BinOp { span, .. } => span,
        }
    }
}

impl Expr {
    /// The model of the node: the same tree over sequences.
    pub open spec fn model(self) -> ExprView
        decreases self,
    {
        match self {
            Expr::Lit(lit) => ExprView::Lit(lit.model()),
            Expr::Call(call) => ExprView::Call(call.model()),
            Expr::Field(field) => ExprView::Field(field.model()),
            Expr::Var(var) => ExprView::Var(var.model()),
            Expr::TableConstr(constr) => ExprView::TableConstr(constr.model()),
            Expr::TableDestr(destr) => ExprView::TableDestr(destr.model()),
            Expr::FuncDef(def) => ExprView::FuncDef(def.model()),
            Expr::Paren { s0, inner, s1, span } => ExprView::Paren {
                s0: s0@,
                inner: Box::new((*inner).model()),
                s1: s1@,
                span,
            },
            Expr::Neg { minus, s0, expr, span } => ExprView::Neg {
                minus,
                s0: s0@,
                expr: Box::new((*expr).model()),
                span,
            },
            Expr::Not { not, s0, expr, span } => ExprView::Not {
                not,
                s0: s0@,
                expr: Box::new((*expr).model()),
                span,
            },
            Expr::BinOp { left, s0, op, s1, right, span } => ExprView::BinOp {
                left: Box::new((*left).model()),
                s0: s0@,
                op,
                s1: s1@,
                right: Box::new((*right).model()),
                span,
            },
        }
    }

    /// Whether the expression has to stand in parentheses behind a prefix
    /// operator, so that it is read back as the same tree: an operator
    /// application would give its left operand to the prefix.
    pub open spec fn prefix_needs_parens_spec(expr: ExprView) -> bool {
        expr is BinOp
    }

    pub fn prefix_needs_parens(&self) -> (parens: bool)
        ensures
            parens == Expr::prefix_needs_parens_spec(self@),
    {
        match self {
            Expr::BinOp { .. } => true,
            _ => false,
        }
    }

    pub fn boxed(self) -> (boxed: Box<Self>)
        ensures
            *boxed == self,
    {
        Box::new(self)
    }
}

impl View for Expr {
    type V = ExprView;

    open spec fn view(&self) -> ExprView {
        self.model()
    }
}

impl HasSpan for Expr {
    open spec fn span_spec(&self) -> Span {
        self@.span()
    }

    fn span(&self) -> (span: Span) {
        match self {
            Self::Lit(lit) => lit.span(),
            Self::Call(call) => call.span(),
            Self::Field(field) => field.span(),
            Self::Var(var) => var.span(),
            Self::TableConstr(constr) => constr.span(),
            Self::TableDestr(destr) => destr.span(),
            Self::FuncDef(def) => def.span(),
            Self::Paren { span, .. } => *span,
            Self::Neg { span, .. } => *span,
            Self::Not { span, .. } => *span,
            Self::BinOp { span, .. } => *span,
        }
    }
}

} // verus!

verus! {

impl Expr {
    /// A copy of the expression and of all that it holds.
    pub fn deep_clone(&self) -> (copy: Self)
        ensures
            copy@ == self@,
        decreases self,
    {
        match self {
            Expr::Lit(lit) => lit.deep_clone().expr(),
            Expr::Call(call) => call.deep_clone().expr(),
            Expr::Field(field) => field.deep_clone().expr(),
            Expr::Var(var) => var.deep_clone().expr(),
            Expr::TableConstr(constr) => constr.deep_clone().expr(),
            Expr::TableDestr(destr) => destr.deep_clone().expr(),
            Expr::FuncDef(def) => {
                let copy = Expr::FuncDef(def.deep_clone());
                assert(copy@ is FuncDef);
                copy
            },
            Expr::Paren { s0, inner, s1, span } => {
                let copy = Expr::Paren {
                    s0: s0.clone(),
                    inner: Box::new(inner.deep_clone()),
                    s1: s1.clone(),
                    span: *span,
                };
                assert(copy@ is Paren);
                copy
            },
            Expr::Neg { minus, s0, expr, span } => {
                let copy = Expr::Neg {
                    minus: *minus,
                    s0: s0.clone(),
                    expr: Box::new(expr.deep_clone()),
                    span: *span,
                };
                assert(copy@ is Neg);
                copy
            },
            Expr::Not { not, s0, expr, span } => {
                let copy = Expr::Not {
                    not: *not,
                    s0: s0.clone(),
                    expr: Box::new(expr.deep_clone()),
                    span: *span,
                };
                assert(copy@ is Not);
                copy
            },
            Expr::BinOp { left, s0, op, s1, right, span } => {
                let copy = Expr::BinOp {
                    left: Box::new(left.deep_clone()),
                    s0: s0.clone(),
                    op: *op,
                    s1: s1.clone(),
                    right: Box::new(right.deep_clone()),
                    span: *span,
                };
                assert(copy@ is BinOp);
                copy
            },
        }
    }
}

impl Clone for Expr {
    fn clone(&self) -> (copy: Self)
        ensures
            copy@ == self@,
    {
        self.deep_clone()
    }
}

} // verus!
