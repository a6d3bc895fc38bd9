use vstd::prelude::*;

use crate::ast::basic::SpaceView;
use crate::ast::call::{Call, CallView};
use crate::ast::expr::{BinOp, Expr, ExprView};
use crate::ast::table_constr::TableConstrView;
use crate::ast::basic::Space;
use crate::builtin::Builtin;
use crate::desugar::call::builtin_expr;
use crate::desugar::laws::lemma_unchanged_expr;
use crate::desugar::field::constr_of_two;

verus! {

impl BinOp {
    /// The built-in operation that the operator stands for.
    pub open spec fn builtin_spec(self) -> Builtin {
        match self {
            BinOp::Mul => Builtin::Mul,
            BinOp::Div => Builtin::Div,
            BinOp::Mod => Builtin::Mod,
            BinOp::Add => Builtin::Add,
            BinOp::Sub => Builtin::Sub,
            BinOp::Eq => Builtin::Eq,
            BinOp::Neq => Builtin::Ne,
            BinOp::Gt => Builtin::Gt,
            BinOp::Ge => Builtin::Ge,
            BinOp::Lt => Builtin::Lt,
            BinOp::Le => Builtin::Le,
            BinOp::And => Builtin::And,
            BinOp::Or => Builtin::Or,
        }
    }

    pub fn builtin(self) -> (builtin: Builtin)
        ensures
            builtin == self.builtin_spec(),
    {
        match self {
            BinOp::Mul => Builtin::Mul,
            BinOp::Div => Builtin::Div,
            BinOp::Mod => Builtin::Mod,
            BinOp::Add => Builtin::Add,
            BinOp::Sub => Builtin::Sub,
            BinOp::Eq => Builtin::Eq,
            BinOp::Neq => Builtin::Ne,
            BinOp::Gt => Builtin::Gt,
            BinOp::Ge => Builtin::Ge,
            BinOp::Lt => Builtin::Lt,
            BinOp::Le => Builtin::Le,
            BinOp::And => Builtin::And,
            BinOp::Or => Builtin::Or,
        }
    }
}

impl ExprView {
    /// The rule of a parenthesized expression, of a negation, of a logical
    /// not and of an operator application:
    ///
    /// - `(e)` becomes `e`,
    /// - `-e` becomes `'neg(e)` and `not e` becomes `'not(e)`,
    /// - `a OP b` becomes a call of the built-in operation of `OP` with the
    ///   constructor `{a, b}`.
    ///
    /// Every other expression follows the rule of its own node type, and a
    /// literal stays as it is.
    #[verifier::opaque]
    pub open spec fn rewrite(self) -> ExprView {
        match self {
            ExprView::Lit(lit) => self,
            ExprView::Call(call) => call.rewrite(),
            ExprView::Field(field) => field.rewrite(),
            ExprView::Var(var) => var.rewrite(),
            ExprView::TableConstr(constr) => constr.rewrite(),
            ExprView::TableDestr(destr) => destr.rewrite(),
            ExprView::FuncDef(def) => def.rewrite(),
            ExprView::Paren { s0, inner, s1, span } => *inner,
            ExprView::Neg { minus, s0, expr, span } => ExprView::Call(
                CallView::arg(ExprView::builtin(Builtin::Neg, minus), *expr, span),
            ),
            ExprView::Not { not, s0, expr, span } => ExprView::Call(
                CallView::arg(ExprView::builtin(Builtin::Not, not), *expr, span),
            ),
            ExprView::BinOp { left, s0, op, s1, right, span } => {
                let constr = TableConstrView::of_two(
                    (SpaceView::empty(span), *left, SpaceView::empty(span)),
                    (SpaceView::empty(span), *right, SpaceView::empty(span)),
                    span,
                );
                ExprView::Call(
                    CallView::constr(ExprView::builtin(op.builtin_spec(), span), constr, span),
                )
            },
        }
    }

    /// One step of desugaring. A literal takes the step of its table, if it
    /// is one. In every other expression the first of the expressions that
    /// it holds, in their order in the source, that can take a step takes
    /// it, and all else stays. Only if none can step is the expression
    /// itself rewritten, by the rule of its node.
    pub open spec fn desugar(self) -> (ExprView, bool)
        decreases self, 2int,
    {
        match self {
            ExprView::Lit(lit) => {
                let r = lit.desugar();
                (ExprView::Lit(r.0), r.1)
            },
            ExprView::Call(call) => call.desugar(),
            ExprView::Field(field) => field.desugar(),
            ExprView::Var(var) => var.desugar(),
            ExprView::TableConstr(constr) => constr.desugar(),
            ExprView::TableDestr(destr) => destr.desugar(),
            ExprView::FuncDef(def) => def.desugar(),
            ExprView::Paren { s0, inner, s1, span } => {
                let inner_step = inner.desugar();
                if inner_step.1 {
                    (ExprView::Paren { s0, inner: Box::new(inner_step.0), s1, span }, true)
                } else {
                    (self.rewrite(), true)
                }
            },
            ExprView::Neg { minus, s0, expr, span } => {
                let expr_step = expr.desugar();
                if expr_step.1 {
                    (ExprView::Neg { minus, s0, expr: Box::new(expr_step.0), span }, true)
                } else {
                    (self.rewrite(), true)
                }
            },
            ExprView::Not { not, s0, expr, span } => {
                let expr_step = expr.desugar();
                if expr_step.1 {
                    (ExprView::Not { not, s0, expr: Box::new(expr_step.0), span }, true)
                } else {
                    (self.rewrite(), true)
                }
            },
            ExprView::BinOp { left, s0, op, s1, right, span } => {
                let left_step = left.desugar();
                let right_step = right.desugar();
                if left_step.1 {
                    (
                        ExprView::BinOp { left: Box::new(left_step.0), s0, op, s1, right, span },
                        true,
                    )
                } else if right_step.1 {
                    (
                        ExprView::BinOp { left, s0, op, s1, right: Box::new(right_step.0), span },
                        true,
                    )
                } else {
                    (self.rewrite(), true)
                }
            },
        }
    }
}

/// One step of desugaring on an expression that another node holds. Where
/// the expression cannot step, it comes back as it was.
pub fn step_child(expr: Box<Expr>) -> (r: (Box<Expr>, bool))
    ensures
        r.0@ == expr@.desugar().0,
        r.1 == expr@.desugar().1,
        !r.1 ==> r.0@ == expr@,
    decreases *expr, 3int,
{
    proof {
        lemma_unchanged_expr(expr@);
    }
    let (stepped, changed) = (*expr).desugar();
    (Box::new(stepped), changed)
}

impl Expr {
    /// The rule of the node itself, as [`ExprView::rewrite`] describes it.
    pub fn rewrite(self) -> (r: Self)
        ensures
            r@ == self@.rewrite(),
    {
        proof {
            reveal(ExprView::rewrite);
        }
        match self {
            Self::Lit(lit) => lit.expr(),
            Self::Call(call) => call.rewrite(),
            Self::Field(field) => field.rewrite(),
            Self::Var(var) => var.rewrite(),
            Self::TableConstr(constr) => constr.rewrite(),
            Self::TableDestr(destr) => destr.rewrite(),
            Self::FuncDef(def) => def.rewrite(),
            Self::Paren { s0: _, inner, s1: _, span: _ } => *inner,
            Self::Neg { minus, s0: _, expr, span } => Call::arg(
                builtin_expr(Builtin::Neg, minus),
                expr,
                span,
            ).expr(),
            Self::Not { not, s0: _, expr, span } => Call::arg(
                builtin_expr(Builtin::Not, not),
                expr,
                span,
            ).expr(),
            Self::BinOp { left, s0: _, op, s1: _, right, span } => {
                let constr = constr_of_two(
                    (Space::empty(span), left, Space::empty(span)),
                    (Space::empty(span), right, Space::empty(span)),
                    span,
                );
                Call::constr(builtin_expr(op.builtin(), span), constr, span).expr()
            },
        }
    }

    /// One step of desugaring, as [`ExprView::desugar`] describes it.
    pub fn desugar(self) -> (r: (Self, bool))
        ensures
            r.0@ == self@.desugar().0,
            r.1 == self@.desugar().1,
        decreases self, 2int,
    {
        match self {
            Self::Lit(lit) => {
                let (lit, desugared) = lit.desugar();
                (lit.expr(), desugared)
            },
            Self::Call(call) => call.desugar(),
            Self::Field(field) => field.desugar(),
            Self::Var(var) => var.desugar(),
            Self::TableConstr(constr) => constr.desugar(),
            Self::TableDestr(destr) => destr.desugar(),
            Self::FuncDef(def) => def.desugar(),
            Self::Paren { s0, inner, s1, span } => {
                let (inner, changed) = step_child(inner);
                let new = Self::Paren { s0, inner, s1, span };
                assert(new@ is Paren);
                if changed {
                    (new, true)
                } else {
                    (new.rewrite(), true)
                }
            },
            Self::Neg { minus, s0, expr, span } => {
                let (expr, changed) = step_child(expr);
                let new = Self::Neg { minus, s0, expr, span };
                assert(new@ is Neg);
                if changed {
                    (new, true)
                } else {
                    (new.rewrite(), true)
                }
            },
            Self::Not { not, s0, expr, span } => {
                let (expr, changed) = step_child(expr);
                let new = Self::Not { not, s0, expr, span };
                assert(new@ is Not);
                if changed {
                    (new, true)
                } else {
                    (new.rewrite(), true)
                }
            },
            Self::BinOp { left, s0, op, s1, right, span } => {
                let (left, changed) = step_child(left);
                if changed {
                    let new = Self::BinOp { left, s0, op, s1, right, span };
                    assert(new@ is BinOp);
                    return (new, true);
                }
                let (right, changed) = step_child(right);
                let new = Self::BinOp { left, s0, op, s1, right, span };
                assert(new@ is BinOp);
                if changed {
                    (new, true)
                } else {
                    (new.rewrite(), true)
                }
            },
        }
    }
}

} // verus!
