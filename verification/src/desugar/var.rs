use vstd::prelude::*;

use crate::ast::basic::{Line, LineView, Space, SpaceView};
use crate::ast::call::{Call, CallView};
use crate::ast::expr::{Expr, ExprView};
use crate::ast::field::{Field, FieldView};
use crate::ast::table_constr::TableConstrView;
use crate::ast::var::{Var, VarView};
use crate::builtin::Builtin;
use crate::desugar::call::{builtin_expr, scope_call};
use crate::desugar::expr::step_child;
use crate::desugar::field::{constr_of_three, string_expr};
use crate::span::HasSpan;

verus! {

impl VarView {
    /// The rule of the node itself:
    ///
    /// - `[k]` becomes `'scope()[k]`,
    /// - `[k] = v` becomes `'scope()[k] = v`,
    /// - `local [k] = v` becomes `'setraw{'scope(), k, v}`,
    /// - `name` becomes `["name"]`,
    /// - `name = v` becomes `["name"] = v`, and keeps a `local` before it.
    #[verifier::opaque]
    pub open spec fn rewrite(self) -> ExprView {
        match self {
            VarView::Access { s0, index, s1, span } => {
                let new = FieldView::Access {
                    expr: Box::new(ExprView::scope_call(span)),
                    s0: SpaceView::empty(span),
                    s1: s0,
                    index,
                    s2: s1,
                    span,
                };
                ExprView::Field(new)
            },
            VarView::Assign { local: None, s0, index, s1, s2, s3, value, span } => {
                let new = FieldView::Assign {
                    expr: Box::new(ExprView::scope_call(span)),
                    s0: SpaceView::empty(span),
                    s1: s0,
                    index,
                    s2: s1,
                    s3: s2,
                    s4: s3,
                    value,
                    span,
                };
                ExprView::Field(new)
            },
            VarView::Assign { local: Some(local), s0, index, s1, s2, s3, value, span } => {
                let constr = TableConstrView::of_three(
                    (SpaceView::empty(span), ExprView::scope_call(span), SpaceView::empty(span)),
                    (local.then_line(LineView::Empty).then_space(s0), *index, s1),
                    (s2.then_line(LineView::Empty).then_space(s3), *value, SpaceView::empty(span)),
                    span,
                );
                let new = CallView::constr(ExprView::builtin(Builtin::SetRaw, span), constr, span);
                ExprView::Call(new)
            },
            VarView::AccessIdent(name) => {
                ExprView::Var(VarView::access(ExprView::string_of(name), name.span))
            },
            VarView::AssignIdent { local, name, s0, s1, value, span } => {
                let new = VarView::Assign {
                    local,
                    s0: SpaceView::empty(span),
                    index: Box::new(ExprView::string_of(name)),
                    s1: SpaceView::empty(span),
                    s2: s0,
                    s3: s1,
                    value,
                    span,
                };
                ExprView::Var(new)
            },
        }
    }
}

impl Var {
    /// The rule of the node itself, as [`VarView::rewrite`] describes it.
    pub fn rewrite(self) -> (r: Expr)
        ensures
            r@ == self@.rewrite(),
    {
        proof {
            reveal(VarView::rewrite);
        }
        match self {
            Self::Access { s0, index, s1, span } => {
                let new = Field::Access {
                    expr: scope_call(span).boxed(),
                    s0: Space::empty(span),
                    s1: s0,
                    index,
                    s2: s1,
                    span,
                };
                assert(new@ is Access);
                new.expr()
            },
            Self::Assign { local: None, s0, index, s1, s2, s3, value, span } => {
                let new = Field::Assign {
                    expr: scope_call(span).boxed(),
                    s0: Space::empty(span),
                    s1: s0,
                    index,
                    s2: s1,
                    s3: s2,
                    s4: s3,
                    value,
                    span,
                };
                assert(new@ is Assign);
                new.expr()
            },
            Self::Assign { local: Some(local), s0, index, s1, s2, s3, value, span } => {
                let constr = constr_of_three(
                    (Space::empty(span), scope_call(span).boxed(), Space::empty(span)),
                    (local.then_line(Line::Empty).then_space(s0), index, s1),
                    (s2.then_line(Line::Empty).then_space(s3), value, Space::empty(span)),
                    span,
                );
                Call::constr(builtin_expr(Builtin::SetRaw, span), constr, span).expr()
            },
            Self::AccessIdent(name) => {
                let span = name.span();
                Self::access(string_expr(name), span).expr()
            },
            Self::AssignIdent { local, name, s0, s1, value, span } => {
                let new = Self::Assign {
                    local,
                    s0: Space::empty(span),
                    index: string_expr(name),
                    s1: Space::empty(span),
                    s2: s0,
                    s3: s1,
                    value,
                    span,
                };
                assert(new@ is Assign);
                new.expr()
            },
        }
    }
}

} // verus!

verus! {

impl VarView {
    /// One step of desugaring: the first of the expressions that the node
    /// holds, in their order in the source, that can take a step takes it,
    /// and all else stays. Only if none can step is the node itself
    /// rewritten, by its rule.
    pub open spec fn desugar(self) -> (ExprView, bool)
        decreases self, 0int,
    {
        match self {
            VarView::Access { s0, index, s1, span } => {
                let index_step = index.desugar();
                if index_step.1 {
                    (
                        ExprView::Var(
                            VarView::Access {
                                s0,
                                index: Box::new(index_step.0),
                                s1,
                                span,
                            },
                        ),
                        true,
                    )
                } else {
                    (self.rewrite(), true)
                }
            },
            VarView::Assign { local, s0, index, s1, s2, s3, value, span } => {
                let index_step = index.desugar();
                let value_step = value.desugar();
                if index_step.1 {
                    (
                        ExprView::Var(
                            VarView::Assign {
                                local,
                                s0,
                                index: Box::new(index_step.0),
                                s1,
                                s2,
                                s3,
                                value,
                                span,
                            },
                        ),
                        true,
                    )
                }                 else if value_step.1 {
                    (
                        ExprView::Var(
                            VarView::Assign {
                                local,
                                s0,
                                index,
                                s1,
                                s2,
                                s3,
                                value: Box::new(value_step.0),
                                span,
                            },
                        ),
                        true,
                    )
                } else {
                    (self.rewrite(), true)
                }
            },
            VarView::AssignIdent { local, name, s0, s1, value, span } => {
                let value_step = value.desugar();
                if value_step.1 {
                    (
                        ExprView::Var(
                            VarView::AssignIdent {
                                local,
                                name,
                                s0,
                                s1,
                                value: Box::new(value_step.0),
                                span,
                            },
                        ),
                        true,
                    )
                } else {
                    (self.rewrite(), true)
                }
            },
            VarView::AccessIdent(_) => (self.rewrite(), true),
        }
    }
}

impl Var {
    /// One step of desugaring, as [`VarView::desugar`] describes it.
    pub fn desugar(self) -> (r: (Expr, bool))
        ensures
            r.0@ == self@.desugar().0,
            r.1 == self@.desugar().1,
        decreases self, 0int,
    {
        match self {
            Self::Access { s0, index, s1, span } => {
                let (index, changed) = step_child(index);
                let new = Self::Access { s0, index, s1, span };
                assert(new@ is Access);
                if changed {
                    (new.expr(), true)
                } else {
                    (new.rewrite(), true)
                }
            },
            Self::Assign { local, s0, index, s1, s2, s3, value, span } => {
                let (index, changed) = step_child(index);
                if changed {
                    let new = Self::Assign { local, s0, index, s1, s2, s3, value, span };
                    assert(new@ is Assign);
                    return (new.expr(), true);
                }
                let (value, changed) = step_child(value);
                let new = Self::Assign { local, s0, index, s1, s2, s3, value, span };
                assert(new@ is Assign);
                if changed {
                    (new.expr(), true)
                } else {
                    (new.rewrite(), true)
                }
            },
            Self::AssignIdent { local, name, s0, s1, value, span } => {
                let (value, changed) = step_child(value);
                let new = Self::AssignIdent { local, name, s0, s1, value, span };
                assert(new@ is AssignIdent);
                if changed {
                    (new.expr(), true)
                } else {
                    (new.rewrite(), true)
                }
            },
            Self::AccessIdent(name) => {
                let new = Self::AccessIdent(name);
                assert(new@ is AccessIdent);
                (new.rewrite(), true)
            },
        }
    }
}

} // verus!
