use vstd::prelude::*;

use crate::ast::basic::{
    BoundedSeparated, BoundedSeparatedView, Ident, IdentView, Line, LineView, Space, SpaceView,
};
use crate::ast::call::{Call, CallView};
use crate::ast::expr::{Expr, ExprView};
use crate::ast::field::{Field, FieldView};
use crate::ast::lit::{Lit, LitView, StringLit, StringLitView};
use crate::ast::table_constr::{TableConstr, TableConstrElem, TableConstrElemView, TableConstrView};
use crate::builtin::Builtin;
use crate::desugar::call::builtin_expr;
use crate::desugar::expr::step_child;
use crate::span::Span;

verus! {

impl TableConstrView {
    /// The constructor `{first, second}`, each entry between the trivia
    /// given with it.
    pub open spec fn of_two(
        first: (SpaceView, ExprView, SpaceView),
        second: (SpaceView, ExprView, SpaceView),
        span: Span,
    ) -> TableConstrView {
        TableConstrView(
            BoundedSeparatedView {
                elems: seq![
                    (first.0, TableConstrElemView::positional(first.1), first.2),
                    (second.0, TableConstrElemView::positional(second.1), second.2),
                ],
                trailing: None,
                span,
            },
        )
    }

    /// The constructor `{first, second, third}`, each entry between the
    /// trivia given with it.
    pub open spec fn of_three(
        first: (SpaceView, ExprView, SpaceView),
        second: (SpaceView, ExprView, SpaceView),
        third: (SpaceView, ExprView, SpaceView),
        span: Span,
    ) -> TableConstrView {
        TableConstrView(
            BoundedSeparatedView {
                elems: seq![
                    (first.0, TableConstrElemView::positional(first.1), first.2),
                    (second.0, TableConstrElemView::positional(second.1), second.2),
                    (third.0, TableConstrElemView::positional(third.1), third.2),
                ],
                trailing: None,
                span,
            },
        )
    }
}

impl ExprView {
    /// The string literal that spells the name of `ident`.
    pub open spec fn string_of(ident: IdentView) -> ExprView {
        ExprView::Lit(LitView::String(StringLitView::from_ident(ident)))
    }
}

impl FieldView {
    /// The rule of the node itself:
    ///
    /// - `e[k]` becomes `'get{e, k}`,
    /// - `e[k] = v` becomes `'set{e, k, v}`,
    /// - `e.k` becomes `e["k"]`,
    /// - `e.k = v` becomes `e["k"] = v`.
    #[verifier::opaque]
    pub open spec fn rewrite(self) -> ExprView {
        match self {
            FieldView::Access { expr, s0, s1, index, s2, span } => {
                let constr = TableConstrView::of_two(
                    (SpaceView::empty(span), *expr, SpaceView::empty(span)),
                    (s1, *index, s2),
                    span,
                );
                let new = CallView::Constr {
                    expr: Box::new(ExprView::builtin(Builtin::Get, span)),
                    s0,
                    constr,
                    span,
                };
                ExprView::Call(new)
            },
            FieldView::Assign { expr, s0, s1, index, s2, s3, s4, value, span } => {
                let constr = TableConstrView::of_three(
                    (SpaceView::empty(span), *expr, SpaceView::empty(span)),
                    (s1, *index, s2),
                    (s3.then_line(LineView::Empty).then_space(s4), *value, SpaceView::empty(span)),
                    span,
                );
                let new = CallView::Constr {
                    expr: Box::new(ExprView::builtin(Builtin::SetField, span)),
                    s0,
                    constr,
                    span,
                };
                ExprView::Call(new)
            },
            FieldView::AccessIdent { expr, s0, s1, ident, span } => {
                let new = FieldView::Access {
                    expr,
                    s0,
                    s1,
                    index: Box::new(ExprView::string_of(ident)),
                    s2: SpaceView::empty(span),
                    span,
                };
                ExprView::Field(new)
            },
            FieldView::AssignIdent { expr, s0, s1, ident, s2, s3, value, span } => {
                let new = FieldView::Assign {
                    expr,
                    s0,
                    s1,
                    index: Box::new(ExprView::string_of(ident)),
                    s2: SpaceView::empty(span),
                    s3: s2,
                    s4: s3,
                    value,
                    span,
                };
                ExprView::Field(new)
            },
        }
    }
}

/// The string literal that spells the name of `ident`.
pub fn string_expr(ident: Ident) -> (expr: Box<Expr>)
    ensures
        expr@ == ExprView::string_of(ident@),
{
    StringLit::from_ident(ident).lit().expr().boxed()
}

/// The constructor `{first, second}`, each entry between the trivia given
/// with it.
pub fn constr_of_two(
    first: (Space, Box<Expr>, Space),
    second: (Space, Box<Expr>, Space),
    span: Span,
) -> (constr: TableConstr)
    ensures
        constr@ == TableConstrView::of_two(
            (first.0@, first.1@, first.2@),
            (second.0@, second.1@, second.2@),
            span,
        ),
{
    let mut elems = Vec::new();
    elems.push((first.0, TableConstrElem::positional(first.1), first.2));
    elems.push((second.0, TableConstrElem::positional(second.1), second.2));
    let list = BoundedSeparated { elems, trailing: None, span };
    assert(list@.elems =~= TableConstrView::of_two(
        (first.0@, first.1@, first.2@),
        (second.0@, second.1@, second.2@),
        span,
    ).0.elems);
    list.table_constr()
}

/// The constructor `{first, second, third}`, each entry between the trivia
/// given with it.
pub fn constr_of_three(
    first: (Space, Box<Expr>, Space),
    second: (Space, Box<Expr>, Space),
    third: (Space, Box<Expr>, Space),
    span: Span,
) -> (constr: TableConstr)
    ensures
        constr@ == TableConstrView::of_three(
            (first.0@, first.1@, first.2@),
            (second.0@, second.1@, second.2@),
            (third.0@, third.1@, third.2@),
            span,
        ),
{
    let mut elems = Vec::new();
    elems.push((first.0, TableConstrElem::positional(first.1), first.2));
    elems.push((second.0, TableConstrElem::positional(second.1), second.2));
    elems.push((third.0, TableConstrElem::positional(third.1), third.2));
    let list = BoundedSeparated { elems, trailing: None, span };
    assert(list@.elems =~= TableConstrView::of_three(
        (first.0@, first.1@, first.2@),
        (second.0@, second.1@, second.2@),
        (third.0@, third.1@, third.2@),
        span,
    ).0.elems);
    list.table_constr()
}

impl Field {
    /// The rule of the node itself, as [`FieldView::rewrite`] describes it.
    pub fn rewrite(self) -> (r: Expr)
        ensures
            r@ == self@.rewrite(),
    {
        proof {
            reveal(FieldView::rewrite);
        }
        match self {
            Self::Access { expr, s0, s1, index, s2, span } => {
                let constr = constr_of_two(
                    (Space::empty(span), expr, Space::empty(span)),
                    (s1, index, s2),
                    span,
                );
                let new = Call::Constr {
                    expr: builtin_expr(Builtin::Get, span),
                    s0,
                    constr,
                    span,
                };
                assert(new@ is Constr);
                new.expr()
            },
            Self::Assign { expr, s0, s1, index, s2, s3, s4, value, span } => {
                let constr = constr_of_three(
                    (Space::empty(span), expr, Space::empty(span)),
                    (s1, index, s2),
                    (s3.then_line(Line::Empty).then_space(s4), value, Space::empty(span)),
                    span,
                );
                let new = Call::Constr {
                    expr: builtin_expr(Builtin::SetField, span),
                    s0,
                    constr,
                    span,
                };
                assert(new@ is Constr);
                new.expr()
            },
            Self::AccessIdent { expr, s0, s1, ident, span } => {
                let new = Self::Access {
                    expr,
                    s0,
                    s1,
                    index: string_expr(ident),
                    s2: Space::empty(span),
                    span,
                };
                assert(new@ is Access);
                new.expr()
            },
            Self::AssignIdent { expr, s0, s1, ident, s2, s3, value, span } => {
                let new = Self::Assign {
                    expr,
                    s0,
                    s1,
                    index: string_expr(ident),
                    s2: Space::empty(span),
                    s3: s2,
                    s4: s3,
                    value,
                    span,
                };
                assert(new@ is Assign);
                new.expr()
            },
        }
    }
}

} // verus!

verus! {

impl FieldView {
    /// One step of desugaring: the first of the expressions that the node
    /// holds, in their order in the source, that can take a step takes it,
    /// and all else stays. Only if none can step is the node itself
    /// rewritten, by its rule.
    pub open spec fn desugar(self) -> (ExprView, bool)
        decreases self, 0int,
    {
        match self {
            FieldView::Access { expr, s0, s1, index, s2, span } => {
                let expr_step = expr.desugar();
                let index_step = index.desugar();
                if expr_step.1 {
                    (
                        ExprView::Field(
                            FieldView::Access {
                                expr: Box::new(expr_step.0),
                                s0,
                                s1,
                                index,
                                s2,
                                span,
                            },
                        ),
                        true,
                    )
                }                 else if index_step.1 {
                    (
                        ExprView::Field(
                            FieldView::Access {
                                expr,
                                s0,
                                s1,
                                index: Box::new(index_step.0),
                                s2,
                                span,
                            },
                        ),
                        true,
                    )
                } else {
                    (self.rewrite(), true)
                }
            },
            FieldView::Assign { expr, s0, s1, index, s2, s3, s4, value, span } => {
                let expr_step = expr.desugar();
                let index_step = index.desugar();
                let value_step = value.desugar();
                if expr_step.1 {
                    (
                        ExprView::Field(
                            FieldView::Assign {
                                expr: Box::new(expr_step.0),
                                s0,
                                s1,
                                index,
                                s2,
                                s3,
                                s4,
                                value,
                                span,
                            },
                        ),
                        true,
                    )
                }                 else if index_step.1 {
                    (
                        ExprView::Field(
                            FieldView::Assign {
                                expr,
                                s0,
                                s1,
                                index: Box::new(index_step.0),
                                s2,
                                s3,
                                s4,
                                value,
                                span,
                            },
                        ),
                        true,
                    )
                }                 else if value_step.1 {
                    (
                        ExprView::Field(
                            FieldView::Assign {
                                expr,
                                s0,
                                s1,
                                index,
                                s2,
                                s3,
                                s4,
                                value: Box::new(value_step.0),
                                span,
                            },
                        ),
                        true,
                    )
                } else {
                    (self.rewrite(), true)
                }
            },
            FieldView::AccessIdent { expr, s0, s1, ident, span } => {
                let expr_step = expr.desugar();
                if expr_step.1 {
                    (
                        ExprView::Field(
                            FieldView::AccessIdent {
                                expr: Box::new(expr_step.0),
                                s0,
                                s1,
                                ident,
                                span,
                            },
                        ),
                        true,
                    )
                } else {
                    (self.rewrite(), true)
                }
            },
            FieldView::AssignIdent { expr, s0, s1, ident, s2, s3, value, span } => {
                let expr_step = expr.desugar();
                let value_step = value.desugar();
                if expr_step.1 {
                    (
                        ExprView::Field(
                            FieldView::AssignIdent {
                                expr: Box::new(expr_step.0),
                                s0,
                                s1,
                                ident,
                                s2,
                                s3,
                                value,
                                span,
                            },
                        ),
                        true,
                    )
                }                 else if value_step.1 {
                    (
                        ExprView::Field(
                            FieldView::AssignIdent {
                                expr,
                                s0,
                                s1,
                                ident,
                                s2,
                                s3,
                                value: Box::new(value_step.0),
                                span,
                            },
                        ),
                        true,
                    )
                } else {
                    (self.rewrite(), true)
                }
            },
        }
    }
}

impl Field {
    /// One step of desugaring, as [`FieldView::desugar`] describes it.
    pub fn desugar(self) -> (r: (Expr, bool))
        ensures
            r.0@ == self@.desugar().0,
            r.1 == self@.desugar().1,
        decreases self, 0int,
    {
        match self {
            Self::Access { expr, s0, s1, index, s2, span } => {
                let (expr, changed) = step_child(expr);
                if changed {
                    let new = Self::Access { expr, s0, s1, index, s2, span };
                    assert(new@ is Access);
                    return (new.expr(), true);
                }
                let (index, changed) = step_child(index);
                let new = Self::Access { expr, s0, s1, index, s2, span };
                assert(new@ is Access);
                if changed {
                    (new.expr(), true)
                } else {
                    (new.rewrite(), true)
                }
            },
            Self::Assign { expr, s0, s1, index, s2, s3, s4, value, span } => {
                let (expr, changed) = step_child(expr);
                if changed {
                    let new = Self::Assign { expr, s0, s1, index, s2, s3, s4, value, span };
                    assert(new@ is Assign);
                    return (new.expr(), true);
                }
                let (index, changed) = step_child(index);
                if changed {
                    let new = Self::Assign { expr, s0, s1, index, s2, s3, s4, value, span };
                    assert(new@ is Assign);
                    return (new.expr(), true);
                }
                let (value, changed) = step_child(value);
                let new = Self::Assign { expr, s0, s1, index, s2, s3, s4, value, span };
                assert(new@ is Assign);
                if changed {
                    (new.expr(), true)
                } else {
                    (new.rewrite(), true)
                }
            },
            Self::AccessIdent { expr, s0, s1, ident, span } => {
                let (expr, changed) = step_child(expr);
                let new = Self::AccessIdent { expr, s0, s1, ident, span };
                assert(new@ is AccessIdent);
                if changed {
                    (new.expr(), true)
                } else {
                    (new.rewrite(), true)
                }
            },
            Self::AssignIdent { expr, s0, s1, ident, s2, s3, value, span } => {
                let (expr, changed) = step_child(expr);
                if changed {
                    let new = Self::AssignIdent { expr, s0, s1, ident, s2, s3, value, span };
                    assert(new@ is AssignIdent);
                    return (new.expr(), true);
                }
                let (value, changed) = step_child(value);
                let new = Self::AssignIdent { expr, s0, s1, ident, s2, s3, value, span };
                assert(new@ is AssignIdent);
                if changed {
                    (new.expr(), true)
                } else {
                    (new.rewrite(), true)
                }
            },
        }
    }
}

} // verus!
