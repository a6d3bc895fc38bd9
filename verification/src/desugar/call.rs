use vstd::prelude::*;

use crate::ast::basic::{BoundedSeparated, BoundedSeparatedView, Ident, IdentView, Space, SpaceView};
use crate::ast::call::{Call, CallView};
use crate::ast::expr::{Expr, ExprView};
use crate::ast::lit::{Lit, LitView, TableLit, TableLitElem, TableLitElemView, TableLitView};
use crate::builtin::Builtin;
use crate::desugar::expr::step_child;
use crate::span::Span;

verus! {

impl ExprView {
    /// The literal of a built-in operation.
    pub open spec fn builtin(builtin: Builtin, span: Span) -> ExprView {
        ExprView::Lit(LitView::Builtin(builtin, span))
    }

    /// The call `'scope()` without trivia.
    pub open spec fn scope_call(span: Span) -> ExprView {
        ExprView::Call(CallView::no_arg(ExprView::builtin(Builtin::Scope, span), span))
    }

    /// The call `'arg()` without trivia.
    pub open spec fn arg_call(span: Span) -> ExprView {
        ExprView::Call(CallView::no_arg(ExprView::builtin(Builtin::Arg, span), span))
    }
}

impl CallView {
    /// The rule of the node itself:
    ///
    /// - `f(x)` becomes the table literal `'{call: f, arg: x}`,
    /// - `f()` becomes `f(nil)`,
    /// - `f{..}` becomes `f({..})`.
    #[verifier::opaque]
    pub open spec fn rewrite(self) -> ExprView {
        match self {
            CallView::Arg { expr, s0, s1, arg, s2, span } => {
                let call = TableLitElemView::named(IdentView { name: "call"@, span }, *expr, span);
                let arg = TableLitElemView::named(IdentView { name: "arg"@, span }, *arg, span);
                let table = BoundedSeparatedView::new(span).then_elem(call).then_elem(arg);
                ExprView::Lit(LitView::Table(TableLitView(table)))
            },
            CallView::NoArg { expr, s0, s1, span } => {
                let new = CallView::Arg {
                    expr,
                    s0,
                    s1,
                    arg: Box::new(ExprView::Lit(LitView::Nil(span))),
                    s2: SpaceView::empty(span),
                    span,
                };
                ExprView::Call(new)
            },
            CallView::Constr { expr, s0, constr, span } => {
                let new = CallView::Arg {
                    expr,
                    s0,
                    s1: SpaceView::empty(span),
                    arg: Box::new(ExprView::TableConstr(constr)),
                    s2: SpaceView::empty(span),
                    span,
                };
                ExprView::Call(new)
            },
        }
    }
}

/// The literal of a built-in operation.
pub fn builtin_expr(builtin: Builtin, span: Span) -> (expr: Box<Expr>)
    ensures
        expr@ == ExprView::builtin(builtin, span),
{
    Lit::Builtin(builtin, span).expr().boxed()
}

/// The call `'scope()` without trivia.
pub fn scope_call(span: Span) -> (expr: Expr)
    ensures
        expr@ == ExprView::scope_call(span),
{
    Call::no_arg(builtin_expr(Builtin::Scope, span), span).expr()
}

/// The call `'arg()` without trivia.
pub fn arg_call(span: Span) -> (expr: Expr)
    ensures
        expr@ == ExprView::arg_call(span),
{
    Call::no_arg(builtin_expr(Builtin::Arg, span), span).expr()
}

/// The table literal that holds `first` and `second`, without trivia.
pub fn table_lit_of_two(first: TableLitElem, second: TableLitElem, span: Span) -> (table: TableLit)
    ensures
        table@ == TableLitView(
            BoundedSeparatedView::new(span).then_elem(first@).then_elem(second@),
        ),
{
    let list = BoundedSeparated::new(span).then_elem(first).then_elem(second);
    assert(list@.elems =~= BoundedSeparatedView::new(span).then_elem(first@).then_elem(
        second@,
    ).elems);
    TableLit(list)
}

impl Call {
    /// The rule of the node itself, as [`CallView::rewrite`] describes it.
    pub fn rewrite(self) -> (r: Expr)
        ensures
            r@ == self@.rewrite(),
    {
        proof {
            reveal(CallView::rewrite);
        }
        match self {
            Self::Arg { expr, s0: _, s1: _, arg, s2: _, span } => {
                let call = TableLitElem::named(Ident::new("call", span), expr, span);
                let arg = TableLitElem::named(Ident::new("arg", span), arg, span);
                table_lit_of_two(call, arg, span).lit().expr()
            },
            Self::NoArg { expr, s0, s1, span } => {
                let new = Self::Arg {
                    expr,
                    s0,
                    s1,
                    arg: Lit::Nil(span).expr().boxed(),
                    s2: Space::empty(span),
                    span,
                };
                assert(new@ is Arg);
                new.expr()
            },
            Self::Constr { expr, s0, constr, span } => {
                let new = Self::Arg {
                    expr,
                    s0,
                    s1: Space::empty(span),
                    arg: constr.expr().boxed(),
                    s2: Space::empty(span),
                    span,
                };
                assert(new@ is Arg);
                new.expr()
            },
        }
    }
}

} // verus!

verus! {

impl CallView {
    /// One step of desugaring: the first of the expressions that the node
    /// holds, in their order in the source, that can take a step takes it,
    /// and all else stays. Only if none can step is the node itself
    /// rewritten, by its rule.
    pub open spec fn desugar(self) -> (ExprView, bool)
        decreases self, 0int,
    {
        match self {
            CallView::Arg { expr, s0, s1, arg, s2, span } => {
                let expr_step = expr.desugar();
                let arg_step = arg.desugar();
                if expr_step.1 {
                    (
                        ExprView::Call(
                            CallView::Arg {
                                expr: Box::new(expr_step.0),
                                s0,
                                s1,
                                arg,
                                s2,
                                span,
                            },
                        ),
                        true,
                    )
                }                 else if arg_step.1 {
                    (
                        ExprView::Call(
                            CallView::Arg {
                                expr,
                                s0,
                                s1,
                                arg: Box::new(arg_step.0),
                                s2,
                                span,
                            },
                        ),
                        true,
                    )
                } else {
                    (self.rewrite(), true)
                }
            },
            CallView::NoArg { expr, s0, s1, span } => {
                let expr_step = expr.desugar();
                if expr_step.1 {
                    (
                        ExprView::Call(
                            CallView::NoArg {
                                expr: Box::new(expr_step.0),
                                s0,
                                s1,
                                span,
                            },
                        ),
                        true,
                    )
                } else {
                    (self.rewrite(), true)
                }
            },
            CallView::Constr { expr, s0, constr, span } => {
                let expr_step = expr.desugar();
                let constr_step = constr.step_children();
                if expr_step.1 {
                    (
                        ExprView::Call(
                            CallView::Constr { expr: Box::new(expr_step.0), s0, constr, span },
                        ),
                        true,
                    )
                } else if constr_step.1 {
                    (
                        ExprView::Call(
                            CallView::Constr {
                                expr,
                                s0,
                                constr: constr_step.0,
                                span,
                            },
                        ),
                        true,
                    )
                } else {
                    (self.rewrite(), true)
                }
            },
        }
    }
}

impl Call {
    /// One step of desugaring, as [`CallView::desugar`] describes it.
    pub fn desugar(self) -> (r: (Expr, bool))
        ensures
            r.0@ == self@.desugar().0,
            r.1 == self@.desugar().1,
        decreases self, 0int,
    {
        match self {
            Self::Arg { expr, s0, s1, arg, s2, span } => {
                let (expr, changed) = step_child(expr);
                if changed {
                    let new = Self::Arg { expr, s0, s1, arg, s2, span };
                    assert(new@ is Arg);
                    return (new.expr(), true);
                }
                let (arg, changed) = step_child(arg);
                let new = Self::Arg { expr, s0, s1, arg, s2, span };
                assert(new@ is Arg);
                if changed {
                    (new.expr(), true)
                } else {
                    (new.rewrite(), true)
                }
            },
            Self::NoArg { expr, s0, s1, span } => {
                let (expr, changed) = step_child(expr);
                let new = Self::NoArg { expr, s0, s1, span };
                assert(new@ is NoArg);
                if changed {
                    (new.expr(), true)
                } else {
                    (new.rewrite(), true)
                }
            },
            Self::Constr { expr, s0, constr, span } => {
                let (expr, changed) = step_child(expr);
                if changed {
                    let new = Self::Constr { expr, s0, constr, span };
                    assert(new@ is Constr);
                    return (new.expr(), true);
                }
                let (constr, changed) = constr.step_children();
                let new = Self::Constr { expr, s0, constr, span };
                assert(new@ is Constr);
                if changed {
                    (new.expr(), true)
                } else {
                    (new.rewrite(), true)
                }
            },
        }
    }
}

} // verus!
