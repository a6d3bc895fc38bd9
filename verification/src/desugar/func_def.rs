use vstd::prelude::*;

use crate::ast::basic::{BoundedSeparated, BoundedSeparatedView, Ident, IdentView, Space, SpaceView};
use crate::ast::expr::{Expr, ExprView};
use crate::ast::func_def::{FuncDef, FuncDefView};
use crate::ast::lit::{Lit, LitView, TableLitElem, TableLitElemView, TableLitView};
use crate::ast::table_constr::{TableConstr, TableConstrElem, TableConstrElemView, TableConstrView};
use crate::ast::table_destr::{TableDestr, TableDestrView};
use crate::ast::var::{Var, VarView};
use crate::desugar::call::{arg_call, scope_call, table_lit_of_two};
use crate::desugar::expr::step_child;
use crate::desugar::table_constr::table_lit_of_one;
use crate::span::Span;

verus! {

impl FuncDefView {
    /// The function without parameter whose body is the table literal
    /// `'{binding, body}`: it first binds what the function was called
    /// with, then runs the body.
    pub open spec fn bound_by(binding: ExprView, body: ExprView, span: Span) -> FuncDefView {
        let table = BoundedSeparatedView::new(span).then_elem(
            TableLitElemView::Positional(Box::new(binding)),
        ).then_elem(TableLitElemView::Positional(Box::new(body)));
        FuncDefView::AnonNoArg {
            s0: SpaceView::empty(span),
            s1: SpaceView::empty(span),
            s2: SpaceView::empty(span),
            body: Box::new(ExprView::Lit(LitView::Table(TableLitView(table)))),
            span,
        }
    }

    /// The assignment `name = def`, with `local` before it where the
    /// definition is local.
    pub open spec fn bind_name(
        local: Option<SpaceView>,
        s0: SpaceView,
        name: IdentView,
        def: FuncDefView,
        span: Span,
    ) -> ExprView {
        ExprView::Var(
            VarView::AssignIdent {
                local,
                name,
                s0,
                s1: SpaceView::empty(span),
                value: Box::new(ExprView::FuncDef(def)),
                span,
            },
        )
    }

    /// The rule of the node itself:
    ///
    /// - `function() body` becomes `{'{quote: body}, scope: 'scope()}`,
    /// - `function(a) body` becomes `function() '{local a = 'arg(), body}`,
    /// - `function{pat} body` becomes
    ///   `function() '{local {pat} = 'arg(), body}`,
    /// - a named definition becomes the assignment of the anonymous
    ///   definition to the name, and keeps a `local` before it.
    #[verifier::opaque]
    pub open spec fn rewrite(self) -> ExprView {
        match self {
            FuncDefView::AnonNoArg { s0, s1, s2, body, span } => {
                let quote = TableLitView(
                    BoundedSeparatedView::new(span).then_elem(
                        TableLitElemView::named(IdentView { name: "quote"@, span }, *body, span),
                    ),
                );
                let new = BoundedSeparatedView::new(span).then_elem(
                    TableConstrElemView::positional(ExprView::Lit(LitView::Table(quote))),
                ).then_elem(
                    TableConstrElemView::named(
                        IdentView { name: "scope"@, span },
                        ExprView::scope_call(span),
                        span,
                    ),
                );
                ExprView::TableConstr(TableConstrView(new))
            },
            FuncDefView::AnonArg { s0, s1, arg, s2, s3, body, span } => {
                let binding = ExprView::Var(
                    VarView::assign_ident(true, arg, ExprView::arg_call(span), span),
                );
                ExprView::FuncDef(FuncDefView::bound_by(binding, *body, span))
            },
            FuncDefView::AnonDestr { s0, pattern, s1, body, span } => {
                let binding = ExprView::TableDestr(
                    TableDestrView::new(true, pattern, ExprView::arg_call(span), span),
                );
                ExprView::FuncDef(FuncDefView::bound_by(binding, *body, span))
            },
            FuncDefView::NamedNoArg { local, s0, name, s1, s2, s3, body, span } => {
                let def = FuncDefView::AnonNoArg { s0: s1, s1: s2, s2: s3, body, span };
                FuncDefView::bind_name(local, s0, name, def, span)
            },
            FuncDefView::NamedArg { local, s0, name, s1, s2, arg, s3, s4, body, span } => {
                let def = FuncDefView::AnonArg { s0: s1, s1: s2, arg, s2: s3, s3: s4, body, span };
                FuncDefView::bind_name(local, s0, name, def, span)
            },
            FuncDefView::NamedDestr { local, s0, name, s1, pattern, s2, body, span } => {
                let def = FuncDefView::AnonDestr { s0: s1, pattern, s1: s2, body, span };
                FuncDefView::bind_name(local, s0, name, def, span)
            },
        }
    }
}

fn bound_by(binding: Expr, body: Box<Expr>, span: Span) -> (def: FuncDef)
    ensures
        def@ == FuncDefView::bound_by(binding@, body@, span),
{
    let first = TableLitElem::Positional(binding.boxed());
    assert(first@ is Positional);
    let second = TableLitElem::Positional(body);
    assert(second@ is Positional);
    let table = table_lit_of_two(first, second, span);
    let def = FuncDef::AnonNoArg {
        s0: Space::empty(span),
        s1: Space::empty(span),
        s2: Space::empty(span),
        body: table.lit().expr().boxed(),
        span,
    };
    assert(def@ is AnonNoArg);
    def
}

fn bind_name(local: Option<Space>, s0: Space, name: Ident, def: FuncDef, span: Span) -> (expr: Expr)
    ensures
        expr@ == FuncDefView::bind_name(
            crate::ast::basic::opt_space_view(local),
            s0@,
            name@,
            def@,
            span,
        ),
{
    let value = Expr::FuncDef(def);
    assert(value@ is FuncDef);
    let assign = Var::AssignIdent { local, name, s0, s1: Space::empty(span), value: value.boxed(), span };
    assert(assign@ is AssignIdent);
    assign.expr()
}

impl FuncDef {
    /// The rule of the node itself, as [`FuncDefView::rewrite`] describes it.
    pub fn rewrite(self) -> (r: Expr)
        ensures
            r@ == self@.rewrite(),
    {
        proof {
            reveal(FuncDefView::rewrite);
        }
        match self {
            Self::AnonNoArg { s0: _, s1: _, s2: _, body, span } => {
                let quote = table_lit_of_one(
                    TableLitElem::named(Ident::new("quote", span), body, span),
                    span,
                );
                let first = TableConstrElem::positional(quote.lit().expr().boxed());
                let second = TableConstrElem::named(
                    Ident::new("scope", span),
                    scope_call(span).boxed(),
                    span,
                );
                let ghost entries = BoundedSeparatedView::new(span).then_elem(first@).then_elem(
                    second@,
                );
                let list = BoundedSeparated::new(span).then_elem(first).then_elem(second);
                assert(list@.elems =~= entries.elems);
                list.table_constr().expr()
            },
            Self::AnonArg { s0: _, s1: _, arg, s2: _, s3: _, body, span } => {
                let binding = Var::assign_ident(true, arg, arg_call(span).boxed(), span).expr();
                let def = Expr::FuncDef(bound_by(binding, body, span));
                assert(def@ is FuncDef);
                def
            },
            Self::AnonDestr { s0: _, pattern, s1: _, body, span } => {
                let binding = TableDestr::new(true, pattern, arg_call(span).boxed(), span).expr();
                let def = Expr::FuncDef(bound_by(binding, body, span));
                assert(def@ is FuncDef);
                def
            },
            Self::NamedNoArg { local, s0, name, s1, s2, s3, body, span } => {
                let def = Self::AnonNoArg { s0: s1, s1: s2, s2: s3, body, span };
                assert(def@ is AnonNoArg);
                bind_name(local, s0, name, def, span)
            },
            Self::NamedArg { local, s0, name, s1, s2, arg, s3, s4, body, span } => {
                let def = Self::AnonArg { s0: s1, s1: s2, arg, s2: s3, s3: s4, body, span };
                assert(def@ is AnonArg);
                bind_name(local, s0, name, def, span)
            },
            Self::NamedDestr { local, s0, name, s1, pattern, s2, body, span } => {
                let def = Self::AnonDestr { s0: s1, pattern, s1: s2, body, span };
                assert(def@ is AnonDestr);
                bind_name(local, s0, name, def, span)
            },
        }
    }
}

} // verus!

verus! {

impl FuncDefView {
    /// One step of desugaring: the first of the expressions that the node
    /// holds, in their order in the source, that can take a step takes it,
    /// and all else stays. Only if none can step is the node itself
    /// rewritten, by its rule.
    pub open spec fn desugar(self) -> (ExprView, bool)
        decreases self, 0int,
    {
        match self {
            FuncDefView::AnonNoArg { s0, s1, s2, body, span } => {
                let body_step = body.desugar();
                if body_step.1 {
                    (
                        ExprView::FuncDef(
                            FuncDefView::AnonNoArg {
                                s0,
                                s1,
                                s2,
                                body: Box::new(body_step.0),
                                span,
                            },
                        ),
                        true,
                    )
                } else {
                    (self.rewrite(), true)
                }
            },
            FuncDefView::AnonArg { s0, s1, arg, s2, s3, body, span } => {
                let body_step = body.desugar();
                if body_step.1 {
                    (
                        ExprView::FuncDef(
                            FuncDefView::AnonArg {
                                s0,
                                s1,
                                arg,
                                s2,
                                s3,
                                body: Box::new(body_step.0),
                                span,
                            },
                        ),
                        true,
                    )
                } else {
                    (self.rewrite(), true)
                }
            },
            FuncDefView::AnonDestr { s0, pattern, s1, body, span } => {
                let body_step = body.desugar();
                if body_step.1 {
                    (
                        ExprView::FuncDef(
                            FuncDefView::AnonDestr {
                                s0,
                                pattern,
                                s1,
                                body: Box::new(body_step.0),
                                span,
                            },
                        ),
                        true,
                    )
                } else {
                    (self.rewrite(), true)
                }
            },
            FuncDefView::NamedNoArg { local, s0, name, s1, s2, s3, body, span } => {
                let body_step = body.desugar();
                if body_step.1 {
                    (
                        ExprView::FuncDef(
                            FuncDefView::NamedNoArg {
                                local,
                                s0,
                                name,
                                s1,
                                s2,
                                s3,
                                body: Box::new(body_step.0),
                                span,
                            },
                        ),
                        true,
                    )
                } else {
                    (self.rewrite(), true)
                }
            },
            FuncDefView::NamedArg { local, s0, name, s1, s2, arg, s3, s4, body, span } => {
                let body_step = body.desugar();
                if body_step.1 {
                    (
                        ExprView::FuncDef(
                            FuncDefView::NamedArg {
                                local,
                                s0,
                                name,
                                s1,
                                s2,
                                arg,
                                s3,
                                s4,
                                body: Box::new(body_step.0),
                                span,
                            },
                        ),
                        true,
                    )
                } else {
                    (self.rewrite(), true)
                }
            },
            FuncDefView::NamedDestr { local, s0, name, s1, pattern, s2, body, span } => {
                let body_step = body.desugar();
                if body_step.1 {
                    (
                        ExprView::FuncDef(
                            FuncDefView::NamedDestr {
                                local,
                                s0,
                                name,
                                s1,
                                pattern,
                                s2,
                                body: Box::new(body_step.0),
                                span,
                            },
                        ),
                        true,
                    )
                } else {
                    (self.rewrite(), true)
                }
            },
        }
    }
}

impl FuncDef {
    /// One step of desugaring, as [`FuncDefView::desugar`] describes it.
    pub fn desugar(self) -> (r: (Expr, bool))
        ensures
            r.0@ == self@.desugar().0,
            r.1 == self@.desugar().1,
        decreases self, 0int,
    {
        match self {
            Self::AnonNoArg { s0, s1, s2, body, span } => {
                let (body, changed) = step_child(body);
                let new = Self::AnonNoArg { s0, s1, s2, body, span };
                assert(new@ is AnonNoArg);
                if changed {
                    let stepped = Expr::FuncDef(new);
                    assert(stepped@ is FuncDef);
                    (stepped, true)
                } else {
                    (new.rewrite(), true)
                }
            },
            Self::AnonArg { s0, s1, arg, s2, s3, body, span } => {
                let (body, changed) = step_child(body);
                let new = Self::AnonArg { s0, s1, arg, s2, s3, body, span };
                assert(new@ is AnonArg);
                if changed {
                    let stepped = Expr::FuncDef(new);
                    assert(stepped@ is FuncDef);
                    (stepped, true)
                } else {
                    (new.rewrite(), true)
                }
            },
            Self::AnonDestr { s0, pattern, s1, body, span } => {
                let (body, changed) = step_child(body);
                let new = Self::AnonDestr { s0, pattern, s1, body, span };
                assert(new@ is AnonDestr);
                if changed {
                    let stepped = Expr::FuncDef(new);
                    assert(stepped@ is FuncDef);
                    (stepped, true)
                } else {
                    (new.rewrite(), true)
                }
            },
            Self::NamedNoArg { local, s0, name, s1, s2, s3, body, span } => {
                let (body, changed) = step_child(body);
                let new = Self::NamedNoArg { local, s0, name, s1, s2, s3, body, span };
                assert(new@ is NamedNoArg);
                if changed {
                    let stepped = Expr::FuncDef(new);
                    assert(stepped@ is FuncDef);
                    (stepped, true)
                } else {
                    (new.rewrite(), true)
                }
            },
            Self::NamedArg { local, s0, name, s1, s2, arg, s3, s4, body, span } => {
                let (body, changed) = step_child(body);
                let new = Self::NamedArg { local, s0, name, s1, s2, arg, s3, s4, body, span };
                assert(new@ is NamedArg);
                if changed {
                    let stepped = Expr::FuncDef(new);
                    assert(stepped@ is FuncDef);
                    (stepped, true)
                } else {
                    (new.rewrite(), true)
                }
            },
            Self::NamedDestr { local, s0, name, s1, pattern, s2, body, span } => {
                let (body, changed) = step_child(body);
                let new = Self::NamedDestr { local, s0, name, s1, pattern, s2, body, span };
                assert(new@ is NamedDestr);
                if changed {
                    let stepped = Expr::FuncDef(new);
                    assert(stepped@ is FuncDef);
                    (stepped, true)
                } else {
                    (new.rewrite(), true)
                }
            },
        }
    }
}

} // verus!
