//! What holds of the rewrite relation as a whole.

use vstd::prelude::*;

use crate::ast::basic::{BoundedSeparatedView, IdentView, LineView, SpaceView};
use crate::ast::call::CallView;
use crate::ast::expr::ExprView;
use crate::ast::field::FieldView;
use crate::ast::func_def::FuncDefView;
use crate::ast::lit::{LitView, StringLitView, TableLitElemView, TableLitView};
use crate::ast::program::ProgramView;
use crate::ast::table_constr::{TableConstrElemView, TableConstrView};
use crate::ast::table_destr::{TableDestrView, TablePatternElemView, TablePatternView};
use crate::ast::var::VarView;
use crate::builtin::Builtin;
use crate::desugar::lit::{desugar_first, without_nil};
use crate::desugar::table_constr::{
    apply_setters, constr_first, indexed_entries, lit_entries, setter,
};
use crate::desugar::weight::{constr_entries_weight, entries_weight};
use crate::span::Span;

verus! {

/// Dropping entries never makes a list longer, and a list that keeps its
/// length keeps all its entries.
pub proof fn lemma_without_nil_len(elems: Seq<(SpaceView, TableLitElemView, SpaceView)>)
    ensures
        without_nil(elems).len() <= elems.len(),
        without_nil(elems).len() == elems.len() ==> without_nil(elems) == elems,
    decreases elems.len(),
{
    if elems.len() > 0 {
        lemma_without_nil_len(elems.drop_last());
        if !elems.last().1.is_nil_entry() && without_nil(elems).len() == elems.len() {
            assert(elems.drop_last().push(elems.last()) =~= elems);
        }
    }
}

/// A step on the entries of a table literal keeps their number, and where
/// it reports no change it hands the entries back as they were.
pub proof fn lemma_desugar_first_unchanged(
    elems: Seq<(SpaceView, TableLitElemView, SpaceView)>,
    from: int,
)
    ensures
        desugar_first(elems, from).0.len() == elems.len(),
        !desugar_first(elems, from).1 ==> desugar_first(elems, from).0 == elems,
    decreases elems.len() - from,
{
    if 0 <= from < elems.len() {
        if !elems[from].1.desugar().1 {
            lemma_desugar_first_unchanged(elems, from + 1);
        }
    }
}

/// A table literal whose step reports no change is handed back as it was.
pub proof fn lemma_unchanged_table(table: TableLitView)
    ensures
        !table.desugar().1 ==> table.desugar().0 == table,
{
    lemma_desugar_first_unchanged(table.0.elems, 0);
    lemma_without_nil_len(table.0.elems);
}

/// A literal whose step reports no change is handed back as it was.
pub proof fn lemma_unchanged_lit(lit: LitView)
    ensures
        !lit.desugar().1 ==> lit.desugar().0 == lit,
{
    if let LitView::Table(table) = lit {
        lemma_unchanged_table(table);
    }
}

/// An expression whose step reports no change is handed back as it was.
pub proof fn lemma_unchanged_expr(expr: ExprView)
    ensures
        !expr.desugar().1 ==> expr.desugar().0 == expr,
{
    lemma_expr_steps(expr);
    if let ExprView::Lit(lit) = expr {
        lemma_unchanged_lit(lit);
    }
}

/// Every expression but a literal can take a step: one of the expressions
/// that it holds steps, or its own rule applies.
pub proof fn lemma_expr_steps(expr: ExprView)
    ensures
        !(expr is Lit) ==> expr.desugar().1,
{
    match expr {
        ExprView::Call(call) => assert(call.desugar().1),
        ExprView::Field(field) => assert(field.desugar().1),
        ExprView::Var(var) => assert(var.desugar().1),
        ExprView::TableConstr(constr) => assert(constr.desugar().1),
        ExprView::TableDestr(destr) => assert(destr.desugar().1),
        ExprView::FuncDef(def) => assert(def.desugar().1),
        _ => {},
    }
}

/// An entry of a table literal whose step reports no change is handed back
/// as it was.
pub proof fn lemma_unchanged_elem(elem: TableLitElemView)
    ensures
        !elem.desugar().1 ==> elem.desugar().0 == elem,
{
    lemma_unchanged_expr(elem.value());
}

/// Idempotence: once a step on a program reports no change, the program is
/// handed back as it was, and so every further step reports no change and
/// hands back the same program.
pub proof fn lemma_desugar_idempotent(program: ProgramView)
    requires
        !program.desugar().1,
    ensures
        program.desugar().0 == program,
        !program.desugar().0.desugar().1,
        program.desugar().0.desugar().0 == program,
{
    if let ProgramView::Expr { expr, .. } = program {
        lemma_unchanged_expr(expr);
    }
}

} // verus!

verus! {

/// The weight of a list with one more entry at its end.
pub proof fn lemma_entries_weight_push(
    elems: Seq<(SpaceView, TableLitElemView, SpaceView)>,
    entry: (SpaceView, TableLitElemView, SpaceView),
)
    ensures
        entries_weight(elems.push(entry)) == entries_weight(elems) + 1 + entry.1.weight(),
{
    assert(elems.push(entry).drop_last() =~= elems);
}

/// The weight of a list of constructor entries with one more entry at its
/// end.
pub proof fn lemma_constr_entries_weight_push(
    elems: Seq<(SpaceView, TableConstrElemView, SpaceView)>,
    entry: (SpaceView, TableConstrElemView, SpaceView),
)
    ensures
        constr_entries_weight(elems.push(entry)) == constr_entries_weight(elems)
            + entry.1.weight(),
{
    assert(elems.push(entry).drop_last() =~= elems);
}

/// Replacing one entry changes the weight of the list by the difference of
/// the two entries' weights.
pub proof fn lemma_entries_weight_update(
    elems: Seq<(SpaceView, TableLitElemView, SpaceView)>,
    at: int,
    entry: (SpaceView, TableLitElemView, SpaceView),
)
    requires
        0 <= at < elems.len(),
    ensures
        entries_weight(elems.update(at, entry)) + elems[at].1.weight() == entries_weight(elems)
            + entry.1.weight(),
    decreases elems.len(),
{
    let updated = elems.update(at, entry);
    if at == elems.len() - 1 {
        assert(updated.drop_last() =~= elems.drop_last());
    } else {
        lemma_entries_weight_update(elems.drop_last(), at, entry);
        assert(updated.drop_last() =~= elems.drop_last().update(at, entry));
    }
}

/// Each entry that is dropped for its `nil` takes one from the weight of
/// the list.
pub proof fn lemma_without_nil_weight(elems: Seq<(SpaceView, TableLitElemView, SpaceView)>)
    ensures
        entries_weight(without_nil(elems)) + elems.len() == entries_weight(elems) + without_nil(
            elems,
        ).len(),
    decreases elems.len(),
{
    if elems.len() > 0 {
        lemma_without_nil_weight(elems.drop_last());
        let last = elems.last();
        if last.1.is_nil_entry() {
            assert(last.1.value().weight() == 0) by {
                assert(last.1.value() matches ExprView::Lit(lit) && lit.weight() == 0);
            }
            assert(last.1.weight() == 0);
        } else {
            lemma_entries_weight_push(without_nil(elems.drop_last()), last);
        }
    }
}

/// The literal and the indexed entries of a constructor share its weight
/// between them.
pub proof fn lemma_split_weight(elems: Seq<(SpaceView, TableConstrElemView, SpaceView)>)
    ensures
        entries_weight(lit_entries(elems)) + constr_entries_weight(indexed_entries(elems))
            == constr_entries_weight(elems),
    decreases elems.len(),
{
    if elems.len() > 0 {
        lemma_split_weight(elems.drop_last());
        let last = elems.last();
        match last.1 {
            TableConstrElemView::Lit(lit) => {
                assert(last.1.weight() == 1 + lit.weight());
                lemma_entries_weight_push(lit_entries(elems.drop_last()), (last.0, lit, last.2));
            },
            TableConstrElemView::Indexed { .. } => {
                assert(last.1.weight() >= 10);
                lemma_constr_entries_weight_push(indexed_entries(elems.drop_last()), last);
            },
        }
    }
}

/// Every assignment that stands for an indexed entry adds the weight of
/// that entry.
pub proof fn lemma_setters_weight(
    base: ExprView,
    entries: Seq<(SpaceView, TableConstrElemView, SpaceView)>,
)
    requires
        forall|i: int| 0 <= i < entries.len() ==> (#[trigger] entries[i]).1 is Indexed,
    ensures
        apply_setters(base, entries).weight() == base.weight() + constr_entries_weight(entries),
    decreases entries.len(),
{
    if entries.len() > 0 {
        lemma_setters_weight(base, entries.drop_last());
        let prev = apply_setters(base, entries.drop_last());
        let last = entries.last();
        assert(last.1 is Indexed);
        let next = setter(prev, last);
        assert(next matches ExprView::Field(field) && field.weight() == prev.weight()
            + last.1.weight());
    }
}

/// The indexed entries of a constructor are indexed entries.
pub proof fn lemma_indexed_entries(elems: Seq<(SpaceView, TableConstrElemView, SpaceView)>)
    ensures
        forall|i: int|
            0 <= i < indexed_entries(elems).len() ==> (#[trigger] indexed_entries(elems)[i]).1
                is Indexed,
    decreases elems.len(),
{
    if elems.len() > 0 {
        lemma_indexed_entries(elems.drop_last());
    }
}

/// The constructor that spells a pattern weighs one for each entry.
pub proof fn lemma_pattern_weight(pattern: TablePatternView)
    ensures
        constr_entries_weight(pattern.to_constr().0.elems) == pattern.0.elems.len(),
    decreases pattern.0.elems.len(),
{
    let elems = pattern.0.elems;
    if elems.len() > 0 {
        let shorter = TablePatternView(
            BoundedSeparatedView {
                elems: elems.drop_last(),
                trailing: pattern.0.trailing,
                span: pattern.0.span,
            },
        );
        lemma_pattern_weight(shorter);
        assert(pattern.to_constr().0.elems.drop_last() =~= shorter.to_constr().0.elems);
        let last = pattern.to_constr().0.elems.last();
        assert(last.1 == elems.last().1.to_constr());
        lemma_string_weight_elem(elems.last().1);
    }
}

/// The constructor entry that spells a pattern entry weighs one.
pub proof fn lemma_string_weight_elem(elem: TablePatternElemView)
    ensures
        elem.to_constr().weight() == 1,
{
    match elem {
        TablePatternElemView::Positional(ident) => {
            lemma_leaf_weights(ident.span);
            assert(ExprView::string_of(ident).weight() == 0) by {
                assert(LitView::String(StringLitView::from_ident(ident)).weight() == 0);
            }
            let lit = TableLitElemView::Positional(Box::new(ExprView::string_of(ident)));
            assert(lit.weight() == 0);
        },
        TablePatternElemView::Named { name, s0, s1, ident, span } => {
            assert(ExprView::string_of(ident).weight() == 0) by {
                assert(LitView::String(StringLitView::from_ident(ident)).weight() == 0);
            }
            let lit = TableLitElemView::Named {
                name,
                s0,
                s1,
                value: Box::new(ExprView::string_of(ident)),
                span,
            };
            assert(lit.weight() == 0);
        },
    }
}

/// The weights of the expressions that the rules put in: built-in
/// operations, `nil` and `true` weigh nothing, the calls `'scope()` and
/// `'arg()` weigh four.
pub proof fn lemma_leaf_weights(span: Span)
    ensures
        forall|b: Builtin| (#[trigger] ExprView::builtin(b, span)).weight() == 0,
        ExprView::Lit(LitView::Nil(span)).weight() == 0,
        ExprView::Lit(LitView::Bool(true, span)).weight() == 0,
        ExprView::scope_call(span).weight() == 4,
        ExprView::arg_call(span).weight() == 4,
{
    assert forall|b: Builtin| (#[trigger] ExprView::builtin(b, span)).weight() == 0 by {
        assert(LitView::Builtin(b, span).weight() == 0);
    }
    assert(LitView::Nil(span).weight() == 0);
    assert(LitView::Bool(true, span).weight() == 0);
    assert(CallView::no_arg(ExprView::builtin(Builtin::Scope, span), span).weight() == 4);
    assert(CallView::no_arg(ExprView::builtin(Builtin::Arg, span), span).weight() == 4);
}

/// The weight of an expression that is a string literal.
pub proof fn lemma_string_weight(ident: IdentView)
    ensures
        ExprView::string_of(ident).weight() == 0,
{
    assert(LitView::String(StringLitView::from_ident(ident)).weight() == 0);
}

/// The weight of an entry that holds an expression.
pub proof fn lemma_positional_weight(value: ExprView)
    ensures
        TableConstrElemView::positional(value).weight() == 1 + value.weight(),
        TableLitElemView::Positional(Box::new(value)).weight() == value.weight(),
{
    assert(TableLitElemView::Positional(Box::new(value)).weight() == value.weight());
}

/// The weight of a named entry without trivia.
pub proof fn lemma_named_weight(name: IdentView, value: ExprView, span: Span)
    ensures
        TableConstrElemView::named(name, value, span).weight() == 1 + value.weight(),
        TableLitElemView::named(name, value, span).weight() == value.weight(),
{
    assert(TableLitElemView::named(name, value, span).weight() == value.weight());
}

/// The weight of a constructor of two expressions.
pub proof fn lemma_of_two_weight(
    first: (SpaceView, ExprView, SpaceView),
    second: (SpaceView, ExprView, SpaceView),
    span: Span,
)
    ensures
        TableConstrView::of_two(first, second, span).weight() == 4 + first.1.weight()
            + second.1.weight(),
{
    lemma_positional_weight(first.1);
    lemma_positional_weight(second.1);
    let a = (first.0, TableConstrElemView::positional(first.1), first.2);
    let b = (second.0, TableConstrElemView::positional(second.1), second.2);
    lemma_constr_entries_weight_push(Seq::empty(), a);
    lemma_constr_entries_weight_push(Seq::empty().push(a), b);
    assert(TableConstrView::of_two(first, second, span).0.elems =~= Seq::empty().push(a).push(b));
}

/// The weight of a constructor of three expressions.
pub proof fn lemma_of_three_weight(
    first: (SpaceView, ExprView, SpaceView),
    second: (SpaceView, ExprView, SpaceView),
    third: (SpaceView, ExprView, SpaceView),
    span: Span,
)
    ensures
        TableConstrView::of_three(first, second, third, span).weight() == 5 + first.1.weight()
            + second.1.weight() + third.1.weight(),
{
    lemma_positional_weight(first.1);
    lemma_positional_weight(second.1);
    lemma_positional_weight(third.1);
    let a = (first.0, TableConstrElemView::positional(first.1), first.2);
    let b = (second.0, TableConstrElemView::positional(second.1), second.2);
    let c = (third.0, TableConstrElemView::positional(third.1), third.2);
    lemma_constr_entries_weight_push(Seq::empty(), a);
    lemma_constr_entries_weight_push(Seq::empty().push(a), b);
    lemma_constr_entries_weight_push(Seq::empty().push(a).push(b), c);
    assert(TableConstrView::of_three(first, second, third, span).0.elems =~= Seq::empty().push(
        a,
    ).push(b).push(c));
}

/// The weight of a table literal of one or two entries without trivia.
pub proof fn lemma_small_table_weight(first: TableLitElemView, second: TableLitElemView, span: Span)
    ensures
        ExprView::Lit(
            LitView::Table(TableLitView(BoundedSeparatedView::new(span).then_elem(first))),
        ).weight() == 1 + first.weight(),
        ExprView::Lit(
            LitView::Table(
                TableLitView(BoundedSeparatedView::new(span).then_elem(first).then_elem(second)),
            ),
        ).weight() == 2 + first.weight() + second.weight(),
{
    let empty = SpaceView::empty(span);
    let one = BoundedSeparatedView::new(span).then_elem(first);
    let two = one.then_elem(second);
    lemma_entries_weight_push(Seq::empty(), (empty, first, empty));
    lemma_entries_weight_push(one.elems, (empty, second, empty));
    assert(TableLitView(one).weight() == 1 + first.weight());
    assert(TableLitView(two).weight() == 2 + first.weight() + second.weight());
    assert(LitView::Table(TableLitView(one)).weight() == 1 + first.weight());
    assert(LitView::Table(TableLitView(two)).weight() == 2 + first.weight() + second.weight());
}

} // verus!

verus! {

/// Its rule makes a call lighter.
pub proof fn lemma_call_rule(call: CallView)
    ensures
        call.rewrite().weight() < call.weight(),
{
    reveal(CallView::rewrite);
    let new = call.rewrite();
    match call {
        CallView::Arg { expr, s0, s1, arg, s2, span } => {
            let first = TableLitElemView::named(IdentView { name: "call"@, span }, *expr, span);
            let second = TableLitElemView::named(IdentView { name: "arg"@, span }, *arg, span);
            lemma_named_weight(IdentView { name: "call"@, span }, *expr, span);
            lemma_named_weight(IdentView { name: "arg"@, span }, *arg, span);
            lemma_small_table_weight(first, second, span);
        },
        CallView::NoArg { expr, s0, s1, span } => {
            lemma_leaf_weights(span);
            assert(new matches ExprView::Call(c) && c.weight() == 3 + expr.weight());
        },
        CallView::Constr { expr, s0, constr, span } => {
            assert(ExprView::TableConstr(constr).weight() == constr.weight());
            assert(new matches ExprView::Call(c) && c.weight() == 3 + expr.weight()
                + constr.weight());
        },
    }
}

/// Its rule makes a field access or assignment lighter.
pub proof fn lemma_field_rule(field: FieldView)
    ensures
        field.rewrite().weight() < field.weight(),
{
    reveal(FieldView::rewrite);
    let new = field.rewrite();
    match field {
        FieldView::Access { expr, s0, s1, index, s2, span } => {
            lemma_leaf_weights(span);
            lemma_of_two_weight(
                (SpaceView::empty(span), *expr, SpaceView::empty(span)),
                (s1, *index, s2),
                span,
            );
            assert(new matches ExprView::Call(c) && c.weight() == 8 + expr.weight()
                + index.weight());
        },
        FieldView::Assign { expr, s0, s1, index, s2, s3, s4, value, span } => {
            lemma_leaf_weights(span);
            lemma_of_three_weight(
                (SpaceView::empty(span), *expr, SpaceView::empty(span)),
                (s1, *index, s2),
                (s3.then_line(LineView::Empty).then_space(s4), *value, SpaceView::empty(span)),
                span,
            );
            assert(new matches ExprView::Call(c) && c.weight() == 9 + expr.weight()
                + index.weight() + value.weight());
        },
        FieldView::AccessIdent { expr, s0, s1, ident, span } => {
            lemma_string_weight(ident);
            assert(new matches ExprView::Field(f) && f.weight() == 9 + expr.weight());
        },
        FieldView::AssignIdent { expr, s0, s1, ident, s2, s3, value, span } => {
            lemma_string_weight(ident);
            assert(new matches ExprView::Field(f) && f.weight() == 10 + expr.weight()
                + value.weight());
        },
    }
}

/// Its rule makes a variable access or assignment lighter.
pub proof fn lemma_var_rule(var: VarView)
    ensures
        var.rewrite().weight() < var.weight(),
{
    reveal(VarView::rewrite);
    let new = var.rewrite();
    match var {
        VarView::Access { s0, index, s1, span } => {
            lemma_leaf_weights(span);
            assert(new matches ExprView::Field(f) && f.weight() == 13 + index.weight());
        },
        VarView::Assign { local: None, s0, index, s1, s2, s3, value, span } => {
            lemma_leaf_weights(span);
            assert(new matches ExprView::Field(f) && f.weight() == 14 + index.weight()
                + value.weight());
        },
        VarView::Assign { local: Some(local), s0, index, s1, s2, s3, value, span } => {
            lemma_leaf_weights(span);
            lemma_of_three_weight(
                (SpaceView::empty(span), ExprView::scope_call(span), SpaceView::empty(span)),
                (local.then_line(LineView::Empty).then_space(s0), *index, s1),
                (s2.then_line(LineView::Empty).then_space(s3), *value, SpaceView::empty(span)),
                span,
            );
            assert(new matches ExprView::Call(c) && c.weight() == 13 + index.weight()
                + value.weight());
        },
        VarView::AccessIdent(name) => {
            lemma_string_weight(name);
            assert(new matches ExprView::Var(v) && v.weight() == 14);
        },
        VarView::AssignIdent { local, name, s0, s1, value, span } => {
            lemma_string_weight(name);
            assert(new matches ExprView::Var(v) && v.weight() == 15 + value.weight());
        },
    }
}

/// Its rule makes a table constructor lighter.
pub proof fn lemma_constr_rule(constr: TableConstrView)
    ensures
        constr.rewrite().weight() < constr.weight(),
{
    reveal(TableConstrView::rewrite);
    let span = constr.0.span;
    let raw = TableLitView(
        BoundedSeparatedView {
            elems: lit_entries(constr.0.elems),
            trailing: constr.0.trailing,
            span,
        },
    );
    let raw_expr = ExprView::Lit(LitView::Table(raw));
    assert(raw.weight() == entries_weight(lit_entries(constr.0.elems)));
    assert(LitView::Table(raw).weight() == raw.weight());
    assert(raw_expr.weight() == raw.weight());
    let name = IdentView { name: "raw"@, span };
    let raw_elem = TableLitElemView::named(name, raw_expr, span);
    lemma_named_weight(name, raw_expr, span);
    lemma_small_table_weight(raw_elem, raw_elem, span);
    assert(constr.raw_table().weight() == 1 + raw.weight());
    lemma_indexed_entries(constr.0.elems);
    lemma_setters_weight(constr.raw_table(), indexed_entries(constr.0.elems));
    lemma_split_weight(constr.0.elems);
}

/// Its rule makes a table destructuring lighter.
pub proof fn lemma_destr_rule(destr: TableDestrView)
    ensures
        destr.rewrite().weight() < destr.weight(),
{
    reveal(TableDestrView::rewrite);
    let span = destr.span;
    let empty = SpaceView::empty(span);
    lemma_leaf_weights(span);
    lemma_pattern_weight(destr.pattern);
    let pattern = ExprView::TableConstr(destr.pattern.to_constr());
    assert(destr.pattern.to_constr().weight() == 2 + destr.pattern.0.elems.len());
    assert(pattern.weight() == 2 + destr.pattern.0.elems.len());
    let first = TableConstrElemView::positional(pattern);
    let second = TableConstrElemView::positional(*destr.value);
    let name = IdentView { name: "local"@, span };
    let third = TableConstrElemView::named(name, ExprView::Lit(LitView::Bool(true, span)), span);
    lemma_positional_weight(pattern);
    lemma_positional_weight(*destr.value);
    lemma_named_weight(name, ExprView::Lit(LitView::Bool(true, span)), span);
    let one = Seq::empty().push((empty, first, empty));
    let two = one.push((empty, second, empty));
    let three = two.push((empty, third, empty));
    lemma_constr_entries_weight_push(Seq::empty(), (empty, first, empty));
    lemma_constr_entries_weight_push(one, (empty, second, empty));
    lemma_constr_entries_weight_push(two, (empty, third, empty));
    let args = destr.destructure_args();
    assert(args.elems =~= if destr.local is Some {
        three
    } else {
        two
    });
    assert(TableConstrView(args).weight() <= 7 + destr.pattern.0.elems.len()
        + destr.value.weight());
    let call = CallView::constr(
        ExprView::builtin(Builtin::Destructure, span),
        TableConstrView(args),
        span,
    );
    assert(call.weight() == 4 + TableConstrView(args).weight());
}

/// Its rule makes a function definition lighter.
pub proof fn lemma_def_rule(def: FuncDefView)
    ensures
        def.rewrite().weight() < def.weight(),
{
    reveal(FuncDefView::rewrite);
    let new = def.rewrite();
    match def {
        FuncDefView::AnonNoArg { s0, s1, s2, body, span } => {
            let empty = SpaceView::empty(span);
            lemma_leaf_weights(span);
            let quote_name = IdentView { name: "quote"@, span };
            let quote_elem = TableLitElemView::named(quote_name, *body, span);
            lemma_named_weight(quote_name, *body, span);
            lemma_small_table_weight(quote_elem, quote_elem, span);
            let quote = ExprView::Lit(
                LitView::Table(TableLitView(BoundedSeparatedView::new(span).then_elem(quote_elem))),
            );
            let scope_name = IdentView { name: "scope"@, span };
            let first = TableConstrElemView::positional(quote);
            let second = TableConstrElemView::named(scope_name, ExprView::scope_call(span), span);
            lemma_positional_weight(quote);
            lemma_named_weight(scope_name, ExprView::scope_call(span), span);
            let one = Seq::empty().push((empty, first, empty));
            lemma_constr_entries_weight_push(Seq::empty(), (empty, first, empty));
            lemma_constr_entries_weight_push(one, (empty, second, empty));
            assert(new matches ExprView::TableConstr(c) && c.weight() == 9 + body.weight());
        },
        FuncDefView::AnonArg { s0, s1, arg, s2, s3, body, span } => {
            lemma_leaf_weights(span);
            let binding = ExprView::Var(
                VarView::assign_ident(true, arg, ExprView::arg_call(span), span),
            );
            assert(VarView::assign_ident(true, arg, ExprView::arg_call(span), span).weight()
                == 20);
            assert(binding.weight() == 20);
            lemma_bound_by_weight(binding, *body, span);
        },
        FuncDefView::AnonDestr { s0, pattern, s1, body, span } => {
            lemma_leaf_weights(span);
            let binding = ExprView::TableDestr(
                TableDestrView::new(true, pattern, ExprView::arg_call(span), span),
            );
            assert(TableDestrView::new(true, pattern, ExprView::arg_call(span), span).weight()
                == 16 + pattern.0.elems.len());
            assert(binding.weight() == 16 + pattern.0.elems.len());
            lemma_bound_by_weight(binding, *body, span);
        },
        FuncDefView::NamedNoArg { local, s0, name, s1, s2, s3, body, span } => {
            let anon = FuncDefView::AnonNoArg { s0: s1, s1: s2, s2: s3, body, span };
            lemma_bind_name_weight(local, s0, name, anon, span);
            assert(anon.weight() == 10 + body.weight());
        },
        FuncDefView::NamedArg { local, s0, name, s1, s2, arg, s3, s4, body, span } => {
            let anon = FuncDefView::AnonArg { s0: s1, s1: s2, arg, s2: s3, s3: s4, body, span };
            lemma_bind_name_weight(local, s0, name, anon, span);
            assert(anon.weight() == 33 + body.weight());
        },
        FuncDefView::NamedDestr { local, s0, name, s1, pattern, s2, body, span } => {
            let anon = FuncDefView::AnonDestr { s0: s1, pattern, s1: s2, body, span };
            lemma_bind_name_weight(local, s0, name, anon, span);
            assert(anon.weight() == 29 + pattern.0.elems.len() + body.weight());
        },
    }
}

/// The weight of a function that binds its argument before its body.
pub proof fn lemma_bound_by_weight(binding: ExprView, body: ExprView, span: Span)
    ensures
        ExprView::FuncDef(FuncDefView::bound_by(binding, body, span)).weight() == 12
            + binding.weight() + body.weight(),
{
    let first = TableLitElemView::Positional(Box::new(binding));
    let second = TableLitElemView::Positional(Box::new(body));
    lemma_positional_weight(binding);
    lemma_positional_weight(body);
    lemma_small_table_weight(first, second, span);
    assert(FuncDefView::bound_by(binding, body, span).weight() == 12 + binding.weight()
        + body.weight());
}

/// The weight of the assignment of a function definition to a name.
pub proof fn lemma_bind_name_weight(
    local: Option<SpaceView>,
    s0: SpaceView,
    name: IdentView,
    def: FuncDefView,
    span: Span,
)
    ensures
        FuncDefView::bind_name(local, s0, name, def, span).weight() == 16 + def.weight(),
{
    assert(ExprView::FuncDef(def).weight() == def.weight());
    assert(FuncDefView::bind_name(local, s0, name, def, span) matches ExprView::Var(v)
        && v.weight() == 16 + def.weight());
}

/// A step makes an entry of a table literal lighter, if it changes the
/// entry at all.
pub proof fn lemma_elem_lighter(elem: TableLitElemView)
    ensures
        elem.desugar().1 ==> elem.desugar().0.weight() < elem.weight(),
    decreases elem, 0int,
{
    match elem {
        TableLitElemView::Positional(value) => {
            lemma_expr_lighter(*value);
        },
        TableLitElemView::Named { value, .. } => {
            lemma_expr_lighter(*value);
        },
    }
}

/// A step makes the entries of a table literal lighter, if it changes one
/// of them at all.
pub proof fn lemma_first_lighter(elems: Seq<(SpaceView, TableLitElemView, SpaceView)>, from: int)
    ensures
        desugar_first(elems, from).1 ==> entries_weight(desugar_first(elems, from).0)
            < entries_weight(elems),
    decreases elems, elems.len() - from,
{
    if 0 <= from < elems.len() {
        let r = elems[from].1.desugar();
        if r.1 {
            lemma_elem_lighter(elems[from].1);
            lemma_entries_weight_update(elems, from, (elems[from].0, r.0, elems[from].2));
        } else {
            lemma_first_lighter(elems, from + 1);
        }
    }
}

/// A step makes a literal lighter, if it changes the literal at all.
pub proof fn lemma_lit_lighter(lit: LitView)
    ensures
        lit.desugar().1 ==> lit.desugar().0.weight() < lit.weight(),
    decreases lit, 0int,
{
    if let LitView::Table(table) = lit {
        let elems = table.0.elems;
        lemma_first_lighter(elems, 0);
        lemma_without_nil_weight(elems);
        lemma_without_nil_len(elems);
        let new = table.desugar().0;
        assert(new.weight() == entries_weight(new.0.elems));
        assert(table.weight() == entries_weight(elems));
        assert(LitView::Table(new).weight() == new.weight());
    }
}

/// Replacing one entry of a table constructor changes the weight of its
/// entries by the difference of the two entries' weights.
pub proof fn lemma_constr_entries_weight_update(
    elems: Seq<(SpaceView, TableConstrElemView, SpaceView)>,
    at: int,
    entry: (SpaceView, TableConstrElemView, SpaceView),
)
    requires
        0 <= at < elems.len(),
    ensures
        constr_entries_weight(elems.update(at, entry)) + elems[at].1.weight()
            == constr_entries_weight(elems) + entry.1.weight(),
    decreases elems.len(),
{
    let updated = elems.update(at, entry);
    if at == elems.len() - 1 {
        assert(updated.drop_last() =~= elems.drop_last());
    } else {
        lemma_constr_entries_weight_update(elems.drop_last(), at, entry);
        assert(updated.drop_last() =~= elems.drop_last().update(at, entry));
    }
}

/// A step makes a call lighter.
pub proof fn lemma_call_lighter(call: CallView)
    ensures
        call.desugar().0.weight() < call.weight(),
    decreases call, 0int,
{
    let new = call.desugar().0;
    lemma_call_rule(call);
    match call {
        CallView::Arg { expr, s0, s1, arg, s2, span } => {
            lemma_expr_lighter(*expr);
            lemma_expr_lighter(*arg);
            if expr.desugar().1 || arg.desugar().1 {
                assert(new matches ExprView::Call(c) && c.weight() < call.weight());
            }
        },
        CallView::NoArg { expr, s0, s1, span } => {
            lemma_expr_lighter(*expr);
            if expr.desugar().1 {
                assert(new matches ExprView::Call(c) && c.weight() < call.weight());
            }
        },
        CallView::Constr { expr, s0, constr, span } => {
            lemma_expr_lighter(*expr);
            lemma_constr_children_lighter(constr);
            if expr.desugar().1 || constr.step_children().1 {
                assert(new matches ExprView::Call(c) && c.weight() < call.weight());
            }
        },
    }
}

/// A step makes a field access or assignment lighter.
pub proof fn lemma_field_lighter(field: FieldView)
    ensures
        field.desugar().0.weight() < field.weight(),
    decreases field, 0int,
{
    let new = field.desugar().0;
    lemma_field_rule(field);
    match field {
        FieldView::Access { expr, s0, s1, index, s2, span } => {
            lemma_expr_lighter(*expr);
            lemma_expr_lighter(*index);
            if expr.desugar().1 || index.desugar().1 {
                assert(new matches ExprView::Field(f) && f.weight() < field.weight());
            }
        },
        FieldView::Assign { expr, s0, s1, index, s2, s3, s4, value, span } => {
            lemma_expr_lighter(*expr);
            lemma_expr_lighter(*index);
            lemma_expr_lighter(*value);
            if expr.desugar().1 || index.desugar().1 || value.desugar().1 {
                assert(new matches ExprView::Field(f) && f.weight() < field.weight());
            }
        },
        FieldView::AccessIdent { expr, s0, s1, ident, span } => {
            lemma_expr_lighter(*expr);
            if expr.desugar().1 {
                assert(new matches ExprView::Field(f) && f.weight() < field.weight());
            }
        },
        FieldView::AssignIdent { expr, s0, s1, ident, s2, s3, value, span } => {
            lemma_expr_lighter(*expr);
            lemma_expr_lighter(*value);
            if expr.desugar().1 || value.desugar().1 {
                assert(new matches ExprView::Field(f) && f.weight() < field.weight());
            }
        },
    }
}

/// A step makes a variable access or assignment lighter.
pub proof fn lemma_var_lighter(var: VarView)
    ensures
        var.desugar().0.weight() < var.weight(),
    decreases var, 0int,
{
    let new = var.desugar().0;
    lemma_var_rule(var);
    match var {
        VarView::Access { s0, index, s1, span } => {
            lemma_expr_lighter(*index);
            if index.desugar().1 {
                assert(new matches ExprView::Var(v) && v.weight() < var.weight());
            }
        },
        VarView::Assign { local, s0, index, s1, s2, s3, value, span } => {
            lemma_expr_lighter(*index);
            lemma_expr_lighter(*value);
            if index.desugar().1 || value.desugar().1 {
                assert(new matches ExprView::Var(v) && v.weight() < var.weight());
            }
        },
        VarView::AccessIdent(_) => {},
        VarView::AssignIdent { local, name, s0, s1, value, span } => {
            lemma_expr_lighter(*value);
            if value.desugar().1 {
                assert(new matches ExprView::Var(v) && v.weight() < var.weight());
            }
        },
    }
}

/// A step makes an entry of a table constructor lighter, if it changes the
/// entry at all.
pub proof fn lemma_constr_elem_lighter(elem: TableConstrElemView)
    ensures
        elem.desugar().1 ==> elem.desugar().0.weight() < elem.weight(),
    decreases elem, 0int,
{
    let new = elem.desugar().0;
    match elem {
        TableConstrElemView::Lit(lit) => {
            lemma_elem_lighter(lit);
            assert(elem.weight() == 1 + lit.weight());
            if lit.desugar().1 {
                assert(new matches TableConstrElemView::Lit(l) && new.weight() == 1 + l.weight());
            }
        },
        TableConstrElemView::Indexed { s0, index, s1, s2, s3, value, span } => {
            lemma_expr_lighter(*index);
            lemma_expr_lighter(*value);
            assert(elem.weight() == 10 + index.weight() + value.weight());
            if index.desugar().1 || value.desugar().1 {
                assert(new matches TableConstrElemView::Indexed { index: i, value: v, .. }
                    && new.weight() == 10 + i.weight() + v.weight());
            }
        },
    }
}

/// A step makes the entries of a table constructor lighter, if it changes
/// one of them at all.
pub proof fn lemma_constr_first_lighter(
    elems: Seq<(SpaceView, TableConstrElemView, SpaceView)>,
    from: int,
)
    ensures
        constr_first(elems, from).1 ==> constr_entries_weight(constr_first(elems, from).0)
            < constr_entries_weight(elems),
    decreases elems, elems.len() - from,
{
    if 0 <= from < elems.len() {
        let r = elems[from].1.desugar();
        if r.1 {
            lemma_constr_elem_lighter(elems[from].1);
            lemma_constr_entries_weight_update(elems, from, (elems[from].0, r.0, elems[from].2));
        } else {
            lemma_constr_first_lighter(elems, from + 1);
        }
    }
}

/// A step of an entry makes a table constructor lighter.
pub proof fn lemma_constr_children_lighter(constr: TableConstrView)
    ensures
        constr.step_children().1 ==> constr.step_children().0.weight() < constr.weight(),
    decreases constr, 0int,
{
    lemma_constr_first_lighter(constr.0.elems, 0);
    assert(constr.weight() == 2 + constr_entries_weight(constr.0.elems));
    let new = constr.step_children().0;
    assert(new.weight() == 2 + constr_entries_weight(new.0.elems));
}

/// A step makes a table constructor lighter.
pub proof fn lemma_constr_lighter(constr: TableConstrView)
    ensures
        constr.desugar().0.weight() < constr.weight(),
    decreases constr, 1int,
{
    lemma_constr_children_lighter(constr);
    lemma_constr_rule(constr);
    if constr.step_children().1 {
        let new = constr.step_children().0;
        assert(ExprView::TableConstr(new).weight() == new.weight());
    }
}

/// A step makes a table destructuring lighter.
pub proof fn lemma_destr_lighter(destr: TableDestrView)
    ensures
        destr.desugar().0.weight() < destr.weight(),
    decreases destr, 0int,
{
    let new = destr.desugar().0;
    lemma_destr_rule(destr);
    lemma_expr_lighter(*destr.value);
    if destr.value.desugar().1 {
        assert(new matches ExprView::TableDestr(d) && d.weight() < destr.weight());
    }
}

/// A step makes a function definition lighter.
pub proof fn lemma_def_lighter(def: FuncDefView)
    ensures
        def.desugar().0.weight() < def.weight(),
    decreases def, 0int,
{
    let new = def.desugar().0;
    lemma_def_rule(def);
    match def {
        FuncDefView::AnonNoArg { body, .. } => lemma_expr_lighter(*body),
        FuncDefView::AnonArg { body, .. } => lemma_expr_lighter(*body),
        FuncDefView::AnonDestr { body, .. } => lemma_expr_lighter(*body),
        FuncDefView::NamedNoArg { body, .. } => lemma_expr_lighter(*body),
        FuncDefView::NamedArg { body, .. } => lemma_expr_lighter(*body),
        FuncDefView::NamedDestr { body, .. } => lemma_expr_lighter(*body),
    }
    assert(new matches ExprView::FuncDef(d) ==> d.weight() < def.weight());
}

/// A step makes an expression lighter, if it changes the expression at
/// all.
pub proof fn lemma_expr_lighter(expr: ExprView)
    ensures
        expr.desugar().1 ==> expr.desugar().0.weight() < expr.weight(),
    decreases expr, 2int,
{
    reveal(ExprView::rewrite);
    let new = expr.desugar().0;
    match expr {
        ExprView::Lit(lit) => {
            lemma_lit_lighter(lit);
            assert(new.weight() == lit.desugar().0.weight());
        },
        ExprView::Call(call) => lemma_call_lighter(call),
        ExprView::Field(field) => lemma_field_lighter(field),
        ExprView::Var(var) => lemma_var_lighter(var),
        ExprView::TableConstr(constr) => lemma_constr_lighter(constr),
        ExprView::TableDestr(destr) => lemma_destr_lighter(destr),
        ExprView::FuncDef(def) => lemma_def_lighter(def),
        ExprView::Paren { s0, inner, s1, span } => {
            lemma_expr_lighter(*inner);
        },
        ExprView::Neg { minus, s0, expr: inner, span } => {
            lemma_expr_lighter(*inner);
            lemma_leaf_weights(minus);
            if !inner.desugar().1 {
                assert(new matches ExprView::Call(c) && c.weight() == 3 + inner.weight());
            }
        },
        ExprView::Not { not, s0, expr: inner, span } => {
            lemma_expr_lighter(*inner);
            lemma_leaf_weights(not);
            if !inner.desugar().1 {
                assert(new matches ExprView::Call(c) && c.weight() == 3 + inner.weight());
            }
        },
        ExprView::BinOp { left, s0, op, s1, right, span } => {
            lemma_expr_lighter(*left);
            lemma_expr_lighter(*right);
            lemma_leaf_weights(span);
            lemma_of_two_weight(
                (SpaceView::empty(span), *left, SpaceView::empty(span)),
                (SpaceView::empty(span), *right, SpaceView::empty(span)),
                span,
            );
            if !left.desugar().1 && !right.desugar().1 {
                assert(new matches ExprView::Call(c) && c.weight() == 8 + left.weight()
                    + right.weight());
            }
        },
    }
}

/// Termination: every step that changes a program makes it lighter. The
/// weight of a program thus bounds the number of steps that change it.
pub proof fn lemma_desugar_lighter(program: ProgramView)
    requires
        program.desugar().1,
    ensures
        program.desugar().0.weight() < program.weight(),
{
    match program {
        ProgramView::Expr { expr, .. } => {
            lemma_expr_lighter(expr);
        },
        ProgramView::Module { s0, elems, span } => {
            let table = TableLitView(elems);
            assert(table.weight() == entries_weight(elems.elems));
            assert(LitView::Table(table).weight() == table.weight());
            assert(ExprView::Lit(LitView::Table(table)).weight() == table.weight());
        },
    }
}

} // verus!
