//! The bound on nesting shows in one way only: as the error `TooDeep`.
//! Whatever else a rule of the grammar makes of a source, it makes of it
//! with any larger bound too.

use vstd::prelude::*;

use crate::ast::basic::SpaceView;
use crate::ast::expr::ExprView;
use crate::parser::basic::{spec_bounded_separated, spec_just, spec_list_body, spec_space, Bracket};
use crate::parser::error::{ParseError, Parsed};
use crate::parser::expr::{
    level_rank, spec_atom, spec_atom_paren, spec_binary, spec_expr, spec_left_assoc, spec_op,
};
use crate::parser::func_def::{
    spec_anon_body, spec_func_def, spec_func_def_anon, spec_func_def_named, spec_named_body,
    spec_params_arg, spec_params_destr, spec_params_none, ParamsView,
};
use crate::parser::lit::{
    lit_elem_parser, spec_lit, spec_named_elem, spec_table_lit, spec_table_lit_elem,
};
use crate::parser::prefix::{spec_prefix, spec_prefixed};
use crate::parser::program::{spec_expr_program, spec_module, spec_program};
use crate::parser::spec_parser;
use crate::parser::suffix::{
    spec_suffix, spec_suffix_call_arg, spec_suffix_call_constr, spec_suffix_field_access,
    spec_suffix_field_assign, spec_suffix_field_assign_ident, spec_suffixed, spec_suffixes,
};
use crate::parser::table_constr::{
    constr_elem_parser, spec_indexed_elem, spec_table_constr, spec_table_constr_elem,
};
use crate::parser::table_destr::spec_table_destr;
use crate::parser::var::{spec_var, spec_var_access, spec_var_assign, spec_var_assign_ident};

verus! {

/// Whether a result is one that the bound on nesting did not cause: a
/// value, or an error other than `TooDeep`.
pub open spec fn settled<T>(r: Result<T, ParseError>) -> bool {
    r matches Err(e) ==> !e.is_fatal()
}

/// Whether `high` is what `low` is, wherever `low` is settled.
pub open spec fn stays<T>(low: Result<T, ParseError>, high: Result<T, ParseError>) -> bool {
    settled(low) ==> high == low
}

/// The elements of a list stay what they are where the parser of an element
/// does.
pub proof fn lemma_list_body<V>(
    s: Seq<char>,
    pos: int,
    low: spec_fn(int) -> Parsed<V>,
    high: spec_fn(int) -> Parsed<V>,
    before: SpaceView,
    acc: Seq<(SpaceView, V, SpaceView)>,
)
    requires
        forall|p: int| stays(#[trigger] low(p), high(p)),
    ensures
        stays(spec_list_body(s, pos, low, before, acc), spec_list_body(s, pos, high, before, acc)),
    decreases s.len() - pos,
{
    assert(stays(low(pos), high(pos)));
    if let Ok((value, end)) = low(pos) {
        let behind = spec_space(s, end);
        let elems = acc.push((before, value, behind.0));
        if let Ok(comma) = spec_just(s, behind.1, ',') {
            let next = spec_space(s, comma);
            if pos < next.1 <= s.len() {
                lemma_list_body(s, next.1, low, high, next.0, elems);
            }
        }
    }
}

/// A list stays what it is where the parser of an element does.
pub proof fn lemma_bounded_separated<V>(
    s: Seq<char>,
    pos: int,
    bracket: Bracket,
    low: spec_fn(int) -> Parsed<V>,
    high: spec_fn(int) -> Parsed<V>,
)
    requires
        forall|p: int| stays(#[trigger] low(p), high(p)),
    ensures
        stays(
            spec_bounded_separated(s, pos, bracket, low),
            spec_bounded_separated(s, pos, bracket, high),
        ),
{
    reveal(spec_bounded_separated);
    if let Ok(open) = crate::parser::basic::spec_open(s, pos, bracket) {
        let first = spec_space(s, open);
        lemma_list_body(s, first.1, low, high, first.0, Seq::empty());
    }
}

/// An expression stays what it is under a larger bound, at every position.
pub proof fn lemma_all_expr(s: Seq<char>, depth: nat)
    ensures
        forall|p: int| stays(#[trigger] spec_expr(s, p, depth), spec_expr(s, p, depth + 1)),
    decreases depth, 1int, 0int,
{
    assert forall|p: int| stays(#[trigger] spec_expr(s, p, depth), spec_expr(s, p, depth + 1)) by {
        lemma_expr(s, p, depth);
    }
}

/// An expression stays what it is under a larger bound.
pub proof fn lemma_expr(s: Seq<char>, pos: int, depth: nat)
    ensures
        stays(spec_expr(s, pos, depth), spec_expr(s, pos, depth + 1)),
    decreases depth, 0int, 0int,
{
    if depth > 0 {
        lemma_binary(s, pos, (depth - 1) as nat, 0);
    }
}

/// A chain of operators stays what it is under a larger bound.
pub proof fn lemma_left_assoc(s: Seq<char>, pos: int, depth: nat, level: nat, left: ExprView)
    ensures
        stays(
            spec_left_assoc(s, pos, depth, level, left),
            spec_left_assoc(s, pos, depth + 1, level, left),
        ),
    decreases depth, level_rank(level) - 1, s.len() - pos,
{
    if level < 5 {
        if let Ok((op, p1)) = spec_op(s, pos, level) {
            lemma_binary(s, p1, depth, level + 1);
            if let Ok((right, end)) = spec_binary(s, p1, depth, level + 1) {
                if pos < end <= s.len() {
                    lemma_left_assoc(
                        s,
                        end,
                        depth,
                        level,
                        crate::parser::expr::bin_op(left, op, right),
                    );
                }
            }
        }
    }
}

/// An expression of a precedence level stays what it is under a larger bound.
pub proof fn lemma_binary(s: Seq<char>, pos: int, depth: nat, level: nat)
    ensures
        stays(spec_binary(s, pos, depth, level), spec_binary(s, pos, depth + 1, level)),
    decreases depth, level_rank(level), s.len() - pos,
{
    if level >= 5 {
        lemma_prefixed(s, pos, depth);
    } else {
        lemma_binary(s, pos, depth, level + 1);
        if let Ok((left, p1)) = spec_binary(s, pos, depth, level + 1) {
            if level >= 2 {
                lemma_left_assoc(s, p1, depth, level, left);
            } else if let Ok((op, p2)) = spec_op(s, p1, level) {
                if pos < p2 <= s.len() {
                    lemma_binary(s, p2, depth, level);
                }
            }
        }
    }
}

/// A prefixed expression stays what it is under a larger bound.
pub proof fn lemma_prefixed(s: Seq<char>, pos: int, depth: nat)
    ensures
        stays(spec_prefixed(s, pos, depth), spec_prefixed(s, pos, depth + 1)),
    decreases depth, 40int, s.len() - pos,
{
    lemma_suffixed(s, pos, depth);
    if let Ok((prefix, p1)) = spec_prefix(s, pos) {
        if pos < p1 <= s.len() {
            lemma_prefixed(s, p1, depth);
        }
    }
}

/// A suffixed expression stays what it is under a larger bound.
pub proof fn lemma_suffixed(s: Seq<char>, pos: int, depth: nat)
    ensures
        stays(spec_suffixed(s, pos, depth), spec_suffixed(s, pos, depth + 1)),
    decreases depth, 39int, 0int,
{
    lemma_atom(s, pos, depth);
    if let Ok((base, end)) = spec_atom(s, pos, depth) {
        lemma_suffixes(s, end, depth, base);
    }
}

/// A chain of suffixes stays what it is under a larger bound.
pub proof fn lemma_suffixes(s: Seq<char>, pos: int, depth: nat, base: ExprView)
    ensures
        stays(spec_suffixes(s, pos, depth, base), spec_suffixes(s, pos, depth + 1, base)),
    decreases depth, 38int, s.len() - pos,
{
    lemma_suffix(s, pos, depth);
    if let Ok((suffix, end)) = spec_suffix(s, pos, depth) {
        if pos < end <= s.len() {
            lemma_suffixes(
                s,
                end,
                depth,
                suffix.into_expr(base.span().join_spec(crate::span::Span::at(pos, end)), base),
            );
        }
    }
}

/// A suffix stays what it is under a larger bound.
pub proof fn lemma_suffix(s: Seq<char>, pos: int, depth: nat)
    ensures
        stays(spec_suffix(s, pos, depth), spec_suffix(s, pos, depth + 1)),
    decreases depth, 37int, 0int,
{
    lemma_suffix_call_arg(s, pos, depth);
    lemma_suffix_call_constr(s, pos, depth);
    lemma_suffix_field_assign(s, pos, depth);
    lemma_suffix_field_access(s, pos, depth);
    lemma_suffix_field_assign_ident(s, pos, depth);
}

/// A call with an argument stays what it is under a larger bound.
pub proof fn lemma_suffix_call_arg(s: Seq<char>, pos: int, depth: nat)
    ensures
        stays(spec_suffix_call_arg(s, pos, depth), spec_suffix_call_arg(s, pos, depth + 1)),
    decreases depth, 36int, 0int,
{
    let s0 = spec_space(s, pos);
    if let Ok(p1) = spec_just(s, s0.1, '(') {
        lemma_expr(s, spec_space(s, p1).1, depth);
    }
}

/// A call with a table constructor stays what it is under a larger bound.
pub proof fn lemma_suffix_call_constr(s: Seq<char>, pos: int, depth: nat)
    ensures
        stays(spec_suffix_call_constr(s, pos, depth), spec_suffix_call_constr(s, pos, depth + 1)),
    decreases depth, 36int, 0int,
{
    lemma_table_constr(s, spec_space(s, pos).1, depth);
}

/// A field access stays what it is under a larger bound.
pub proof fn lemma_suffix_field_access(s: Seq<char>, pos: int, depth: nat)
    ensures
        stays(spec_suffix_field_access(s, pos, depth), spec_suffix_field_access(s, pos, depth + 1)),
    decreases depth, 35int, 0int,
{
    let s0 = spec_space(s, pos);
    if let Ok(p1) = spec_just(s, s0.1, '[') {
        lemma_expr(s, spec_space(s, p1).1, depth);
    }
}

/// A field assignment stays what it is under a larger bound.
pub proof fn lemma_suffix_field_assign(s: Seq<char>, pos: int, depth: nat)
    ensures
        stays(spec_suffix_field_assign(s, pos, depth), spec_suffix_field_assign(s, pos, depth + 1)),
    decreases depth, 36int, 0int,
{
    lemma_suffix_field_access(s, pos, depth);
    if let Ok((access, p1)) = spec_suffix_field_access(s, pos, depth) {
        let s3 = spec_space(s, p1);
        if let Ok(p2) = spec_just(s, s3.1, '=') {
            lemma_expr(s, spec_space(s, p2).1, depth);
        }
    }
}

/// A field assignment with a dot stays what it is under a larger bound.
pub proof fn lemma_suffix_field_assign_ident(s: Seq<char>, pos: int, depth: nat)
    ensures
        stays(
            spec_suffix_field_assign_ident(s, pos, depth),
            spec_suffix_field_assign_ident(s, pos, depth + 1),
        ),
    decreases depth, 36int, 0int,
{
    if let Ok((access, p1)) = crate::parser::suffix::spec_suffix_field_access_ident(s, pos) {
        let s2 = spec_space(s, p1);
        if let Ok(p2) = spec_just(s, s2.1, '=') {
            lemma_expr(s, spec_space(s, p2).1, depth);
        }
    }
}

/// An atom stays what it is under a larger bound.
pub proof fn lemma_atom(s: Seq<char>, pos: int, depth: nat)
    ensures
        stays(spec_atom(s, pos, depth), spec_atom(s, pos, depth + 1)),
    decreases depth, 35int, 0int,
{
    lemma_lit(s, pos, depth);
    lemma_atom_paren(s, pos, depth);
    lemma_table_destr(s, pos, depth);
    lemma_table_constr(s, pos, depth);
    lemma_func_def(s, pos, depth);
    lemma_var(s, pos, depth);
}

/// A parenthesized expression stays what it is under a larger bound.
pub proof fn lemma_atom_paren(s: Seq<char>, pos: int, depth: nat)
    ensures
        stays(spec_atom_paren(s, pos, depth), spec_atom_paren(s, pos, depth + 1)),
    decreases depth, 30int, 0int,
{
    if let Ok(p1) = spec_just(s, pos, '(') {
        lemma_expr(s, spec_space(s, p1).1, depth);
    }
}

/// A table destructuring stays what it is under a larger bound.
pub proof fn lemma_table_destr(s: Seq<char>, pos: int, depth: nat)
    ensures
        stays(spec_table_destr(s, pos, depth), spec_table_destr(s, pos, depth + 1)),
    decreases depth, 30int, 0int,
{
    let local = crate::parser::basic::spec_local(s, pos);
    if let Ok((pattern, p1)) = crate::parser::table_destr::spec_table_pattern(s, local.1) {
        let s0 = spec_space(s, p1);
        if let Ok(p2) = spec_just(s, s0.1, '=') {
            lemma_expr(s, spec_space(s, p2).1, depth);
        }
    }
}

/// A literal stays what it is under a larger bound.
pub proof fn lemma_lit(s: Seq<char>, pos: int, depth: nat)
    ensures
        stays(spec_lit(s, pos, depth), spec_lit(s, pos, depth + 1)),
    decreases depth, 30int, 0int,
{
    lemma_table_lit(s, pos, depth);
}

/// An entry of a table literal, at every position, stays what it is under a larger bound.
pub proof fn lemma_all_table_lit_elem(s: Seq<char>, depth: nat)
    ensures
        forall|p: int|
            stays(
                #[trigger] lit_elem_parser(s, depth)(p),
                lit_elem_parser(s, (depth + 1) as nat)(p),
            ),
    decreases depth, 12int, 0int,
{
    assert forall|p: int|
        stays(
            #[trigger] lit_elem_parser(s, depth)(p),
            lit_elem_parser(s, (depth + 1) as nat)(p),
        ) by {
        lemma_table_lit_elem(s, p, depth);
    }
}

/// A table literal stays what it is under a larger bound.
pub proof fn lemma_table_lit(s: Seq<char>, pos: int, depth: nat)
    ensures
        stays(spec_table_lit(s, pos, depth), spec_table_lit(s, pos, depth + 1)),
    decreases depth, 29int, 0int,
{
    lemma_all_table_lit_elem(s, depth);
    lemma_bounded_separated(
        s,
        pos,
        Bracket::QuoteBrace,
        lit_elem_parser(s, depth),
        lit_elem_parser(s, (depth + 1) as nat),
    );
}

/// An entry of a table literal stays what it is under a larger bound.
pub proof fn lemma_table_lit_elem(s: Seq<char>, pos: int, depth: nat)
    ensures
        stays(spec_table_lit_elem(s, pos, depth), spec_table_lit_elem(s, pos, depth + 1)),
    decreases depth, 10int, 0int,
{
    lemma_named_elem(s, pos, depth);
    lemma_expr(s, pos, depth);
}

/// A named entry of a table literal stays what it is under a larger bound.
pub proof fn lemma_named_elem(s: Seq<char>, pos: int, depth: nat)
    ensures
        stays(spec_named_elem(s, pos, depth), spec_named_elem(s, pos, depth + 1)),
    decreases depth, 9int, 0int,
{
    if let Ok((name, p1)) = crate::parser::basic::spec_ident(s, pos) {
        let s0 = spec_space(s, p1);
        if let Ok(p2) = spec_just(s, s0.1, ':') {
            lemma_expr(s, spec_space(s, p2).1, depth);
        }
    }
}

/// An entry of a table constructor stays what it is under a larger bound.
pub proof fn lemma_table_constr_elem(s: Seq<char>, pos: int, depth: nat)
    ensures
        stays(spec_table_constr_elem(s, pos, depth), spec_table_constr_elem(s, pos, depth + 1)),
    decreases depth, 14int, 0int,
{
    lemma_indexed_elem(s, pos, depth);
    lemma_table_lit_elem(s, pos, depth);
}

/// An indexed entry of a table constructor stays what it is under a larger bound.
pub proof fn lemma_indexed_elem(s: Seq<char>, pos: int, depth: nat)
    ensures
        stays(spec_indexed_elem(s, pos, depth), spec_indexed_elem(s, pos, depth + 1)),
    decreases depth, 13int, 0int,
{
    if let Ok(p1) = spec_just(s, pos, '[') {
        let s0 = spec_space(s, p1);
        lemma_expr(s, s0.1, depth);
        if let Ok((index, p2)) = spec_expr(s, s0.1, depth) {
            let s1 = spec_space(s, p2);
            if let Ok(p3) = spec_just(s, s1.1, ']') {
                let s2 = spec_space(s, p3);
                if let Ok(p4) = spec_just(s, s2.1, ':') {
                    lemma_expr(s, spec_space(s, p4).1, depth);
                }
            }
        }
    }
}

/// An entry of a table constructor, at every position, stays what it is under a larger bound.
pub proof fn lemma_all_table_constr_elem(s: Seq<char>, depth: nat)
    ensures
        forall|p: int|
            stays(
                #[trigger] constr_elem_parser(s, depth)(p),
                constr_elem_parser(s, (depth + 1) as nat)(p),
            ),
    decreases depth, 15int, 0int,
{
    assert forall|p: int|
        stays(
            #[trigger] constr_elem_parser(s, depth)(p),
            constr_elem_parser(s, (depth + 1) as nat)(p),
        ) by {
        lemma_table_constr_elem(s, p, depth);
    }
}

/// A table constructor stays what it is under a larger bound.
pub proof fn lemma_table_constr(s: Seq<char>, pos: int, depth: nat)
    ensures
        stays(spec_table_constr(s, pos, depth), spec_table_constr(s, pos, depth + 1)),
    decreases depth, 20int, 0int,
{
    lemma_all_table_constr_elem(s, depth);
    lemma_bounded_separated(
        s,
        pos,
        Bracket::Brace,
        constr_elem_parser(s, depth),
        constr_elem_parser(s, (depth + 1) as nat),
    );
}

/// A variable stays what it is under a larger bound.
pub proof fn lemma_var(s: Seq<char>, pos: int, depth: nat)
    ensures
        stays(spec_var(s, pos, depth), spec_var(s, pos, depth + 1)),
    decreases depth, 30int, 0int,
{
    lemma_var_assign(s, pos, depth);
    lemma_var_access(s, pos, depth);
    lemma_var_assign_ident(s, pos, depth);
}

/// A variable access stays what it is under a larger bound.
pub proof fn lemma_var_access(s: Seq<char>, pos: int, depth: nat)
    ensures
        stays(spec_var_access(s, pos, depth), spec_var_access(s, pos, depth + 1)),
    decreases depth, 29int, 0int,
{
    if let Ok(p1) = spec_just(s, pos, '[') {
        lemma_expr(s, spec_space(s, p1).1, depth);
    }
}

/// A variable assignment stays what it is under a larger bound.
pub proof fn lemma_var_assign(s: Seq<char>, pos: int, depth: nat)
    ensures
        stays(spec_var_assign(s, pos, depth), spec_var_assign(s, pos, depth + 1)),
    decreases depth, 29int, 0int,
{
    let local = crate::parser::basic::spec_local(s, pos);
    if let Ok(p1) = spec_just(s, local.1, '[') {
        let s0 = spec_space(s, p1);
        lemma_expr(s, s0.1, depth);
        if let Ok((index, p2)) = spec_expr(s, s0.1, depth) {
            let s1 = spec_space(s, p2);
            if let Ok(p3) = spec_just(s, s1.1, ']') {
                let s2 = spec_space(s, p3);
                if let Ok(p4) = spec_just(s, s2.1, '=') {
                    lemma_expr(s, spec_space(s, p4).1, depth);
                }
            }
        }
    }
}

/// An assignment to a name stays what it is under a larger bound.
pub proof fn lemma_var_assign_ident(s: Seq<char>, pos: int, depth: nat)
    ensures
        stays(spec_var_assign_ident(s, pos, depth), spec_var_assign_ident(s, pos, depth + 1)),
    decreases depth, 29int, 0int,
{
    let local = crate::parser::basic::spec_local(s, pos);
    if let Ok((name, p1)) = crate::parser::basic::spec_ident(s, local.1) {
        let s0 = spec_space(s, p1);
        if let Ok(p2) = spec_just(s, s0.1, '=') {
            lemma_expr(s, spec_space(s, p2).1, depth);
        }
    }
}

/// The body of an anonymous definition stays what it is under a larger bound.
pub proof fn lemma_anon_body(
    s: Seq<char>,
    pos: int,
    depth: nat,
    s0: SpaceView,
    params: Parsed<ParamsView>,
)
    ensures
        stays(
            spec_anon_body(s, pos, depth, s0, params),
            spec_anon_body(s, pos, (depth + 1) as nat, s0, params),
        ),
    decreases depth, 28int, 0int,
{
    if let Ok((params, p1)) = params {
        lemma_expr(s, spec_space(s, p1).1, depth);
    }
}

/// The body of a named definition stays what it is under a larger bound.
pub proof fn lemma_named_body(
    s: Seq<char>,
    pos: int,
    depth: nat,
    local: Option<SpaceView>,
    s0: SpaceView,
    name: crate::ast::basic::IdentView,
    s1: SpaceView,
    params: Parsed<ParamsView>,
)
    ensures
        stays(
            spec_named_body(s, pos, depth, local, s0, name, s1, params),
            spec_named_body(s, pos, (depth + 1) as nat, local, s0, name, s1, params),
        ),
    decreases depth, 28int, 0int,
{
    if let Ok((params, p1)) = params {
        lemma_expr(s, spec_space(s, p1).1, depth);
    }
}

/// A function definition stays what it is under a larger bound.
pub proof fn lemma_func_def(s: Seq<char>, pos: int, depth: nat)
    ensures
        stays(spec_func_def(s, pos, depth), spec_func_def(s, pos, depth + 1)),
    decreases depth, 30int, 0int,
{
    assert(stays(spec_func_def_anon(s, pos, depth), spec_func_def_anon(s, pos, depth + 1))) by {
        if let Ok(p1) = crate::parser::basic::spec_keyword(s, pos, "function"@) {
            let s0 = spec_space(s, p1);
            lemma_anon_body(s, pos, depth, s0.0, spec_params_none(s, s0.1));
            lemma_anon_body(s, pos, depth, s0.0, spec_params_arg(s, s0.1));
            lemma_anon_body(s, pos, depth, s0.0, spec_params_destr(s, s0.1));
        }
    }
    assert(stays(spec_func_def_named(s, pos, depth), spec_func_def_named(s, pos, depth + 1))) by {
        let local = crate::parser::basic::spec_local(s, pos);
        if let Ok(p1) = crate::parser::basic::spec_keyword(s, local.1, "function"@) {
            let s0 = spec_space(s, p1);
            if let Ok((name, p2)) = crate::parser::basic::spec_ident(s, s0.1) {
                let s1 = spec_space(s, p2);
                let at = s1.1;
                lemma_named_body(s, pos, depth, local.0, s0.0, name, s1.0, spec_params_none(s, at));
                lemma_named_body(s, pos, depth, local.0, s0.0, name, s1.0, spec_params_arg(s, at));
                lemma_named_body(s, pos, depth, local.0, s0.0, name, s1.0, spec_params_destr(s, at));
            }
        }
    }
}

/// The bound on nesting shows as `TooDeep` only: what parsing makes of a
/// source under one bound, it makes of it under every larger bound, unless
/// it is the error `TooDeep`.
pub proof fn lemma_bound_shows_as_too_deep_only(s: Seq<char>, depth: nat, more: nat)
    requires
        settled(spec_parser(s, depth)),
    ensures
        spec_parser(s, depth + more) == spec_parser(s, depth),
    decreases more,
{
    if more > 0 {
        reveal(spec_program);
        reveal(spec_module);
        reveal(spec_expr_program);
        lemma_all_expr(s, depth);
        lemma_all_table_lit_elem(s, depth);
        let s0 = spec_space(s, 0);
        if let Ok(p1) = crate::parser::basic::spec_keyword(s, s0.1, "module"@) {
            lemma_bounded_separated(
                s,
                p1,
                Bracket::Bare,
                lit_elem_parser(s, depth),
                lit_elem_parser(s, (depth + 1) as nat),
            );
        }
        assert(spec_parser(s, depth + 1) == spec_parser(s, depth));
        lemma_bound_shows_as_too_deep_only(s, depth + 1, (more - 1) as nat);
    }
}

} // verus!
