use tada::ast::{
    Assoc, BinOp, BoundedSeparated, Call, Expr, Field, Ident, Line, Lit, Space, StringLit,
    StringLitElem, TableConstrElem, TableDestr, TableLitElem, TablePattern, Var,
};
use tada::builtin::Builtin;
use tada::span::{HasSpan, Span};

fn sp(start: usize, end: usize) -> Span {
    Span::new(start, end)
}

fn var(name: &str) -> Expr {
    Expr::Var(Var::AccessIdent(Ident::new(name, sp(0, 1))))
}

#[test]
fn span_keeps_its_offsets() {
    assert_eq!(sp(3, 7).range(), 3..7);
    assert_eq!(sp(5, 5).range(), 5..5);
}

#[test]
fn join_is_the_smallest_cover() {
    assert_eq!(sp(3, 7).join(sp(5, 9)).range(), 3..9);
    assert_eq!(sp(5, 9).join(sp(3, 7)).range(), 3..9);
    assert_eq!(sp(1, 10).join(sp(4, 5)).range(), 1..10);
    assert_eq!(sp(4, 5).join(sp(4, 5)).range(), 4..5);
    assert_eq!(sp(0, 1).join(sp(8, 9)).range(), 0..9);
}

#[test]
fn pair_with_span_has_that_span() {
    assert_eq!(("x", sp(2, 4)).span().range(), 2..4);
}

#[test]
fn precedence_and_associativity() {
    assert_eq!(BinOp::Mul.precedence(), 4);
    assert_eq!(BinOp::Div.precedence(), 4);
    assert_eq!(BinOp::Mod.precedence(), 4);
    assert_eq!(BinOp::Add.precedence(), 3);
    assert_eq!(BinOp::Sub.precedence(), 3);
    for op in [BinOp::Eq, BinOp::Neq, BinOp::Gt, BinOp::Ge, BinOp::Lt, BinOp::Le] {
        assert_eq!(op.precedence(), 2);
        assert_eq!(op.assoc(), Assoc::Left);
    }
    assert_eq!(BinOp::And.precedence(), 1);
    assert_eq!(BinOp::Or.precedence(), 0);
    assert_eq!(BinOp::And.assoc(), Assoc::Right);
    assert_eq!(BinOp::Or.assoc(), Assoc::Right);
    assert_eq!(BinOp::Mul.assoc(), Assoc::Left);
    assert_eq!(BinOp::Sub.assoc(), Assoc::Left);
}

#[test]
fn operators_of_one_precedence_share_their_associativity() {
    let ops = [
        BinOp::Mul,
        BinOp::Div,
        BinOp::Mod,
        BinOp::Add,
        BinOp::Sub,
        BinOp::Eq,
        BinOp::Neq,
        BinOp::Gt,
        BinOp::Ge,
        BinOp::Lt,
        BinOp::Le,
        BinOp::And,
        BinOp::Or,
    ];
    for a in ops {
        for b in ops {
            if a.precedence() == b.precedence() {
                assert_eq!(a.assoc(), b.assoc());
            }
        }
    }
}

fn bin(left: Expr, op: BinOp, right: Expr) -> Expr {
    Expr::BinOp {
        left: left.boxed(),
        s0: Space::empty(sp(0, 0)),
        op,
        s1: Space::empty(sp(0, 0)),
        right: right.boxed(),
        span: sp(0, 0),
    }
}

#[test]
fn parentheses_follow_precedence_and_associativity() {
    let sum = bin(var("a"), BinOp::Add, var("b"));
    let product = bin(var("a"), BinOp::Mul, var("b"));
    let both = bin(var("a"), BinOp::And, var("b"));
    assert!(BinOp::Mul.left_needs_parens(&sum));
    assert!(BinOp::Mul.right_needs_parens(&sum));
    assert!(!BinOp::Add.left_needs_parens(&product));
    assert!(!BinOp::Add.right_needs_parens(&product));
    assert!(!BinOp::Add.left_needs_parens(&sum));
    assert!(BinOp::Sub.right_needs_parens(&sum));
    assert!(BinOp::And.left_needs_parens(&both));
    assert!(!BinOp::And.right_needs_parens(&both));
    assert!(!BinOp::Add.left_needs_parens(&var("a")));
    let assign = Var::assign_ident(false, Ident::new("x", sp(0, 1)), var("y").boxed(), sp(0, 1));
    assert!(BinOp::Add.left_needs_parens(&assign.expr()));
    let assign = Field::assign(var("x").boxed(), var("k").boxed(), var("y").boxed(), sp(0, 1));
    assert!(BinOp::Or.left_needs_parens(&assign.expr()));
    assert!(!BinOp::Or.right_needs_parens(&var("a")));
}

#[test]
fn builtin_names() {
    assert_eq!(Builtin::Get.name(), "get");
    assert_eq!(Builtin::SetField.name(), "set");
    assert_eq!(Builtin::GetRaw.name(), "getraw");
    assert_eq!(Builtin::Destructure.name(), "destructure");
    assert_eq!(Builtin::Neg.name(), "neg");
    assert_eq!(Builtin::Ne.name(), "ne");
    assert_eq!(BinOp::Neq.builtin(), Builtin::Ne);
    assert_eq!(BinOp::Mod.builtin(), Builtin::Mod);
}

#[test]
fn space_grows_by_lines_and_spaces() {
    let space = Space::empty(sp(2, 3));
    assert!(space.lines.is_empty());
    let space = space.then_line(Line::Comment("hi".to_string())).then_line(Line::Empty);
    assert_eq!(space.lines.len(), 2);
    let other = Space::empty(sp(7, 9)).then_line(Line::Empty);
    let both = space.then_space(other);
    assert_eq!(both.lines.len(), 3);
    assert!(matches!(&both.lines[0], Line::Comment(text) if text == "hi"));
    assert!(matches!(&both.lines[1], Line::Empty));
    assert_eq!(both.span().range(), 2..9);
}

#[test]
fn constructors_fill_in_empty_trivia() {
    let call = Call::arg(var("f").boxed(), var("x").boxed(), sp(0, 4));
    match &call {
        Call::Arg { s0, s1, s2, span, .. } => {
            assert!(s0.lines.is_empty() && s1.lines.is_empty() && s2.lines.is_empty());
            assert_eq!(s0.span.range(), 0..4);
            assert_eq!(span.range(), 0..4);
        }
        other => panic!("unexpected {other:?}"),
    }
    assert_eq!(call.span().range(), 0..4);
    assert!(matches!(Call::no_arg(var("f").boxed(), sp(0, 3)), Call::NoArg { .. }));
    assert!(matches!(Field::access(var("a").boxed(), var("b").boxed(), sp(0, 4)), Field::Access { .. }));
    assert!(matches!(Var::access(var("a").boxed(), sp(0, 3)), Var::Access { .. }));
    assert!(matches!(
        Var::assign(true, var("a").boxed(), var("b").boxed(), sp(0, 3)),
        Var::Assign { local: Some(_), .. }
    ));
    assert!(matches!(
        Var::assign(false, var("a").boxed(), var("b").boxed(), sp(0, 3)),
        Var::Assign { local: None, .. }
    ));
    assert!(matches!(TableConstrElem::positional(var("a").boxed()), TableConstrElem::Lit(TableLitElem::Positional(_))));
    assert!(matches!(
        TableConstrElem::named(Ident::new("k", sp(0, 1)), var("a").boxed(), sp(0, 4)),
        TableConstrElem::Lit(TableLitElem::Named { .. })
    ));
    assert!(matches!(
        TableConstrElem::indexed(var("k").boxed(), var("a").boxed(), sp(0, 4)),
        TableConstrElem::Indexed { .. }
    ));
    let destr = TableDestr::new(true, TablePattern(BoundedSeparated::new(sp(0, 2))), var("a").boxed(), sp(0, 6));
    assert!(destr.local.is_some());
    assert_eq!(destr.expr().span().range(), 0..6);
}

#[test]
fn string_literal_from_identifier() {
    let lit = StringLit::from_ident(Ident::new("foo", sp(3, 6)));
    assert_eq!(lit.elems.len(), 1);
    assert!(matches!(&lit.elems[0], StringLitElem::Plain(text) if text == "foo"));
    assert_eq!(lit.span.range(), 3..6);
    assert!(matches!(lit.lit(), Lit::String(_)));
}

#[test]
fn list_grows_by_elements_without_trivia() {
    let list = BoundedSeparated::new(sp(1, 2)).then_elem(10).then_elem(20);
    assert_eq!(list.elems.len(), 2);
    assert_eq!(list.elems[0].1, 10);
    assert_eq!(list.elems[1].1, 20);
    assert!(list.elems[1].0.lines.is_empty());
    assert_eq!(list.elems[1].2.span.range(), 1..2);
    assert!(list.trailing.is_none());
    assert_eq!(list.span().range(), 1..2);
}

#[test]
fn map_keeps_order_and_trivia() {
    let mut list = BoundedSeparated::new(sp(0, 9)).then_elem(1).then_elem(2).then_elem(3);
    list.trailing = Some(Space::empty(sp(8, 9)).then_line(Line::Empty));
    list.elems[1].0 = Space::empty(sp(0, 9)).then_line(Line::Comment("c".to_string()));
    let mapped = list.map(|n: i32| format!("<{n}>"));
    assert_eq!(mapped.elems.len(), 3);
    assert_eq!(mapped.elems[0].1, "<1>");
    assert_eq!(mapped.elems[1].1, "<2>");
    assert_eq!(mapped.elems[2].1, "<3>");
    assert_eq!(mapped.elems[1].0.lines.len(), 1);
    assert_eq!(mapped.trailing.unwrap().lines.len(), 1);
    assert_eq!(mapped.span.range(), 0..9);
}

#[test]
fn remove_map_splits_in_order() {
    let list = BoundedSeparated::new(sp(0, 9))
        .then_elem(1)
        .then_elem(2)
        .then_elem(3)
        .then_elem(4)
        .then_elem(5);
    let (kept, removed) =
        list.remove_map(|n: i32| if n % 2 == 1 { Ok(n * 10) } else { Err(format!("{n}")) });
    let kept: Vec<i32> = kept.elems.into_iter().map(|(_, n, _)| n).collect();
    let removed: Vec<String> = removed.into_iter().map(|(_, n, _)| n).collect();
    assert_eq!(kept, vec![10, 30, 50]);
    assert_eq!(removed, vec!["2", "4"]);
}

#[test]
fn list_desugar_stops_at_the_first_change() {
    let list = BoundedSeparated::new(sp(0, 9))
        .then_elem(1)
        .then_elem(12)
        .then_elem(13)
        .then_elem(4);
    let step = |n: i32| if n > 10 { (n - 10, true) } else { (n, false) };
    let (list, changed) = list.desugar(step);
    assert!(changed);
    let elems: Vec<i32> = list.elems.iter().map(|(_, n, _)| *n).collect();
    assert_eq!(elems, vec![1, 2, 13, 4]);
    let (list, changed) = list.desugar(step);
    assert!(changed);
    let (list, changed) = list.desugar(step);
    assert!(!changed);
    let elems: Vec<i32> = list.elems.iter().map(|(_, n, _)| *n).collect();
    assert_eq!(elems, vec![1, 2, 3, 4]);
}

#[test]
fn span_converts_into_range() {
    let range: std::ops::Range<usize> = sp(3, 7).into();
    assert_eq!(range, 3..7);
    assert_eq!(sp(3, 7).range(), 3..7);
}

#[test]
fn range_of_a_joined_span_is_ordered() {
    let joined = sp(9, 9).join(sp(2, 3));
    let range = joined.range();
    assert!(range.start <= range.end);
    assert_eq!(range, 2..9);
}
