use tada::ast::{
    BinOp, BoundedSeparated, Call, Expr, Field, Ident, Lit, Program, Space, TableConstrElem,
    TableLitElem, Var,
};
use tada::builtin::Builtin;
use tada::span::Span;

fn sp() -> Span {
    Span::new(0, 1)
}

fn var(name: &str) -> Expr {
    Expr::Var(Var::AccessIdent(Ident::new(name, sp())))
}

fn is_builtin(expr: &Expr, builtin: Builtin) -> bool {
    matches!(expr, Expr::Lit(Lit::Builtin(b, _)) if *b == builtin)
}

fn is_var(expr: &Expr, name: &str) -> bool {
    matches!(expr, Expr::Var(Var::AccessIdent(ident)) if ident.name == name)
}

fn is_string(expr: &Expr, text: &str) -> bool {
    match expr {
        Expr::Lit(Lit::String(s)) => {
            s.elems.len() == 1
                && matches!(&s.elems[0], tada::ast::StringLitElem::Plain(p) if p == text)
        }
        _ => false,
    }
}

fn nil() -> Expr {
    Lit::Nil(sp()).expr()
}

#[test]
fn negation_becomes_call_of_neg() {
    let expr = Expr::Neg { minus: sp(), s0: Space::empty(sp()), expr: nil().boxed(), span: sp() };
    let (new, changed) = expr.desugar();
    assert!(changed);
    match new {
        Expr::Call(Call::Arg { expr, arg, .. }) => {
            assert!(is_builtin(&expr, Builtin::Neg));
            assert!(matches!(*arg, Expr::Lit(Lit::Nil(_))));
        }
        other => panic!("unexpected {other:?}"),
    }
}

#[test]
fn negation_steps_its_operand_first() {
    let expr = Expr::Neg { minus: sp(), s0: Space::empty(sp()), expr: var("a").boxed(), span: sp() };
    let (new, changed) = expr.desugar();
    assert!(changed);
    match new {
        Expr::Neg { expr, .. } => {
            assert!(matches!(&*expr, Expr::Var(Var::Access { index, .. }) if is_string(index, "a")));
        }
        other => panic!("unexpected {other:?}"),
    }
}

#[test]
fn rule_applies_whatever_the_operands_hold() {
    let expr = Expr::Neg { minus: sp(), s0: Space::empty(sp()), expr: var("a").boxed(), span: sp() };
    match expr.rewrite() {
        Expr::Call(Call::Arg { expr, arg, .. }) => {
            assert!(is_builtin(&expr, Builtin::Neg));
            assert!(is_var(&arg, "a"));
        }
        other => panic!("unexpected {other:?}"),
    }
    match Call::arg(var("f").boxed(), var("x").boxed(), sp()).rewrite() {
        Expr::Lit(Lit::Table(table)) => assert_eq!(table.0.elems.len(), 2),
        other => panic!("unexpected {other:?}"),
    }
}

#[test]
fn one_arg_call_becomes_table_of_call_and_arg() {
    let base = Lit::Builtin(Builtin::Get, sp()).expr();
    let expr = Call::arg(base.boxed(), nil().boxed(), sp()).expr();
    let (new, changed) = expr.desugar();
    assert!(changed);
    match new {
        Expr::Lit(Lit::Table(table)) => {
            assert_eq!(table.0.elems.len(), 2);
            match &table.0.elems[0].1 {
                TableLitElem::Named { name, value, .. } => {
                    assert_eq!(name.name, "call");
                    assert!(is_builtin(value, Builtin::Get));
                }
                other => panic!("unexpected {other:?}"),
            }
            match &table.0.elems[1].1 {
                TableLitElem::Named { name, value, .. } => {
                    assert_eq!(name.name, "arg");
                    assert!(matches!(**value, Expr::Lit(Lit::Nil(_))));
                }
                other => panic!("unexpected {other:?}"),
            }
        }
        other => panic!("unexpected {other:?}"),
    }
}

#[test]
fn dotted_field_access_reaches_get() {
    let expr = Expr::Field(Field::AccessIdent {
        expr: nil().boxed(),
        s0: Space::empty(sp()),
        s1: Space::empty(sp()),
        ident: Ident::new("b", sp()),
        span: sp(),
    });
    let (bracket, changed) = expr.desugar();
    assert!(changed);
    assert!(matches!(&bracket, Expr::Field(Field::Access { index, .. }) if is_string(index, "b")));
    let (get, changed) = bracket.desugar();
    assert!(changed);
    match get {
        Expr::Call(Call::Constr { expr, constr, .. }) => {
            assert!(is_builtin(&expr, Builtin::Get));
            assert_eq!(constr.0.elems.len(), 2);
            assert!(matches!(
                &constr.0.elems[0].1,
                TableConstrElem::Lit(TableLitElem::Positional(e)) if matches!(**e, Expr::Lit(Lit::Nil(_)))
            ));
            assert!(matches!(
                &constr.0.elems[1].1,
                TableConstrElem::Lit(TableLitElem::Positional(e)) if is_string(e, "b")
            ));
        }
        other => panic!("unexpected {other:?}"),
    }
}

fn weight_bound_reached(mut program: Program, bound: usize) -> (Program, usize) {
    let mut steps = 0;
    loop {
        let (next, changed) = program.desugar();
        program = next;
        if !changed {
            return (program, steps);
        }
        steps += 1;
        assert!(steps <= bound, "desugaring did not stop within {bound} steps");
    }
}

fn only_literals(expr: &Expr) -> bool {
    match expr {
        Expr::Lit(Lit::Table(table)) => table.0.elems.iter().all(|(_, elem, _)| match elem {
            TableLitElem::Positional(value) => only_literals(value),
            TableLitElem::Named { value, .. } => {
                !matches!(**value, Expr::Lit(Lit::Nil(_))) && only_literals(value)
            }
        }),
        Expr::Lit(_) => true,
        _ => false,
    }
}

#[test]
fn binary_operation_reduces_to_literals() {
    let expr = Expr::BinOp {
        left: var("x").boxed(),
        s0: Space::empty(sp()),
        op: BinOp::Add,
        s1: Space::empty(sp()),
        right: Lit::Nil(sp()).expr().boxed(),
        span: sp(),
    };
    let program = Program::Expr { s0: Space::empty(sp()), expr, s1: Space::empty(sp()), span: sp() };
    let (normal, steps) = weight_bound_reached(program, 200);
    assert!(steps > 0);
    match &normal {
        Program::Expr { expr, .. } => assert!(only_literals(expr)),
        other => panic!("unexpected {other:?}"),
    }
    let (again, changed) = normal.desugar();
    assert!(!changed);
    assert!(matches!(again, Program::Expr { .. }));
}

#[test]
fn module_becomes_table_literal() {
    let elems = BoundedSeparated::new(sp()).then_elem(TableLitElem::Positional(var("a").boxed()));
    let program = Program::Module { s0: Space::empty(sp()), elems, span: sp() };
    let (new, changed) = program.desugar();
    assert!(changed);
    assert!(matches!(new, Program::Expr { expr: Expr::Lit(Lit::Table(_)), .. }));
}
