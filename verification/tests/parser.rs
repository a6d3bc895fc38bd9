use tada::ast::{
    BinOp, Call, Expr, Field, FuncDef, Line, Lit, NumLitStr, Program, StringLitElem,
    TableConstrElem, TableLitElem, TablePatternElem, Var,
};
use tada::parser::error::{ErrorKind, Radix};
use tada::parser::{parse, parser};
use tada::span::stream_from_str;

fn show_lit_elem_as(elem: &TableLitElem, source: bool) -> String {
    match elem {
        TableLitElem::Positional(value) => show_as(value, source),
        TableLitElem::Named { name, value, .. } => format!("{}: {}", name.name, show_as(value, source)),
    }
}

fn show_constr_elem_as(elem: &TableConstrElem, source: bool) -> String {
    match elem {
        TableConstrElem::Lit(lit) => show_lit_elem_as(lit, source),
        TableConstrElem::Indexed { index, value, .. } => {
            format!("[{}]: {}", show_as(index, source), show_as(value, source))
        }
    }
}

fn show_pattern_elem(elem: &TablePatternElem) -> String {
    match elem {
        TablePatternElem::Positional(ident) => ident.name.clone(),
        TablePatternElem::Named { name, ident, .. } => format!("{}: {}", name.name, ident.name),
    }
}

fn join(parts: Vec<String>) -> String {
    parts.join(", ")
}

fn show_op(op: BinOp) -> &'static str {
    match op {
        BinOp::Mul => "*",
        BinOp::Div => "/",
        BinOp::Mod => "%",
        BinOp::Add => "+",
        BinOp::Sub => "-",
        BinOp::Eq => "==",
        BinOp::Neq => "!=",
        BinOp::Gt => ">",
        BinOp::Ge => ">=",
        BinOp::Lt => "<",
        BinOp::Le => "<=",
        BinOp::And => "and",
        BinOp::Or => "or",
    }
}

/// The expression without its trivia. As source text, operands stand in
/// parentheses where the operators ask for them; else every operator
/// application stands in angle brackets.
fn show_as(expr: &Expr, source: bool) -> String {
    match expr {
        Expr::Lit(Lit::Nil(_)) => "nil".to_string(),
        Expr::Lit(Lit::Bool(b, _)) => format!("{b}"),
        Expr::Lit(Lit::Builtin(b, _)) => format!("'{}", b.name()),
        Expr::Lit(Lit::Num(n)) => format!("{}", n.value),
        Expr::Lit(Lit::String(s)) => {
            let mut out = String::from("\"");
            for elem in &s.elems {
                match elem {
                    StringLitElem::Plain(text) => out.push_str(text),
                    StringLitElem::Unicode(c) => out.push_str(&format!("\\u{{{:x}}}", *c as u32)),
                    StringLitElem::Backslash => out.push_str("\\\\"),
                    StringLitElem::DoubleQuote => out.push_str("\\\""),
                    StringLitElem::Tab => out.push_str("\\t"),
                    StringLitElem::CarriageReturn => out.push_str("\\r"),
                    StringLitElem::Newline => out.push_str("\\n"),
                }
            }
            out.push('"');
            out
        }
        Expr::Lit(Lit::Table(t)) => {
            format!("'{{{}}}", join(t.0.elems.iter().map(|(_, e, _)| show_lit_elem_as(e, source)).collect()))
        }
        Expr::Call(Call::Arg { expr, arg, .. }) => format!("{}({})", show_as(expr, source), show_as(arg, source)),
        Expr::Call(Call::NoArg { expr, .. }) => format!("{}()", show_as(expr, source)),
        Expr::Call(Call::Constr { expr, constr, .. }) => format!(
            "{}{{{}}}",
            show_as(expr, source),
            join(constr.0.elems.iter().map(|(_, e, _)| show_constr_elem_as(e, source)).collect())
        ),
        Expr::Field(Field::Access { expr, index, .. }) => format!("{}[{}]", show_as(expr, source), show_as(index, source)),
        Expr::Field(Field::Assign { expr, index, value, .. }) => {
            format!("{}[{}] = {}", show_as(expr, source), show_as(index, source), show_as(value, source))
        }
        Expr::Field(Field::AccessIdent { expr, ident, .. }) => {
            format!("{}.{}", show_as(expr, source), ident.name)
        }
        Expr::Field(Field::AssignIdent { expr, ident, value, .. }) => {
            format!("{}.{} = {}", show_as(expr, source), ident.name, show_as(value, source))
        }
        Expr::Var(Var::Access { index, .. }) => format!("[{}]", show_as(index, source)),
        Expr::Var(Var::Assign { local, index, value, .. }) => format!(
            "{}[{}] = {}",
            if local.is_some() { "local " } else { "" },
            show_as(index, source),
            show_as(value, source)
        ),
        Expr::Var(Var::AccessIdent(ident)) => ident.name.clone(),
        Expr::Var(Var::AssignIdent { local, name, value, .. }) => format!(
            "{}{} = {}",
            if local.is_some() { "local " } else { "" },
            name.name,
            show_as(value, source)
        ),
        Expr::TableConstr(constr) => format!(
            "{{{}}}",
            join(constr.0.elems.iter().map(|(_, e, _)| show_constr_elem_as(e, source)).collect())
        ),
        Expr::TableDestr(destr) => format!(
            "{}{{{}}} = {}",
            if destr.local.is_some() { "local " } else { "" },
            join(destr.pattern.0.elems.iter().map(|(_, e, _)| show_pattern_elem(e)).collect()),
            show_as(&destr.value, source)
        ),
        Expr::FuncDef(def) => match def {
            FuncDef::AnonNoArg { body, .. } => format!("function() {}", show_as(body, source)),
            FuncDef::AnonArg { arg, body, .. } => format!("function({}) {}", arg.name, show_as(body, source)),
            FuncDef::AnonDestr { pattern, body, .. } => format!(
                "function{{{}}} {}",
                join(pattern.0.elems.iter().map(|(_, e, _)| show_pattern_elem(e)).collect()),
                show_as(body, source)
            ),
            FuncDef::NamedNoArg { local, name, body, .. } => format!(
                "{}function {}() {}",
                if local.is_some() { "local " } else { "" },
                name.name,
                show_as(body, source)
            ),
            FuncDef::NamedArg { local, name, arg, body, .. } => format!(
                "{}function {}({}) {}",
                if local.is_some() { "local " } else { "" },
                name.name,
                arg.name,
                show_as(body, source)
            ),
            FuncDef::NamedDestr { local, name, pattern, body, .. } => format!(
                "{}function {}{{{}}} {}",
                if local.is_some() { "local " } else { "" },
                name.name,
                join(pattern.0.elems.iter().map(|(_, e, _)| show_pattern_elem(e)).collect()),
                show_as(body, source)
            ),
        },
        Expr::Paren { inner, .. } => format!("({})", show_as(inner, source)),
        Expr::Neg { expr, .. } if source => {
            format!("-{}", in_parens(expr.prefix_needs_parens(), show_as(expr, source)))
        }
        Expr::Not { expr, .. } if source => {
            format!("not {}", in_parens(expr.prefix_needs_parens(), show_as(expr, source)))
        }
        Expr::BinOp { left, op, right, .. } if source => format!(
            "{} {} {}",
            in_parens(op.left_needs_parens(left), show_as(left, source)),
            show_op(*op),
            in_parens(op.right_needs_parens(right), show_as(right, source))
        ),
        Expr::Neg { expr, .. } => format!("-{}", show_as(expr, source)),
        Expr::Not { expr, .. } => format!("not {}", show_as(expr, source)),
        Expr::BinOp { left, op, right, .. } => {
            format!("<{} {} {}>", show_as(left, source), show_op(*op), show_as(right, source))
        }
    }
}

fn in_parens(parens: bool, text: String) -> String {
    if parens {
        format!("({text})")
    } else {
        text
    }
}

fn show(expr: &Expr) -> String {
    show_as(expr, false)
}

fn show_lit_elem(elem: &TableLitElem) -> String {
    show_lit_elem_as(elem, false)
}

fn parse_expr(text: &str) -> Expr {
    match parse(text) {
        Ok(Program::Expr { expr, .. }) => expr,
        other => panic!("no expression in {text:?}: {other:?}"),
    }
}

fn shown(text: &str) -> String {
    show(&parse_expr(text))
}

fn error_of(text: &str) -> (ErrorKind, (usize, usize)) {
    match parse(text) {
        Err(errors) => {
            assert_eq!(errors.len(), 1);
            (errors[0].kind, (errors[0].span.range().start, errors[0].span.range().end))
        }
        Ok(program) => panic!("{text:?} parsed: {program:?}"),
    }
}

fn num(text: &str) -> i64 {
    match parse_expr(text) {
        Expr::Lit(Lit::Num(n)) => n.value,
        other => panic!("no number in {text:?}: {other:?}"),
    }
}

#[test]
fn largest_decimal_literal() {
    assert_eq!(num("9223372036854775807"), i64::MAX);
}

#[test]
fn decimal_literal_above_the_largest_is_too_large() {
    let (kind, span) = error_of("9223372036854775808");
    assert_eq!(kind, ErrorKind::TooLarge(Radix::Dec));
    assert_eq!(span, (0, 19));
    assert!(kind.message().contains("too large"));
    assert_eq!(
        kind.message(),
        "integer literal too large, the maximum value is 9223372036854775807"
    );
}

#[test]
fn binary_literal_of_63_ones() {
    let text = format!("0b{}", "1".repeat(63));
    assert_eq!(num(&text), i64::MAX);
}

#[test]
fn binary_literal_of_64_ones_is_too_large() {
    let text = format!("0b{}", "1".repeat(64));
    let (kind, span) = error_of(&text);
    assert_eq!(kind, ErrorKind::TooLarge(Radix::Bin));
    assert_eq!(span, (2, 66));
}

#[test]
fn hexadecimal_literals() {
    assert_eq!(num("0x7fffffffffffffff"), i64::MAX);
    assert_eq!(num("0x_c0_F3"), 0xc0f3);
    assert_eq!(num("0xB"), 11);
    assert_eq!(error_of("0x8000000000000000").0, ErrorKind::TooLarge(Radix::Hex));
    assert_eq!(error_of("0x00000000000000001").0, ErrorKind::TooLarge(Radix::Hex));
}

#[test]
fn underscores_are_ignored_in_the_value() {
    assert_eq!(num("1_000"), 1000);
    assert_eq!(num("1_000"), num("1000"));
    assert_eq!(num("12_345"), 12345);
    assert_eq!(num("0b_0001_1011"), 0b0001_1011);
    assert_eq!(num("1__2_"), 12);
}

#[test]
fn number_literal_keeps_its_text() {
    match parse_expr("0b_10") {
        Expr::Lit(Lit::Num(n)) => {
            assert_eq!(n.value, 2);
            assert!(matches!(&n.str, NumLitStr::Bin(text) if text == "_10"));
            assert_eq!(n.span.range(), 0..5);
        }
        other => panic!("unexpected {other:?}"),
    }
    match parse_expr("7") {
        Expr::Lit(Lit::Num(n)) => assert!(matches!(&n.str, NumLitStr::Dec(text) if text == "7")),
        other => panic!("unexpected {other:?}"),
    }
}

#[test]
fn too_many_digits_are_too_large_whatever_the_value() {
    assert_eq!(error_of("00000000000000000001").0, ErrorKind::TooLarge(Radix::Dec));
    assert_eq!(num("0000000000000000001"), 1);
}

#[test]
fn base_prefix_without_digits_fails() {
    assert_eq!(error_of("0b").0, ErrorKind::Unexpected);
    assert_eq!(error_of("0x_"), (ErrorKind::NoDigits, (2, 3)));
    assert_eq!(error_of("0b2").0, ErrorKind::Unexpected);
}

#[test]
fn string_literal_elements() {
    match parse_expr("\"ab\\n\\t\\r\\\\\\\"\\u{1F600}c\"") {
        Expr::Lit(Lit::String(s)) => {
            assert_eq!(s.elems.len(), 8);
            assert!(matches!(&s.elems[0], StringLitElem::Plain(t) if t == "ab"));
            assert!(matches!(&s.elems[1], StringLitElem::Newline));
            assert!(matches!(&s.elems[2], StringLitElem::Tab));
            assert!(matches!(&s.elems[3], StringLitElem::CarriageReturn));
            assert!(matches!(&s.elems[4], StringLitElem::Backslash));
            assert!(matches!(&s.elems[5], StringLitElem::DoubleQuote));
            assert!(matches!(&s.elems[6], StringLitElem::Unicode('\u{1F600}')));
            assert!(matches!(&s.elems[7], StringLitElem::Plain(t) if t == "c"));
        }
        other => panic!("unexpected {other:?}"),
    }
    match parse_expr("\"\"") {
        Expr::Lit(Lit::String(s)) => assert!(s.elems.is_empty()),
        other => panic!("unexpected {other:?}"),
    }
}

#[test]
fn invalid_code_point_is_rejected() {
    assert_eq!(error_of("\"\\u{D800}\""), (ErrorKind::InvalidCodePoint, (4, 8)));
    assert_eq!(error_of("\"\\u{110000}\"").0, ErrorKind::InvalidCodePoint);
    assert_eq!(shown("\"\\u{41}\""), "\"\\u{41}\"");
    assert_eq!(error_of("\"\\u{}\"").0, ErrorKind::Unexpected);
    assert_eq!(error_of("\"\\u{1234567}\"").0, ErrorKind::InvalidCodePoint);
    assert_eq!(error_of("\"\\u{0000411}\""), (ErrorKind::Unexpected, (10, 11)));
}

#[test]
fn raw_line_break_in_string_fails() {
    assert_eq!(error_of("\"a\nb\"").0, ErrorKind::Unexpected);
    assert_eq!(error_of("\"abc").0, ErrorKind::Unexpected);
}

#[test]
fn reserved_name_is_no_identifier() {
    let (kind, span) = error_of("local");
    assert_eq!(kind, ErrorKind::ReservedName);
    assert_eq!(span, (0, 5));
    assert_eq!(kind.message(), "identifier uses reserved name");
    assert_eq!(error_of("function").0, ErrorKind::ReservedName);
    assert_eq!(shown("locale"), "locale");
    assert_eq!(shown("nilly"), "nilly");
    assert_eq!(shown("_x1"), "_x1");
}

#[test]
fn literals() {
    assert_eq!(shown("nil"), "nil");
    assert_eq!(shown("true"), "true");
    assert_eq!(shown("false"), "false");
    assert_eq!(shown("'get"), "'get");
    assert_eq!(shown("'set"), "'set");
    assert_eq!(shown("'destructure"), "'destructure");
    assert_eq!(shown("'{ a, foo: b, }"), "'{a, foo: b}");
    assert_eq!(shown("'{}"), "'{}");
    assert_eq!(error_of("'neg").0, ErrorKind::Unexpected);
}

#[test]
fn operators_bind_by_precedence() {
    assert_eq!(shown("a + b * c"), "<a + <b * c>>");
    assert_eq!(shown("a * b + c"), "<<a * b> + c>");
    assert_eq!(shown("a or b and c == d + e * f"), "<a or <b and <c == <d + <e * f>>>>>");
    assert_eq!(shown("(a + b) * c"), "<(<a + b>) * c>");
}

#[test]
fn operators_group_by_associativity() {
    assert_eq!(shown("a - b - c"), "<<a - b> - c>");
    assert_eq!(shown("a / b % c * d"), "<<<a / b> % c> * d>");
    assert_eq!(shown("a == b != c"), "<<a == b> != c>");
    assert_eq!(shown("a and b and c"), "<a and <b and c>>");
    assert_eq!(shown("a or b or c"), "<a or <b or c>>");
}

#[test]
fn comparison_operators() {
    assert_eq!(shown("a >= b"), "<a >= b>");
    assert_eq!(shown("a <= b"), "<a <= b>");
    assert_eq!(shown("a > b"), "<a > b>");
    assert_eq!(shown("a < b"), "<a < b>");
    assert_eq!(shown("a != b"), "<a != b>");
    assert_eq!(shown("a == b"), "<a == b>");
}

#[test]
fn prefix_operators_fold_from_the_right() {
    assert_eq!(shown("-a"), "-a");
    assert_eq!(shown("not a"), "not a");
    assert_eq!(shown("- not -a"), "-not -a");
    assert_eq!(shown("-a.b"), "-a.b");
    assert_eq!(shown("-a + b"), "<-a + b>");
    assert_eq!(shown("nota"), "nota");
}

#[test]
fn suffixes_fold_from_the_left() {
    assert_eq!(shown("f(x)"), "f(x)");
    assert_eq!(shown("f()"), "f()");
    assert_eq!(shown("f{a, [k]: v}"), "f{a, [k]: v}");
    assert_eq!(shown("a.b.c"), "a.b.c");
    assert_eq!(shown("a[b](c).d"), "a[b](c).d");
    assert_eq!(shown("a[b] = c"), "a[b] = c");
    assert_eq!(shown("a.b = c"), "a.b = c");
    assert_eq!(shown("a[b] == c"), "<a[b] == c>");
    assert_eq!(shown("a . b"), "a.b");
}

#[test]
fn variables() {
    assert_eq!(shown("[a]"), "[a]");
    assert_eq!(shown("[a] = b"), "[a] = b");
    assert_eq!(shown("local [a] = b"), "local [a] = b");
    assert_eq!(shown("x = 3"), "x = 3");
    assert_eq!(shown("local x = 3"), "local x = 3");
    assert_eq!(shown("x == 3"), "<x == 3>");
    assert_eq!(shown("x = y = z"), "x = y = z");
}

#[test]
fn table_constructors_and_destructuring() {
    assert_eq!(shown("{ a, b, foo: c, [d]: e }"), "{a, b, foo: c, [d]: e}");
    assert_eq!(shown("{}"), "{}");
    assert_eq!(shown("{ foo, bar: baz } = a"), "{foo, bar: baz} = a");
    assert_eq!(shown("local { foo } = a"), "local {foo} = a");
    assert_eq!(shown("{ a }"), "{a}");
}

#[test]
fn function_definitions() {
    assert_eq!(shown("function() a"), "function() a");
    assert_eq!(shown("function(x) x + 1"), "function(x) <x + 1>");
    assert_eq!(shown("function{a, b: c} a"), "function{a, b: c} a");
    assert_eq!(shown("function foo() a"), "function foo() a");
    assert_eq!(shown("local function foo(bar) a"), "local function foo(bar) a");
    assert_eq!(shown("function foo{x} a"), "function foo{x} a");
}

#[test]
fn list_records_trailing_separator() {
    match parse_expr("{a, b,}") {
        Expr::TableConstr(constr) => {
            assert_eq!(constr.0.elems.len(), 2);
            assert!(constr.0.trailing.is_some());
            assert_eq!(constr.0.span.range(), 0..7);
        }
        other => panic!("unexpected {other:?}"),
    }
    match parse_expr("{a, b}") {
        Expr::TableConstr(constr) => {
            assert_eq!(constr.0.elems.len(), 2);
            assert!(constr.0.trailing.is_none());
        }
        other => panic!("unexpected {other:?}"),
    }
}

#[test]
fn trivia_is_kept() {
    let program = parse("# first\n\n  a # second\n").unwrap();
    match program {
        Program::Expr { s0, expr, s1, span } => {
            assert_eq!(s0.lines.len(), 2);
            assert!(matches!(&s0.lines[0], Line::Comment(text) if text == " first"));
            assert!(matches!(&s0.lines[1], Line::Empty));
            assert_eq!(s0.span.range(), 0..11);
            assert_eq!(show(&expr), "a");
            assert_eq!(s1.lines.len(), 1);
            assert!(matches!(&s1.lines[0], Line::Comment(text) if text == " second"));
            assert_eq!(span.range(), 0..22);
        }
        other => panic!("unexpected {other:?}"),
    }
}

#[test]
fn spans_cover_the_nodes() {
    match parse_expr("ab + f(c)") {
        Expr::BinOp { left, right, span, .. } => {
            assert_eq!(span.range(), 0..9);
            match *left {
                Expr::Var(Var::AccessIdent(ident)) => assert_eq!(ident.span.range(), 0..2),
                other => panic!("unexpected {other:?}"),
            }
            match *right {
                Expr::Call(Call::Arg { span, .. }) => assert_eq!(span.range(), 5..9),
                other => panic!("unexpected {other:?}"),
            }
        }
        other => panic!("unexpected {other:?}"),
    }
    match parse_expr("- x") {
        Expr::Neg { minus, span, .. } => {
            assert_eq!(minus.range(), 0..1);
            assert_eq!(span.range(), 0..3);
        }
        other => panic!("unexpected {other:?}"),
    }
}

#[test]
fn module_program() {
    match parse("module\na: 1,\nb,\n").unwrap() {
        Program::Module { elems, .. } => {
            assert_eq!(elems.elems.len(), 2);
            assert!(elems.trailing.is_some());
            assert_eq!(show_lit_elem(&elems.elems[0].1), "a: 1");
            assert_eq!(show_lit_elem(&elems.elems[1].1), "b");
        }
        other => panic!("unexpected {other:?}"),
    }
    assert!(matches!(parse("module").unwrap(), Program::Module { .. }));
}

#[test]
fn input_behind_the_program_is_an_error() {
    assert_eq!(error_of("a b"), (ErrorKind::Unexpected, (2, 3)));
    assert_eq!(error_of("1 +"), (ErrorKind::Unexpected, (2, 3)));
    assert_eq!(error_of(""), (ErrorKind::Unexpected, (0, 0)));
    assert_eq!(error_of("{a, b"), (ErrorKind::Unexpected, (5, 5)));
}

#[test]
fn error_of_an_element_outlives_the_missing_bracket() {
    assert_eq!(error_of("{a, local}"), (ErrorKind::Unexpected, (9, 10)));
    assert_eq!(error_of("{a, 0x_ }"), (ErrorKind::NoDigits, (6, 7)));
    assert_eq!(error_of("f(a, \"\\u{D800}\")").0, ErrorKind::Unexpected);
    assert_eq!(
        error_of("{ 99999999999999999999 }"),
        (ErrorKind::TooLarge(Radix::Dec), (2, 22))
    );
}

#[test]
fn nesting_is_bounded() {
    let stream = stream_from_str("((a))");
    let errors = parser(&stream, 2).unwrap_err();
    assert_eq!(errors.len(), 1);
    assert_eq!(errors[0].kind, ErrorKind::TooDeep);
    assert_eq!(errors[0].kind.message(), "nesting too deep");
    assert!(parser(&stream, 3).is_ok());
    let stream = stream_from_str("a");
    assert!(parser(&stream, 1).is_ok());
    assert_eq!(parser(&stream, 0).unwrap_err()[0].kind, ErrorKind::TooDeep);
}

#[test]
fn comment_needs_its_line_break() {
    assert!(parse("a # no line break").is_err());
    assert!(parse("a # line break\n").is_ok());
}

#[test]
fn offsets_count_characters() {
    let stream = stream_from_str("\"é\" x");
    assert_eq!(stream.len(), 5);
    assert_eq!(error_of("\"é\" x"), (ErrorKind::Unexpected, (4, 5)));
}

fn steps_of(text: &str, limit: usize) -> Vec<String> {
    let mut expr = parse_expr(text);
    let mut steps = vec![];
    loop {
        let (next, changed) = expr.desugar();
        expr = next;
        if !changed || steps.len() == limit {
            return steps;
        }
        steps.push(show(&expr));
    }
}

#[test]
fn leftmost_child_steps_before_the_node() {
    assert_eq!(steps_of("-a", 1), vec!["-[\"a\"]"]);
    assert_eq!(steps_of("not (1)", 2), vec!["not 1", "'not(1)"]);
    assert_eq!(steps_of("(a)", 1), vec!["([\"a\"])"]);
    assert_eq!(steps_of("a + b", 1), vec!["<[\"a\"] + b>"]);
    assert_eq!(steps_of("1 + b", 1), vec!["<1 + [\"b\"]>"]);
    assert_eq!(steps_of("f(x)", 1), vec!["[\"f\"](x)"]);
    assert_eq!(steps_of("'get(x)", 1), vec!["'get([\"x\"])"]);
    assert_eq!(steps_of("f()", 1), vec!["[\"f\"]()"]);
    assert_eq!(steps_of("'get{1, [a]: b}", 1), vec!["'get{1, [[\"a\"]]: b}"]);
    assert_eq!(steps_of("{1, [2]: b, c: d}", 1), vec!["{1, [2]: [\"b\"], c: d}"]);
    assert_eq!(steps_of("{1, c: (2), (3)}", 1), vec!["{1, c: 2, (3)}"]);
    assert_eq!(steps_of("a.b", 1), vec!["[\"a\"].b"]);
    assert_eq!(steps_of("a.b = c", 1), vec!["[\"a\"].b = c"]);
    assert_eq!(steps_of("nil.b = c", 1), vec!["nil.b = [\"c\"]"]);
    assert_eq!(steps_of("nil[(1)] = c", 1), vec!["nil[1] = c"]);
    assert_eq!(steps_of("nil[1] = c", 1), vec!["nil[1] = [\"c\"]"]);
    assert_eq!(steps_of("[a]", 1), vec!["[[\"a\"]]"]);
    assert_eq!(steps_of("[1] = (2)", 1), vec!["[1] = 2"]);
    assert_eq!(steps_of("x = y", 1), vec!["x = [\"y\"]"]);
    assert_eq!(steps_of("{a} = b", 1), vec!["{a} = [\"b\"]"]);
    assert_eq!(steps_of("function() a", 1), vec!["function() [\"a\"]"]);
    assert_eq!(steps_of("function(x) x + 1", 1), vec!["function(x) <[\"x\"] + 1>"]);
    assert_eq!(steps_of("local function f{x} (1)", 1), vec!["local function f{x} 1"]);
}

#[test]
fn dotted_access_desugars_to_get() {
    assert_eq!(
        steps_of("nil.b", 5),
        vec![
            "nil[\"b\"]",
            "'get{nil, \"b\"}",
            "'get({nil, \"b\"})",
            "'get('{raw: '{nil, \"b\"}})",
            "'{call: 'get, arg: '{raw: '{nil, \"b\"}}}",
        ]
    );
}

#[test]
fn call_desugars_to_table_of_call_and_arg() {
    assert_eq!(steps_of("'get(1)", 2), vec!["'{call: 'get, arg: 1}"]);
    assert_eq!(
        steps_of("'get()", 4),
        vec!["'get(nil)", "'{call: 'get, arg: nil}", "'{call: 'get}"]
    );
    assert_eq!(
        steps_of("'get{1}", 4),
        vec!["'get({1})", "'get('{raw: '{1}})", "'{call: 'get, arg: '{raw: '{1}}}"]
    );
}

#[test]
fn assignment_to_name_desugars_to_set_on_scope() {
    assert_eq!(
        steps_of("x = 3", 6),
        vec![
            "[\"x\"] = 3",
            "'scope()[\"x\"] = 3",
            "'scope(nil)[\"x\"] = 3",
            "'{call: 'scope, arg: nil}[\"x\"] = 3",
            "'{call: 'scope}[\"x\"] = 3",
            "'set{'{call: 'scope}, \"x\", 3}",
        ]
    );
    assert_eq!(
        steps_of("local x = 3", 2),
        vec!["local [\"x\"] = 3", "'setraw{'scope(), \"x\", 3}"]
    );
    assert_eq!(steps_of("x", 3), vec!["[\"x\"]", "'scope()[\"x\"]", "'scope(nil)[\"x\"]"]);
}

#[test]
fn negation_desugars_to_call_of_neg() {
    assert_eq!(steps_of("-1", 3), vec!["'neg(1)", "'{call: 'neg, arg: 1}"]);
    assert_eq!(steps_of("not true", 1), vec!["'not(true)"]);
}

#[test]
fn binary_operators_desugar_to_calls_of_builtins() {
    for (text, name) in [
        ("1 * 2", "mul"),
        ("1 / 2", "div"),
        ("1 % 2", "mod"),
        ("1 + 2", "add"),
        ("1 - 2", "sub"),
        ("1 == 2", "eq"),
        ("1 != 2", "ne"),
        ("1 > 2", "gt"),
        ("1 >= 2", "ge"),
        ("1 < 2", "lt"),
        ("1 <= 2", "le"),
        ("1 and 2", "and"),
        ("1 or 2", "or"),
    ] {
        assert_eq!(steps_of(text, 1), vec![format!("'{name}{{1, 2}}")]);
    }
}

#[test]
fn indexed_entry_desugars_to_assignment_on_raw_table() {
    assert_eq!(
        steps_of("{[1]: 2}", 2),
        vec!["'{raw: '{}}[1] = 2", "'set{'{raw: '{}}, 1, 2}"]
    );
    assert_eq!(
        steps_of("{1, [2]: 3, b: 4, [5]: 6}", 1),
        vec!["'{raw: '{1, b: 4}}[2] = 3[5] = 6"]
    );
    assert_eq!(steps_of("{1}", 2), vec!["'{raw: '{1}}"]);
}

#[test]
fn function_desugars_to_quote_and_scope() {
    assert_eq!(
        steps_of("function(x) 1", 2),
        vec!["function() '{local x = 'arg(), 1}", "function() '{local x = 'arg(nil), 1}"]
    );
    assert_eq!(
        steps_of("function() 1", 2),
        vec!["{'{quote: 1}, scope: 'scope()}", "{'{quote: 1}, scope: 'scope(nil)}"]
    );
    assert_eq!(
        steps_of("function{a, b: c} 1", 1),
        vec!["function() '{local {a, b: c} = 'arg(), 1}"]
    );
    assert_eq!(steps_of("function f() 1", 1), vec!["f = function() 1"]);
    assert_eq!(steps_of("local function f(x) 1", 1), vec!["local f = function(x) 1"]);
    assert_eq!(steps_of("function f{x} 1", 1), vec!["f = function{x} 1"]);
    let steps = steps_of("function(x) x + 1", 1000);
    let last = steps.last().unwrap();
    assert!(last.starts_with("'{raw: '{'{quote: '{"), "{last}");
    assert!(last.ends_with(", scope: '{call: 'scope}}}"), "{last}");
    assert!(steps.iter().any(|step| step.starts_with("function() '{local x = 'arg(), ")));
}

#[test]
fn destructuring_desugars_to_call_of_destructure() {
    assert_eq!(steps_of("{a, b: c} = 1", 1), vec!["'destructure{{\"a\", b: \"c\"}, 1}"]);
    assert_eq!(
        steps_of("local {a} = 1", 1),
        vec!["'destructure{{\"a\"}, 1, local: true}"]
    );
}

#[test]
fn parentheses_are_dropped() {
    assert_eq!(steps_of("(1)", 2), vec!["1"]);
    assert_eq!(steps_of("((1))", 3), vec!["(1)", "1"]);
}

#[test]
fn global_access_desugars_to_access_on_scope() {
    assert_eq!(steps_of("[1]", 2), vec!["'scope()[1]", "'scope(nil)[1]"]);
    assert_eq!(steps_of("[1] = 2", 1), vec!["'scope()[1] = 2"]);
    assert_eq!(steps_of("local [1] = 2", 1), vec!["'setraw{'scope(), 1, 2}"]);
    assert_eq!(steps_of("nil[1] = 2", 1), vec!["'set{nil, 1, 2}"]);
    assert_eq!(steps_of("nil[1]", 1), vec!["'get{nil, 1}"]);
    assert_eq!(steps_of("nil.k = 2", 1), vec!["nil[\"k\"] = 2"]);
}

#[test]
fn table_literal_steps_its_first_reducible_entry() {
    assert_eq!(steps_of("'{1, (2), (3)}", 1), vec!["'{1, 2, (3)}"]);
    assert_eq!(steps_of("'{1, x: (2)}", 1), vec!["'{1, x: 2}"]);
    assert_eq!(steps_of("'{1, (a), (b)}", 1), vec!["'{1, ([\"a\"]), (b)}"]);
}

#[test]
fn nil_entries_are_dropped_once_the_entries_are_reduced() {
    assert_eq!(steps_of("'{a: nil, 1, b: nil, c: 2}", 1), vec!["'{1, c: 2}"]);
    assert_eq!(steps_of("'{a: (nil)}", 2), vec!["'{a: nil}", "'{}"]);
    assert_eq!(steps_of("'{nil}", 1), Vec::<String>::new());
}

#[test]
fn module_desugars_to_table_literal() {
    let program = parse("module a: 1, b").unwrap();
    let (program, changed) = program.desugar();
    assert!(changed);
    match program {
        Program::Expr { expr, .. } => assert_eq!(show(&expr), "'{a: 1, b}"),
        other => panic!("unexpected {other:?}"),
    }
}

fn only_literals(expr: &Expr) -> bool {
    match expr {
        Expr::Lit(Lit::Table(table)) => table.0.elems.iter().all(|(_, elem, _)| match elem {
            TableLitElem::Positional(value) => only_literals(value),
            TableLitElem::Named { value, .. } => {
                !matches!(**value, Expr::Lit(Lit::Nil(_))) && only_literals(value)
            }
        }),
        Expr::Lit(_) => true,
        _ => false,
    }
}

#[test]
fn desugaring_reaches_a_fixed_point_of_literals() {
    for text in [
        "a.b",
        "f(x)",
        "x = 3",
        "-a",
        "{[k]: v}",
        "function(x) x + 1",
        "local function f{a, b: c} a.b(c){d, [e]: f} or not g",
        "module\nmain: function() print(\"hi\"),\nlocal {x} = y,\n",
        "'{a: nil, b: (nil), c: '{d: nil}}",
    ] {
        let mut program = parse(text).unwrap();
        let mut steps = 0;
        loop {
            let (next, changed) = program.desugar();
            program = next;
            if !changed {
                break;
            }
            steps += 1;
            assert!(steps <= 2000, "{text:?} did not reach a fixed point");
        }
        match &program {
            Program::Expr { expr, .. } => assert!(only_literals(expr), "{text:?}: {}", show(expr)),
            other => panic!("unexpected {other:?}"),
        }
        let before = format!("{program:?}");
        let (again, changed) = program.desugar();
        assert!(!changed);
        assert_eq!(format!("{again:?}"), before);
    }
}

#[test]
fn fixed_point_of_a_small_expression_is_reached_in_known_steps() {
    // (a) -> (["a"]) -> ('scope()["a"]) -> ('scope(nil)["a"])
    // -> ('{call: 'scope, arg: nil}["a"]) -> ('{call: 'scope}["a"])
    // -> ('get{.., "a"}) -> ('get({.., "a"})) -> ('get('{raw: '{.., "a"}}))
    // -> ('{call: 'get, arg: ..}) -> '{call: 'get, arg: ..}
    let mut program = parse("(a)").unwrap();
    let mut steps = 0;
    loop {
        let (next, changed) = program.desugar();
        program = next;
        if !changed {
            break;
        }
        steps += 1;
    }
    assert_eq!(steps, 10);
    match &program {
        Program::Expr { expr, .. } => assert_eq!(
            show(expr),
            "'{call: 'get, arg: '{raw: '{'{call: 'scope}, \"a\"}}}"
        ),
        other => panic!("unexpected {other:?}"),
    }
}

#[test]
fn clone_copies_the_whole_tree() {
    let text = "# c\nlocal function f{a, b: c} g(x).y[0x_1] = '{k: \"s\\n\", [1]} or -z # d\n";
    let program = parse(text).unwrap();
    let copy = program.clone();
    assert_eq!(format!("{copy:?}"), format!("{program:?}"));
    let (stepped, changed) = copy.desugar();
    assert!(changed);
    assert_ne!(format!("{stepped:?}"), format!("{program:?}"));
    let expr = parse_expr("{a, [b]: c}");
    assert_eq!(show(&expr.clone()), show(&expr));
}

#[test]
fn larger_bound_on_nesting_changes_no_result() {
    for text in ["f(a[b], {c: (d)})", "a +", "\"\\u{D800}\"", "module a, b: '{c}", "((x))"] {
        let stream = stream_from_str(text);
        let low = format!("{:?}", parser(&stream, 4));
        assert!(!low.contains("TooDeep"), "{text:?}");
        for depth in [5, 6, 64, 1000] {
            assert_eq!(format!("{:?}", parser(&stream, depth)), low);
        }
    }
}

fn without_parens(expr: Expr) -> Expr {
    let mut expr = expr;
    loop {
        match expr {
            Expr::Paren { inner, .. } => expr = *inner,
            other => return other,
        }
    }
}

#[test]
fn printed_source_reads_back_as_the_same_tree() {
    for text in [
        "a + b * c - d / e % f",
        "(a + b) * (c - d)",
        "a or b and c == d or e",
        "a - (b - c) - d",
        "(a and b) and c and (d or e)",
        "- not -a + -(b * c)",
        "f(x)(){y, k: z, [i]: j}.m[n] = o.p = q",
        "local [a] = [b] = local c = d",
        "local {a, b: c} = function(x) function{y} function() x",
        "local function f(a) function g{b} function h() '{1, k: 0x_f, \"s\\n\\u{41}\"}",
        "'{nil, true, false, 'get, 'destructure, 0b1_0}",
    ] {
        let tree = parse_expr(text);
        let printed = show_as(&tree, true);
        let again = parse_expr(&printed);
        assert_eq!(show(&again), show(&tree), "{text:?} printed as {printed:?}");
        assert_eq!(show_as(&again, true), printed);
    }
}

#[test]
fn printed_source_of_a_built_tree_reads_back_with_its_grouping() {
    let name = |n: &str| parse_expr(n);
    let op = |left: Expr, op: BinOp, right: Expr| Expr::BinOp {
        left: left.boxed(),
        s0: tada::ast::Space::empty(tada::span::Span::new(0, 0)),
        op,
        s1: tada::ast::Space::empty(tada::span::Span::new(0, 0)),
        right: right.boxed(),
        span: tada::span::Span::new(0, 0),
    };
    let cases = [
        (op(name("a"), BinOp::Sub, op(name("b"), BinOp::Sub, name("c"))), "a - (b - c)"),
        (op(op(name("a"), BinOp::Sub, name("b")), BinOp::Sub, name("c")), "a - b - c"),
        (op(op(name("a"), BinOp::And, name("b")), BinOp::And, name("c")), "(a and b) and c"),
        (op(name("a"), BinOp::And, op(name("b"), BinOp::And, name("c"))), "a and b and c"),
        (op(op(name("a"), BinOp::Add, name("b")), BinOp::Mul, name("c")), "(a + b) * c"),
        (op(name("a"), BinOp::Add, op(name("b"), BinOp::Mul, name("c"))), "a + b * c"),
        (op(parse_expr("x = y"), BinOp::Or, name("c")), "(x = y) or c"),
    ];
    for (tree, expected) in cases {
        let printed = show_as(&tree, true);
        assert_eq!(printed, expected);
        let again = match parse_expr(&printed) {
            Expr::BinOp { left, op, right, s0, s1, span } => Expr::BinOp {
                left: without_parens(*left).boxed(),
                op,
                right: without_parens(*right).boxed(),
                s0,
                s1,
                span,
            },
            other => other,
        };
        assert_eq!(show(&again), show(&tree));
    }
}
