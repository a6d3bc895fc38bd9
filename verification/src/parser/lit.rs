//! Literals.

use vstd::prelude::*;

use crate::ast::basic::BoundedSeparatedView;
use crate::ast::expr::ExprView;
use crate::ast::lit::{
    Lit, LitView, NumLit, NumLitStr, NumLitStrView, NumLitView, StringLit, StringLitElem,
    StringLitElemView, StringLitView, TableLit, TableLitElem, TableLitElemView, TableLitView,
};
use crate::builtin::Builtin;
use crate::parser::basic::{
    at, bounded_separated, char_at, digit_value, elem_agrees, ident, just, keyword, scan, skip,
    space, spec_bounded_separated, spec_ident, spec_just, spec_keyword, spec_space, spec_word_end,
    spells, text_of, value_of_digit, word_end, Bracket, CharClass,
};
use crate::parser::error::{
    agrees, agrees_plain, map_ok, or_else, unexpected, unexpected_at, ErrorKind, ParseError, Parsed,
    Radix,
};
use crate::parser::expr::spec_expr;
use crate::span::Span;

verus! {

/// The built-in operation that source text can name with `name`.
pub open spec fn builtin_named(name: Seq<char>) -> Option<Builtin> {
    if name == "get"@ {
        Some(Builtin::Get)
    } else if name == "set"@ {
        Some(Builtin::SetField)
    } else if name == "getraw"@ {
        Some(Builtin::GetRaw)
    } else if name == "setraw"@ {
        Some(Builtin::SetRaw)
    } else if name == "getmeta"@ {
        Some(Builtin::GetMeta)
    } else if name == "setmeta"@ {
        Some(Builtin::SetMeta)
    } else if name == "scope"@ {
        Some(Builtin::Scope)
    } else if name == "arg"@ {
        Some(Builtin::Arg)
    } else if name == "destructure"@ {
        Some(Builtin::Destructure)
    } else {
        None
    }
}

/// The literal of a built-in operation: a quote and the name.
#[verifier::opaque]
pub open spec fn spec_builtin_lit(s: Seq<char>, pos: int) -> Parsed<Builtin> {
    match spec_just(s, pos, '\'') {
        Err(e) => Err(e),
        Ok(start) => {
            let end = spec_word_end(s, start);
            if end <= start {
                Err(unexpected(s, start))
            } else {
                match builtin_named(s.subrange(start, end)) {
                    Some(builtin) => Ok((builtin, end)),
                    None => Err(
                        ParseError { span: Span::at(start, end), kind: ErrorKind::Unexpected },
                    ),
                }
            }
        },
    }
}

/// The base as a number.
pub open spec fn radix_value(radix: Radix) -> nat {
    match radix {
        Radix::Bin => 2,
        Radix::Dec => 10,
        Radix::Hex => 16,
    }
}

/// The largest number of digits that a literal of the base may have. A
/// number of so many digits fits into 64 bits.
pub open spec fn max_digits(radix: Radix) -> nat {
    match radix {
        Radix::Bin => 63,
        Radix::Dec => 19,
        Radix::Hex => 16,
    }
}

/// The number of digits in `text`, underscores not counted.
pub open spec fn digit_count(text: Seq<char>) -> nat
    decreases text.len(),
{
    if text.len() == 0 {
        0
    } else if text.last() == '_' {
        digit_count(text.drop_last())
    } else {
        digit_count(text.drop_last()) + 1
    }
}

/// The number that the digits of `text` spell in the base, underscores
/// ignored.
pub open spec fn digits_value(text: Seq<char>, radix: Radix) -> nat
    decreases text.len(),
{
    if text.len() == 0 {
        0
    } else if text.last() == '_' {
        digits_value(text.drop_last(), radix)
    } else {
        digits_value(text.drop_last(), radix) * radix_value(radix) + digit_value(text.last())
    }
}

/// The digits of a literal as they were written, tagged with the base.
pub open spec fn num_str(radix: Radix, text: Seq<char>) -> NumLitStrView {
    match radix {
        Radix::Bin => NumLitStrView::Bin(text),
        Radix::Dec => NumLitStrView::Dec(text),
        Radix::Hex => NumLitStrView::Hex(text),
    }
}

/// The digits of a number literal of the base: a run of digits and
/// underscores with at least one digit. The value is that of the digits.
/// The literal is rejected where it has more digits than the base allows or
/// where its value is larger than the largest signed 64-bit integer.
#[verifier::opaque]
pub open spec fn spec_num_lit_str_radix(s: Seq<char>, pos: int, radix: Radix) -> Parsed<
    (i64, NumLitStrView),
> {
    let end = scan(s, pos, CharClass::Digits(radix));
    let text = s.subrange(pos, end);
    if end <= pos {
        Err(unexpected(s, pos))
    } else if digit_count(text) == 0 {
        Err(ParseError { span: Span::at(pos, end), kind: ErrorKind::NoDigits })
    } else if digit_count(text) > max_digits(radix) || digits_value(text, radix) > i64::MAX {
        Err(ParseError { span: Span::at(pos, end), kind: ErrorKind::TooLarge(radix) })
    } else {
        Ok(((digits_value(text, radix) as i64, num_str(radix, text)), end))
    }
}

/// The base that the text at `pos` selects, and where the digits start:
/// `0b` selects binary, `0x` hexadecimal, and anything else decimal.
pub open spec fn spec_radix(s: Seq<char>, pos: int) -> (Radix, int) {
    if 0 <= pos && pos + 1 < s.len() && s[pos] == '0' && s[pos + 1] == 'b' {
        (Radix::Bin, pos + 2)
    } else if 0 <= pos && pos + 1 < s.len() && s[pos] == '0' && s[pos + 1] == 'x' {
        (Radix::Hex, pos + 2)
    } else {
        (Radix::Dec, pos)
    }
}

/// A number literal.
#[verifier::opaque]
pub open spec fn spec_num_lit(s: Seq<char>, pos: int) -> Parsed<NumLitView> {
    let radix = spec_radix(s, pos);
    match spec_num_lit_str_radix(s, radix.1, radix.0) {
        Err(e) => Err(e),
        Ok(((value, str), end)) => Ok((NumLitView { value, str, span: Span::at(pos, end) }, end)),
    }
}

/// Whether `n` is a Unicode scalar value.
pub open spec fn is_scalar(n: nat) -> bool {
    n <= 0xd7ff || 0xe000 <= n <= 0x10ffff
}

/// The character with the code point `n`.
pub open spec fn scalar(n: nat) -> char {
    n as char
}

/// The code point of the escape `\u{..}` whose digits start at `pos`: the
/// value of up to six hexadecimal digits before the closing brace.
#[verifier::opaque]
pub open spec fn spec_unicode(s: Seq<char>, pos: int) -> Parsed<char> {
    let run = scan(s, pos, CharClass::Hex);
    let end = if run <= pos + 6 {
        run
    } else {
        pos + 6
    };
    let n = digits_value(s.subrange(pos, end), Radix::Hex);
    if end <= pos {
        Err(unexpected(s, pos))
    } else if !is_scalar(n) {
        Err(ParseError { span: Span::at(pos, end), kind: ErrorKind::InvalidCodePoint })
    } else {
        match spec_just(s, end, '}') {
            Err(e) => Err(e),
            Ok(close) => Ok((scalar(n), close)),
        }
    }
}

/// The escape whose backslash stands at `pos`.
#[verifier::opaque]
pub open spec fn spec_escape(s: Seq<char>, pos: int) -> Parsed<StringLitElemView> {
    if 0 <= pos && pos + 1 < s.len() {
        let c = s[pos + 1];
        if c == 'u' {
            match spec_just(s, pos + 2, '{') {
                Err(e) => Err(e),
                Ok(start) => map_ok(spec_unicode(s, start), |c: char| StringLitElemView::Unicode(c)),
            }
        } else if c == '\\' {
            Ok((StringLitElemView::Backslash, pos + 2))
        } else if c == '"' {
            Ok((StringLitElemView::DoubleQuote, pos + 2))
        } else if c == 't' {
            Ok((StringLitElemView::Tab, pos + 2))
        } else if c == 'r' {
            Ok((StringLitElemView::CarriageReturn, pos + 2))
        } else if c == 'n' {
            Ok((StringLitElemView::Newline, pos + 2))
        } else {
            Err(unexpected(s, pos + 1))
        }
    } else {
        Err(unexpected(s, pos + 1))
    }
}

/// One element of a string literal: the longest run of plain characters, or
/// one escape.
#[verifier::opaque]
pub open spec fn spec_string_lit_elem(s: Seq<char>, pos: int) -> Parsed<StringLitElemView> {
    let run = scan(s, pos, CharClass::Plain);
    if pos < run {
        Ok((StringLitElemView::Plain(s.subrange(pos, run)), run))
    } else if 0 <= pos < s.len() && s[pos] == '\\' {
        spec_escape(s, pos)
    } else {
        Err(unexpected(s, pos))
    }
}

/// The elements of a string literal from `pos` on, behind the elements
/// `acc`; where they end; and why no further element could be read.
pub open spec fn spec_string_elems(s: Seq<char>, pos: int, acc: Seq<StringLitElemView>) -> (
    Seq<StringLitElemView>,
    int,
    ParseError,
)
    decreases s.len() - pos,
{
    match spec_string_lit_elem(s, pos) {
        Err(e) => (acc, pos, e),
        Ok((elem, end)) => if pos < end <= s.len() {
            spec_string_elems(s, end, acc.push(elem))
        } else {
            (acc, pos, unexpected(s, pos))
        },
    }
}

/// A string literal: elements between double quotes. Where the closing
/// quote is missing, the error is the furthest of that and of what kept a
/// further element from being read.
#[verifier::opaque]
pub open spec fn spec_string_lit(s: Seq<char>, pos: int) -> Parsed<StringLitView> {
    match spec_just(s, pos, '"') {
        Err(e) => Err(e),
        Ok(start) => {
            let body = spec_string_elems(s, start, Seq::empty());
            match spec_just(s, body.1, '"') {
                Err(e) => Err(body.2.furthest(e)),
                Ok(end) => Ok((StringLitView { elems: body.0, span: Span::at(pos, end) }, end)),
            }
        },
    }
}

/// The model of an entry of a table literal, as a function.
pub open spec fn lit_elem_model() -> spec_fn(TableLitElem) -> TableLitElemView {
    |elem: TableLitElem| elem@
}

/// The parser of an entry of a table literal, as a function of the
/// position.
pub open spec fn lit_elem_parser(s: Seq<char>, depth: nat) -> spec_fn(int) -> Parsed<
    TableLitElemView,
>
    decreases depth, 12int, 0int,
{
    |pos: int| spec_table_lit_elem(s, pos, depth)
}

/// A named entry of a table literal: `name: value`.
pub open spec fn spec_named_elem(s: Seq<char>, pos: int, depth: nat) -> Parsed<TableLitElemView>
    decreases depth, 9int, 0int,
{
    match spec_ident(s, pos) {
        Err(e) => Err(e),
        Ok((name, p1)) => {
            let s0 = spec_space(s, p1);
            match spec_just(s, s0.1, ':') {
                Err(e) => Err(e),
                Ok(p2) => {
                    let s1 = spec_space(s, p2);
                    match spec_expr(s, s1.1, depth) {
                        Err(e) => Err(e),
                        Ok((value, end)) => Ok(
                            (
                                TableLitElemView::Named {
                                    name,
                                    s0: s0.0,
                                    s1: s1.0,
                                    value: Box::new(value),
                                    span: Span::at(pos, end),
                                },
                                end,
                            ),
                        ),
                    }
                },
            }
        },
    }
}

/// An entry of a table literal: a named entry, or else an expression.
pub open spec fn spec_table_lit_elem(s: Seq<char>, pos: int, depth: nat) -> Parsed<
    TableLitElemView,
>
    decreases depth, 10int, 0int,
{
    or_else(
        spec_named_elem(s, pos, depth),
        map_ok(
            spec_expr(s, pos, depth),
            |value: ExprView| TableLitElemView::Positional(Box::new(value)),
        ),
    )
}

/// A table literal: entries between `'{` and `}`.
pub open spec fn spec_table_lit(s: Seq<char>, pos: int, depth: nat) -> Parsed<TableLitView>
    decreases depth, 29int, 0int,
{
    map_ok(
        spec_bounded_separated(s, pos, Bracket::QuoteBrace, lit_elem_parser(s, depth)),
        |list: BoundedSeparatedView<TableLitElemView>| TableLitView(list),
    )
}

/// One of the literals `nil`, `true` and `false`.
#[verifier::opaque]
pub open spec fn spec_word_lit(s: Seq<char>, pos: int) -> Parsed<LitView> {
    let nil: Parsed<LitView> = match spec_keyword(s, pos, "nil"@) {
        Ok(end) => Ok((LitView::Nil(Span::at(pos, end)), end)),
        Err(e) => Err(e),
    };
    let yes: Parsed<LitView> = match spec_keyword(s, pos, "true"@) {
        Ok(end) => Ok((LitView::Bool(true, Span::at(pos, end)), end)),
        Err(e) => Err(e),
    };
    let no: Parsed<LitView> = match spec_keyword(s, pos, "false"@) {
        Ok(end) => Ok((LitView::Bool(false, Span::at(pos, end)), end)),
        Err(e) => Err(e),
    };
    or_else(nil, or_else(yes, no))
}

/// A literal that holds no expression: `nil`, `true`, `false`, a built-in
/// operation, a number or a string.
#[verifier::opaque]
pub open spec fn spec_plain_lit(s: Seq<char>, pos: int) -> Parsed<LitView> {
    let builtin: Parsed<LitView> = match spec_builtin_lit(s, pos) {
        Ok((builtin, end)) => Ok((LitView::Builtin(builtin, Span::at(pos, end)), end)),
        Err(e) => Err(e),
    };
    or_else(
        spec_word_lit(s, pos),
        or_else(
            builtin,
            or_else(
                map_ok(spec_num_lit(s, pos), |n: NumLitView| LitView::Num(n)),
                map_ok(spec_string_lit(s, pos), |t: StringLitView| LitView::String(t)),
            ),
        ),
    )
}

/// A literal.
pub open spec fn spec_lit(s: Seq<char>, pos: int, depth: nat) -> Parsed<LitView>
    decreases depth, 30int, 0int,
{
    or_else(
        spec_plain_lit(s, pos),
        map_ok(spec_table_lit(s, pos, depth), |table: TableLitView| LitView::Table(table)),
    )
}

} // verus!

verus! {

/// Reads what [`spec_builtin_lit`] describes.
pub fn builtin_lit(src: &Vec<char>, pos: usize) -> (r: Result<(Builtin, usize), ParseError>)
    requires
        pos <= src.len(),
    ensures
        agrees_plain(r, spec_builtin_lit(src@, pos as int)),
        r matches Ok((_, end)) ==> pos < end <= src.len(),
{
    proof {
        reveal(spec_builtin_lit);
    }
    let start = match just(src, pos, '\'') {
        Ok(start) => start,
        Err(e) => {
            return Err(e);
        },
    };
    let end = word_end(src, start);
    if end <= start {
        return Err(unexpected_at(src, start));
    }
    let builtin = if spells(src, start, end, "get") {
        Builtin::Get
    } else if spells(src, start, end, "set") {
        Builtin::SetField
    } else if spells(src, start, end, "getraw") {
        Builtin::GetRaw
    } else if spells(src, start, end, "setraw") {
        Builtin::SetRaw
    } else if spells(src, start, end, "getmeta") {
        Builtin::GetMeta
    } else if spells(src, start, end, "setmeta") {
        Builtin::SetMeta
    } else if spells(src, start, end, "scope") {
        Builtin::Scope
    } else if spells(src, start, end, "arg") {
        Builtin::Arg
    } else if spells(src, start, end, "destructure") {
        Builtin::Destructure
    } else {
        return Err(ParseError { span: Span::new(start, end), kind: ErrorKind::Unexpected });
    };
    Ok((builtin, end))
}

/// Reading one more character changes the count and the value of the
/// digits by that character alone.
pub proof fn lemma_digits_step(s: Seq<char>, start: int, k: int, radix: Radix)
    requires
        0 <= start <= k < s.len(),
    ensures
        digit_count(s.subrange(start, k + 1)) == digit_count(s.subrange(start, k)) + if s[k]
            == '_' {
            0nat
        } else {
            1nat
        },
        digits_value(s.subrange(start, k + 1), radix) == if s[k] == '_' {
            digits_value(s.subrange(start, k), radix)
        } else {
            digits_value(s.subrange(start, k), radix) * radix_value(radix) + digit_value(s[k])
        },
{
    assert(s.subrange(start, k + 1).drop_last() =~= s.subrange(start, k));
    assert(s.subrange(start, k + 1).last() == s[k]);
}

/// The digits read so far spell no more than all the digits do.
pub proof fn lemma_value_grows(s: Seq<char>, start: int, k: int, end: int, radix: Radix)
    requires
        0 <= start <= k <= end <= s.len(),
    ensures
        digits_value(s.subrange(start, k), radix) <= digits_value(s.subrange(start, end), radix),
    decreases end - k,
{
    if k < end {
        lemma_digits_step(s, start, k, radix);
        lemma_value_grows(s, start, k + 1, end, radix);
        let v = digits_value(s.subrange(start, k), radix);
        assert(v * radix_value(radix) >= v) by (nonlinear_arith)
            requires
                radix_value(radix) >= 1,
        ;
    }
}

/// Underscores are ignored: a literal has the value and the number of
/// digits of the literal with one more underscore in it, wherever the
/// underscore stands.
pub proof fn lemma_underscore_ignored(before: Seq<char>, behind: Seq<char>, radix: Radix)
    ensures
        digits_value(before + seq!['_'] + behind, radix) == digits_value(before + behind, radix),
        digit_count(before + seq!['_'] + behind) == digit_count(before + behind),
    decreases behind.len(),
{
    let with = before + seq!['_'] + behind;
    let without = before + behind;
    if behind.len() == 0 {
        assert(with.drop_last() =~= before);
        assert(without =~= before);
    } else {
        lemma_underscore_ignored(before, behind.drop_last(), radix);
        assert(with.drop_last() =~= before + seq!['_'] + behind.drop_last());
        assert(without.drop_last() =~= before + behind.drop_last());
        assert(with.last() == behind.last());
        assert(without.last() == behind.last());
    }
}

pub fn count_digits(src: &Vec<char>, start: usize, end: usize) -> (n: usize)
    requires
        start <= end <= src.len(),
    ensures
        n == digit_count(src@.subrange(start as int, end as int)),
        n <= end - start,
{
    let mut n: usize = 0;
    let mut k = start;
    while k < end
        invariant
            start <= k <= end <= src.len(),
            n == digit_count(src@.subrange(start as int, k as int)),
            n <= k - start,
        decreases end - k,
    {
        proof {
            lemma_digits_step(src@, start as int, k as int, Radix::Dec);
        }
        if char_at(src, k) != '_' {
            n += 1;
        }
        k += 1;
    }
    n
}

/// The number that the digits of `text` spell in the base, if it is no
/// larger than the largest signed 64-bit integer.
pub open spec fn number_value(text: Seq<char>, radix: Radix) -> Option<i64> {
    if digits_value(text, radix) <= i64::MAX {
        Some(digits_value(text, radix) as i64)
    } else {
        None
    }
}

pub fn value_of_digits(src: &Vec<char>, start: usize, end: usize, radix: Radix) -> (value: Option<
    i64,
>)
    requires
        start <= end <= src.len(),
    ensures
        value == number_value(src@.subrange(start as int, end as int), radix),
{
    let mut value: u64 = 0;
    let mut k = start;
    while k < end
        invariant
            start <= k <= end <= src.len(),
            value == digits_value(src@.subrange(start as int, k as int), radix),
            value <= i64::MAX,
        decreases end - k,
    {
        proof {
            lemma_digits_step(src@, start as int, k as int, radix);
            lemma_value_grows(src@, start as int, k + 1, end as int, radix);
        }
        let c = char_at(src, k);
        if c != '_' {
            let digit = value_of_digit(c) as u128;
            let wide = value as u128;
            let next: u128 = match radix {
                Radix::Bin => wide * 2 + digit,
                Radix::Dec => wide * 10 + digit,
                Radix::Hex => wide * 16 + digit,
            };
            if next > 0x7fff_ffff_ffff_ffff {
                return None;
            }
            value = next as u64;
        }
        k += 1;
    }
    Some(value as i64)
}

/// Reads what [`spec_num_lit_str_radix`] describes.
pub fn num_lit_str_radix(src: &Vec<char>, pos: usize, radix: Radix) -> (r: Result<
    ((i64, NumLitStr), usize),
    ParseError,
>)
    requires
        pos <= src.len(),
    ensures
        match r {
            Ok(((value, str), end)) => spec_num_lit_str_radix(src@, pos as int, radix) == Ok::<
                ((i64, NumLitStrView), int),
                ParseError,
            >(((value, str@), end as int)) && pos < end <= src.len(),
            Err(e) => spec_num_lit_str_radix(src@, pos as int, radix) == Err::<
                ((i64, NumLitStrView), int),
                ParseError,
            >(e),
        },
{
    proof {
        reveal(spec_num_lit_str_radix);
    }
    let end = skip(src, pos, CharClass::Digits(radix));
    if end <= pos {
        return Err(unexpected_at(src, pos));
    }
    let count = count_digits(src, pos, end);
    if count == 0 {
        return Err(ParseError { span: Span::new(pos, end), kind: ErrorKind::NoDigits });
    }
    let limit: usize = match radix {
        Radix::Bin => 63,
        Radix::Dec => 19,
        Radix::Hex => 16,
    };
    if count > limit {
        return Err(ParseError { span: Span::new(pos, end), kind: ErrorKind::TooLarge(radix) });
    }
    let value = match value_of_digits(src, pos, end, radix) {
        Some(value) => value,
        None => {
            return Err(
                ParseError { span: Span::new(pos, end), kind: ErrorKind::TooLarge(radix) },
            );
        },
    };
    let text = text_of(src, pos, end);
    let str = match radix {
        Radix::Bin => NumLitStr::Bin(text),
        Radix::Dec => NumLitStr::Dec(text),
        Radix::Hex => NumLitStr::Hex(text),
    };
    Ok(((value, str), end))
}

/// Reads what [`spec_num_lit`] describes.
pub fn num_lit(src: &Vec<char>, pos: usize) -> (r: Result<(NumLit, usize), ParseError>)
    requires
        pos <= src.len(),
    ensures
        agrees(r, spec_num_lit(src@, pos as int)),
        r matches Ok((_, end)) ==> pos < end <= src.len(),
{
    proof {
        reveal(spec_num_lit);
    }
    let zero = at(src, pos, '0');
    let (radix, start) = if zero && at(src, pos + 1, 'b') {
        (Radix::Bin, pos + 2)
    } else if zero && at(src, pos + 1, 'x') {
        (Radix::Hex, pos + 2)
    } else {
        (Radix::Dec, pos)
    };
    match num_lit_str_radix(src, start, radix) {
        Err(e) => Err(e),
        Ok(((value, str), end)) => Ok((NumLit { value, str, span: Span::new(pos, end) }, end)),
    }
}

/// The character with the code point `n`, if `n` is a Unicode scalar
/// value.
///
/// Wraps `char::from_u32`, which gives the character for every scalar
/// value, that is for every number up to `0x10ffff` outside the surrogates
/// `0xd800` to `0xdfff`, and `None` for every other number.
#[verifier::external_body]
pub(crate) fn char_of_code(n: u32) -> (c: Option<char>)
    ensures
        match c {
            Some(c) => is_scalar(n as nat) && c == scalar(n as nat),
            None => !is_scalar(n as nat),
        },
{
    char::from_u32(n)
}

/// A bound on the value of so many hexadecimal digits.
pub open spec fn hex_bound(digits: int) -> nat {
    if digits <= 0 {
        1
    } else if digits == 1 {
        0x10
    } else if digits == 2 {
        0x100
    } else if digits == 3 {
        0x1000
    } else if digits == 4 {
        0x1_0000
    } else if digits == 5 {
        0x10_0000
    } else {
        0x100_0000
    }
}

/// Reads what [`spec_unicode`] describes.
pub fn unicode(src: &Vec<char>, pos: usize) -> (r: Result<(char, usize), ParseError>)
    requires
        pos <= src.len(),
    ensures
        agrees_plain(r, spec_unicode(src@, pos as int)),
        r matches Ok((_, end)) ==> pos < end <= src.len(),
{
    proof {
        reveal(spec_unicode);
    }
    let run = skip(src, pos, CharClass::Hex);
    let end = if run - pos <= 6 {
        run
    } else {
        pos + 6
    };
    if end <= pos {
        return Err(unexpected_at(src, pos));
    }
    proof {
        crate::parser::basic::lemma_scan(src@, pos as int, CharClass::Hex);
    }
    let mut n: u32 = 0;
    let mut k = pos;
    while k < end
        invariant
            pos <= k <= end <= src.len(),
            end <= pos + 6,
            forall|i: int| pos <= i < end ==> crate::parser::basic::in_class(
                #[trigger] src@[i],
                CharClass::Hex,
            ),
            n == digits_value(src@.subrange(pos as int, k as int), Radix::Hex),
            n < hex_bound(k - pos),
        decreases end - k,
    {
        proof {
            lemma_digits_step(src@, pos as int, k as int, Radix::Hex);
        }
        let c = char_at(src, k);
        assert(crate::parser::basic::in_class(c, CharClass::Hex));
        n = n * 16 + value_of_digit(c);
        k += 1;
    }
    match char_of_code(n) {
        None => Err(ParseError { span: Span::new(pos, end), kind: ErrorKind::InvalidCodePoint }),
        Some(c) => {
            match just(src, end, '}') {
                Err(e) => Err(e),
                Ok(close) => Ok((c, close)),
            }
        },
    }
}

/// Reads what [`spec_escape`] describes.
pub fn escape(src: &Vec<char>, pos: usize) -> (r: Result<(StringLitElem, usize), ParseError>)
    requires
        pos < src.len(),
    ensures
        agrees(r, spec_escape(src@, pos as int)),
        r matches Ok((_, end)) ==> pos < end <= src.len(),
{
    proof {
        reveal(spec_escape);
    }
    if pos + 1 < src.len() {
        let c = char_at(src, pos + 1);
        if c == 'u' {
            match just(src, pos + 2, '{') {
                Err(e) => Err(e),
                Ok(start) => match unicode(src, start) {
                    Err(e) => Err(e),
                    Ok((c, end)) => Ok((StringLitElem::Unicode(c), end)),
                },
            }
        } else if c == '\\' {
            Ok((StringLitElem::Backslash, pos + 2))
        } else if c == '"' {
            Ok((StringLitElem::DoubleQuote, pos + 2))
        } else if c == 't' {
            Ok((StringLitElem::Tab, pos + 2))
        } else if c == 'r' {
            Ok((StringLitElem::CarriageReturn, pos + 2))
        } else if c == 'n' {
            Ok((StringLitElem::Newline, pos + 2))
        } else {
            Err(unexpected_at(src, pos + 1))
        }
    } else {
        Err(unexpected_at(src, pos + 1))
    }
}

/// Reads what [`spec_string_lit_elem`] describes.
pub fn string_lit_elem(src: &Vec<char>, pos: usize) -> (r: Result<
    (StringLitElem, usize),
    ParseError,
>)
    requires
        pos <= src.len(),
    ensures
        agrees(r, spec_string_lit_elem(src@, pos as int)),
        r matches Ok((_, end)) ==> pos < end <= src.len(),
{
    proof {
        reveal(spec_string_lit_elem);
    }
    let run = skip(src, pos, CharClass::Plain);
    if pos < run {
        Ok((StringLitElem::Plain(text_of(src, pos, run)), run))
    } else if at(src, pos, '\\') {
        escape(src, pos)
    } else {
        Err(unexpected_at(src, pos))
    }
}

/// Reads what [`spec_string_lit`] describes.
pub fn string_lit(src: &Vec<char>, pos: usize) -> (r: Result<(StringLit, usize), ParseError>)
    requires
        pos <= src.len(),
    ensures
        agrees(r, spec_string_lit(src@, pos as int)),
        r matches Ok((_, end)) ==> pos < end <= src.len(),
{
    proof {
        reveal(spec_string_lit);
    }
    let start = match just(src, pos, '"') {
        Ok(start) => start,
        Err(e) => {
            return Err(e);
        },
    };
    let ghost whole = spec_string_elems(src@, start as int, Seq::empty());
    let mut elems: Vec<StringLitElem> = Vec::new();
    let mut cur = start;
    let mut pending: Option<ParseError> = None;
    assert(elems@.map_values(|elem: StringLitElem| elem@) =~= Seq::empty());
    while pending.is_none()
        invariant
            pos < start <= cur <= src.len(),
            spec_just(src@, pos as int, '"') == Ok::<int, ParseError>(start as int),
            whole == spec_string_elems(src@, start as int, Seq::empty()),
            pending is None ==> whole == spec_string_elems(
                src@,
                cur as int,
                elems@.map_values(|elem: StringLitElem| elem@),
            ),
            pending matches Some(e) ==> whole == (
                elems@.map_values(|elem: StringLitElem| elem@),
                cur as int,
                e,
            ),
        decreases src.len() - cur, if pending is None { 1int } else { 0int },
    {
        let ghost acc = elems@.map_values(|elem: StringLitElem| elem@);
        match string_lit_elem(src, cur) {
            Err(e) => {
                pending = Some(e);
            },
            Ok((elem, end)) => {
                elems.push(elem);
                assert(elems@.map_values(|elem: StringLitElem| elem@) =~= acc.push(elem@));
                cur = end;
            },
        }
    }
    match just(src, cur, '"') {
        Err(e) => match pending {
            Some(pending) => Err(pending.merge(e)),
            None => Err(e),
        },
        Ok(end) => Ok((StringLit { elems, span: Span::new(pos, end) }, end)),
    }
}

} // verus!

verus! {

/// Reads what [`spec_named_elem`] describes.
pub fn named_elem(src: &Vec<char>, pos: usize, depth: usize) -> (r: Result<
    (TableLitElem, usize),
    ParseError,
>)
    requires
        pos <= src.len(),
    ensures
        agrees(r, spec_named_elem(src@, pos as int, depth as nat)),
        r matches Ok((_, end)) ==> pos < end <= src.len(),
    decreases depth, 9int, 0int,
{
    let (name, p1) = match ident(src, pos) {
        Ok(found) => found,
        Err(e) => {
            return Err(e);
        },
    };
    let (s0, p2) = space(src, p1);
    let p3 = match just(src, p2, ':') {
        Ok(end) => end,
        Err(e) => {
            return Err(e);
        },
    };
    let (s1, p4) = space(src, p3);
    let (value, end) = match crate::parser::expr::expr(src, p4, depth) {
        Ok(found) => found,
        Err(e) => {
            return Err(e);
        },
    };
    let elem = TableLitElem::Named { name, s0, s1, value: Box::new(value), span: Span::new(pos, end) };
    assert(elem@ is Named);
    Ok((elem, end))
}

/// Reads what [`spec_table_lit_elem`] describes.
pub fn table_lit_elem(src: &Vec<char>, pos: usize, depth: usize) -> (r: Result<
    (TableLitElem, usize),
    ParseError,
>)
    requires
        pos <= src.len(),
    ensures
        agrees(r, spec_table_lit_elem(src@, pos as int, depth as nat)),
        r matches Ok((_, end)) ==> pos < end <= src.len(),
    decreases depth, 10int, 0int,
{
    let e1 = match named_elem(src, pos, depth) {
        Ok(found) => {
            return Ok(found);
        },
        Err(e) => e,
    };
    if e1.fatal() {
        return Err(e1);
    }
    match crate::parser::expr::expr(src, pos, depth) {
        Ok((value, end)) => {
            let elem = TableLitElem::Positional(Box::new(value));
            assert(elem@ is Positional);
            Ok((elem, end))
        },
        Err(e2) => Err(e1.merge(e2)),
    }
}

/// Reads what [`spec_table_lit`] describes.
pub fn table_lit(src: &Vec<char>, pos: usize, depth: usize) -> (r: Result<
    (TableLit, usize),
    ParseError,
>)
    requires
        pos <= src.len(),
    ensures
        agrees(r, spec_table_lit(src@, pos as int, depth as nat)),
        r matches Ok((_, end)) ==> pos < end <= src.len(),
    decreases depth, 29int, 0int,
{
    let elem = |p: usize| -> (r: Result<(TableLitElem, usize), ParseError>)
        requires
            p <= src.len(),
        ensures
            elem_agrees(
                r,
                spec_table_lit_elem(src@, p as int, depth as nat),
                lit_elem_model(),
                p,
                src@.len(),
            ),
        { table_lit_elem(src, p, depth) };
    match bounded_separated::<TableLitElem, TableLitElemView, _>(
        src,
        pos,
        Bracket::QuoteBrace,
        elem,
        Ghost(lit_elem_parser(src@, depth as nat)),
        Ghost(lit_elem_model()),
    ) {
        Err(e) => Err(e),
        Ok((list, end)) => {
            assert(list@.elems =~= list.view_with(lit_elem_model()).elems);
            Ok((list.table_lit(), end))
        },
    }
}

/// Reads what [`spec_word_lit`] describes.
pub fn word_lit(src: &Vec<char>, pos: usize) -> (r: Result<(Lit, usize), ParseError>)
    requires
        pos <= src.len(),
    ensures
        agrees(r, spec_word_lit(src@, pos as int)),
        r matches Ok((_, end)) ==> pos < end <= src.len(),
{
    proof {
        reveal(spec_word_lit);
    }
    let e1 = match keyword(src, pos, "nil") {
        Ok(end) => {
            let lit = Lit::Nil(Span::new(pos, end));
            assert(lit@ is Nil);
            return Ok((lit, end));
        },
        Err(e) => e,
    };
    if e1.fatal() {
        return Err(e1);
    }
    let e2 = match keyword(src, pos, "true") {
        Ok(end) => {
            let lit = Lit::Bool(true, Span::new(pos, end));
            assert(lit@ is Bool);
            return Ok((lit, end));
        },
        Err(e) => e,
    };
    if e2.fatal() {
        return Err(e2);
    }
    match keyword(src, pos, "false") {
        Ok(end) => {
            let lit = Lit::Bool(false, Span::new(pos, end));
            assert(lit@ is Bool);
            Ok((lit, end))
        },
        Err(e3) => Err(e1.merge(e2.merge(e3))),
    }
}

/// Reads what [`spec_plain_lit`] describes.
pub fn plain_lit(src: &Vec<char>, pos: usize) -> (r: Result<(Lit, usize), ParseError>)
    requires
        pos <= src.len(),
    ensures
        agrees(r, spec_plain_lit(src@, pos as int)),
        r matches Ok((_, end)) ==> pos < end <= src.len(),
{
    proof {
        reveal(spec_plain_lit);
    }
    let e1 = match word_lit(src, pos) {
        Ok(found) => {
            return Ok(found);
        },
        Err(e) => e,
    };
    if e1.fatal() {
        return Err(e1);
    }
    let e2 = match builtin_lit(src, pos) {
        Ok((builtin, end)) => {
            let lit = Lit::Builtin(builtin, Span::new(pos, end));
            assert(lit@ is Builtin);
            return Ok((lit, end));
        },
        Err(e) => e,
    };
    if e2.fatal() {
        return Err(e2);
    }
    let e3 = match num_lit(src, pos) {
        Ok((num, end)) => {
            let lit = Lit::Num(num);
            assert(lit@ is Num);
            return Ok((lit, end));
        },
        Err(e) => e,
    };
    if e3.fatal() {
        return Err(e3);
    }
    match string_lit(src, pos) {
        Ok((string, end)) => Ok((string.lit(), end)),
        Err(e4) => Err(e1.merge(e2.merge(e3.merge(e4)))),
    }
}

/// Reads what [`spec_lit`] describes.
pub fn lit(src: &Vec<char>, pos: usize, depth: usize) -> (r: Result<(Lit, usize), ParseError>)
    requires
        pos <= src.len(),
    ensures
        agrees(r, spec_lit(src@, pos as int, depth as nat)),
        r matches Ok((_, end)) ==> pos < end <= src.len(),
    decreases depth, 30int, 0int,
{
    let e1 = match plain_lit(src, pos) {
        Ok(found) => {
            return Ok(found);
        },
        Err(e) => e,
    };
    if e1.fatal() {
        return Err(e1);
    }
    match table_lit(src, pos, depth) {
        Ok((table, end)) => Ok((table.lit(), end)),
        Err(e2) => Err(e1.merge(e2)),
    }
}

} // verus!
