use vstd::prelude::*;
use vstd::string::StrSliceExecFns;

use crate::parser::basic::{at, scan, skip, CharClass};
use crate::parser::error::Radix;
use crate::parser::lit::{number_value, value_of_digits};
use crate::span::stream_from_str;

verus! {

/// The text does not start with what the parser reads, or the number in it
/// does not fit into a signed 64-bit integer.
#[derive(Clone, Copy, Debug, PartialEq, Eq, Structural)]
pub struct NoMatch;

/// The end of the group of digits at `pos`: any number of underscores, then
/// at least one digit of the base. Where no group stands, the end is `pos`.
pub open spec fn group_end(s: Seq<char>, pos: int, radix: Radix) -> int {
    let digits = scan(s, pos, CharClass::Underscore);
    let end = scan(s, digits, CharClass::Digit(radix));
    if digits < end {
        end
    } else {
        pos
    }
}

/// The end of the groups of digits from `pos` on.
pub open spec fn groups_end(s: Seq<char>, pos: int, radix: Radix) -> int
    decreases s.len() - pos,
{
    let end = group_end(s, pos, radix);
    if pos < end <= s.len() {
        groups_end(s, end, radix)
    } else {
        pos
    }
}

/// A number whose digits end at `end`, if it fits.
pub open spec fn number(s: Seq<char>, start: int, end: int, radix: Radix) -> Option<(i64, int)> {
    match number_value(s.subrange(start, end), radix) {
        Some(value) => Some((value, end)),
        None => None,
    }
}

/// The decimal number that the text starts with, and where it ends: digits
/// with underscores between them. An underscore that no digit follows is
/// not part of the number. A number that does not fit is no number.
pub open spec fn spec_dec(s: Seq<char>) -> Option<(i64, int)> {
    let first = scan(s, 0, CharClass::Digit(Radix::Dec));
    if first <= 0 {
        None
    } else {
        number(s, 0, groups_end(s, first, Radix::Dec), Radix::Dec)
    }
}

/// The number behind a prefix `0` and `lower` or `upper`: groups of digits
/// of the base, each behind any number of underscores.
pub open spec fn spec_prefixed(s: Seq<char>, radix: Radix, lower: char, upper: char) -> Option<
    (i64, int),
> {
    if s.len() >= 2 && s[0] == '0' && (s[1] == lower || s[1] == upper) {
        let first = group_end(s, 2, radix);
        if first <= 2 {
            None
        } else {
            number(s, 2, groups_end(s, first, radix), radix)
        }
    } else {
        None
    }
}

/// The hexadecimal number that the text starts with: `0x` or `0X`, then
/// groups of digits.
pub open spec fn spec_hex(s: Seq<char>) -> Option<(i64, int)> {
    spec_prefixed(s, Radix::Hex, 'x', 'X')
}

/// The binary number that the text starts with: `0b` or `0B`, then groups
/// of digits.
pub open spec fn spec_bin(s: Seq<char>) -> Option<(i64, int)> {
    spec_prefixed(s, Radix::Bin, 'b', 'B')
}

/// The number that the text starts with: binary, else hexadecimal, else
/// decimal.
pub open spec fn spec_unsigned(s: Seq<char>) -> Option<(i64, int)> {
    if spec_bin(s) is Some {
        spec_bin(s)
    } else if spec_hex(s) is Some {
        spec_hex(s)
    } else {
        spec_dec(s)
    }
}

/// Whether the text starts with a sign.
pub open spec fn has_sign(s: Seq<char>) -> bool {
    s.len() > 0 && (s[0] == '+' || s[0] == '-')
}

/// The number `inner`, read behind the sign that `s` starts with, if it
/// starts with one: negated behind `-`.
pub open spec fn with_sign(s: Seq<char>, inner: Option<(i64, int)>) -> Option<(i64, int)> {
    match inner {
        None => None,
        Some((value, end)) => if !has_sign(s) {
            Some((value, end))
        } else if s[0] == '-' {
            Some(((-value) as i64, end + 1))
        } else {
            Some((value, end + 1))
        },
    }
}

/// The text behind the sign, or the whole text where it starts with none.
pub open spec fn unsigned_part(s: Seq<char>) -> Seq<char> {
    if has_sign(s) {
        s.subrange(1, s.len() as int)
    } else {
        s
    }
}

/// The integer that the text starts with: an optional sign, then a binary,
/// hexadecimal or decimal number.
pub open spec fn spec_integer(s: Seq<char>) -> Option<(i64, int)> {
    with_sign(s, spec_unsigned(unsigned_part(s)))
}

/// Whether a parser's result on `input` is what `expected` says: the value,
/// and the rest of the text behind the end.
pub open spec fn matches_spec(
    r: Result<(&str, i64), NoMatch>,
    input: Seq<char>,
    expected: Option<(i64, int)>,
) -> bool {
    match r {
        Ok((rest, value)) => expected matches Some((v, end)) && v == value && 0 <= end
            <= input.len() && rest@ == input.subrange(end, input.len() as int),
        Err(_) => expected is None,
    }
}

/// The end of the groups of digits from `pos` on.
pub fn skip_groups(src: &Vec<char>, pos: usize, radix: Radix) -> (end: usize)
    requires
        pos <= src.len(),
    ensures
        end == groups_end(src@, pos as int, radix),
        pos <= end <= src.len(),
{
    let mut cur = pos;
    let mut done = false;
    while !done
        invariant
            pos <= cur <= src.len(),
            groups_end(src@, pos as int, radix) == groups_end(src@, cur as int, radix),
            done ==> groups_end(src@, cur as int, radix) == cur,
        decreases src.len() - cur, if done { 0int } else { 1int },
    {
        let end = skip_group(src, cur, radix);
        if end > cur {
            cur = end;
        } else {
            done = true;
        }
    }
    cur
}

/// The end of the group of digits at `pos`.
pub fn skip_group(src: &Vec<char>, pos: usize, radix: Radix) -> (end: usize)
    requires
        pos <= src.len(),
    ensures
        end == group_end(src@, pos as int, radix),
        pos <= end <= src.len(),
{
    let digits = skip(src, pos, CharClass::Underscore);
    let end = skip(src, digits, CharClass::Digit(radix));
    if digits < end {
        end
    } else {
        pos
    }
}

fn finish<'a>(input: &'a str, src: &Vec<char>, start: usize, end: usize, radix: Radix) -> (r:
    Result<(&'a str, i64), NoMatch>)
    requires
        src@ == input@,
        start <= end <= src.len(),
    ensures
        matches_spec(r, input@, number(input@, start as int, end as int, radix)),
{
    match value_of_digits(src, start, end, radix) {
        Some(value) => Ok((input.substring_char(end, src.len()), value)),
        None => Err(NoMatch),
    }
}

/// Reads what [`spec_dec`] describes, and gives the rest of the text with it.
pub fn dec(input: &str) -> (r: Result<(&str, i64), NoMatch>)
    ensures
        matches_spec(r, input@, spec_dec(input@)),
{
    let src = stream_from_str(input);
    let first = skip(&src, 0, CharClass::Digit(Radix::Dec));
    if first == 0 {
        return Err(NoMatch);
    }
    let end = skip_groups(&src, first, Radix::Dec);
    finish(input, &src, 0, end, Radix::Dec)
}

/// Reads what [`spec_prefixed`] describes, and gives the rest of the text with it.
fn prefixed<'a>(input: &'a str, radix: Radix, lower: char, upper: char) -> (r: Result<
    (&'a str, i64),
    NoMatch,
>)
    ensures
        matches_spec(r, input@, spec_prefixed(input@, radix, lower, upper)),
{
    let src = stream_from_str(input);
    if !(at(&src, 0, '0') && (at(&src, 1, lower) || at(&src, 1, upper))) {
        return Err(NoMatch);
    }
    let first = skip_group(&src, 2, radix);
    if first <= 2 {
        return Err(NoMatch);
    }
    let end = skip_groups(&src, first, radix);
    finish(input, &src, 2, end, radix)
}

/// Reads what [`spec_hex`] describes, and gives the rest of the text with it.
pub fn hex(input: &str) -> (r: Result<(&str, i64), NoMatch>)
    ensures
        matches_spec(r, input@, spec_hex(input@)),
{
    prefixed(input, Radix::Hex, 'x', 'X')
}

/// Reads what [`spec_bin`] describes, and gives the rest of the text with it.
pub fn bin(input: &str) -> (r: Result<(&str, i64), NoMatch>)
    ensures
        matches_spec(r, input@, spec_bin(input@)),
{
    prefixed(input, Radix::Bin, 'b', 'B')
}

/// The number that `parser` reads behind an optional sign: negated behind
/// `-`.
pub fn signed<F: Fn(&str) -> Result<(&str, i64), NoMatch>>(parser: F, input: &str) -> (r: Result<
    (&str, i64),
    NoMatch,
>)
    requires
        forall|text: &str| #[trigger] parser.requires((text,)),
        forall|text: &str, r: Result<(&str, i64), NoMatch>| #[trigger]
            parser.ensures((text,), r) ==> (r matches Ok((_, value)) ==> value > i64::MIN),
    ensures
        exists|text: &str, inner: Result<(&str, i64), NoMatch>|
            text@ == unsigned_part(input@) && parser.ensures((text,), inner) && match inner {
                Err(_) => r is Err,
                Ok((rest, value)) => r matches Ok((left, signed)) && left@ == rest@ && signed
                    == if has_sign(input@) && input@[0] == '-' {
                    -value
                } else {
                    value as int
                },
            },
{
    let src = stream_from_str(input);
    let negative = at(&src, 0, '-');
    let text = if negative || at(&src, 0, '+') {
        input.substring_char(1, src.len())
    } else {
        input
    };
    let inner = parser(text);
    assert(text@ == unsigned_part(input@));
    match inner {
        Err(e) => Err(e),
        Ok((rest, value)) => if negative {
            Ok((rest, -value))
        } else {
            Ok((rest, value))
        },
    }
}

/// Reads what [`spec_unsigned`] describes, and gives the rest of the text with it.
fn unsigned(input: &str) -> (r: Result<(&str, i64), NoMatch>)
    ensures
        matches_spec(r, input@, spec_unsigned(input@)),
{
    match bin(input) {
        Ok(found) => Ok(found),
        Err(_) => match hex(input) {
            Ok(found) => Ok(found),
            Err(_) => dec(input),
        },
    }
}

/// Reads what [`spec_integer`] describes, and gives the rest of the text with it.
pub fn integer(input: &str) -> (r: Result<(&str, i64), NoMatch>)
    ensures
        matches_spec(r, input@, spec_integer(input@)),
{
    let src = stream_from_str(input);
    let negative = at(&src, 0, '-');
    let text = if negative || at(&src, 0, '+') {
        input.substring_char(1, src.len())
    } else {
        input
    };
    match unsigned(text) {
        Err(e) => Err(e),
        Ok((rest, value)) => {
            assert(rest@ =~= input@.subrange(
                input@.len() - rest@.len(),
                input@.len() as int,
            ));
            if negative {
                Ok((rest, -value))
            } else {
                Ok((rest, value))
            }
        },
    }
}

} // verus!
