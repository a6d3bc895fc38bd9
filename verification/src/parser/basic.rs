//! Characters, trivia, identifiers, keywords and bounded separated lists.

use vstd::prelude::*;
use vstd::string::StrSliceExecFns;

use crate::ast::basic::{
    opt_space_view, BoundedSeparated, BoundedSeparatedView, Ident, IdentView, Line, LineView, Space,
    SpaceView,
};
use crate::parser::error::{
    agrees, agrees_pos, unexpected, unexpected_at, ErrorKind, ParseError, Parsed, Radix,
};
use crate::span::Span;

verus! {

/// The classes of characters that the grammar reads in runs.
#[derive(Clone, Copy, Debug, PartialEq, Eq, Structural)]
pub enum CharClass {
    /// Whitespace other than a line break.
    Inline,
    /// What may follow the first character of an identifier.
    Word,
    /// A digit of the base.
    Digit(Radix),
    /// An underscore.
    Underscore,
    /// A digit of the base, or an underscore.
    Digits(Radix),
    /// A hexadecimal digit.
    Hex,
    /// What a string literal may hold without escape.
    Plain,
    /// What a comment may hold: anything but a line break.
    Comment,
}

/// Whether `c` has the Unicode property `White_Space`.
pub open spec fn is_whitespace(c: char) -> bool {
    let n = c as u32;
    ||| 0x09 <= n <= 0x0d
    ||| n == 0x20
    ||| n == 0x85
    ||| n == 0xa0
    ||| n == 0x1680
    ||| 0x2000 <= n <= 0x200a
    ||| n == 0x2028
    ||| n == 0x2029
    ||| n == 0x202f
    ||| n == 0x205f
    ||| n == 0x3000
}

/// Whether `c` is an ASCII letter.
pub open spec fn is_letter(c: char) -> bool {
    ('a' <= c <= 'z') || ('A' <= c <= 'Z')
}

/// Whether `c` is a digit of the base.
pub open spec fn is_digit(c: char, radix: Radix) -> bool {
    match radix {
        Radix::Bin => c == '0' || c == '1',
        Radix::Dec => '0' <= c <= '9',
        Radix::Hex => ('0' <= c <= '9') || ('a' <= c <= 'f') || ('A' <= c <= 'F'),
    }
}

/// The value of a digit, whatever the base.
pub open spec fn digit_value(c: char) -> nat {
    if '0' <= c <= '9' {
        (c as u32 - '0' as u32) as nat
    } else if 'a' <= c <= 'f' {
        (c as u32 - 'a' as u32 + 10) as nat
    } else if 'A' <= c <= 'F' {
        (c as u32 - 'A' as u32 + 10) as nat
    } else {
        0
    }
}

/// Whether an identifier can start with `c`.
pub open spec fn is_word_start(c: char) -> bool {
    is_letter(c) || c == '_'
}

pub open spec fn in_class(c: char, class: CharClass) -> bool {
    match class {
        CharClass::Inline => is_whitespace(c) && c != '\n',
        CharClass::Word => is_letter(c) || is_digit(c, Radix::Dec) || c == '_',
        CharClass::Digit(radix) => is_digit(c, radix),
        CharClass::Underscore => c == '_',
        CharClass::Digits(radix) => is_digit(c, radix) || c == '_',
        CharClass::Hex => is_digit(c, Radix::Hex),
        CharClass::Plain => c != '\\' && c != '"' && c != '\t' && c != '\r' && c != '\n',
        CharClass::Comment => c != '\n',
    }
}

/// The end of the longest run of characters of `class` that starts at
/// `pos`.
pub open spec fn scan(s: Seq<char>, pos: int, class: CharClass) -> int
    decreases s.len() - pos,
{
    if 0 <= pos < s.len() && in_class(s[pos], class) {
        scan(s, pos + 1, class)
    } else {
        pos
    }
}

/// A run ends at or behind its start and within the source, it holds
/// characters of its class only, and it cannot be made longer.
pub proof fn lemma_scan(s: Seq<char>, pos: int, class: CharClass)
    requires
        0 <= pos <= s.len(),
    ensures
        pos <= scan(s, pos, class) <= s.len(),
        forall|i: int| pos <= i < scan(s, pos, class) ==> in_class(#[trigger] s[i], class),
        scan(s, pos, class) < s.len() ==> !in_class(s[scan(s, pos, class)], class),
    decreases s.len() - pos,
{
    if pos < s.len() && in_class(s[pos], class) {
        lemma_scan(s, pos + 1, class);
    }
}

/// The character at `pos`.
pub fn char_at(src: &Vec<char>, pos: usize) -> (c: char)
    requires
        pos < src.len(),
    ensures
        c == src@[pos as int],
{
    src[pos]
}

pub fn whitespace(c: char) -> (r: bool)
    ensures
        r == is_whitespace(c),
{
    let n = c as u32;
    (0x09 <= n && n <= 0x0d) || n == 0x20 || n == 0x85 || n == 0xa0 || n == 0x1680 || (0x2000 <= n
        && n <= 0x200a) || n == 0x2028 || n == 0x2029 || n == 0x202f || n == 0x205f || n == 0x3000
}

pub fn letter(c: char) -> (r: bool)
    ensures
        r == is_letter(c),
{
    ('a' <= c && c <= 'z') || ('A' <= c && c <= 'Z')
}

pub fn digit(c: char, radix: Radix) -> (r: bool)
    ensures
        r == is_digit(c, radix),
{
    match radix {
        Radix::Bin => c == '0' || c == '1',
        Radix::Dec => '0' <= c && c <= '9',
        Radix::Hex => ('0' <= c && c <= '9') || ('a' <= c && c <= 'f') || ('A' <= c && c <= 'F'),
    }
}

pub fn value_of_digit(c: char) -> (v: u32)
    ensures
        v == digit_value(c),
        v < 16,
{
    if '0' <= c && c <= '9' {
        c as u32 - '0' as u32
    } else if 'a' <= c && c <= 'f' {
        c as u32 - 'a' as u32 + 10
    } else if 'A' <= c && c <= 'F' {
        c as u32 - 'A' as u32 + 10
    } else {
        0
    }
}

pub fn class_has(c: char, class: CharClass) -> (r: bool)
    ensures
        r == in_class(c, class),
{
    match class {
        CharClass::Inline => whitespace(c) && c != '\n',
        CharClass::Word => letter(c) || digit(c, Radix::Dec) || c == '_',
        CharClass::Digit(radix) => digit(c, radix),
        CharClass::Underscore => c == '_',
        CharClass::Digits(radix) => digit(c, radix) || c == '_',
        CharClass::Hex => digit(c, Radix::Hex),
        CharClass::Plain => c != '\\' && c != '"' && c != '\t' && c != '\r' && c != '\n',
        CharClass::Comment => c != '\n',
    }
}

/// Skips the longest run of characters of `class` that starts at `pos`.
pub fn skip(src: &Vec<char>, pos: usize, class: CharClass) -> (end: usize)
    requires
        pos <= src.len(),
    ensures
        end == scan(src@, pos as int, class),
        pos <= end <= src.len(),
{
    let mut cur = pos;
    while cur < src.len() && class_has(char_at(src, cur), class)
        invariant
            pos <= cur <= src.len(),
            scan(src@, pos as int, class) == scan(src@, cur as int, class),
        decreases src.len() - cur,
    {
        cur += 1;
    }
    cur
}

/// The character `c` at `pos`.
pub open spec fn spec_just(s: Seq<char>, pos: int, c: char) -> Result<int, ParseError> {
    if 0 <= pos < s.len() && s[pos] == c {
        Ok(pos + 1)
    } else {
        Err(unexpected(s, pos))
    }
}

/// Reads what [`spec_just`] describes.
pub fn just(src: &Vec<char>, pos: usize, c: char) -> (r: Result<usize, ParseError>)
    requires
        pos <= src.len(),
    ensures
        agrees_pos(r, spec_just(src@, pos as int, c)),
        r matches Ok(end) ==> end == pos + 1 && end <= src.len(),
{
    if pos < src.len() && char_at(src, pos) == c {
        Ok(pos + 1)
    } else {
        Err(unexpected_at(src, pos))
    }
}

/// Whether the character at `pos` is `c`.
pub fn at(src: &Vec<char>, pos: usize, c: char) -> (r: bool)
    requires
        pos <= src.len(),
    ensures
        r == (pos < src.len() && src@[pos as int] == c),
{
    pos < src.len() && char_at(src, pos) == c
}

/// The lines of trivia from `pos` on, behind the lines `acc`, and the
/// position behind the last of them. A line is a line break, or a comment
/// from `#` to the line break that ends it, after any whitespace.
pub open spec fn spec_lines(s: Seq<char>, pos: int, acc: Seq<LineView>) -> (Seq<LineView>, int)
    decreases s.len() - pos,
{
    let start = scan(s, pos, CharClass::Inline);
    if pos <= start < s.len() && s[start] == '\n' {
        spec_lines(s, start + 1, acc.push(LineView::Empty))
    } else if pos <= start < s.len() && s[start] == '#' {
        let end = scan(s, start + 1, CharClass::Comment);
        if start < end < s.len() {
            spec_lines(s, end + 1, acc.push(LineView::Comment(s.subrange(start + 1, end))))
        } else {
            (acc, pos)
        }
    } else {
        (acc, pos)
    }
}

/// The trivia from `pos` on: lines, then whitespace up to the next token.
/// Trivia may be empty; reading it never fails.
#[verifier::opaque]
pub open spec fn spec_space(s: Seq<char>, pos: int) -> (SpaceView, int) {
    let lines = spec_lines(s, pos, Seq::empty());
    let end = scan(s, lines.1, CharClass::Inline);
    (SpaceView { lines: lines.0, span: Span::at(pos, end) }, end)
}

/// Adds `c` at the end of `text`.
///
/// Wraps `String::push`, which appends the given character to the end of
/// the string.
#[verifier::external_body]
pub(crate) fn push_char(text: &mut String, c: char)
    ensures
        final(text)@ == old(text)@.push(c),
{
    text.push(c)
}

/// The characters of the source from `start` to `end` as a string.
pub fn text_of(src: &Vec<char>, start: usize, end: usize) -> (text: String)
    requires
        start <= end <= src.len(),
    ensures
        text@ == src@.subrange(start as int, end as int),
{
    let mut text = String::new();
    let mut cur = start;
    while cur < end
        invariant
            start <= cur <= end <= src.len(),
            text@ == src@.subrange(start as int, cur as int),
        decreases end - cur,
    {
        push_char(&mut text, char_at(src, cur));
        assert(text@ =~= src@.subrange(start as int, cur + 1));
        cur += 1;
    }
    text
}

/// Reads what [`spec_space`] describes.
pub fn space(src: &Vec<char>, pos: usize) -> (r: (Space, usize))
    requires
        pos <= src.len(),
    ensures
        (r.0@, r.1 as int) == spec_space(src@, pos as int),
        pos <= r.1 <= src.len(),
{
    proof {
        reveal(spec_space);
    }
    let mut lines: Vec<Line> = Vec::new();
    let mut cur = pos;
    let mut done = false;
    assert(lines@.map_values(|line: Line| line@) =~= Seq::empty());
    while !done
        invariant
            pos <= cur <= src.len(),
            spec_lines(src@, pos as int, Seq::empty()) == spec_lines(
                src@,
                cur as int,
                lines@.map_values(|line: Line| line@),
            ),
            done ==> spec_lines(src@, cur as int, lines@.map_values(|line: Line| line@)) == (
                lines@.map_values(|line: Line| line@),
                cur as int,
            ),
        decreases src.len() - cur, if done { 0int } else { 1int },
    {
        let ghost before = lines@.map_values(|line: Line| line@);
        let start = skip(src, cur, CharClass::Inline);
        if at(src, start, '\n') {
            lines.push(Line::Empty);
            assert(lines@.map_values(|line: Line| line@) =~= before.push(LineView::Empty));
            cur = start + 1;
        } else if at(src, start, '#') {
            let end = skip(src, start + 1, CharClass::Comment);
            if end < src.len() {
                let text = text_of(src, start + 1, end);
                lines.push(Line::Comment(text));
                assert(lines@.map_values(|line: Line| line@) =~= before.push(
                    LineView::Comment(src@.subrange(start + 1, end as int)),
                ));
                cur = end + 1;
            } else {
                done = true;
            }
        } else {
            done = true;
        }
    }
    let end = skip(src, cur, CharClass::Inline);
    (Space { lines, span: Span::new(pos, end) }, end)
}

/// The end of the word that starts at `pos`: letters, digits and
/// underscores behind a letter or an underscore. Where no word starts, the
/// end is `pos`.
pub open spec fn spec_word_end(s: Seq<char>, pos: int) -> int {
    if 0 <= pos < s.len() && is_word_start(s[pos]) {
        scan(s, pos + 1, CharClass::Word)
    } else {
        pos
    }
}

/// Whether `name` is one of the words that no identifier may be.
pub open spec fn is_reserved(name: Seq<char>) -> bool {
    ||| name == "nil"@
    ||| name == "true"@
    ||| name == "false"@
    ||| name == "not"@
    ||| name == "and"@
    ||| name == "or"@
    ||| name == "local"@
    ||| name == "function"@
    ||| name == "module"@
}

/// An identifier: a word that is not reserved.
#[verifier::opaque]
pub open spec fn spec_ident(s: Seq<char>, pos: int) -> Parsed<IdentView> {
    let end = spec_word_end(s, pos);
    if end <= pos {
        Err(unexpected(s, pos))
    } else if is_reserved(s.subrange(pos, end)) {
        Err(ParseError { span: Span::at(pos, end), kind: ErrorKind::ReservedName })
    } else {
        Ok((IdentView { name: s.subrange(pos, end), span: Span::at(pos, end) }, end))
    }
}

/// The keyword `word`: a whole word that spells it.
#[verifier::opaque]
pub open spec fn spec_keyword(s: Seq<char>, pos: int, word: Seq<char>) -> Result<
    int,
    ParseError,
> {
    let end = spec_word_end(s, pos);
    if end <= pos {
        Err(unexpected(s, pos))
    } else if s.subrange(pos, end) == word {
        Ok(end)
    } else {
        Err(ParseError { span: Span::at(pos, end), kind: ErrorKind::Unexpected })
    }
}

/// Reads what [`spec_word_end`] describes.
pub fn word_end(src: &Vec<char>, pos: usize) -> (end: usize)
    requires
        pos <= src.len(),
    ensures
        end == spec_word_end(src@, pos as int),
        pos <= end <= src.len(),
{
    if pos < src.len() {
        let c = char_at(src, pos);
        if letter(c) || c == '_' {
            return skip(src, pos + 1, CharClass::Word);
        }
    }
    pos
}

/// Whether the characters of the source from `start` to `end` spell
/// `word`.
pub fn spells(src: &Vec<char>, start: usize, end: usize, word: &str) -> (r: bool)
    requires
        start <= end <= src.len(),
    ensures
        r == (src@.subrange(start as int, end as int) == word@),
{
    let n = word.unicode_len();
    if end - start != n {
        return false;
    }
    let mut i: usize = 0;
    while i < n
        invariant
            start <= end <= src.len(),
            end - start == n,
            n == word@.len(),
            0 <= i <= n,
            forall|j: int| 0 <= j < i ==> src@[start + j] == word@[j],
        decreases n - i,
    {
        if char_at(src, start + i) != word.get_char(i) {
            assert(src@.subrange(start as int, end as int)[i as int] != word@[i as int]);
            return false;
        }
        i += 1;
    }
    assert(src@.subrange(start as int, end as int) =~= word@);
    true
}

pub fn reserved(src: &Vec<char>, start: usize, end: usize) -> (r: bool)
    requires
        start <= end <= src.len(),
    ensures
        r == is_reserved(src@.subrange(start as int, end as int)),
{
    spells(src, start, end, "nil") || spells(src, start, end, "true") || spells(
        src,
        start,
        end,
        "false",
    ) || spells(src, start, end, "not") || spells(src, start, end, "and") || spells(
        src,
        start,
        end,
        "or",
    ) || spells(src, start, end, "local") || spells(src, start, end, "function") || spells(
        src,
        start,
        end,
        "module",
    )
}

/// Reads what [`spec_ident`] describes.
pub fn ident(src: &Vec<char>, pos: usize) -> (r: Result<(Ident, usize), ParseError>)
    requires
        pos <= src.len(),
    ensures
        agrees(r, spec_ident(src@, pos as int)),
        r matches Ok((_, end)) ==> pos < end <= src.len(),
{
    proof {
        reveal(spec_ident);
    }
    let end = word_end(src, pos);
    if end <= pos {
        Err(unexpected_at(src, pos))
    } else if reserved(src, pos, end) {
        Err(ParseError { span: Span::new(pos, end), kind: ErrorKind::ReservedName })
    } else {
        Ok((Ident { name: text_of(src, pos, end), span: Span::new(pos, end) }, end))
    }
}

/// Reads what [`spec_keyword`] describes.
pub fn keyword(src: &Vec<char>, pos: usize, word: &str) -> (r: Result<usize, ParseError>)
    requires
        pos <= src.len(),
    ensures
        agrees_pos(r, spec_keyword(src@, pos as int, word@)),
        r matches Ok(end) ==> pos < end <= src.len(),
{
    proof {
        reveal(spec_keyword);
    }
    let end = word_end(src, pos);
    if end <= pos {
        Err(unexpected_at(src, pos))
    } else if spells(src, pos, end, word) {
        Ok(end)
    } else {
        Err(ParseError { span: Span::new(pos, end), kind: ErrorKind::Unexpected })
    }
}

/// The keyword `local` and the trivia behind it, if the keyword stands at
/// `pos`.
#[verifier::opaque]
pub open spec fn spec_local(s: Seq<char>, pos: int) -> (Option<SpaceView>, int) {
    match spec_keyword(s, pos, "local"@) {
        Ok(end) => {
            let space = spec_space(s, end);
            (Some(space.0), space.1)
        },
        Err(_) => (None, pos),
    }
}

/// Reads what [`spec_local`] describes.
pub fn local(src: &Vec<char>, pos: usize) -> (r: (Option<Space>, usize))
    requires
        pos <= src.len(),
    ensures
        (opt_space_view(r.0), r.1 as int) == spec_local(src@, pos as int),
        pos <= r.1 <= src.len(),
{
    proof {
        reveal(spec_local);
    }
    match keyword(src, pos, "local") {
        Ok(end) => {
            let (space, end) = space(src, end);
            (Some(space), end)
        },
        Err(_) => (None, pos),
    }
}

} // verus!

verus! {

/// The tokens that bound a list.
#[derive(Clone, Copy, Debug, PartialEq, Eq, Structural)]
pub enum Bracket {
    /// `{` and `}`
    Brace,
    /// `'{` and `}`
    QuoteBrace,
    /// Nothing on either side.
    Bare,
}

/// The token that opens a list.
pub open spec fn spec_open(s: Seq<char>, pos: int, bracket: Bracket) -> Result<int, ParseError> {
    match bracket {
        Bracket::Brace => spec_just(s, pos, '{'),
        Bracket::QuoteBrace => match spec_just(s, pos, '\'') {
            Ok(end) => spec_just(s, end, '{'),
            Err(e) => Err(e),
        },
        Bracket::Bare => Ok(pos),
    }
}

/// The token that closes a list.
pub open spec fn spec_close(s: Seq<char>, pos: int, bracket: Bracket) -> Result<int, ParseError> {
    match bracket {
        Bracket::Brace => spec_just(s, pos, '}'),
        Bracket::QuoteBrace => spec_just(s, pos, '}'),
        Bracket::Bare => Ok(pos),
    }
}

/// What stands between the tokens that bound a list.
pub struct ListBody<V> {
    /// The elements, each between the trivia before and behind it.
    pub elems: Seq<(SpaceView, V, SpaceView)>,
    /// The trivia behind the last separator, where no element follows it.
    pub trailing: Option<SpaceView>,
    /// Where the closing token has to stand.
    pub end: int,
    /// Why no further element could be read, where one was tried.
    pub pending: Option<ParseError>,
}

/// The elements of a list from `pos` on, behind the elements `acc` and the
/// trivia `before`: elements with a `,` between them and, if the list goes
/// on so, behind the last.
///
/// The list ends where no element can be read, or where no `,` follows
/// one. A fatal error of an element is the error of the list.
pub open spec fn spec_list_body<V>(
    s: Seq<char>,
    pos: int,
    elem: spec_fn(int) -> Parsed<V>,
    before: SpaceView,
    acc: Seq<(SpaceView, V, SpaceView)>,
) -> Result<ListBody<V>, ParseError>
    decreases s.len() - pos,
{
    match elem(pos) {
        Err(e) => if e.is_fatal() {
            Err(e)
        } else {
            Ok(ListBody { elems: acc, trailing: Some(before), end: pos, pending: Some(e) })
        },
        Ok((value, end)) => {
            let behind = spec_space(s, end);
            let elems = acc.push((before, value, behind.0));
            let last = ListBody { elems, trailing: None, end: behind.1, pending: None };
            match spec_just(s, behind.1, ',') {
                Err(_) => Ok(last),
                Ok(comma) => {
                    let next = spec_space(s, comma);
                    if pos < next.1 <= s.len() {
                        spec_list_body(s, next.1, elem, next.0, elems)
                    } else {
                        Ok(last)
                    }
                },
            }
        },
    }
}

/// A bounded separated list: the opening token, trivia, the elements, and
/// the closing token. Where the closing token is missing, the error is the
/// furthest of that and of what kept a further element from being read.
#[verifier::opaque]
pub open spec fn spec_bounded_separated<V>(
    s: Seq<char>,
    pos: int,
    bracket: Bracket,
    elem: spec_fn(int) -> Parsed<V>,
) -> Parsed<BoundedSeparatedView<V>> {
    match spec_open(s, pos, bracket) {
        Err(e) => Err(e),
        Ok(open) => {
            let first = spec_space(s, open);
            match spec_list_body(s, first.1, elem, first.0, Seq::empty()) {
                Err(e) => Err(e),
                Ok(body) => match spec_close(s, body.end, bracket) {
                    Ok(end) => Ok(
                        (
                            BoundedSeparatedView {
                                elems: body.elems,
                                trailing: body.trailing,
                                span: Span::at(pos, end),
                            },
                            end,
                        ),
                    ),
                    Err(e) => Err(
                        match body.pending {
                            Some(pending) => pending.furthest(e),
                            None => e,
                        },
                    ),
                },
            }
        },
    }
}

/// Reads what [`spec_open`] describes.
pub fn open(src: &Vec<char>, pos: usize, bracket: Bracket) -> (r: Result<usize, ParseError>)
    requires
        pos <= src.len(),
    ensures
        agrees_pos(r, spec_open(src@, pos as int, bracket)),
        r matches Ok(end) ==> pos <= end <= src.len(),
        r matches Ok(end) ==> bracket != Bracket::Bare ==> pos < end,
{
    match bracket {
        Bracket::Brace => just(src, pos, '{'),
        Bracket::QuoteBrace => match just(src, pos, '\'') {
            Ok(end) => just(src, end, '{'),
            Err(e) => Err(e),
        },
        Bracket::Bare => Ok(pos),
    }
}

/// Reads what [`spec_close`] describes.
pub fn close(src: &Vec<char>, pos: usize, bracket: Bracket) -> (r: Result<usize, ParseError>)
    requires
        pos <= src.len(),
    ensures
        agrees_pos(r, spec_close(src@, pos as int, bracket)),
        r matches Ok(end) ==> pos <= end <= src.len(),
{
    match bracket {
        Bracket::Brace => just(src, pos, '}'),
        Bracket::QuoteBrace => just(src, pos, '}'),
        Bracket::Bare => Ok(pos),
    }
}

/// Whether the result of an element parser is what `expected` says, under
/// the model `model` of an element, and ends behind `pos` within the source.
pub open spec fn elem_agrees<E, V>(
    r: Result<(E, usize), ParseError>,
    expected: Parsed<V>,
    model: spec_fn(E) -> V,
    pos: usize,
    len: nat,
) -> bool {
    match r {
        Ok((value, end)) => expected == Ok::<(V, int), ParseError>((model(value), end as int))
            && pos < end <= len,
        Err(e) => expected == Err::<(V, int), ParseError>(e),
    }
}

/// Parses a bounded separated list whose elements `elem` parses.
///
/// `spec_elem` says what `elem` makes of the source from a position on, and
/// `model` what the model of an element is.
pub fn bounded_separated<E, V, F: Fn(usize) -> Result<(E, usize), ParseError>>(
    src: &Vec<char>,
    pos: usize,
    bracket: Bracket,
    elem: F,
    Ghost(spec_elem): Ghost<spec_fn(int) -> Parsed<V>>,
    Ghost(model): Ghost<spec_fn(E) -> V>,
) -> (r: Result<(BoundedSeparated<E>, usize), ParseError>)
    requires
        pos <= src.len(),
        forall|p: usize| p <= src.len() ==> #[trigger] elem.requires((p,)),
        forall|p: usize, r: Result<(E, usize), ParseError>| #[trigger]
            elem.ensures((p,), r) ==> elem_agrees(r, spec_elem(p as int), model, p, src@.len()),
    ensures
        match r {
            Ok((list, end)) => spec_bounded_separated(src@, pos as int, bracket, spec_elem) == Ok::<
                (BoundedSeparatedView<V>, int),
                ParseError,
            >((list.view_with(model), end as int)) && pos <= end <= src.len() && (bracket
                != Bracket::Bare ==> pos < end),
            Err(e) => spec_bounded_separated(src@, pos as int, bracket, spec_elem) == Err::<
                (BoundedSeparatedView<V>, int),
                ParseError,
            >(e),
        },
{
    proof {
        reveal(spec_bounded_separated);
    }
    let opened = match open(src, pos, bracket) {
        Ok(end) => end,
        Err(e) => {
            return Err(e);
        },
    };
    let (first, start) = space(src, opened);
    let ghost first_view = first@;
    let ghost whole = spec_list_body(src@, start as int, spec_elem, first_view, Seq::empty());
    let mut elems: Vec<(Space, E, Space)> = Vec::new();
    let mut before = first;
    let mut cur = start;
    let mut trailing: Option<Space> = None;
    let mut pending: Option<ParseError> = None;
    let mut done = false;
    let ghost entry_model = |t: (Space, E, Space)| (t.0@, model(t.1), t.2@);
    assert(elems@.map_values(entry_model) =~= Seq::empty());
    while !done
        invariant
            pos <= opened <= start <= cur <= src.len(),
            spec_open(src@, pos as int, bracket) == Ok::<int, ParseError>(opened as int),
            spec_space(src@, opened as int) == (first_view, start as int),
            whole == spec_list_body(src@, start as int, spec_elem, first_view, Seq::empty()),
            forall|p: usize| p <= src.len() ==> #[trigger] elem.requires((p,)),
            forall|p: usize, r: Result<(E, usize), ParseError>| #[trigger]
                elem.ensures((p,), r) ==> elem_agrees(r, spec_elem(p as int), model, p, src@.len()),
            entry_model == |t: (Space, E, Space)| (t.0@, model(t.1), t.2@),
            !done ==> trailing is None && pending is None,
            !done ==> whole == spec_list_body(
                src@,
                cur as int,
                spec_elem,
                before@,
                elems@.map_values(entry_model),
            ),
            done ==> whole == Ok::<ListBody<V>, ParseError>(
                ListBody {
                    elems: elems@.map_values(entry_model),
                    trailing: opt_space_view(trailing),
                    end: cur as int,
                    pending,
                },
            ),
        decreases src.len() - cur, if done { 0int } else { 1int },
    {
        let ghost acc = elems@.map_values(entry_model);
        match elem(cur) {
            Err(e) => {
                if e.fatal() {
                    proof {
                        reveal(spec_bounded_separated);
                    }
                    return Err(e);
                }
                assert(whole == Ok::<ListBody<V>, ParseError>(
                    ListBody { elems: acc, trailing: Some(before@), end: cur as int, pending: Some(e) },
                ));
                trailing = Some(before);
                pending = Some(e);
                before = Space::empty(Span::new(cur, cur));
                done = true;
            },
            Ok((value, end)) => {
                let (behind, next) = space(src, end);
                let ghost entry = (before@, model(value), behind@);
                elems.push((before, value, behind));
                assert(elems@.map_values(entry_model) =~= acc.push(entry));
                match just(src, next, ',') {
                    Err(_) => {
                        assert(whole == Ok::<ListBody<V>, ParseError>(
                            ListBody {
                                elems: acc.push(entry),
                                trailing: None,
                                end: next as int,
                                pending: None,
                            },
                        ));
                        before = Space::empty(Span::new(next, next));
                        cur = next;
                        done = true;
                    },
                    Ok(comma) => {
                        let (space, after) = space(src, comma);
                        before = space;
                        cur = after;
                    },
                }
            },
        }
    }
    match close(src, cur, bracket) {
        Ok(end) => {
            let list = BoundedSeparated { elems, trailing, span: Span::new(pos, end) };
            Ok((list, end))
        },
        Err(e) => Err(
            match pending {
                Some(pending) => pending.merge(e),
                None => e,
            },
        ),
    }
}

} // verus!
