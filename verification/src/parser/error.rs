//! Parse errors.

use vstd::prelude::*;

use crate::span::Span;

verus! {

/// The base of a number literal.
#[derive(Clone, Copy, Debug, PartialEq, Eq, Structural)]
pub enum Radix {
    Bin,
    Dec,
    Hex,
}

/// What went wrong.
#[derive(Clone, Copy, Debug, PartialEq, Eq, Structural)]
pub enum ErrorKind {
    /// The input does not go on as the grammar asks.
    Unexpected,
    /// A reserved word stands where an identifier is asked for.
    ReservedName,
    /// A number literal holds underscores only.
    NoDigits,
    /// A number literal is larger than the largest signed 64-bit integer.
    TooLarge(Radix),
    /// An escape `\u{..}` names no Unicode scalar value.
    InvalidCodePoint,
    /// Expressions are nested more deeply than the parser was allowed to
    /// follow.
    TooDeep,
}

impl ErrorKind {
    pub open spec fn message_spec(self) -> Seq<char> {
        match self {
            ErrorKind::Unexpected => "unexpected input"@,
            ErrorKind::ReservedName => "identifier uses reserved name"@,
            ErrorKind::NoDigits => "integer literal needs to contain at least one digit"@,
            ErrorKind::TooLarge(Radix::Bin) =>
                "integer literal too large, the maximum value is 0b111111111111111111111111111111111111111111111111111111111111111"@,
            ErrorKind::TooLarge(Radix::Dec) =>
                "integer literal too large, the maximum value is 9223372036854775807"@,
            ErrorKind::TooLarge(Radix::Hex) =>
                "integer literal too large, the maximum value is 0x7fffffffffffffff"@,
            ErrorKind::InvalidCodePoint => "not a valid unicode code point"@,
            ErrorKind::TooDeep => "nesting too deep"@,
        }
    }

    /// The message for a reader of the error.
    pub fn message(self) -> (text: &'static str)
        ensures
            text@ == self.message_spec(),
    {
        match self {
            ErrorKind::Unexpected => "unexpected input",
            ErrorKind::ReservedName => "identifier uses reserved name",
            ErrorKind::NoDigits => "integer literal needs to contain at least one digit",
            ErrorKind::TooLarge(Radix::Bin) =>
                "integer literal too large, the maximum value is 0b111111111111111111111111111111111111111111111111111111111111111",
            ErrorKind::TooLarge(Radix::Dec) =>
                "integer literal too large, the maximum value is 9223372036854775807",
            ErrorKind::TooLarge(Radix::Hex) =>
                "integer literal too large, the maximum value is 0x7fffffffffffffff",
            ErrorKind::InvalidCodePoint => "not a valid unicode code point",
            ErrorKind::TooDeep => "nesting too deep",
        }
    }
}

/// A parse error: what went wrong, and where.
#[derive(Clone, Copy, Debug, PartialEq, Eq, Structural)]
pub struct ParseError {
    pub span: Span,
    pub kind: ErrorKind,
}

/// What a parser makes of the source from one position on: a value and the
/// position behind it, or an error.
pub type Parsed<T> = Result<(T, int), ParseError>;

impl ParseError {
    /// An error that ends the whole parse: no other alternative is tried
    /// after it.
    pub open spec fn is_fatal(self) -> bool {
        self.kind is TooDeep
    }

    /// Of two errors of two alternatives, the one to report: a fatal one
    /// first; else the one that ends further into the source; of two that
    /// end at the same place, the one that says more than `Unexpected`;
    /// else the first.
    pub open spec fn furthest(self, other: ParseError) -> ParseError {
        if self.is_fatal() {
            self
        } else if other.is_fatal() {
            other
        } else if other.span.hi() > self.span.hi() {
            other
        } else if other.span.hi() == self.span.hi() && self.kind is Unexpected
            && !(other.kind is Unexpected) {
            other
        } else {
            self
        }
    }

    pub fn vague(&self) -> (vague: bool)
        ensures
            vague == (self.kind is Unexpected),
    {
        match self.kind {
            ErrorKind::Unexpected => true,
            _ => false,
        }
    }

    pub fn fatal(&self) -> (fatal: bool)
        ensures
            fatal == self.is_fatal(),
    {
        match self.kind {
            ErrorKind::TooDeep => true,
            _ => false,
        }
    }

    pub fn merge(self, other: ParseError) -> (merged: ParseError)
        ensures
            merged == self.furthest(other),
    {
        if self.fatal() {
            self
        } else if other.fatal() {
            other
        } else if other.span.range().end > self.span.range().end {
            other
        } else if other.span.range().end == self.span.range().end && self.vague() && !other.vague() {
            other
        } else {
            self
        }
    }

    /// The message for a reader of the error.
    pub fn message(&self) -> (text: &'static str)
        ensures
            text@ == self.kind.message_spec(),
    {
        self.kind.message()
    }
}

/// The error for input that does not go on as the grammar asks: it covers
/// the character at `pos`, or nothing at the end of the source.
pub open spec fn unexpected(s: Seq<char>, pos: int) -> ParseError {
    ParseError {
        span: if pos < s.len() {
            Span::at(pos, pos + 1)
        } else {
            Span::at(pos, pos)
        },
        kind: ErrorKind::Unexpected,
    }
}

/// The first alternative that succeeds. The second is not tried after a
/// fatal error of the first. Where both fail, the error is the furthest of
/// the two.
pub open spec fn or_else<T>(first: Parsed<T>, second: Parsed<T>) -> Parsed<T> {
    match first {
        Ok(_) => first,
        Err(e1) => if e1.is_fatal() {
            first
        } else {
            match second {
                Ok(_) => second,
                Err(e2) => Err(e1.furthest(e2)),
            }
        },
    }
}

/// The result with its value mapped by `f`.
pub open spec fn map_ok<A, B>(r: Parsed<A>, f: spec_fn(A) -> B) -> Parsed<B> {
    match r {
        Ok((a, end)) => Ok((f(a), end)),
        Err(e) => Err(e),
    }
}

/// Whether the result of a parser is what the grammar says: the view of the
/// value and the same position, or the same error.
pub open spec fn agrees<T: View>(r: Result<(T, usize), ParseError>, expected: Parsed<T::V>) -> bool {
    match r {
        Ok((value, end)) => expected == Ok::<(T::V, int), ParseError>((value@, end as int)),
        Err(e) => expected == Err::<(T::V, int), ParseError>(e),
    }
}

/// Whether the result of a parser that yields a position only is what the
/// grammar says.
pub open spec fn agrees_pos(r: Result<usize, ParseError>, expected: Result<int, ParseError>)
    -> bool {
    match r {
        Ok(end) => expected == Ok::<int, ParseError>(end as int),
        Err(e) => expected == Err::<int, ParseError>(e),
    }
}

pub fn unexpected_at(src: &Vec<char>, pos: usize) -> (e: ParseError)
    requires
        pos <= src.len(),
    ensures
        e == unexpected(src@, pos as int),
{
    if pos < src.len() {
        ParseError { span: Span::new(pos, pos + 1), kind: ErrorKind::Unexpected }
    } else {
        ParseError { span: Span::new(pos, pos), kind: ErrorKind::Unexpected }
    }
}

} // verus!

verus! {

/// Whether the result of a parser that yields a plain value is what the
/// grammar says.
pub open spec fn agrees_plain<T>(r: Result<(T, usize), ParseError>, expected: Parsed<T>) -> bool {
    match r {
        Ok((value, end)) => expected == Ok::<(T, int), ParseError>((value, end as int)),
        Err(e) => expected == Err::<(T, int), ParseError>(e),
    }
}

} // verus!
