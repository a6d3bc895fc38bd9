use vstd::prelude::*;
use vstd::string::StrSliceExecFns;

use crate::parse::boolean::{bool, spec_bool};
use crate::parse::integer::{integer, spec_integer, NoMatch};
use crate::parser::basic::{at, char_at};
use crate::span::stream_from_str;

verus! {

/// A value: a boolean, an integer, or a table of values by values.
///
/// A table holds its entries as pairs in a vector: a value that holds a
/// table has no hash, so it cannot be the key of a hash map.
#[derive(Debug)]
pub enum Value {
    Bool(bool),
    Int(i64),
    Table(Vec<(Value, Value)>),
}

/// The model of a [`Value`].
pub enum ValueView {
    Bool(bool),
    Int(i64),
    Table(Seq<(ValueView, ValueView)>),
}

impl Value {
    /// The model of the value: the same value over sequences.
    pub open spec fn model(self) -> ValueView
        decreases self,
    {
        match self {
            Value::Bool(b) => ValueView::Bool(b),
            Value::Int(i) => ValueView::Int(i),
            Value::Table(entries) => ValueView::Table(
                Seq::new(
                    entries.len() as nat,
                    |i: int|
                        if 0 <= i < entries.len() {
                            (entries[i].0.model(), entries[i].1.model())
                        } else {
                            arbitrary()
                        },
                ),
            ),
        }
    }
}

impl View for Value {
    type V = ValueView;

    open spec fn view(&self) -> ValueView {
        self.model()
    }
}

/// Whether `c` is a space, a tab, a carriage return or a line break.
pub open spec fn is_blank(c: char) -> bool {
    c == ' ' || c == '\t' || c == '\r' || c == '\n'
}

/// The end of the blanks from `pos` on.
pub open spec fn blanks_end(s: Seq<char>, pos: int) -> int
    decreases s.len() - pos,
{
    if 0 <= pos < s.len() && is_blank(s[pos]) {
        blanks_end(s, pos + 1)
    } else {
        pos
    }
}

/// Where the table that the text starts with ends: `(*)`, with any blanks
/// before either parenthesis.
pub open spec fn spec_table(s: Seq<char>) -> Option<int> {
    let open = blanks_end(s, 0);
    let close = blanks_end(s, open + 2);
    if 0 <= open && open + 1 < s.len() && s[open] == '(' && s[open + 1] == '*' && open + 2 <= close
        < s.len() && s[close] == ')' {
        Some(close + 1)
    } else {
        None
    }
}

/// The value that the text starts with, and where it ends: a boolean, else
/// an integer, else a table, which is empty.
pub open spec fn spec_value(s: Seq<char>) -> Option<(ValueView, int)> {
    if let Some((b, end)) = spec_bool(s) {
        Some((ValueView::Bool(b), end))
    } else if let Some((i, end)) = spec_integer(s) {
        Some((ValueView::Int(i), end))
    } else if let Some(end) = spec_table(s) {
        Some((ValueView::Table(Seq::empty()), end))
    } else {
        None
    }
}

/// Skips the blanks from `pos` on.
pub fn skip_blanks(src: &Vec<char>, pos: usize) -> (end: usize)
    requires
        pos <= src.len(),
    ensures
        end == blanks_end(src@, pos as int),
        pos <= end <= src.len(),
{
    let mut cur = pos;
    while cur < src.len() && blank(char_at(src, cur))
        invariant
            pos <= cur <= src.len(),
            blanks_end(src@, pos as int) == blanks_end(src@, cur as int),
        decreases src.len() - cur,
    {
        cur += 1;
    }
    cur
}

/// Whether `c` is a space, a tab, a carriage return or a line break.
pub fn blank(c: char) -> (r: bool)
    ensures
        r == is_blank(c),
{
    c == ' ' || c == '\t' || c == '\r' || c == '\n'
}

/// Reads what [`spec_table`] describes, and gives the rest of the text with
/// the empty table.
pub fn table(input: &str) -> (r: Result<(&str, Vec<(Value, Value)>), NoMatch>)
    ensures
        match r {
            Ok((rest, entries)) => spec_table(input@) matches Some(end) && 0 <= end <= input@.len()
                && rest@ == input@.subrange(end, input@.len() as int) && entries@.len() == 0,
            Err(_) => spec_table(input@) is None,
        },
{
    let src = stream_from_str(input);
    let open = skip_blanks(&src, 0);
    if !(at(&src, open, '(') && at(&src, open + 1, '*')) {
        return Err(NoMatch);
    }
    let close = skip_blanks(&src, open + 2);
    if !at(&src, close, ')') {
        return Err(NoMatch);
    }
    Ok((input.substring_char(close + 1, src.len()), Vec::new()))
}

/// Reads what [`spec_value`] describes, and gives the rest of the text with
/// the value.
pub fn value(input: &str) -> (r: Result<(&str, Value), NoMatch>)
    ensures
        match r {
            Ok((rest, value)) => spec_value(input@) matches Some((v, end)) && v == value@ && 0
                <= end <= input@.len() && rest@ == input@.subrange(end, input@.len() as int),
            Err(_) => spec_value(input@) is None,
        },
{
    if let Ok((rest, b)) = bool(input) {
        let value = Value::Bool(b);
        assert(value@ is Bool);
        return Ok((rest, value));
    }
    if let Ok((rest, i)) = integer(input) {
        let value = Value::Int(i);
        assert(value@ is Int);
        return Ok((rest, value));
    }
    match table(input) {
        Ok((rest, entries)) => {
            let value = Value::Table(entries);
            assert(value@ matches ValueView::Table(seq) && seq =~= Seq::empty());
            Ok((rest, value))
        },
        Err(e) => Err(e),
    }
}

} // verus!
