use vstd::prelude::*;
use vstd::string::StrSliceExecFns;

use crate::parse::integer::NoMatch;
use crate::parser::basic::char_at;
use crate::span::stream_from_str;

verus! {

/// Whether `s` starts with `word`.
pub open spec fn starts_with(s: Seq<char>, word: Seq<char>) -> bool {
    word.len() <= s.len() && s.subrange(0, word.len() as int) == word
}

/// The boolean that the text starts with, and where it ends: `true` or
/// `false`, whatever follows.
pub open spec fn spec_bool(s: Seq<char>) -> Option<(bool, int)> {
    if starts_with(s, "true"@) {
        Some((true, "true"@.len() as int))
    } else if starts_with(s, "false"@) {
        Some((false, "false"@.len() as int))
    } else {
        None
    }
}

/// Whether the text starts with `word`.
pub fn begins(src: &Vec<char>, word: &str) -> (r: bool)
    ensures
        r == starts_with(src@, word@),
{
    let n = word.unicode_len();
    if src.len() < n {
        return false;
    }
    let mut i: usize = 0;
    while i < n
        invariant
            n == word@.len(),
            n <= src.len(),
            0 <= i <= n,
            forall|j: int| 0 <= j < i ==> src@[j] == word@[j],
        decreases n - i,
    {
        if char_at(src, i) != word.get_char(i) {
            assert(src@.subrange(0, n as int)[i as int] != word@[i as int]);
            return false;
        }
        i += 1;
    }
    assert(src@.subrange(0, n as int) =~= word@);
    true
}

/// Reads what [`spec_bool`] describes, and gives the rest of the text with it.
pub fn bool(input: &str) -> (r: Result<(&str, bool), NoMatch>)
    ensures
        match r {
            Ok((rest, value)) => spec_bool(input@) matches Some((v, end)) && v == value && 0 <= end
                <= input@.len() && rest@ == input@.subrange(end, input@.len() as int),
            Err(_) => spec_bool(input@) is None,
        },
{
    let src = stream_from_str(input);
    if begins(&src, "true") {
        let n = "true".unicode_len();
        Ok((input.substring_char(n, src.len()), true))
    } else if begins(&src, "false") {
        let n = "false".unicode_len();
        Ok((input.substring_char(n, src.len()), false))
    } else {
        Err(NoMatch)
    }
}

} // verus!
