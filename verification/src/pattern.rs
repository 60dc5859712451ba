//! Regular expressions as the tokenizer uses them: matched against the text
//! that is still to be read, and accepted only at its very beginning.

use vstd::prelude::*;
use vstd::string::*;
use vstd::utf8::*;

verus! {

/// The leftmost match of the regular expression `pattern` in `text`, as a pair
/// of byte offsets into the UTF-8 encoding of `text`; `None` where the pattern
/// is not a valid regular expression or matches nowhere.
pub uninterp spec fn regex_match(pattern: Seq<char>, text: Seq<char>) -> Option<(int, int)>;

/// Compiles `pattern` with `regex::Regex::new` and searches `text` with
/// `Regex::find`; a pattern that does not compile matches nothing. Both calls
/// stand in one function because the outcome is named by the text of the
/// pattern, which a compiled expression no longer shows. Nothing here is
/// proved: the contract names the outcome and adds what the crate documents
/// of every match, that its offsets are ordered, lie inside the text and fall
/// on character boundaries.
#[verifier::external_body]
fn first_match(pattern: &str, text: &str) -> (found: Option<(usize, usize)>)
    ensures
        found matches Some((start, end)) ==> {
            &&& regex_match(pattern@, text@) == Some((start as int, end as int))
            &&& start <= end <= text.spec_bytes().len()
            &&& is_char_boundary(text.spec_bytes(), start as int)
            &&& is_char_boundary(text.spec_bytes(), end as int)
        },
        found is None ==> regex_match(pattern@, text@) is None,
{
    match regex::Regex::new(pattern) {
        Ok(compiled) => match compiled.find(text) {
            Some(found) => Some((found.start(), found.end())),
            None => None,
        },
        Err(_) => None,
    }
}

/// What a match is worth to the tokenizer: its length, if it begins at the
/// start of the text and is not empty.
pub open spec fn anchored(found: Option<(int, int)>) -> Option<int> {
    match found {
        Some((start, end)) => if start == 0 && 0 < end {
            Some(end)
        } else {
            None
        },
        None => None,
    }
}

/// Length in bytes of what `pattern` matches at the start of `text`.
pub open spec fn pattern_len(pattern: Seq<char>, text: Seq<char>) -> Option<int> {
    anchored(regex_match(pattern, text))
}

/// Keeps a match only if it begins at offset 0 and is not empty.
pub fn anchored_length(found: Option<(usize, usize)>) -> (len: Option<usize>)
    ensures
        len matches Some(n) ==> anchored(widen(found)) == Some(n as int),
        len is None ==> anchored(widen(found)) is None,
{
    match found {
        Some((start, end)) => if start == 0 && 0 < end {
            Some(end)
        } else {
            None
        },
        None => None,
    }
}

/// A pair of machine offsets as mathematical integers.
pub open spec fn widen(found: Option<(usize, usize)>) -> Option<(int, int)> {
    match found {
        Some((start, end)) => Some((start as int, end as int)),
        None => None,
    }
}

/// Length in bytes of what `pattern` matches at the start of `text`, if it
/// matches there. The length never exceeds the text and ends on a character
/// boundary.
pub fn match_prefix(pattern: &str, text: &str) -> (len: Option<usize>)
    ensures
        len matches Some(n) ==> pattern_len(pattern@, text@) == Some(n as int),
        len is None ==> pattern_len(pattern@, text@) is None,
        len matches Some(n) ==> 0 < n <= text.spec_bytes().len() && is_char_boundary(
            text.spec_bytes(),
            n as int,
        ),
{
    let found = first_match(pattern, text);
    anchored_length(found)
}

} // verus!
