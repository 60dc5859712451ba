//! Facts about UTF-8 encoded text that the tokenizer and spans rely on.

use vstd::prelude::*;
use vstd::string::*;
use vstd::utf8::*;

verus! {

/// The bytes of `bytes` from `at` to the end.
pub open spec fn suffix(bytes: Seq<u8>, at: int) -> Seq<u8> {
    bytes.subrange(at, bytes.len() as int)
}

/// `prefix` is an initial segment of `bytes`.
pub open spec fn starts_with_bytes(bytes: Seq<u8>, prefix: Seq<u8>) -> bool {
    prefix.len() <= bytes.len() && bytes.subrange(0, prefix.len() as int) == prefix
}

/// An offset into the tail of a text is a character boundary of the tail
/// exactly when the same place is a character boundary of the whole text.
pub proof fn lemma_boundary_of_suffix(bytes: Seq<u8>, at: int, index: int)
    requires
        valid_utf8(bytes),
        0 <= at <= index <= bytes.len(),
        is_char_boundary(bytes, at),
    ensures
        valid_utf8(suffix(bytes, at)),
        is_char_boundary(suffix(bytes, at), index - at) <==> is_char_boundary(bytes, index),
{
    valid_utf8_split(bytes, at);
    let tail = suffix(bytes, at);
    if index == bytes.len() {
        is_char_boundary_start_end_of_seq(bytes);
        is_char_boundary_start_end_of_seq(tail);
    } else {
        is_char_boundary_iff_not_is_continuation_byte(bytes, index);
        is_char_boundary_iff_not_is_continuation_byte(tail, index - at);
        assert(tail[index - at] == bytes[index]);
    }
}

/// An offset into the head of a text is a character boundary of the head
/// exactly when it is a character boundary of the whole text.
pub proof fn lemma_boundary_of_prefix(bytes: Seq<u8>, end: int, index: int)
    requires
        valid_utf8(bytes),
        0 <= index <= end <= bytes.len(),
        is_char_boundary(bytes, end),
    ensures
        valid_utf8(bytes.subrange(0, end)),
        is_char_boundary(bytes.subrange(0, end), index) <==> is_char_boundary(bytes, index),
{
    valid_utf8_split(bytes, end);
    let head = bytes.subrange(0, end);
    if index == end {
        is_char_boundary_start_end_of_seq(head);
    } else {
        is_char_boundary_iff_not_is_continuation_byte(bytes, index);
        is_char_boundary_iff_not_is_continuation_byte(head, index);
        assert(head[index] == bytes[index]);
    }
}

/// Where a well-formed text begins with another well-formed text, the end of
/// that beginning falls between two characters.
pub proof fn lemma_prefix_boundary(bytes: Seq<u8>, prefix: Seq<u8>)
    requires
        valid_utf8(bytes),
        valid_utf8(prefix),
        starts_with_bytes(bytes, prefix),
    ensures
        is_char_boundary(bytes, prefix.len() as int),
    decreases prefix.len(),
{
    if prefix.len() > 0 {
        assert(bytes[0] == bytes.subrange(0, prefix.len() as int)[0]);
        let width = length_of_first_scalar(prefix);
        assert(width == length_of_first_scalar(bytes));
        assert(1 <= width <= prefix.len());
        let rest = pop_first_scalar(bytes);
        let rest_prefix = pop_first_scalar(prefix);
        assert(rest.subrange(0, rest_prefix.len() as int) =~= rest_prefix) by {
            assert forall|i: int| 0 <= i < rest_prefix.len() implies rest[i] == rest_prefix[i] by {
                assert(bytes[i + width] == bytes.subrange(0, prefix.len() as int)[i + width]);
            }
        }
        lemma_prefix_boundary(rest, rest_prefix);
    }
}

/// Whether `text` begins with `prefix`, byte for byte.
pub fn starts_with(text: &str, prefix: &str) -> (found: bool)
    ensures
        found == starts_with_bytes(text.spec_bytes(), prefix.spec_bytes()),
{
    let bytes = text.as_bytes();
    let wanted = prefix.as_bytes();
    if wanted.len() > bytes.len() {
        return false;
    }
    let mut i: usize = 0;
    while i < wanted.len()
        invariant
            i <= wanted.len() <= bytes.len(),
            bytes@ == text.spec_bytes(),
            wanted@ == prefix.spec_bytes(),
            forall|j: int| 0 <= j < i ==> bytes@[j] == wanted@[j],
        decreases wanted.len() - i,
    {
        if bytes[i] != wanted[i] {
            proof {
                assert(bytes@.subrange(0, wanted@.len() as int)[i as int] == bytes@[i as int]);
            }
            return false;
        }
        i += 1;
    }
    proof {
        assert(bytes@.subrange(0, wanted@.len() as int) =~= wanted@);
    }
    true
}

/// Length of a text in bytes.
pub fn byte_len(s: &str) -> (n: usize)
    ensures
        n == s.spec_bytes().len(),
{
    s.as_bytes().len()
}

/// The bytes of a string are always valid UTF-8.
pub proof fn lemma_str_bytes_valid(s: &str)
    ensures
        valid_utf8(s.spec_bytes()),
{
    encode_utf8_valid_utf8(s@);
}

} // verus!
