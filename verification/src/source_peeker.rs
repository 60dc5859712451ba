//! Looking ahead in a source text without moving a cursor.

use crate::text::{
    byte_len, lemma_boundary_of_suffix, lemma_str_bytes_valid, starts_with, starts_with_bytes,
    suffix,
};
use vstd::prelude::*;
use vstd::string::*;
use vstd::utf8::*;

verus! {

/// Where `byte` stands first in `bytes`, if it stands there at all.
pub open spec fn first_index_of(bytes: Seq<u8>, byte: u8) -> Option<int> {
    if exists|i: int| 0 <= i < bytes.len() && bytes[i] == byte {
        Some(choose|i: int| is_first_index_of(bytes, byte, i))
    } else {
        None
    }
}

/// `byte` stands at `index` in `bytes` and nowhere before.
pub open spec fn is_first_index_of(bytes: Seq<u8>, byte: u8, index: int) -> bool {
    &&& 0 <= index < bytes.len()
    &&& bytes[index] == byte
    &&& forall|j: int| 0 <= j < index ==> bytes[j] != byte
}

/// An offset at which a text can be cut: a character boundary inside the
/// text, or any offset from its end on.
pub open spec fn can_cut(bytes: Seq<u8>, offset: int) -> bool {
    offset < bytes.len() ==> is_char_boundary(bytes, offset)
}

/// A source text to look into.
pub struct SourcePeeker<'a> {
    source: &'a str,
}

impl<'a> SourcePeeker<'a> {
    /// The bytes of the source.
    pub closed spec fn bytes(&self) -> Seq<u8> {
        self.source.spec_bytes()
    }

    /// A peeker into `source`.
    pub fn new(source: &'a str) -> (peeker: Self)
        ensures
            peeker.bytes() == source.spec_bytes(),
    {
        Self { source }
    }

    /// The source from `offset` up to and including the first `until_char`,
    /// or to its end where there is none; nothing from the end of the source
    /// on.
    pub fn until(&self, offset: usize, until_char: char) -> (piece: Option<&'a str>)
        requires
            can_cut(self.bytes(), offset as int),
            (until_char as u32) < 128,
        ensures
            piece is Some <==> offset < self.bytes().len(),
            piece matches Some(p) ==> p.spec_bytes() == match first_index_of(
                suffix(self.bytes(), offset as int),
                until_char as u8,
            ) {
                Some(index) => self.bytes().subrange(offset as int, offset + index + 1),
                None => suffix(self.bytes(), offset as int),
            },
    {
        if offset >= byte_len(self.source) {
            return None;
        }
        proof {
            lemma_str_bytes_valid(self.source);
        }
        let (_, offsetted) = self.source.split_at(offset);
        let wanted = until_char as u8;
        let bytes = offsetted.as_bytes();
        let ghost rest = suffix(self.bytes(), offset as int);
        let mut i: usize = 0;
        while i < bytes.len()
            invariant
                i <= bytes.len(),
                bytes@ == rest,
                offsetted.spec_bytes() == rest,
                rest == suffix(self.bytes(), offset as int),
                offset < self.bytes().len(),
                wanted == until_char as u8,
                wanted < 128,
                forall|j: int| 0 <= j < i ==> rest[j] != wanted,
            decreases bytes.len() - i,
        {
            if bytes[i] == wanted {
                proof {
                    lemma_str_bytes_valid(offsetted);
                    assert(is_first_index_of(rest, wanted, i as int));
                    let chosen = choose|k: int| is_first_index_of(rest, wanted, k);
                    assert(chosen == i) by {
                        if chosen < i {
                            assert(rest[chosen] != wanted);
                        } else if chosen > i {
                            assert(rest[i as int] != wanted);
                        }
                    }
                    lemma_cut_behind_ascii(rest, i as int);
                }
                let (head, _) = offsetted.split_at(i + 1);
                assert(head.spec_bytes() =~= self.bytes().subrange(
                    offset as int,
                    offset + i + 1,
                ));
                return Some(head);
            }
            i += 1;
        }
        proof {
            if exists|k: int| 0 <= k < rest.len() && rest[k] == wanted {
                let k = choose|k: int| 0 <= k < rest.len() && rest[k] == wanted;
                assert(rest[k] != wanted);
            }
        }
        Some(offsetted)
    }

    /// Whether `string` stands in the source at `offset`; nothing stands at
    /// the end of the source or behind it.
    pub fn starts_with(&self, offset: usize, string: &str) -> (found: bool)
        requires
            can_cut(self.bytes(), offset as int),
        ensures
            found == (offset < self.bytes().len() && starts_with_bytes(
                suffix(self.bytes(), offset as int),
                string.spec_bytes(),
            )),
    {
        if offset >= byte_len(self.source) {
            return false;
        }
        let (_, rest) = self.source.split_at(offset);
        starts_with(rest, string)
    }
}

/// Behind a byte of one's own, an ASCII character, a text can be cut.
pub proof fn lemma_cut_behind_ascii(bytes: Seq<u8>, index: int)
    requires
        valid_utf8(bytes),
        0 <= index < bytes.len(),
        bytes[index] < 128,
    ensures
        is_char_boundary(bytes, index + 1),
{
    is_char_boundary_iff_not_is_continuation_byte(bytes, index);
    lemma_boundary_of_suffix(bytes, index, index + 1);
    let tail = suffix(bytes, index);
    assert(tail[0] == bytes[index]);
    reveal_with_fuel(is_char_boundary, 2);
    assert(is_char_boundary(tail, 1));
}

} // verus!
