//! Half-open ranges of byte offsets into a source text.

use crate::text::{byte_len, lemma_boundary_of_prefix, lemma_str_bytes_valid};
use vstd::prelude::*;
use vstd::string::*;
use vstd::utf8::*;

verus! {

/// The range `[start, end)` of byte offsets.
#[derive(Clone, Copy, Debug, PartialEq, Eq, Structural)]
pub struct Span {
    /// First offset of the range.
    pub start: usize,
    /// First offset after the range.
    pub end: usize,
}

impl Span {
    /// A span is well formed when it does not end before it starts.
    pub open spec fn wf(&self) -> bool {
        self.start <= self.end
    }

    /// Whether the span can be cut out of a text with the given bytes: it is
    /// well formed, lies inside the text and both ends fall between characters.
    pub open spec fn fits(&self, bytes: Seq<u8>) -> bool {
        &&& self.start <= self.end <= bytes.len()
        &&& is_char_boundary(bytes, self.start as int)
        &&& is_char_boundary(bytes, self.end as int)
    }

    /// The bytes that the span covers.
    pub open spec fn cut(&self, bytes: Seq<u8>) -> Seq<u8> {
        bytes.subrange(self.start as int, self.end as int)
    }

    /// The span from `start` to `end`.
    pub fn new(start: usize, end: usize) -> (span: Span)
        requires
            start <= end,
        ensures
            span.start == start,
            span.end == end,
            span.wf(),
    {
        Span { start, end }
    }

    /// Number of offsets that the span covers.
    pub fn length(&self) -> (n: usize)
        requires
            self.wf(),
        ensures
            n == self.end - self.start,
    {
        self.end - self.start
    }

    /// Number of offsets that the span covers.
    pub fn get_size(&self) -> (n: usize)
        requires
            self.wf(),
        ensures
            n == self.end - self.start,
    {
        self.end - self.start
    }

    /// The part of `string` that the span covers, if the span fits the string.
    pub fn slice_string<'a>(&self, string: &'a str) -> (piece: Option<&'a str>)
        ensures
            piece is Some <==> self.fits(string.spec_bytes()),
            piece matches Some(p) ==> p.spec_bytes() == self.cut(string.spec_bytes()),
    {
        let ghost bytes = string.spec_bytes();
        proof {
            lemma_str_bytes_valid(string);
        }
        if self.start <= self.end && self.end <= byte_len(string) && string.is_char_boundary(
            self.start,
        ) && string.is_char_boundary(self.end) {
            let (head, _) = string.split_at(self.end);
            proof {
                lemma_boundary_of_prefix(bytes, self.end as int, self.start as int);
            }
            let (_, piece) = head.split_at(self.start);
            assert(piece.spec_bytes() == self.cut(bytes));
            Some(piece)
        } else {
            None
        }
    }
}

} // verus!
