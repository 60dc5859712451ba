//! The tokenizer: a cursor over a source text that hands out one token at a
//! time until the end of input has been reported.

use crate::pattern::{match_prefix, pattern_len};
use crate::scan::{piece, reads, scan, scan_text};
use crate::span::Span;
use crate::text::{byte_len, lemma_boundary_of_suffix, lemma_str_bytes_valid, suffix};
use crate::token::{all_keywords, create_all, Keyword, Token};
use vstd::prelude::*;
use vstd::string::*;
use vstd::utf8::*;

verus! {

/// A run of tabs, line feeds, carriage returns and spaces.
pub const WHITESPACE_PATTERN: &'static str = "^[\t\n\r ]+";

/// The characters of a text from byte offset `at` on.
pub open spec fn text_at(bytes: Seq<u8>, at: int) -> Seq<char> {
    decode_utf8(suffix(bytes, at))
}

/// Number of bytes of white space at the start of a text.
pub open spec fn blank_len(text: Seq<char>) -> int {
    match pattern_len(WHITESPACE_PATTERN@, text) {
        Some(n) => n,
        None => 0,
    }
}

/// Where the token begins that is read with the cursor at `at`: behind the
/// white space that stands there.
pub open spec fn token_start(bytes: Seq<u8>, at: int) -> int {
    at + blank_len(text_at(bytes, at))
}

/// `token` is what the lexical rules read with the cursor at `at`.
pub open spec fn is_token_at(bytes: Seq<u8>, at: int, token: Token) -> bool {
    let start = token_start(bytes, at);
    let text = text_at(bytes, start);
    &&& token.span.start == start
    &&& token.span.end == start + scan(text).1
    &&& reads(token.kind, scan(text).0, piece(text, scan(text).1))
}

/// A source text with a cursor into it.
pub struct SourceReader<'a> {
    position: usize,
    source: &'a str,
}

impl<'a> SourceReader<'a> {
    /// The bytes of the source.
    pub closed spec fn bytes(&self) -> Seq<u8> {
        self.source.spec_bytes()
    }

    /// The cursor, as a byte offset.
    pub closed spec fn offset(&self) -> int {
        self.position as int
    }

    /// The cursor stands between two characters of the source, or one step
    /// behind its end.
    pub open spec fn wf(&self) -> bool {
        &&& valid_utf8(self.bytes())
        &&& 0 <= self.offset() <= self.bytes().len() + 1 <= usize::MAX
        &&& self.offset() <= self.bytes().len() ==> is_char_boundary(self.bytes(), self.offset())
    }

    /// A reader at the start of `source`.
    pub fn new(source: &'a str) -> (reader: Self)
        requires
            source.spec_bytes().len() < usize::MAX,
        ensures
            reader.bytes() == source.spec_bytes(),
            reader.offset() == 0,
            reader.wf(),
    {
        proof {
            lemma_str_bytes_valid(source);
        }
        SourceReader { position: 0, source }
    }

    /// Whether the cursor stands at the end of the source.
    pub fn is_eof(&self) -> (at_end: bool)
        ensures
            at_end == (self.offset() == self.bytes().len()),
    {
        self.position == byte_len(self.source)
    }

    /// Whether the cursor stands behind the end of the source.
    pub fn did_pass_eof(&self) -> (passed: bool)
        ensures
            passed == (self.offset() > self.bytes().len()),
    {
        self.position > byte_len(self.source)
    }

    /// The cursor, as a byte offset.
    pub fn get_position(&self) -> (position: usize)
        ensures
            position == self.offset(),
    {
        self.position
    }

    /// The span of `size` bytes that begins at the cursor.
    pub fn make_span(&self, size: usize) -> (span: Span)
        requires
            self.offset() + size <= usize::MAX,
        ensures
            span.start == self.offset(),
            span.end == self.offset() + size,
    {
        Span::new(self.position, self.position + size)
    }

    /// Moves the cursor `size` bytes on.
    pub fn advance(&mut self, size: usize)
        requires
            old(self).offset() + size <= usize::MAX,
        ensures
            final(self).offset() == old(self).offset() + size,
            final(self).bytes() == old(self).bytes(),
    {
        self.position += size
    }

    /// The text from the cursor to the end.
    pub fn remaining(&self) -> (rest: &'a str)
        requires
            self.wf(),
            self.offset() <= self.bytes().len(),
        ensures
            rest.spec_bytes() == suffix(self.bytes(), self.offset()),
            rest@ == text_at(self.bytes(), self.offset()),
    {
        let (_, rest) = self.source.split_at(self.position);
        proof {
            encode_utf8_decode_utf8(rest@);
        }
        rest
    }
}

/// A source text that is read token by token.
pub struct Tokenizer<'a> {
    source: SourceReader<'a>,
    keywords: Vec<Keyword>,
}

impl<'a> Tokenizer<'a> {
    /// The bytes of the source.
    pub closed spec fn bytes(&self) -> Seq<u8> {
        self.source.bytes()
    }

    /// The cursor, as a byte offset.
    pub closed spec fn offset(&self) -> int {
        self.source.offset()
    }

    /// The cursor stands between two characters of the source, or one step
    /// behind its end.
    pub closed spec fn wf(&self) -> bool {
        self.source.wf() && self.keywords@ == all_keywords()
    }

    /// The end of input has been reported.
    pub open spec fn finished(&self) -> bool {
        self.offset() > self.bytes().len()
    }

    /// A tokenizer at the start of `source`.
    pub fn new(source: &'a str) -> (tokenizer: Self)
        requires
            source.spec_bytes().len() < usize::MAX,
        ensures
            tokenizer.wf(),
            tokenizer.bytes() == source.spec_bytes(),
            tokenizer.offset() == 0,
    {
        Tokenizer { source: SourceReader::new(source), keywords: create_all() }
    }

    /// Moves the cursor over the white space that stands at it.
    fn advance_whitespace(&mut self)
        requires
            old(self).wf(),
            !old(self).finished(),
        ensures
            final(self).wf(),
            final(self).bytes() == old(self).bytes(),
            final(self).offset() == token_start(old(self).bytes(), old(self).offset()),
            final(self).offset() <= final(self).bytes().len(),
    {
        let rest = self.source.remaining();
        if let Some(n) = match_prefix(WHITESPACE_PATTERN, rest) {
            proof {
                lemma_boundary_of_suffix(
                    self.source.bytes(),
                    self.source.offset(),
                    self.source.offset() + n,
                );
            }
            self.source.advance(n);
        }
    }

    /// Reads the next token. After the token for the end of input has been
    /// handed out, there is none.
    pub fn next_token(&mut self) -> (token: Option<Token>)
        requires
            old(self).wf(),
        ensures
            final(self).wf(),
            final(self).bytes() == old(self).bytes(),
            old(self).finished() ==> token is None && final(self).offset() == old(self).offset(),
            !old(self).finished() ==> {
                &&& token matches Some(t)
                &&& is_token_at(old(self).bytes(), old(self).offset(), t)
                &&& final(self).offset() == t.span.end
                &&& old(self).offset() <= t.span.start < t.span.end
                &&& t.span.start <= old(self).bytes().len()
                &&& t.span.start < old(self).bytes().len() ==> t.span.fits(old(self).bytes())
                &&& t.span.start == old(self).bytes().len() ==> final(self).finished()
            },
    {
        if self.source.did_pass_eof() {
            return None;
        }
        self.advance_whitespace();
        let rest = self.source.remaining();
        let (kind, size) = scan_text(rest, &self.keywords);
        proof {
            if !(scan(rest@).0 is End) {
                lemma_boundary_of_suffix(
                    self.source.bytes(),
                    self.source.offset(),
                    self.source.offset() + size,
                );
            }
        }
        let token = Token { kind, span: self.source.make_span(size) };
        self.source.advance(size);
        Some(token)
    }
}

/// Where the cursor stands before token `i` of a run of tokens is read: at
/// the start of the source, or at the end of the token before.
pub open spec fn cursor(tokens: Seq<Token>, i: int) -> int {
    if i <= 0 {
        0
    } else {
        tokens[i - 1].span.end as int
    }
}

/// Token `i` of a run is in its place: it is what the rules read where the
/// token before it ended, it begins behind the white space that stands
/// there, it lies inside the source unless it is the last, and it stands at
/// the end of the source exactly if it is the last.
pub open spec fn in_place(bytes: Seq<u8>, tokens: Seq<Token>, i: int) -> bool {
    &&& is_token_at(bytes, cursor(tokens, i), tokens[i])
    &&& cursor(tokens, i) <= tokens[i].span.start < tokens[i].span.end
    &&& tokens[i].span.start <= bytes.len()
    &&& (tokens[i].span.start == bytes.len() <==> i == tokens.len() - 1)
    &&& (i < tokens.len() - 1 ==> tokens[i].span.fits(bytes))
}

/// `tokens` is what reading the source from its start to the end of input
/// yields: there is at least the token for the end of input, and every token
/// is in its place.
pub open spec fn is_tokenization(bytes: Seq<u8>, tokens: Seq<Token>) -> bool {
    &&& tokens.len() > 0
    &&& forall|i: int| 0 <= i < tokens.len() ==> #[trigger] in_place(bytes, tokens, i)
}

/// Token `i` of a run that is still being read is in its place.
pub open spec fn in_place_so_far(
    bytes: Seq<u8>,
    tokens: Seq<Token>,
    i: int,
    finished: bool,
) -> bool {
    &&& is_token_at(bytes, cursor(tokens, i), tokens[i])
    &&& cursor(tokens, i) <= tokens[i].span.start < tokens[i].span.end
    &&& tokens[i].span.start <= bytes.len()
    &&& (tokens[i].span.start == bytes.len() <==> i == tokens.len() - 1 && finished)
    &&& (tokens[i].span.start < bytes.len() ==> tokens[i].span.fits(bytes))
}

/// Reads a whole source: every token up to and including the one for the end
/// of input.
pub fn tokenize(source: &str) -> (tokens: Vec<Token>)
    requires
        source.spec_bytes().len() < usize::MAX,
    ensures
        is_tokenization(source.spec_bytes(), tokens@),
{
    let ghost bytes = source.spec_bytes();
    let mut tokenizer = Tokenizer::new(source);
    let mut tokens: Vec<Token> = Vec::new();
    loop
        invariant
            tokenizer.wf(),
            tokenizer.bytes() == bytes,
            tokenizer.offset() == cursor(tokens@, tokens@.len() as int),
            tokenizer.finished() ==> tokens@.len() > 0,
            forall|i: int|
                0 <= i < tokens@.len() ==> #[trigger] in_place_so_far(
                    bytes,
                    tokens@,
                    i,
                    tokenizer.finished(),
                ),
        ensures
            is_tokenization(bytes, tokens@),
        decreases bytes.len() + 1 - tokenizer.offset(),
    {
        let ghost before = tokens@;
        let ghost was_finished = tokenizer.finished();
        match tokenizer.next_token() {
            Some(token) => {
                tokens.push(token);
                proof {
                    assert forall|i: int| 0 <= i < tokens@.len() implies #[trigger] in_place_so_far(
                        bytes,
                        tokens@,
                        i,
                        tokenizer.finished(),
                    ) by {
                        if i < before.len() {
                            assert(in_place_so_far(bytes, before, i, was_finished));
                            assert(tokens@[i] == before[i]);
                            assert(cursor(tokens@, i) == cursor(before, i));
                        }
                    }
                }
            },
            None => {
                proof {
                    assert forall|i: int| 0 <= i < tokens@.len() implies #[trigger] in_place(
                        bytes,
                        tokens@,
                        i,
                    ) by {
                        assert(in_place_so_far(bytes, tokens@, i, true));
                    }
                }
                break ;
            },
        }
    }
    tokens
}

/// The source from its start to the end of token `n - 1`, put together from
/// the text between the tokens and the text under their spans.
pub open spec fn rebuilt(bytes: Seq<u8>, tokens: Seq<Token>, n: int) -> Seq<u8>
    decreases n,
{
    if n <= 0 {
        Seq::empty()
    } else {
        rebuilt(bytes, tokens, n - 1) + bytes.subrange(
            cursor(tokens, n - 1),
            tokens[n - 1].span.start as int,
        ) + tokens[n - 1].span.cut(bytes)
    }
}

/// The texts between and under the first `n` tokens, none of them the last,
/// make up the source as far as the last of them reaches.
pub proof fn lemma_rebuilt_prefix(bytes: Seq<u8>, tokens: Seq<Token>, n: int)
    requires
        is_tokenization(bytes, tokens),
        0 <= n < tokens.len(),
    ensures
        cursor(tokens, n) <= bytes.len(),
        rebuilt(bytes, tokens, n) == bytes.subrange(0, cursor(tokens, n)),
    decreases n,
{
    if n > 0 {
        lemma_rebuilt_prefix(bytes, tokens, n - 1);
        assert(in_place(bytes, tokens, n - 1));
        assert(in_place(bytes, tokens, n));
        assert(rebuilt(bytes, tokens, n) =~= bytes.subrange(0, cursor(tokens, n)));
    } else {
        assert(in_place(bytes, tokens, n));
        assert(rebuilt(bytes, tokens, n) =~= bytes.subrange(0, 0));
    }
}

/// Law: the text under the spans of the tokens of a source, with the white
/// space between them and before the end of input, is the source itself.
pub proof fn lemma_spans_rebuild_source(bytes: Seq<u8>, tokens: Seq<Token>)
    requires
        is_tokenization(bytes, tokens),
    ensures
        rebuilt(bytes, tokens, tokens.len() - 1) + bytes.subrange(
            cursor(tokens, tokens.len() - 1),
            bytes.len() as int,
        ) == bytes,
{
    let last = tokens.len() - 1;
    lemma_rebuilt_prefix(bytes, tokens, last);
    assert(in_place(bytes, tokens, last));
    assert(bytes.subrange(0, cursor(tokens, last)) + bytes.subrange(
        cursor(tokens, last),
        bytes.len() as int,
    ) =~= bytes);
}

} // verus!
