//! The lexical rules: which token stands at the start of a text.

use crate::number::{integer_of, parse_integer};
use crate::pattern::{match_prefix, pattern_len};
use crate::sign::{sign_rule, sign_table, SIGN_COUNT};
use crate::text::{byte_len, lemma_prefix_boundary, lemma_str_bytes_valid, starts_with, starts_with_bytes};
use crate::token::{all_keywords, Keyword, Literal, TokenKind};
use vstd::prelude::*;
use vstd::string::*;
use vstd::utf8::*;

verus! {

/// A line comment: two slashes and the rest of the line.
pub const COMMENT_PATTERN: &'static str = "^//.*";

/// A string literal: from a quote to the last quote of the line.
pub const STRING_PATTERN: &'static str = "^\".*\"";

/// A floating-point literal: digits with a dot inside, behind or before them.
pub const FLOAT_PATTERN: &'static str = "^\\d+\\.\\d+|^\\d+\\.|\\.\\d+";

/// An integer literal: one or more digits.
pub const INTEGER_PATTERN: &'static str = "^\\d+";

/// An identifier: a letter, then word characters.
pub const IDENTIFIER_PATTERN: &'static str = "^[a-zA-Z]\\w*";

/// The rule that accepts the start of a text.
pub enum Lexeme {
    /// Nothing is left of the text.
    End,
    Comment,
    Word(Keyword),
    /// A row of the sign table.
    Sign(int),
    Str,
    Float,
    Integer,
    Truth(bool),
    Name,
    /// No rule accepts the text: its first character is set aside.
    Stray,
}

/// A fixed spelling stands at the start of the text.
pub open spec fn exact_match(bytes: Seq<u8>, code: Seq<char>) -> bool {
    encode_utf8(code).len() > 0 && starts_with_bytes(bytes, encode_utf8(code))
}

/// The first keyword, from row `from` on, that stands at the start of the text.
pub open spec fn first_keyword(bytes: Seq<u8>, from: int) -> Option<Keyword>
    decreases all_keywords().len() - from,
{
    if from < 0 || from >= all_keywords().len() {
        None
    } else if exact_match(bytes, all_keywords()[from].code()) {
        Some(all_keywords()[from])
    } else {
        first_keyword(bytes, from + 1)
    }
}

/// The first row of the sign table, from row `from` on, whose sign stands at
/// the start of the text.
pub open spec fn first_sign(bytes: Seq<u8>, from: int) -> Option<int>
    decreases sign_table().len() - from,
{
    if from < 0 || from >= sign_table().len() {
        None
    } else if exact_match(bytes, sign_table()[from].0) {
        Some(from)
    } else {
        first_sign(bytes, from + 1)
    }
}

/// The rule that accepts the start of `text`, and the number of bytes that it
/// takes. The rules are tried in a fixed order and the first that applies
/// wins, however much or little it takes.
pub open spec fn scan(text: Seq<char>) -> (Lexeme, int) {
    let bytes = encode_utf8(text);
    if bytes.len() == 0 {
        (Lexeme::End, 1)
    } else if let Some(n) = pattern_len(COMMENT_PATTERN@, text) {
        (Lexeme::Comment, n)
    } else if let Some(keyword) = first_keyword(bytes, 0) {
        (Lexeme::Word(keyword), encode_utf8(keyword.code()).len() as int)
    } else if let Some(row) = first_sign(bytes, 0) {
        (Lexeme::Sign(row), encode_utf8(sign_table()[row].0).len() as int)
    } else if let Some(n) = pattern_len(STRING_PATTERN@, text) {
        (Lexeme::Str, n)
    } else if let Some(n) = pattern_len(FLOAT_PATTERN@, text) {
        (Lexeme::Float, n)
    } else if let Some(n) = pattern_len(INTEGER_PATTERN@, text) {
        (Lexeme::Integer, n)
    } else if exact_match(bytes, "true"@) {
        (Lexeme::Truth(true), encode_utf8("true"@).len() as int)
    } else if exact_match(bytes, "false"@) {
        (Lexeme::Truth(false), encode_utf8("false"@).len() as int)
    } else if let Some(n) = pattern_len(IDENTIFIER_PATTERN@, text) {
        (Lexeme::Name, n)
    } else {
        (Lexeme::Stray, length_of_first_scalar(bytes))
    }
}

/// The first `n` bytes of `text`, as characters.
pub open spec fn piece(text: Seq<char>, n: int) -> Seq<char> {
    decode_utf8(encode_utf8(text).subrange(0, n))
}

/// `kind` is the token that `lexeme` makes of the matched text `matched`.
/// An integer literal too large for 128 signed bits is not a number: it
/// becomes an unknown token that holds its digits.
pub open spec fn reads(kind: TokenKind, lexeme: Lexeme, matched: Seq<char>) -> bool {
    match lexeme {
        Lexeme::End => kind == TokenKind::Eof,
        Lexeme::Comment => kind matches TokenKind::Comment(s) && s@ == matched,
        Lexeme::Word(keyword) => kind == TokenKind::Keyword(keyword),
        Lexeme::Sign(row) => kind == sign_table()[row].1,
        Lexeme::Str => kind matches TokenKind::Literal(Literal::String(s)) && s@ == matched,
        Lexeme::Float => kind matches TokenKind::Literal(Literal::Float(s)) && s@ == matched,
        Lexeme::Integer => match integer_of(encode_utf8(matched)) {
            Some(value) => kind == TokenKind::Literal(Literal::Integer(value)),
            None => kind matches TokenKind::Unknown(s) && s@ == matched,
        },
        Lexeme::Truth(value) => kind == TokenKind::Literal(Literal::Bool(value)),
        Lexeme::Name => kind matches TokenKind::Identifier(s) && s@ == matched,
        Lexeme::Stray => kind matches TokenKind::Unknown(s) && s@ == matched,
    }
}

/// The first `n` bytes of `text` as a string of their own.
pub fn take(text: &str, n: usize) -> (taken: String)
    requires
        n <= text.spec_bytes().len(),
        is_char_boundary(text.spec_bytes(), n as int),
    ensures
        taken@ == piece(text@, n as int),
{
    let (head, _) = text.split_at(n);
    proof {
        encode_utf8_decode_utf8(head@);
    }
    head.to_owned()
}

/// Whether the fixed spelling `code` stands at the start of `text`; if so,
/// its length in bytes.
pub fn match_exact(text: &str, code: &str) -> (len: Option<usize>)
    ensures
        len is Some <==> exact_match(text.spec_bytes(), code@),
        len matches Some(n) ==> {
            &&& n == encode_utf8(code@).len()
            &&& 0 < n <= text.spec_bytes().len()
            &&& is_char_boundary(text.spec_bytes(), n as int)
        },
{
    let n = byte_len(code);
    if n > 0 && starts_with(text, code) {
        proof {
            lemma_str_bytes_valid(text);
            lemma_str_bytes_valid(code);
            lemma_prefix_boundary(text.spec_bytes(), code.spec_bytes());
        }
        Some(n)
    } else {
        None
    }
}

/// Width in bytes of the first character of a text that is not empty.
pub fn first_char_width(text: &str) -> (width: usize)
    requires
        text.spec_bytes().len() > 0,
    ensures
        width == length_of_first_scalar(text.spec_bytes()),
        0 < width <= text.spec_bytes().len(),
        is_char_boundary(text.spec_bytes(), width as int),
{
    proof {
        lemma_str_bytes_valid(text);
        reveal_with_fuel(is_char_boundary, 2);
    }
    let first = text.as_bytes()[0];
    if first <= 0x7f {
        1
    } else if 0xc0 <= first && first <= 0xdf {
        2
    } else if 0xe0 <= first && first <= 0xef {
        3
    } else {
        4
    }
}

/// Looks for a keyword at the start of `text`.
pub fn match_keyword(text: &str, keywords: &Vec<Keyword>) -> (found: Option<(Keyword, usize)>)
    requires
        keywords@ == all_keywords(),
    ensures
        found is Some <==> first_keyword(text.spec_bytes(), 0) is Some,
        found matches Some((keyword, n)) ==> {
            &&& first_keyword(text.spec_bytes(), 0) == Some(keyword)
            &&& n == encode_utf8(keyword.code()).len()
            &&& 0 < n <= text.spec_bytes().len()
            &&& is_char_boundary(text.spec_bytes(), n as int)
        },
{
    let mut row: usize = 0;
    while row < keywords.len()
        invariant
            row <= keywords.len(),
            keywords@ == all_keywords(),
            first_keyword(text.spec_bytes(), 0) == first_keyword(text.spec_bytes(), row as int),
        decreases keywords.len() - row,
    {
        let keyword = keywords[row];
        if let Some(n) = match_exact(text, keyword.to_code()) {
            return Some((keyword, n));
        }
        row += 1;
    }
    None
}

/// Looks for a sign at the start of `text`.
pub fn match_sign(text: &str) -> (found: Option<(TokenKind, usize)>)
    ensures
        found is Some <==> first_sign(text.spec_bytes(), 0) is Some,
        found matches Some((kind, n)) ==> {
            let row = first_sign(text.spec_bytes(), 0)->0;
            &&& kind == sign_table()[row].1
            &&& n == encode_utf8(sign_table()[row].0).len()
            &&& 0 < n <= text.spec_bytes().len()
            &&& is_char_boundary(text.spec_bytes(), n as int)
        },
{
    let mut row: usize = 0;
    while row < SIGN_COUNT
        invariant
            row <= SIGN_COUNT,
            sign_table().len() == SIGN_COUNT,
            first_sign(text.spec_bytes(), 0) == first_sign(text.spec_bytes(), row as int),
        decreases SIGN_COUNT - row,
    {
        let (code, kind) = sign_rule(row);
        if let Some(n) = match_exact(text, code) {
            return Some((kind, n));
        }
        row += 1;
    }
    None
}

/// Reads the token at the start of `text`: its kind and its length in bytes.
/// Unless the text is empty, the length is positive, stays inside the text
/// and ends between two characters.
pub fn scan_text(text: &str, keywords: &Vec<Keyword>) -> (token: (TokenKind, usize))
    requires
        keywords@ == all_keywords(),
    ensures
        token.1 == scan(text@).1,
        reads(token.0, scan(text@).0, piece(text@, token.1 as int)),
        scan(text@).0 is End <==> text.spec_bytes().len() == 0,
        !(scan(text@).0 is End) ==> {
            &&& 0 < token.1 <= text.spec_bytes().len()
            &&& is_char_boundary(text.spec_bytes(), token.1 as int)
        },
{
    if byte_len(text) == 0 {
        return (TokenKind::Eof, 1);
    }
    if let Some(n) = match_prefix(COMMENT_PATTERN, text) {
        return (TokenKind::Comment(take(text, n)), n);
    }
    if let Some((keyword, n)) = match_keyword(text, keywords) {
        return (TokenKind::Keyword(keyword), n);
    }
    if let Some((kind, n)) = match_sign(text) {
        return (kind, n);
    }
    if let Some(n) = match_prefix(STRING_PATTERN, text) {
        return (TokenKind::Literal(Literal::String(take(text, n))), n);
    }
    if let Some(n) = match_prefix(FLOAT_PATTERN, text) {
        return (TokenKind::Literal(Literal::Float(take(text, n))), n);
    }
    if let Some(n) = match_prefix(INTEGER_PATTERN, text) {
        let digits = take(text, n);
        return match parse_integer(digits.as_str()) {
            Some(value) => (TokenKind::Literal(Literal::Integer(value)), n),
            None => (TokenKind::Unknown(digits), n),
        };
    }
    if let Some(n) = match_exact(text, "true") {
        return (TokenKind::Literal(Literal::Bool(true)), n);
    }
    if let Some(n) = match_exact(text, "false") {
        return (TokenKind::Literal(Literal::Bool(false)), n);
    }
    if let Some(n) = match_prefix(IDENTIFIER_PATTERN, text) {
        return (TokenKind::Identifier(take(text, n)), n);
    }
    let width = first_char_width(text);
    (TokenKind::Unknown(take(text, width)), width)
}

} // verus!
