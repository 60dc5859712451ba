//! Operators, punctuation and delimiters: the tokens with one fixed spelling.

use crate::token::{DelimDir, DelimType, TokenKind};
use vstd::prelude::*;

verus! {

/// Number of rows of the sign table.
pub const SIGN_COUNT: usize = 39;

/// Spelling and token of every sign, in the order in which the tokenizer
/// tries them: the signs of two characters stand before those of one, so that
/// `==` is never read as two `=`.
pub open spec fn sign_table() -> Seq<(Seq<char>, TokenKind)> {
    seq![
        ("=="@, TokenKind::EqEq),
        ("<="@, TokenKind::Le),
        (">="@, TokenKind::Ge),
        ("!="@, TokenKind::Ne),
        (".."@, TokenKind::DotDot),
        ("&&"@, TokenKind::AndAnd),
        ("||"@, TokenKind::OrOr),
        (">>"@, TokenKind::GtGt),
        ("<<"@, TokenKind::LtLt),
        ("+="@, TokenKind::PlusEq),
        ("-="@, TokenKind::MinusEq),
        ("*="@, TokenKind::StarEq),
        ("/="@, TokenKind::SlashEq),
        ("%="@, TokenKind::PercentEq),
        ("^="@, TokenKind::CaretEq),
        ("&="@, TokenKind::AndEq),
        ("|="@, TokenKind::OrEq),
        ("="@, TokenKind::Eq),
        ("<"@, TokenKind::Lt),
        (">"@, TokenKind::Gt),
        ("!"@, TokenKind::Not),
        ("."@, TokenKind::Dot),
        (","@, TokenKind::Comma),
        (":"@, TokenKind::Colon),
        (";"@, TokenKind::SemiColon),
        ("+"@, TokenKind::Plus),
        ("-"@, TokenKind::Minus),
        ("*"@, TokenKind::Star),
        ("/"@, TokenKind::Slash),
        ("%"@, TokenKind::Percent),
        ("^"@, TokenKind::Caret),
        ("&"@, TokenKind::And),
        ("|"@, TokenKind::Or),
        ("("@, TokenKind::Delim(DelimDir::Open, DelimType::Paren)),
        ("{"@, TokenKind::Delim(DelimDir::Open, DelimType::Brace)),
        ("["@, TokenKind::Delim(DelimDir::Open, DelimType::Brack)),
        (")"@, TokenKind::Delim(DelimDir::Close, DelimType::Paren)),
        ("}"@, TokenKind::Delim(DelimDir::Close, DelimType::Brace)),
        ("]"@, TokenKind::Delim(DelimDir::Close, DelimType::Brack)),
    ]
}

/// Row `i` of the sign table.
pub fn sign_rule(i: usize) -> (rule: (&'static str, TokenKind))
    requires
        i < SIGN_COUNT,
    ensures
        sign_table().len() == SIGN_COUNT,
        rule.0@ == sign_table()[i as int].0,
        rule.1 == sign_table()[i as int].1,
{
    match i {
        0 => ("==", TokenKind::EqEq),
        1 => ("<=", TokenKind::Le),
        2 => (">=", TokenKind::Ge),
        3 => ("!=", TokenKind::Ne),
        4 => ("..", TokenKind::DotDot),
        5 => ("&&", TokenKind::AndAnd),
        6 => ("||", TokenKind::OrOr),
        7 => (">>", TokenKind::GtGt),
        8 => ("<<", TokenKind::LtLt),
        9 => ("+=", TokenKind::PlusEq),
        10 => ("-=", TokenKind::MinusEq),
        11 => ("*=", TokenKind::StarEq),
        12 => ("/=", TokenKind::SlashEq),
        13 => ("%=", TokenKind::PercentEq),
        14 => ("^=", TokenKind::CaretEq),
        15 => ("&=", TokenKind::AndEq),
        16 => ("|=", TokenKind::OrEq),
        17 => ("=", TokenKind::Eq),
        18 => ("<", TokenKind::Lt),
        19 => (">", TokenKind::Gt),
        20 => ("!", TokenKind::Not),
        21 => (".", TokenKind::Dot),
        22 => (",", TokenKind::Comma),
        23 => (":", TokenKind::Colon),
        24 => (";", TokenKind::SemiColon),
        25 => ("+", TokenKind::Plus),
        26 => ("-", TokenKind::Minus),
        27 => ("*", TokenKind::Star),
        28 => ("/", TokenKind::Slash),
        29 => ("%", TokenKind::Percent),
        30 => ("^", TokenKind::Caret),
        31 => ("&", TokenKind::And),
        32 => ("|", TokenKind::Or),
        33 => ("(", TokenKind::Delim(DelimDir::Open, DelimType::Paren)),
        34 => ("{", TokenKind::Delim(DelimDir::Open, DelimType::Brace)),
        35 => ("[", TokenKind::Delim(DelimDir::Open, DelimType::Brack)),
        36 => (")", TokenKind::Delim(DelimDir::Close, DelimType::Paren)),
        37 => ("}", TokenKind::Delim(DelimDir::Close, DelimType::Brace)),
        _ => ("]", TokenKind::Delim(DelimDir::Close, DelimType::Brack)),
    }
}

} // verus!
