//! The lexical vocabulary: literals, keywords, operators, delimiters.

use crate::span::Span;
use vstd::prelude::*;

verus! {

/// A literal as it stands in the source.
#[derive(Debug, PartialEq)]
pub enum Literal {
    /// A string literal, quotes included.
    String(String),
    Bool(bool),
    Integer(i128),
    /// A floating-point literal, kept as the text that denotes it.
    Float(String),
}

impl Clone for Literal {
    fn clone(&self) -> (copy: Self)
        ensures
            copy == *self,
    {
        match self {
            Literal::String(text) => Literal::String(text.clone()),
            Literal::Bool(value) => Literal::Bool(*value),
            Literal::Integer(value) => Literal::Integer(*value),
            Literal::Float(text) => Literal::Float(text.clone()),
        }
    }
}

/// Whether a delimiter opens or closes.
#[derive(Clone, Copy, Debug, PartialEq, Eq, Structural)]
pub enum DelimDir {
    Open,
    Close,
}

/// Parenthesis, brace or bracket.
#[derive(Clone, Copy, Debug, PartialEq, Eq, Structural)]
pub enum DelimType {
    Paren,
    Brace,
    Brack,
}

/// The reserved words.
#[derive(Clone, Copy, Debug, PartialEq, Eq, Structural)]
pub enum Keyword {
    Const,
    Var,
    Record,
    Union,
    Impl,
    Trait,
    Mod,
    If,
    Else,
    For,
    In,
    Match,
    Return,
    U32,
    U16,
    U8,
    I32,
    I16,
    I8,
    F32,
    F16,
    Print,
    Println,
}

impl Keyword {
    /// The spelling of the keyword.
    pub open spec fn code(self) -> Seq<char> {
        match self {
            Keyword::Const => "const"@,
            Keyword::Var => "var"@,
            Keyword::Record => "record"@,
            Keyword::Union => "union"@,
            Keyword::Impl => "impl"@,
            Keyword::Trait => "trait"@,
            Keyword::Mod => "mod"@,
            Keyword::If => "if"@,
            Keyword::Else => "else"@,
            Keyword::For => "for"@,
            Keyword::In => "in"@,
            Keyword::Match => "match"@,
            Keyword::Return => "return"@,
            Keyword::U32 => "u32"@,
            Keyword::U16 => "u16"@,
            Keyword::U8 => "u8"@,
            Keyword::I32 => "i32"@,
            Keyword::I16 => "i16"@,
            Keyword::I8 => "i8"@,
            Keyword::F32 => "f32"@,
            Keyword::F16 => "f16"@,
            Keyword::Print => "print"@,
            Keyword::Println => "println"@,
        }
    }

    /// The spelling of the keyword.
    pub fn to_code(&self) -> (code: &'static str)
        ensures
            code@ == self.code(),
    {
        match self {
            Keyword::Const => "const",
            Keyword::Var => "var",
            Keyword::Record => "record",
            Keyword::Union => "union",
            Keyword::Impl => "impl",
            Keyword::Trait => "trait",
            Keyword::Mod => "mod",
            Keyword::If => "if",
            Keyword::Else => "else",
            Keyword::For => "for",
            Keyword::In => "in",
            Keyword::Match => "match",
            Keyword::Return => "return",
            Keyword::U32 => "u32",
            Keyword::U16 => "u16",
            Keyword::U8 => "u8",
            Keyword::I32 => "i32",
            Keyword::I16 => "i16",
            Keyword::I8 => "i8",
            Keyword::F32 => "f32",
            Keyword::F16 => "f16",
            Keyword::Print => "print",
            Keyword::Println => "println",
        }
    }
}

/// The keywords that the tokenizer looks for, in the order in which it tries
/// them. `println` is not among them: `print` is tried as a prefix and wins.
pub open spec fn all_keywords() -> Seq<Keyword> {
    seq![
        Keyword::Const,
        Keyword::Var,
        Keyword::Record,
        Keyword::Union,
        Keyword::Impl,
        Keyword::Trait,
        Keyword::Mod,
        Keyword::If,
        Keyword::Else,
        Keyword::For,
        Keyword::In,
        Keyword::Match,
        Keyword::Return,
        Keyword::U32,
        Keyword::U16,
        Keyword::U8,
        Keyword::I32,
        Keyword::I16,
        Keyword::I8,
        Keyword::F32,
        Keyword::F16,
        Keyword::Print,
    ]
}

/// The keywords that the tokenizer looks for, in the order in which it tries
/// them.
pub fn create_all() -> (keywords: Vec<Keyword>)
    ensures
        keywords@ == all_keywords(),
{
    let keywords = vec![
        Keyword::Const,
        Keyword::Var,
        Keyword::Record,
        Keyword::Union,
        Keyword::Impl,
        Keyword::Trait,
        Keyword::Mod,
        Keyword::If,
        Keyword::Else,
        Keyword::For,
        Keyword::In,
        Keyword::Match,
        Keyword::Return,
        Keyword::U32,
        Keyword::U16,
        Keyword::U8,
        Keyword::I32,
        Keyword::I16,
        Keyword::I8,
        Keyword::F32,
        Keyword::F16,
        Keyword::Print,
    ];
    assert(keywords@ =~= all_keywords());
    keywords
}

/// What a token is.
#[derive(Clone, Debug, PartialEq)]
pub enum TokenKind {
    /// `=`
    Eq,
    /// `<`
    Lt,
    /// `<<`
    LtLt,
    /// `<=`
    Le,
    /// `==`
    EqEq,
    /// `!=`
    Ne,
    /// `>=`
    Ge,
    /// `>`
    Gt,
    /// `>>`
    GtGt,
    /// `&`
    And,
    /// `&=`
    AndEq,
    /// `&&`
    AndAnd,
    /// `|`
    Or,
    /// `|=`
    OrEq,
    /// `||`
    OrOr,
    /// `!`
    Not,
    /// `+`
    Plus,
    /// `+=`
    PlusEq,
    /// `-`
    Minus,
    /// `-=`
    MinusEq,
    /// `*`
    Star,
    /// `*=`
    StarEq,
    /// `/`
    Slash,
    /// `/=`
    SlashEq,
    /// `%`
    Percent,
    /// `%=`
    PercentEq,
    /// `^`
    Caret,
    /// `^=`
    CaretEq,
    /// `.`
    Dot,
    /// `..`
    DotDot,
    /// `,`
    Comma,
    /// `:`
    Colon,
    /// `;`
    SemiColon,
    /// A line comment, with its two slashes.
    Comment(String),
    Keyword(Keyword),
    Literal(Literal),
    Identifier(String),
    Delim(DelimDir, DelimType),
    /// End of input.
    Eof,
    /// Text that no lexical rule accepts.
    Unknown(String),
    Undefined,
}

impl TokenKind {
    /// The place of the token's variant in the declaration of the type,
    /// whatever the token carries.
    pub open spec fn variant(self) -> nat {
        match self {
            TokenKind::Eq => 0,
            TokenKind::Lt => 1,
            TokenKind::LtLt => 2,
            TokenKind::Le => 3,
            TokenKind::EqEq => 4,
            TokenKind::Ne => 5,
            TokenKind::Ge => 6,
            TokenKind::Gt => 7,
            TokenKind::GtGt => 8,
            TokenKind::And => 9,
            TokenKind::AndEq => 10,
            TokenKind::AndAnd => 11,
            TokenKind::Or => 12,
            TokenKind::OrEq => 13,
            TokenKind::OrOr => 14,
            TokenKind::Not => 15,
            TokenKind::Plus => 16,
            TokenKind::PlusEq => 17,
            TokenKind::Minus => 18,
            TokenKind::MinusEq => 19,
            TokenKind::Star => 20,
            TokenKind::StarEq => 21,
            TokenKind::Slash => 22,
            TokenKind::SlashEq => 23,
            TokenKind::Percent => 24,
            TokenKind::PercentEq => 25,
            TokenKind::Caret => 26,
            TokenKind::CaretEq => 27,
            TokenKind::Dot => 28,
            TokenKind::DotDot => 29,
            TokenKind::Comma => 30,
            TokenKind::Colon => 31,
            TokenKind::SemiColon => 32,
            TokenKind::Comment(_) => 33,
            TokenKind::Keyword(_) => 34,
            TokenKind::Literal(_) => 35,
            TokenKind::Identifier(_) => 36,
            TokenKind::Delim(_, _) => 37,
            TokenKind::Eof => 38,
            TokenKind::Unknown(_) => 39,
            TokenKind::Undefined => 40,
        }
    }

    /// The place of the token's variant in the declaration of the type.
    pub fn variant_index(&self) -> (index: u8)
        ensures
            index == self.variant(),
    {
        match self {
            TokenKind::Eq => 0,
            TokenKind::Lt => 1,
            TokenKind::LtLt => 2,
            TokenKind::Le => 3,
            TokenKind::EqEq => 4,
            TokenKind::Ne => 5,
            TokenKind::Ge => 6,
            TokenKind::Gt => 7,
            TokenKind::GtGt => 8,
            TokenKind::And => 9,
            TokenKind::AndEq => 10,
            TokenKind::AndAnd => 11,
            TokenKind::Or => 12,
            TokenKind::OrEq => 13,
            TokenKind::OrOr => 14,
            TokenKind::Not => 15,
            TokenKind::Plus => 16,
            TokenKind::PlusEq => 17,
            TokenKind::Minus => 18,
            TokenKind::MinusEq => 19,
            TokenKind::Star => 20,
            TokenKind::StarEq => 21,
            TokenKind::Slash => 22,
            TokenKind::SlashEq => 23,
            TokenKind::Percent => 24,
            TokenKind::PercentEq => 25,
            TokenKind::Caret => 26,
            TokenKind::CaretEq => 27,
            TokenKind::Dot => 28,
            TokenKind::DotDot => 29,
            TokenKind::Comma => 30,
            TokenKind::Colon => 31,
            TokenKind::SemiColon => 32,
            TokenKind::Comment(_) => 33,
            TokenKind::Keyword(_) => 34,
            TokenKind::Literal(_) => 35,
            TokenKind::Identifier(_) => 36,
            TokenKind::Delim(_, _) => 37,
            TokenKind::Eof => 38,
            TokenKind::Unknown(_) => 39,
            TokenKind::Undefined => 40,
        }
    }

    /// Whether two tokens are of the same variant, whatever they carry.
    pub fn same_variant(&self, other: &TokenKind) -> (same: bool)
        ensures
            same == (self.variant() == other.variant()),
    {
        self.variant_index() == other.variant_index()
    }

    /// The name of an identifier.
    pub fn unwrap_identifier(&self) -> (name: &String)
        requires
            self is Identifier,
        ensures
            *self == TokenKind::Identifier(*name),
    {
        match self {
            TokenKind::Identifier(identifier) => identifier,
            _ => unreached(),
        }
    }

    /// The literal of a literal token.
    pub fn unwrap_literal(&self) -> (literal: &Literal)
        requires
            self is Literal,
        ensures
            *self == TokenKind::Literal(*literal),
    {
        match self {
            TokenKind::Literal(literal) => literal,
            _ => unreached(),
        }
    }
}

/// A token: what it is and where it stands in the source.
#[derive(Clone, Debug, PartialEq)]
pub struct Token {
    pub kind: TokenKind,
    pub span: Span,
}

} // verus!
