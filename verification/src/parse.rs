//! Faults of parsing, and what a parser is.

use crate::ast::{BinOp, Stmt, UnOp};
use crate::grammar::{binary_op_of, parse_program, unary_op_of, Fault};
use crate::token::{Token, TokenKind};
use vstd::prelude::*;
use vstd::string::*;

verus! {

/// Why a sequence of tokens is no program.
#[derive(Debug, PartialEq)]
pub enum ParseError {
    /// A message.
    Default(String),
    /// The token that is missing, and the production that misses it.
    ExpectedToken(String, String),
}

impl View for ParseError {
    type V = Fault;

    open spec fn view(&self) -> Fault {
        match self {
            ParseError::Default(message) => Fault::Default(message@),
            ParseError::ExpectedToken(token, place) => Fault::ExpectedToken(token@, place@),
        }
    }
}

impl Fault {
    /// The fault in words.
    pub open spec fn message(self) -> Seq<char> {
        match self {
            Fault::Default(message) => "ParseError: "@ + message,
            Fault::ExpectedToken(token, place) => "Expected token \""@ + token + "\" at \""@
                + place + "\""@,
        }
    }
}

impl ParseError {
    /// The fault in words.
    pub fn message(&self) -> (text: String)
        ensures
            text@ == self@.message(),
    {
        match self {
            ParseError::Default(message) => "ParseError: ".to_owned().concat(message.as_str()),
            ParseError::ExpectedToken(token, place) => "Expected token \"".to_owned().concat(
                token.as_str(),
            ).concat("\" at \"").concat(place.as_str()).concat("\""),
        }
    }

    /// The fault that says that `token` is missing in production `place`.
    pub fn expected(token: &str, place: &str) -> (fault: ParseError)
        ensures
            fault@ == Fault::ExpectedToken(token@, place@),
    {
        ParseError::ExpectedToken(token.to_owned(), place.to_owned())
    }

    /// The fault with the given message.
    pub fn plain(message: &str) -> (fault: ParseError)
        ensures
            fault@ == Fault::Default(message@),
    {
        ParseError::Default(message.to_owned())
    }
}

/// What the parser asks of a token.
pub trait TokenKindExtensions {
    /// The token for the end of input.
    spec fn at_end(&self) -> bool;

    /// The binary operator that the token stands for.
    spec fn as_binary_op(&self) -> Option<BinOp>;

    /// The unary operator that the token stands for.
    spec fn as_unary_op(&self) -> Option<UnOp>;

    fn is_eof(&self) -> (eof: bool)
        ensures
            eof == self.at_end(),
    ;

    fn to_binary_op(&self) -> (op: Option<BinOp>)
        ensures
            op == self.as_binary_op(),
    ;

    fn to_unary_op(&self) -> (op: Option<UnOp>)
        ensures
            op == self.as_unary_op(),
    ;
}

impl TokenKindExtensions for TokenKind {
    open spec fn at_end(&self) -> bool {
        *self is Eof
    }

    open spec fn as_binary_op(&self) -> Option<BinOp> {
        binary_op_of(*self)
    }

    open spec fn as_unary_op(&self) -> Option<UnOp> {
        unary_op_of(*self)
    }

    fn is_eof(&self) -> (eof: bool) {
        match self {
            TokenKind::Eof => true,
            _ => false,
        }
    }

    fn to_binary_op(&self) -> (op: Option<BinOp>) {
        match self {
            TokenKind::EqEq => Some(BinOp::Eq),
            TokenKind::Lt => Some(BinOp::Lt),
            TokenKind::Le => Some(BinOp::Le),
            TokenKind::Ne => Some(BinOp::Ne),
            TokenKind::Ge => Some(BinOp::Ge),
            TokenKind::Gt => Some(BinOp::Gt),
            TokenKind::AndAnd => Some(BinOp::And),
            TokenKind::OrOr => Some(BinOp::Or),
            TokenKind::Plus => Some(BinOp::Add),
            TokenKind::Minus => Some(BinOp::Sub),
            TokenKind::Star => Some(BinOp::Mul),
            TokenKind::Slash => Some(BinOp::Div),
            TokenKind::Percent => Some(BinOp::Rem),
            _ => None,
        }
    }

    fn to_unary_op(&self) -> (op: Option<UnOp>) {
        match self {
            TokenKind::Not => Some(UnOp::Not),
            TokenKind::Minus => Some(UnOp::Neg),
            _ => None,
        }
    }
}

/// The statements of a program, or the fault that was met first.
pub open spec fn statements_or_fault(
    result: Result<Vec<Stmt>, ParseError>,
    wanted: Result<Seq<Stmt>, Fault>,
) -> bool {
    match wanted {
        Ok(statements) => result matches Ok(v) && v@ == statements,
        Err(fault) => result matches Err(e) && e@ == fault,
    }
}

/// A parser: it holds a sequence of tokens with a cursor into it, and reads
/// the tokens from the cursor on as a program.
pub trait Parser {
    /// The parser can be used.
    spec fn ready(&self) -> bool;

    /// The tokens that the parser holds.
    spec fn input(&self) -> Seq<Token>;

    /// The cursor: the number of tokens that have been taken.
    spec fn taken(&self) -> nat;

    /// The statements of the program in their order, or the first fault.
    fn parse(&mut self) -> (result: Result<Vec<Stmt>, ParseError>)
        requires
            old(self).ready(),
        ensures
            final(self).ready(),
            final(self).input() == old(self).input(),
            statements_or_fault(result, parse_program(old(self).input(), old(self).taken())),
    ;
}

} // verus!
