//! The grammar, as functions from a sequence of tokens and a position in it
//! to the tree that stands there and the number of tokens that it takes.
//!
//! ```text
//! program     := declaration* EOF
//! declaration := "const" IDENT "=" expression ";"
//!              | "var"   IDENT "=" expression ";"
//!              | statement
//! statement   := "print" expression ";"
//!              | expression ";"
//! expression  := equality
//! equality    := comparison (("==" | "!=") comparison)*
//! comparison  := term (("<" | "<=" | ">" | ">=") term)*
//! term        := factor (("+" | "-") factor)*
//! factor      := unary (("*" | "/") unary)*
//! unary       := ("!" | "-") unary | primary
//! primary     := LITERAL | IDENTIFIER | "(" expression ")"
//! ```

use crate::ast::{
    binary_expr, literal_expr, unary_expr, variable_expr, BinOp, Decl, DeclKind, Expr, Stmt,
    StmtKind, UnOp,
};
use crate::token::{DelimDir, DelimType, Keyword, Token, TokenKind};
use vstd::prelude::*;

verus! {

/// Why a sequence of tokens is no program, by the texts of the message.
pub enum Fault {
    /// A message.
    Default(Seq<char>),
    /// The token that is missing, and the production that misses it.
    ExpectedToken(Seq<char>, Seq<char>),
}

/// The four tiers of binary operators, from the loosest to the tightest.
#[derive(Clone, Copy, Debug, PartialEq, Eq, Structural)]
pub enum Level {
    Equality,
    Comparison,
    Term,
    Factor,
}

impl Level {
    /// Whether `op` is an operator of the tier.
    pub open spec fn has(self, op: BinOp) -> bool {
        match self {
            Level::Equality => op == BinOp::Eq || op == BinOp::Ne,
            Level::Comparison => op == BinOp::Gt || op == BinOp::Ge || op == BinOp::Lt || op
                == BinOp::Le,
            Level::Term => op == BinOp::Add || op == BinOp::Sub,
            Level::Factor => op == BinOp::Mul || op == BinOp::Div,
        }
    }

    /// Tighter tiers have smaller numbers.
    pub open spec fn order(self) -> nat {
        match self {
            Level::Equality => 4,
            Level::Comparison => 3,
            Level::Term => 2,
            Level::Factor => 1,
        }
    }
}

/// The binary operator that a token stands for.
pub open spec fn binary_op_of(kind: TokenKind) -> Option<BinOp> {
    match kind {
        TokenKind::EqEq => Some(BinOp::Eq),
        TokenKind::Lt => Some(BinOp::Lt),
        TokenKind::Le => Some(BinOp::Le),
        TokenKind::Ne => Some(BinOp::Ne),
        TokenKind::Ge => Some(BinOp::Ge),
        TokenKind::Gt => Some(BinOp::Gt),
        TokenKind::AndAnd => Some(BinOp::And),
        TokenKind::OrOr => Some(BinOp::Or),
        TokenKind::Plus => Some(BinOp::Add),
        TokenKind::Minus => Some(BinOp::Sub),
        TokenKind::Star => Some(BinOp::Mul),
        TokenKind::Slash => Some(BinOp::Div),
        TokenKind::Percent => Some(BinOp::Rem),
        _ => None,
    }
}

/// The unary operator that a token stands for.
pub open spec fn unary_op_of(kind: TokenKind) -> Option<UnOp> {
    match kind {
        TokenKind::Not => Some(UnOp::Not),
        TokenKind::Minus => Some(UnOp::Neg),
        _ => None,
    }
}

/// The kind of the token at `pos`, if there is one.
pub open spec fn kind_at(tokens: Seq<Token>, pos: nat) -> Option<TokenKind> {
    if pos < tokens.len() {
        Some(tokens[pos as int].kind)
    } else {
        None
    }
}

/// Number of tokens from `pos` on.
pub open spec fn remaining(tokens: Seq<Token>, pos: nat) -> nat {
    if pos <= tokens.len() {
        (tokens.len() - pos) as nat
    } else {
        0
    }
}

/// The operator of tier `level` at `pos`, if one stands there.
pub open spec fn operator_at(tokens: Seq<Token>, pos: nat, level: Level) -> Option<BinOp> {
    match kind_at(tokens, pos) {
        Some(kind) => match binary_op_of(kind) {
            Some(op) => if level.has(op) {
                Some(op)
            } else {
                None
            },
            None => None,
        },
        None => None,
    }
}

/// The unary operator at `pos`, if one stands there.
pub open spec fn prefix_at(tokens: Seq<Token>, pos: nat) -> Option<UnOp> {
    match kind_at(tokens, pos) {
        Some(kind) => unary_op_of(kind),
        None => None,
    }
}

/// A result that took `by` more tokens.
pub open spec fn shifted<T>(parsed: Result<(T, nat), Fault>, by: nat) -> Result<(T, nat), Fault> {
    match parsed {
        Ok((tree, used)) => Ok((tree, used + by)),
        Err(fault) => Err(fault),
    }
}

/// `primary := LITERAL | IDENTIFIER | "(" expression ")"`
pub open spec fn parse_primary(tokens: Seq<Token>, pos: nat) -> Result<(Expr, nat), Fault>
    decreases remaining(tokens, pos), 0nat,
{
    match kind_at(tokens, pos) {
        Some(TokenKind::Literal(literal)) => Ok((literal_expr(literal), 1)),
        Some(TokenKind::Delim(DelimDir::Open, DelimType::Paren)) => match parse_level(
            tokens,
            pos + 1,
            Level::Equality,
        ) {
            Ok((inner, used)) => if kind_at(tokens, pos + 1 + used) == Some(
                TokenKind::Delim(DelimDir::Close, DelimType::Paren),
            ) {
                Ok((inner, used + 2))
            } else {
                Err(Fault::ExpectedToken(")"@, "primary"@))
            },
            Err(_) => Err(Fault::Default("expected expression in primary"@)),
        },
        Some(TokenKind::Identifier(name)) => Ok((variable_expr(name), 1)),
        _ => Err(Fault::Default("primary expression exhausted"@)),
    }
}

/// `unary := ("!" | "-") unary | primary`
pub open spec fn parse_unary(tokens: Seq<Token>, pos: nat) -> Result<(Expr, nat), Fault>
    decreases remaining(tokens, pos), 1nat,
{
    match prefix_at(tokens, pos) {
        Some(op) => match parse_unary(tokens, pos + 1) {
            Ok((operand, used)) => Ok((unary_expr(op, operand), used + 1)),
            Err(fault) => Err(fault),
        },
        None => parse_primary(tokens, pos),
    }
}

/// An operand of tier `level`: an expression of the next tighter tier.
pub open spec fn parse_operand(tokens: Seq<Token>, pos: nat, level: Level) -> Result<
    (Expr, nat),
    Fault,
>
    decreases remaining(tokens, pos), 2 * level.order(),
{
    match level {
        Level::Equality => parse_level(tokens, pos, Level::Comparison),
        Level::Comparison => parse_level(tokens, pos, Level::Term),
        Level::Term => parse_level(tokens, pos, Level::Factor),
        Level::Factor => parse_unary(tokens, pos),
    }
}

/// What follows the operands read so far, which make up `lhs`: as long as an
/// operator of the tier stands at `pos`, it and the operand behind it are
/// folded into the tree from the left.
pub open spec fn parse_level_rest(tokens: Seq<Token>, pos: nat, level: Level, lhs: Expr) -> Result<
    (Expr, nat),
    Fault,
>
    decreases remaining(tokens, pos), 2 * level.order(),
{
    match operator_at(tokens, pos, level) {
        Some(op) => match parse_operand(tokens, pos + 1, level) {
            Ok((rhs, used)) => shifted(
                parse_level_rest(tokens, pos + 1 + used, level, binary_expr(op, lhs, rhs)),
                1 + used,
            ),
            Err(fault) => Err(fault),
        },
        None => Ok((lhs, 0)),
    }
}

/// One tier of binary operators: `operand (operator operand)*`, nested to the
/// left.
pub open spec fn parse_level(tokens: Seq<Token>, pos: nat, level: Level) -> Result<
    (Expr, nat),
    Fault,
>
    decreases remaining(tokens, pos), 2 * level.order() + 1,
{
    match parse_operand(tokens, pos, level) {
        Ok((lhs, used)) => shifted(parse_level_rest(tokens, pos + used, level, lhs), used),
        Err(fault) => Err(fault),
    }
}

/// `expression := equality`
pub open spec fn parse_expression(tokens: Seq<Token>, pos: nat) -> Result<(Expr, nat), Fault> {
    parse_level(tokens, pos, Level::Equality)
}

/// The statement that declares `name` with the value of `init`.
pub open spec fn decl_stmt(constant: bool, name: String, init: Expr) -> Stmt {
    Stmt {
        kind: StmtKind::Decl(
            Box::new(
                Decl {
                    kind: if constant {
                        DeclKind::Const(name, Box::new(init))
                    } else {
                        DeclKind::Var(name, Box::new(init))
                    },
                },
            ),
        ),
    }
}

/// The name that a declaration's faults give as their place.
pub open spec fn binding_place(constant: bool) -> Seq<char> {
    if constant {
        "const_decl"@
    } else {
        "decl"@
    }
}

/// The message of a declaration without an initializer.
pub open spec fn binding_complaint(constant: bool) -> Seq<char> {
    if constant {
        "expected expression in const_decl"@
    } else {
        "expected expression at var_decl"@
    }
}

/// What follows `const` or `var`: `IDENT "=" expression ";"`
pub open spec fn parse_binding(tokens: Seq<Token>, pos: nat, constant: bool) -> Result<
    (Stmt, nat),
    Fault,
> {
    match kind_at(tokens, pos) {
        Some(TokenKind::Identifier(name)) => if kind_at(tokens, pos + 1) == Some(TokenKind::Eq) {
            match parse_expression(tokens, pos + 2) {
                Ok((init, used)) => if kind_at(tokens, pos + 2 + used) == Some(
                    TokenKind::SemiColon,
                ) {
                    Ok((decl_stmt(constant, name, init), used + 3))
                } else {
                    Err(Fault::ExpectedToken(";"@, binding_place(constant)))
                },
                Err(_) => Err(Fault::Default(binding_complaint(constant))),
            }
        } else {
            Err(Fault::ExpectedToken("="@, binding_place(constant)))
        },
        _ => Err(Fault::ExpectedToken("identifier"@, binding_place(constant))),
    }
}

/// `statement := "print" expression ";" | expression ";"`
pub open spec fn parse_statement(tokens: Seq<Token>, pos: nat) -> Result<(Stmt, nat), Fault> {
    if kind_at(tokens, pos) == Some(TokenKind::Keyword(Keyword::Print)) {
        match parse_expression(tokens, pos + 1) {
            Ok((value, used)) => if kind_at(tokens, pos + 1 + used) == Some(
                TokenKind::SemiColon,
            ) {
                Ok((Stmt { kind: StmtKind::Print(Box::new(value)) }, used + 2))
            } else {
                Err(Fault::ExpectedToken(";"@, "print_statement"@))
            },
            Err(fault) => Err(fault),
        }
    } else {
        match parse_expression(tokens, pos) {
            Ok((value, used)) => if kind_at(tokens, pos + used) == Some(TokenKind::SemiColon) {
                Ok((Stmt { kind: StmtKind::Expr(Box::new(value)) }, used + 1))
            } else {
                Err(Fault::Default("exprStmt: Expected token \";\""@))
            },
            Err(fault) => Err(fault),
        }
    }
}

/// `declaration := "const" ... | "var" ... | statement`
pub open spec fn parse_declaration(tokens: Seq<Token>, pos: nat) -> Result<(Stmt, nat), Fault> {
    if kind_at(tokens, pos) == Some(TokenKind::Keyword(Keyword::Const)) {
        shifted(parse_binding(tokens, pos + 1, true), 1)
    } else if kind_at(tokens, pos) == Some(TokenKind::Keyword(Keyword::Var)) {
        shifted(parse_binding(tokens, pos + 1, false), 1)
    } else {
        parse_statement(tokens, pos)
    }
}

/// Every parse of an expression takes at least one token, and none behind
/// the end of the sequence.
pub proof fn lemma_expression_advances(tokens: Seq<Token>, pos: nat, level: Level)
    ensures
        parse_primary(tokens, pos) matches Ok((_, used)) ==> 0 < used && pos + used
            <= tokens.len(),
        parse_unary(tokens, pos) matches Ok((_, used)) ==> 0 < used && pos + used <= tokens.len(),
        parse_operand(tokens, pos, level) matches Ok((_, used)) ==> 0 < used && pos + used
            <= tokens.len(),
        parse_level(tokens, pos, level) matches Ok((_, used)) ==> 0 < used && pos + used
            <= tokens.len(),
{
    lemma_primary_advances(tokens, pos);
    lemma_unary_advances(tokens, pos);
    lemma_operand_advances(tokens, pos, level);
    lemma_level_advances(tokens, pos, level);
}

proof fn lemma_primary_advances(tokens: Seq<Token>, pos: nat)
    ensures
        parse_primary(tokens, pos) matches Ok((_, used)) ==> 0 < used && pos + used
            <= tokens.len(),
    decreases remaining(tokens, pos), 0nat,
{
    if kind_at(tokens, pos) == Some(TokenKind::Delim(DelimDir::Open, DelimType::Paren)) {
        lemma_level_advances(tokens, pos + 1, Level::Equality);
    }
}

proof fn lemma_unary_advances(tokens: Seq<Token>, pos: nat)
    ensures
        parse_unary(tokens, pos) matches Ok((_, used)) ==> 0 < used && pos + used <= tokens.len(),
    decreases remaining(tokens, pos), 1nat,
{
    if prefix_at(tokens, pos) is Some {
        lemma_unary_advances(tokens, pos + 1);
    } else {
        lemma_primary_advances(tokens, pos);
    }
}

proof fn lemma_operand_advances(tokens: Seq<Token>, pos: nat, level: Level)
    ensures
        parse_operand(tokens, pos, level) matches Ok((_, used)) ==> 0 < used && pos + used
            <= tokens.len(),
    decreases remaining(tokens, pos), 2 * level.order(),
{
    match level {
        Level::Equality => lemma_level_advances(tokens, pos, Level::Comparison),
        Level::Comparison => lemma_level_advances(tokens, pos, Level::Term),
        Level::Term => lemma_level_advances(tokens, pos, Level::Factor),
        Level::Factor => lemma_unary_advances(tokens, pos),
    }
}

proof fn lemma_rest_advances(tokens: Seq<Token>, pos: nat, level: Level, lhs: Expr)
    requires
        pos <= tokens.len(),
    ensures
        parse_level_rest(tokens, pos, level, lhs) matches Ok((_, used)) ==> pos + used
            <= tokens.len(),
    decreases remaining(tokens, pos), 2 * level.order(),
{
    if let Some(op) = operator_at(tokens, pos, level) {
        lemma_operand_advances(tokens, pos + 1, level);
        if let Ok((rhs, used)) = parse_operand(tokens, pos + 1, level) {
            lemma_rest_advances(tokens, pos + 1 + used, level, binary_expr(op, lhs, rhs));
        }
    }
}

proof fn lemma_level_advances(tokens: Seq<Token>, pos: nat, level: Level)
    ensures
        parse_level(tokens, pos, level) matches Ok((_, used)) ==> 0 < used && pos + used
            <= tokens.len(),
    decreases remaining(tokens, pos), 2 * level.order() + 1,
{
    lemma_operand_advances(tokens, pos, level);
    if let Ok((lhs, used)) = parse_operand(tokens, pos, level) {
        lemma_rest_advances(tokens, pos + used, level, lhs);
    }
}

/// Every parse of a declaration or statement takes at least one token, and
/// none behind the end of the sequence.
pub proof fn lemma_declaration_advances(tokens: Seq<Token>, pos: nat)
    ensures
        parse_declaration(tokens, pos) matches Ok((_, used)) ==> 0 < used && pos + used
            <= tokens.len(),
{
    lemma_expression_advances(tokens, pos, Level::Equality);
    lemma_expression_advances(tokens, pos + 1, Level::Equality);
    lemma_expression_advances(tokens, pos + 3, Level::Equality);
}

/// `program := declaration* EOF`
pub open spec fn parse_program(tokens: Seq<Token>, pos: nat) -> Result<Seq<Stmt>, Fault>
    decreases remaining(tokens, pos),
{
    if kind_at(tokens, pos) == Some(TokenKind::Eof) {
        Ok(Seq::empty())
    } else {
        match parse_declaration(tokens, pos) {
            Ok((first, used)) => {
                proof {
                    lemma_declaration_advances(tokens, pos);
                }
                match parse_program(tokens, pos + used) {
                    Ok(others) => Ok(seq![first] + others),
                    Err(fault) => Err(fault),
                }
            },
            Err(fault) => Err(fault),
        }
    }
}

} // verus!
