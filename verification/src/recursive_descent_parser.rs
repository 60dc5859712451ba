//! The parser: recursive descent over a sequence of tokens, one function for
//! each production of the grammar.

use crate::ast::{BinOp, Decl, DeclKind, Expr, ExprKind, Stmt, StmtKind, UnOp};
use crate::grammar::{
    kind_at, lemma_declaration_advances, lemma_expression_advances, operator_at, parse_binding,
    parse_declaration, parse_expression, parse_level, parse_level_rest, parse_operand,
    parse_primary, parse_program, parse_statement, parse_unary, prefix_at, remaining, shifted,
    Fault, Level,
};
use crate::parse::{statements_or_fault, ParseError, Parser, TokenKindExtensions};
use crate::token::{DelimDir, DelimType, Keyword, Literal, Token, TokenKind};
use vstd::prelude::*;

verus! {

/// The tree of a production with the cursor behind it, or the fault.
pub open spec fn agrees<T>(
    result: Result<T, ParseError>,
    start: nat,
    end: nat,
    wanted: Result<(T, nat), Fault>,
) -> bool {
    match wanted {
        Ok((tree, used)) => result matches Ok(t) && t == tree && end == start + used,
        Err(fault) => result matches Err(e) && e@ == fault,
    }
}

/// Statements read so far, followed by what the rest of the program gives.
pub open spec fn followed_by(done: Seq<Stmt>, rest: Result<Seq<Stmt>, Fault>) -> Result<
    Seq<Stmt>,
    Fault,
> {
    match rest {
        Ok(others) => Ok(done + others),
        Err(fault) => Err(fault),
    }
}

/// A sequence of tokens with a cursor into it.
pub struct RecursiveDescentParser<'a> {
    position: usize,
    tokens: &'a Vec<Token>,
}

impl<'a> RecursiveDescentParser<'a> {
    /// The tokens that are parsed.
    pub closed spec fn tokens(&self) -> Seq<Token> {
        self.tokens@
    }

    /// The cursor: the number of tokens that have been taken.
    pub closed spec fn pos(&self) -> nat {
        self.position as nat
    }

    /// The cursor does not stand behind the end of the tokens.
    pub open spec fn wf(&self) -> bool {
        self.pos() <= self.tokens().len()
    }

    /// A parser at the start of `tokens`.
    pub fn new(tokens: &'a Vec<Token>) -> (parser: Self)
        ensures
            parser.wf(),
            parser.pos() == 0,
            parser.tokens() == tokens@,
    {
        Self { position: 0, tokens }
    }

    /// The token at the cursor.
    fn token(&self) -> (token: Option<&Token>)
        requires
            self.wf(),
        ensures
            token is Some <==> self.pos() < self.tokens().len(),
            token matches Some(t) ==> *t == self.tokens()[self.pos() as int],
    {
        if self.position < self.tokens.len() {
            Some(&self.tokens[self.position])
        } else {
            None
        }
    }

    /// Takes the token at the cursor.
    fn advance(&mut self)
        requires
            old(self).pos() < old(self).tokens().len(),
        ensures
            final(self).pos() == old(self).pos() + 1,
            final(self).tokens() == old(self).tokens(),
    {
        assert(self.tokens.len() <= usize::MAX);
        self.position += 1;
    }

    /// Takes the token at the cursor if it is of the same variant as `kind`.
    fn match_variant(&mut self, kind: &TokenKind) -> (matched: bool)
        requires
            old(self).wf(),
        ensures
            final(self).wf(),
            final(self).tokens() == old(self).tokens(),
            matched == (kind_at(old(self).tokens(), old(self).pos()) matches Some(k)
                && k.variant() == kind.variant()),
            final(self).pos() == old(self).pos() + if matched {
                1nat
            } else {
                0nat
            },
    {
        let matched = match self.token() {
            Some(token) => token.kind.same_variant(kind),
            None => false,
        };
        if matched {
            self.advance();
        }
        matched
    }

    /// Takes the token at the cursor if it is the given keyword.
    fn match_keyword(&mut self, keyword: Keyword) -> (matched: bool)
        requires
            old(self).wf(),
        ensures
            final(self).wf(),
            final(self).tokens() == old(self).tokens(),
            matched == (kind_at(old(self).tokens(), old(self).pos()) == Some(
                TokenKind::Keyword(keyword),
            )),
            final(self).pos() == old(self).pos() + if matched {
                1nat
            } else {
                0nat
            },
    {
        let matched = match self.token() {
            Some(token) => match &token.kind {
                TokenKind::Keyword(found) => *found == keyword,
                _ => false,
            },
            None => false,
        };
        if matched {
            self.advance();
        }
        matched
    }

    /// Takes the token at the cursor if it is the given parenthesis.
    fn match_paren(&mut self, direction: DelimDir) -> (matched: bool)
        requires
            old(self).wf(),
        ensures
            final(self).wf(),
            final(self).tokens() == old(self).tokens(),
            matched == (kind_at(old(self).tokens(), old(self).pos()) == Some(
                TokenKind::Delim(direction, DelimType::Paren),
            )),
            final(self).pos() == old(self).pos() + if matched {
                1nat
            } else {
                0nat
            },
    {
        let matched = match self.token() {
            Some(token) => match &token.kind {
                TokenKind::Delim(found, DelimType::Paren) => *found == direction,
                _ => false,
            },
            None => false,
        };
        if matched {
            self.advance();
        }
        matched
    }

    /// Takes the token at the cursor if it is an identifier, and gives its
    /// name.
    fn match_identifier(&mut self) -> (name: Option<String>)
        requires
            old(self).wf(),
        ensures
            final(self).wf(),
            final(self).tokens() == old(self).tokens(),
            match kind_at(old(self).tokens(), old(self).pos()) {
                Some(TokenKind::Identifier(found)) => name == Some(found) && final(self).pos()
                    == old(self).pos() + 1,
                _ => name is None && final(self).pos() == old(self).pos(),
            },
    {
        let name = match self.token() {
            Some(token) => match &token.kind {
                TokenKind::Identifier(identifier) => Some(identifier.clone()),
                _ => None,
            },
            None => None,
        };
        if name.is_some() {
            self.advance();
        }
        name
    }

    /// Takes the token at the cursor if it is a literal, and gives it.
    fn match_literal(&mut self) -> (literal: Option<Literal>)
        requires
            old(self).wf(),
        ensures
            final(self).wf(),
            final(self).tokens() == old(self).tokens(),
            match kind_at(old(self).tokens(), old(self).pos()) {
                Some(TokenKind::Literal(found)) => literal == Some(found) && final(self).pos()
                    == old(self).pos() + 1,
                _ => literal is None && final(self).pos() == old(self).pos(),
            },
    {
        let literal = match self.token() {
            Some(token) => match &token.kind {
                TokenKind::Literal(literal) => Some(literal.clone()),
                _ => None,
            },
            None => None,
        };
        if literal.is_some() {
            self.advance();
        }
        literal
    }

    /// Takes the token at the cursor if it is a binary operator of the given
    /// tier, and gives the operator.
    fn match_binary_op(&mut self, level: Level) -> (op: Option<BinOp>)
        requires
            old(self).wf(),
        ensures
            final(self).wf(),
            final(self).tokens() == old(self).tokens(),
            op == operator_at(old(self).tokens(), old(self).pos(), level),
            final(self).pos() == old(self).pos() + if op is Some {
                1nat
            } else {
                0nat
            },
    {
        let found = match self.token() {
            Some(token) => token.kind.to_binary_op(),
            None => None,
        };
        let op = match found {
            Some(op) => if level_has(level, op) {
                Some(op)
            } else {
                None
            },
            None => None,
        };
        if op.is_some() {
            self.advance();
        }
        op
    }

    /// Takes the token at the cursor if it is a unary operator, and gives the
    /// operator.
    fn match_unary_op(&mut self) -> (op: Option<UnOp>)
        requires
            old(self).wf(),
        ensures
            final(self).wf(),
            final(self).tokens() == old(self).tokens(),
            op == prefix_at(old(self).tokens(), old(self).pos()),
            final(self).pos() == old(self).pos() + if op is Some {
                1nat
            } else {
                0nat
            },
    {
        let op = match self.token() {
            Some(token) => token.kind.to_unary_op(),
            None => None,
        };
        if op.is_some() {
            self.advance();
        }
        op
    }

    /// `primary := LITERAL | IDENTIFIER | "(" expression ")"`
    fn primary(&mut self) -> (result: Result<Expr, ParseError>)
        requires
            old(self).wf(),
        ensures
            final(self).wf(),
            final(self).tokens() == old(self).tokens(),
            agrees(
                result,
                old(self).pos(),
                final(self).pos(),
                parse_primary(old(self).tokens(), old(self).pos()),
            ),
        decreases remaining(old(self).tokens(), old(self).pos()), 0nat,
    {
        if let Some(literal) = self.match_literal() {
            Ok(Expr { kind: ExprKind::Literal(literal) })
        } else if self.match_paren(DelimDir::Open) {
            match self.binary_level(Level::Equality) {
                Ok(inner) => if self.match_paren(DelimDir::Close) {
                    Ok(inner)
                } else {
                    Err(ParseError::expected(")", "primary"))
                },
                Err(_) => Err(ParseError::plain("expected expression in primary")),
            }
        } else if let Some(name) = self.match_identifier() {
            Ok(Expr { kind: ExprKind::Variable(name) })
        } else {
            Err(ParseError::plain("primary expression exhausted"))
        }
    }

    /// `unary := ("!" | "-") unary | primary`
    fn unary(&mut self) -> (result: Result<Expr, ParseError>)
        requires
            old(self).wf(),
        ensures
            final(self).wf(),
            final(self).tokens() == old(self).tokens(),
            agrees(
                result,
                old(self).pos(),
                final(self).pos(),
                parse_unary(old(self).tokens(), old(self).pos()),
            ),
        decreases remaining(old(self).tokens(), old(self).pos()), 1nat,
    {
        if let Some(op) = self.match_unary_op() {
            match self.unary() {
                Ok(operand) => Ok(Expr { kind: ExprKind::Unary(op, Box::new(operand)) }),
                Err(fault) => Err(fault),
            }
        } else {
            self.primary()
        }
    }

    /// An operand of the given tier: an expression of the next tighter tier.
    fn operand(&mut self, level: Level) -> (result: Result<Expr, ParseError>)
        requires
            old(self).wf(),
        ensures
            final(self).wf(),
            final(self).tokens() == old(self).tokens(),
            agrees(
                result,
                old(self).pos(),
                final(self).pos(),
                parse_operand(old(self).tokens(), old(self).pos(), level),
            ),
        decreases remaining(old(self).tokens(), old(self).pos()), 2 * level.order(),
    {
        match level {
            Level::Equality => self.binary_level(Level::Comparison),
            Level::Comparison => self.binary_level(Level::Term),
            Level::Term => self.binary_level(Level::Factor),
            Level::Factor => self.unary(),
        }
    }

    /// One tier of binary operators: an operand, then as many pairs of an
    /// operator and an operand as follow, folded into a tree from the left.
    fn binary_level(&mut self, level: Level) -> (result: Result<Expr, ParseError>)
        requires
            old(self).wf(),
        ensures
            final(self).wf(),
            final(self).tokens() == old(self).tokens(),
            agrees(
                result,
                old(self).pos(),
                final(self).pos(),
                parse_level(old(self).tokens(), old(self).pos(), level),
            ),
        decreases remaining(old(self).tokens(), old(self).pos()), 2 * level.order() + 1,
    {
        let ghost start = self.pos();
        let ghost tokens = self.tokens();
        let mut lhs = match self.operand(level) {
            Ok(first) => first,
            Err(fault) => {
                return Err(fault);
            },
        };
        loop
            invariant
                self.wf(),
                self.tokens() == tokens,
                tokens == old(self).tokens(),
                start == old(self).pos(),
                start <= self.pos(),
                parse_level(tokens, start, level) == shifted(
                    parse_level_rest(tokens, self.pos(), level, lhs),
                    (self.pos() - start) as nat,
                ),
            decreases remaining(tokens, self.pos()),
        {
            let ghost before = self.pos();
            let op = match self.match_binary_op(level) {
                Some(op) => op,
                None => {
                    return Ok(lhs);
                },
            };
            let rhs = match self.operand(level) {
                Ok(rhs) => rhs,
                Err(fault) => {
                    return Err(fault);
                },
            };
            proof {
                lemma_expression_advances(tokens, before + 1, level);
            }
            lhs = Expr { kind: ExprKind::Binary(op, Box::new(lhs), Box::new(rhs)) };
        }
    }

    /// `expression := equality`
    fn expression(&mut self) -> (result: Result<Expr, ParseError>)
        requires
            old(self).wf(),
        ensures
            final(self).wf(),
            final(self).tokens() == old(self).tokens(),
            agrees(
                result,
                old(self).pos(),
                final(self).pos(),
                parse_expression(old(self).tokens(), old(self).pos()),
            ),
    {
        self.equality()
    }

    /// `equality := comparison (("==" | "!=") comparison)*`
    fn equality(&mut self) -> (result: Result<Expr, ParseError>)
        requires
            old(self).wf(),
        ensures
            final(self).wf(),
            final(self).tokens() == old(self).tokens(),
            agrees(
                result,
                old(self).pos(),
                final(self).pos(),
                parse_level(old(self).tokens(), old(self).pos(), Level::Equality),
            ),
    {
        self.binary_level(Level::Equality)
    }

    /// What follows `const` or `var`: `IDENT "=" expression ";"`
    fn binding(&mut self, constant: bool) -> (result: Result<Stmt, ParseError>)
        requires
            old(self).wf(),
        ensures
            final(self).wf(),
            final(self).tokens() == old(self).tokens(),
            agrees(
                result,
                old(self).pos(),
                final(self).pos(),
                parse_binding(old(self).tokens(), old(self).pos(), constant),
            ),
    {
        let place = if constant {
            "const_decl"
        } else {
            "decl"
        };
        let identifier = match self.match_identifier() {
            Some(identifier) => identifier,
            None => {
                return Err(ParseError::expected("identifier", place));
            },
        };
        if !self.match_variant(&TokenKind::Eq) {
            return Err(ParseError::expected("=", place));
        }
        let expr = match self.expression() {
            Ok(expr) => expr,
            Err(_) => {
                return Err(
                    ParseError::plain(
                        if constant {
                            "expected expression in const_decl"
                        } else {
                            "expected expression at var_decl"
                        },
                    ),
                );
            },
        };
        if !self.match_variant(&TokenKind::SemiColon) {
            return Err(ParseError::expected(";", place));
        }
        let kind = if constant {
            DeclKind::Const(identifier, Box::new(expr))
        } else {
            DeclKind::Var(identifier, Box::new(expr))
        };
        Ok(Stmt { kind: StmtKind::Decl(Box::new(Decl { kind })) })
    }

    /// `"const" IDENT "=" expression ";"`, behind the keyword.
    fn const_decl(&mut self) -> (result: Result<Stmt, ParseError>)
        requires
            old(self).wf(),
        ensures
            final(self).wf(),
            final(self).tokens() == old(self).tokens(),
            agrees(
                result,
                old(self).pos(),
                final(self).pos(),
                parse_binding(old(self).tokens(), old(self).pos(), true),
            ),
    {
        self.binding(true)
    }

    /// `"var" IDENT "=" expression ";"`, behind the keyword.
    fn var_decl(&mut self) -> (result: Result<Stmt, ParseError>)
        requires
            old(self).wf(),
        ensures
            final(self).wf(),
            final(self).tokens() == old(self).tokens(),
            agrees(
                result,
                old(self).pos(),
                final(self).pos(),
                parse_binding(old(self).tokens(), old(self).pos(), false),
            ),
    {
        self.binding(false)
    }

    /// `"print" expression ";"`, behind the keyword.
    fn print_statement(&mut self) -> (result: Result<Stmt, ParseError>)
        requires
            old(self).wf(),
        ensures
            final(self).wf(),
            final(self).tokens() == old(self).tokens(),
            match parse_expression(old(self).tokens(), old(self).pos()) {
                Ok((value, used)) => if kind_at(old(self).tokens(), old(self).pos() + used)
                    == Some(TokenKind::SemiColon) {
                    &&& result matches Ok(s)
                    &&& s == (Stmt { kind: StmtKind::Print(Box::new(value)) })
                    &&& final(self).pos() == old(self).pos() + used + 1
                } else {
                    result matches Err(e) && e@ == Fault::ExpectedToken(
                        ";"@,
                        "print_statement"@,
                    )
                },
                Err(fault) => result matches Err(e) && e@ == fault,
            },
    {
        let expr = match self.expression() {
            Ok(expr) => expr,
            Err(fault) => {
                return Err(fault);
            },
        };
        if !self.match_variant(&TokenKind::SemiColon) {
            return Err(ParseError::expected(";", "print_statement"));
        }
        Ok(Stmt { kind: StmtKind::Print(Box::new(expr)) })
    }

    /// `expression ";"`
    fn expression_statement(&mut self) -> (result: Result<Stmt, ParseError>)
        requires
            old(self).wf(),
        ensures
            final(self).wf(),
            final(self).tokens() == old(self).tokens(),
            match parse_expression(old(self).tokens(), old(self).pos()) {
                Ok((value, used)) => if kind_at(old(self).tokens(), old(self).pos() + used)
                    == Some(TokenKind::SemiColon) {
                    &&& result matches Ok(s)
                    &&& s == (Stmt { kind: StmtKind::Expr(Box::new(value)) })
                    &&& final(self).pos() == old(self).pos() + used + 1
                } else {
                    result matches Err(e) && e@ == Fault::Default(
                        "exprStmt: Expected token \";\""@,
                    )
                },
                Err(fault) => result matches Err(e) && e@ == fault,
            },
    {
        let expr = match self.expression() {
            Ok(expr) => expr,
            Err(fault) => {
                return Err(fault);
            },
        };
        if !self.match_variant(&TokenKind::SemiColon) {
            return Err(ParseError::plain("exprStmt: Expected token \";\""));
        }
        Ok(Stmt { kind: StmtKind::Expr(Box::new(expr)) })
    }

    /// `statement := "print" expression ";" | expression ";"`
    fn statement(&mut self) -> (result: Result<Stmt, ParseError>)
        requires
            old(self).wf(),
        ensures
            final(self).wf(),
            final(self).tokens() == old(self).tokens(),
            agrees(
                result,
                old(self).pos(),
                final(self).pos(),
                parse_statement(old(self).tokens(), old(self).pos()),
            ),
    {
        if self.match_keyword(Keyword::Print) {
            self.print_statement()
        } else {
            self.expression_statement()
        }
    }

    /// `declaration := "const" ... | "var" ... | statement`
    fn decl(&mut self) -> (result: Result<Stmt, ParseError>)
        requires
            old(self).wf(),
        ensures
            final(self).wf(),
            final(self).tokens() == old(self).tokens(),
            agrees(
                result,
                old(self).pos(),
                final(self).pos(),
                parse_declaration(old(self).tokens(), old(self).pos()),
            ),
    {
        if self.match_keyword(Keyword::Const) {
            self.const_decl()
        } else if self.match_keyword(Keyword::Var) {
            self.var_decl()
        } else {
            self.statement()
        }
    }

    /// `program := declaration* EOF`
    fn program(&mut self) -> (result: Result<Vec<Stmt>, ParseError>)
        requires
            old(self).wf(),
        ensures
            final(self).wf(),
            final(self).tokens() == old(self).tokens(),
            statements_or_fault(result, parse_program(old(self).tokens(), old(self).pos())),
    {
        let ghost start = self.pos();
        let ghost tokens = self.tokens();
        let mut statements: Vec<Stmt> = Vec::new();
        loop
            invariant
                self.wf(),
                self.tokens() == tokens,
                tokens == old(self).tokens(),
                start == old(self).pos(),
                parse_program(tokens, start) == followed_by(
                    statements@,
                    parse_program(tokens, self.pos()),
                ),
            decreases remaining(tokens, self.pos()),
        {
            let ghost before = self.pos();
            if self.match_variant(&TokenKind::Eof) {
                assert(statements@ + Seq::<Stmt>::empty() =~= statements@);
                return Ok(statements);
            }
            let statement = match self.decl() {
                Ok(statement) => statement,
                Err(fault) => {
                    return Err(fault);
                },
            };
            proof {
                lemma_declaration_advances(tokens, before);
                let rest = parse_program(tokens, self.pos());
                if let Ok(others) = rest {
                    assert(statements@.push(statement) + others =~= statements@ + (seq![statement]
                        + others));
                }
            }
            statements.push(statement);
        }
    }
}

impl<'a> Parser for RecursiveDescentParser<'a> {
    open spec fn ready(&self) -> bool {
        self.wf()
    }

    open spec fn input(&self) -> Seq<Token> {
        self.tokens()
    }

    open spec fn taken(&self) -> nat {
        self.pos()
    }

    fn parse(&mut self) -> (result: Result<Vec<Stmt>, ParseError>) {
        self.program()
    }
}

/// Whether `op` is an operator of the tier.
pub fn level_has(level: Level, op: BinOp) -> (has: bool)
    ensures
        has == level.has(op),
{
    match level {
        Level::Equality => op == BinOp::Eq || op == BinOp::Ne,
        Level::Comparison => op == BinOp::Gt || op == BinOp::Ge || op == BinOp::Lt || op
            == BinOp::Le,
        Level::Term => op == BinOp::Add || op == BinOp::Sub,
        Level::Factor => op == BinOp::Mul || op == BinOp::Div,
    }
}

} // verus!
