//! From a tree back to tokens. Every operator with two operands is written
//! inside parentheses of its own, so that the tokens parse to the tree that
//! they were written from, whatever the precedence of the operators.

use crate::ast::{BinOp, Decl, DeclKind, Expr, ExprKind, Stmt, StmtKind, UnOp};
use crate::grammar::{
    binary_op_of, kind_at, operator_at, parse_declaration, parse_expression, parse_level,
    parse_level_rest, parse_operand, parse_primary, parse_program, parse_unary, prefix_at,
    unary_op_of, Fault, Level,
};
use crate::span::Span;
use crate::token::{DelimDir, DelimType, Keyword, Literal, Token, TokenKind};
use vstd::prelude::*;

verus! {

/// A token that stands in no source.
pub open spec fn loose(kind: TokenKind) -> Token {
    Token { kind, span: Span { start: 0, end: 0 } }
}

/// The token of a unary operator.
pub open spec fn unary_token(op: UnOp) -> TokenKind {
    match op {
        UnOp::Not => TokenKind::Not,
        UnOp::Neg => TokenKind::Minus,
    }
}

/// The token of a binary operator.
pub open spec fn binary_token(op: BinOp) -> TokenKind {
    match op {
        BinOp::Add => TokenKind::Plus,
        BinOp::Sub => TokenKind::Minus,
        BinOp::Mul => TokenKind::Star,
        BinOp::Div => TokenKind::Slash,
        BinOp::Rem => TokenKind::Percent,
        BinOp::And => TokenKind::AndAnd,
        BinOp::Or => TokenKind::OrOr,
        BinOp::Eq => TokenKind::EqEq,
        BinOp::Lt => TokenKind::Lt,
        BinOp::Le => TokenKind::Le,
        BinOp::Ne => TokenKind::Ne,
        BinOp::Ge => TokenKind::Ge,
        BinOp::Gt => TokenKind::Gt,
    }
}

/// The tier of a binary operator. The grammar has no tier for `%`, `&&` and
/// `||`.
pub open spec fn level_of(op: BinOp) -> Option<Level> {
    match op {
        BinOp::Eq | BinOp::Ne => Some(Level::Equality),
        BinOp::Lt | BinOp::Le | BinOp::Ge | BinOp::Gt => Some(Level::Comparison),
        BinOp::Add | BinOp::Sub => Some(Level::Term),
        BinOp::Mul | BinOp::Div => Some(Level::Factor),
        BinOp::Rem | BinOp::And | BinOp::Or => None,
    }
}

/// An expression that the grammar can express: all of its binary operators
/// have a tier.
pub open spec fn writable(expr: Expr) -> bool
    decreases expr,
{
    match expr.kind {
        ExprKind::Literal(_) => true,
        ExprKind::Variable(_) => true,
        ExprKind::Unary(_, operand) => writable(*operand),
        ExprKind::Binary(op, lhs, rhs) => level_of(op) is Some && writable(*lhs) && writable(*rhs),
    }
}

/// The tokens of an expression.
pub open spec fn expr_tokens(expr: Expr) -> Seq<Token>
    decreases expr,
{
    match expr.kind {
        ExprKind::Literal(literal) => seq![loose(TokenKind::Literal(literal))],
        ExprKind::Variable(name) => seq![loose(TokenKind::Identifier(name))],
        ExprKind::Unary(op, operand) => seq![loose(unary_token(op))] + expr_tokens(*operand),
        ExprKind::Binary(op, lhs, rhs) => seq![
            loose(TokenKind::Delim(DelimDir::Open, DelimType::Paren)),
        ] + expr_tokens(*lhs) + seq![loose(binary_token(op))] + expr_tokens(*rhs) + seq![
            loose(TokenKind::Delim(DelimDir::Close, DelimType::Paren)),
        ],
    }
}

/// The tokens `piece` stand in `tokens` from `pos` on.
pub open spec fn stands_at(tokens: Seq<Token>, pos: nat, piece: Seq<Token>) -> bool {
    &&& pos + piece.len() <= tokens.len()
    &&& forall|i: int| 0 <= i < piece.len() ==> tokens[pos + i] == #[trigger] piece[i]
}

/// No binary operator of any tier stands at `pos`.
pub open spec fn no_operator_at(tokens: Seq<Token>, pos: nat) -> bool {
    match kind_at(tokens, pos) {
        Some(kind) => binary_op_of(kind) is None,
        None => true,
    }
}

/// A tier whose operand is followed by none of its operators is that
/// operand.
proof fn lemma_level_stops(tokens: Seq<Token>, pos: nat, level: Level, tree: Expr, used: nat)
    requires
        parse_operand(tokens, pos, level) == Ok::<(Expr, nat), Fault>((tree, used)),
        operator_at(tokens, pos + used, level) is None,
    ensures
        parse_level(tokens, pos, level) == Ok::<(Expr, nat), Fault>((tree, used)),
{
}

/// A tier with an operand, one of its operators, another operand and then
/// none of its operators is the two operands under the operator.
proof fn lemma_level_folds(
    tokens: Seq<Token>,
    pos: nat,
    level: Level,
    lhs: Expr,
    lhs_used: nat,
    op: BinOp,
    rhs: Expr,
    rhs_used: nat,
)
    requires
        parse_operand(tokens, pos, level) == Ok::<(Expr, nat), Fault>((lhs, lhs_used)),
        operator_at(tokens, pos + lhs_used, level) == Some(op),
        parse_operand(tokens, pos + lhs_used + 1, level) == Ok::<(Expr, nat), Fault>(
            (rhs, rhs_used),
        ),
        operator_at(tokens, pos + lhs_used + 1 + rhs_used, level) is None,
    ensures
        parse_level(tokens, pos, level) == Ok::<(Expr, nat), Fault>(
            (
                Expr { kind: ExprKind::Binary(op, Box::new(lhs), Box::new(rhs)) },
                lhs_used + 1 + rhs_used,
            ),
        ),
{
    reveal_with_fuel(parse_level_rest, 3);
    let folded = Expr { kind: ExprKind::Binary(op, Box::new(lhs), Box::new(rhs)) };
    assert(parse_level_rest(tokens, pos + lhs_used + 1 + rhs_used, level, folded) == Ok::<
        (Expr, nat),
        Fault,
    >((folded, 0)));
}

/// What reads as an operand of the tightest tier and is followed by no
/// binary operator reads as the same expression on every tier.
proof fn lemma_unary_is_every_level(tokens: Seq<Token>, pos: nat, tree: Expr, used: nat)
    requires
        parse_unary(tokens, pos) == Ok::<(Expr, nat), Fault>((tree, used)),
        no_operator_at(tokens, pos + used),
    ensures
        forall|level: Level| #[trigger]
            parse_level(tokens, pos, level) == Ok::<(Expr, nat), Fault>((tree, used)),
        forall|level: Level| #[trigger]
            parse_operand(tokens, pos, level) == Ok::<(Expr, nat), Fault>((tree, used)),
{
    lemma_level_stops(tokens, pos, Level::Factor, tree, used);
    lemma_level_stops(tokens, pos, Level::Term, tree, used);
    lemma_level_stops(tokens, pos, Level::Comparison, tree, used);
    lemma_level_stops(tokens, pos, Level::Equality, tree, used);
}

/// Two operands of the tightest tier with a binary operator between them
/// and no binary operator behind them read, as an expression, as the two
/// under that operator.
proof fn lemma_pair_is_expression(
    tokens: Seq<Token>,
    pos: nat,
    lhs: Expr,
    lhs_used: nat,
    op: BinOp,
    rhs: Expr,
    rhs_used: nat,
)
    requires
        parse_unary(tokens, pos) == Ok::<(Expr, nat), Fault>((lhs, lhs_used)),
        level_of(op) is Some,
        kind_at(tokens, pos + lhs_used) == Some(binary_token(op)),
        parse_unary(tokens, pos + lhs_used + 1) == Ok::<(Expr, nat), Fault>((rhs, rhs_used)),
        no_operator_at(tokens, pos + lhs_used + 1 + rhs_used),
    ensures
        parse_expression(tokens, pos) == Ok::<(Expr, nat), Fault>(
            (
                Expr { kind: ExprKind::Binary(op, Box::new(lhs), Box::new(rhs)) },
                lhs_used + 1 + rhs_used,
            ),
        ),
{
    let folded = Expr { kind: ExprKind::Binary(op, Box::new(lhs), Box::new(rhs)) };
    let all = lhs_used + 1 + rhs_used;
    let tier = level_of(op)->0;
    lemma_unary_is_every_level(tokens, pos + lhs_used + 1, rhs, rhs_used);
    assert(parse_operand(tokens, pos + lhs_used + 1, tier) == Ok::<(Expr, nat), Fault>(
        (rhs, rhs_used),
    ));
    assert(binary_op_of(binary_token(op)) == Some(op));
    assert(operator_at(tokens, pos + lhs_used, tier) == Some(op));
    // Below the operator's tier the left operand stands alone.
    if tier.order() > 1 {
        lemma_level_stops(tokens, pos, Level::Factor, lhs, lhs_used);
    }
    if tier.order() > 2 {
        lemma_level_stops(tokens, pos, Level::Term, lhs, lhs_used);
    }
    if tier.order() > 3 {
        lemma_level_stops(tokens, pos, Level::Comparison, lhs, lhs_used);
    }
    // On its tier the two are folded.
    lemma_level_folds(tokens, pos, tier, lhs, lhs_used, op, rhs, rhs_used);
    // Above it nothing follows.
    if tier.order() < 2 {
        lemma_level_stops(tokens, pos, Level::Term, folded, all as nat);
    }
    if tier.order() < 3 {
        lemma_level_stops(tokens, pos, Level::Comparison, folded, all as nat);
    }
    if tier.order() < 4 {
        lemma_level_stops(tokens, pos, Level::Equality, folded, all as nat);
    }
}

/// The tokens of an expression begin with none that begins a declaration or
/// a print statement or ends the input, and none of them is left out.
pub proof fn lemma_first_token(expr: Expr)
    ensures
        expr_tokens(expr).len() > 0,
        !(expr_tokens(expr)[0].kind is Keyword),
        !(expr_tokens(expr)[0].kind is Eof),
{
    match expr.kind {
        ExprKind::Literal(_) => {},
        ExprKind::Variable(_) => {},
        ExprKind::Unary(op, operand) => {
            assert(expr_tokens(expr)[0] == loose(unary_token(op)));
        },
        ExprKind::Binary(op, lhs, rhs) => {
            assert(expr_tokens(expr)[0] == loose(
                TokenKind::Delim(DelimDir::Open, DelimType::Paren),
            ));
        },
    }
}

/// The tokens of an expression read back, as an operand of the tightest
/// tier, as that expression.
pub proof fn lemma_expression_reads_back(tokens: Seq<Token>, pos: nat, expr: Expr)
    requires
        writable(expr),
        stands_at(tokens, pos, expr_tokens(expr)),
    ensures
        parse_unary(tokens, pos) == Ok::<(Expr, nat), Fault>((expr, expr_tokens(expr).len())),
    decreases expr,
{
    let piece = expr_tokens(expr);
    match expr.kind {
        ExprKind::Literal(literal) => {
            assert(tokens[pos as int + 0] == piece[0]);
            assert(kind_at(tokens, pos) == Some(TokenKind::Literal(literal)));
            assert(prefix_at(tokens, pos) is None);
            assert(parse_primary(tokens, pos) == Ok::<(Expr, nat), Fault>((expr, 1)));
        },
        ExprKind::Variable(name) => {
            assert(tokens[pos as int + 0] == piece[0]);
            assert(kind_at(tokens, pos) == Some(TokenKind::Identifier(name)));
            assert(prefix_at(tokens, pos) is None);
            assert(parse_primary(tokens, pos) == Ok::<(Expr, nat), Fault>((expr, 1)));
        },
        ExprKind::Unary(op, operand) => {
            let inner = expr_tokens(*operand);
            assert(tokens[pos as int + 0] == piece[0]);
            assert(unary_op_of(unary_token(op)) == Some(op));
            assert(stands_at(tokens, pos + 1, inner)) by {
                assert forall|i: int| 0 <= i < inner.len() implies tokens[pos as int + 1 + i]
                    == #[trigger] inner[i] by {
                    assert(piece[i + 1] == inner[i]);
                }
            }
            lemma_expression_reads_back(tokens, pos + 1, *operand);
        },
        ExprKind::Binary(op, lhs, rhs) => {
            let left = expr_tokens(*lhs);
            let right = expr_tokens(*rhs);
            let open = loose(TokenKind::Delim(DelimDir::Open, DelimType::Paren));
            let close = loose(TokenKind::Delim(DelimDir::Close, DelimType::Paren));
            assert(piece.len() == left.len() + right.len() + 3);
            assert(piece[0] == open);
            assert(tokens[pos as int + 0] == piece[0]);
            assert(stands_at(tokens, pos + 1, left)) by {
                assert forall|i: int| 0 <= i < left.len() implies tokens[pos as int + 1 + i]
                    == #[trigger] left[i] by {
                    assert(piece[i + 1] == left[i]);
                }
            }
            lemma_expression_reads_back(tokens, pos + 1, *lhs);
            let behind_left = left.len() as int + 1;
            assert(piece[behind_left] == loose(binary_token(op)));
            assert(tokens[pos as int + behind_left] == piece[behind_left]);
            assert(stands_at(tokens, (pos + behind_left + 1) as nat, right)) by {
                assert forall|i: int| 0 <= i < right.len() implies tokens[pos as int + behind_left + 1
                    + i] == #[trigger] right[i] by {
                    assert(piece[behind_left + 1 + i] == right[i]);
                }
            }
            lemma_expression_reads_back(tokens, (pos + behind_left + 1) as nat, *rhs);
            let behind_right = left.len() as int + right.len() as int + 2;
            assert(piece[behind_right] == close);
            assert(tokens[pos as int + behind_right] == piece[behind_right]);
            lemma_pair_is_expression(
                tokens,
                pos + 1,
                *lhs,
                left.len(),
                op,
                *rhs,
                right.len(),
            );
        },
    }
}

/// Law: an expression that the grammar can express reads back from its
/// tokens, wherever they stand, if no binary operator follows them.
pub proof fn lemma_expression_round_trip(tokens: Seq<Token>, pos: nat, expr: Expr)
    requires
        writable(expr),
        stands_at(tokens, pos, expr_tokens(expr)),
        no_operator_at(tokens, pos + expr_tokens(expr).len()),
    ensures
        parse_expression(tokens, pos) == Ok::<(Expr, nat), Fault>(
            (expr, expr_tokens(expr).len()),
        ),
{
    lemma_expression_reads_back(tokens, pos, expr);
    lemma_unary_is_every_level(tokens, pos, expr, expr_tokens(expr).len());
}

/// A statement that the grammar can express: it is no assignment, and its
/// expression can be expressed.
pub open spec fn writable_stmt(stmt: Stmt) -> bool {
    match stmt.kind {
        StmtKind::Expr(expr) => writable(*expr),
        StmtKind::Print(expr) => writable(*expr),
        StmtKind::Decl(decl) => match decl.kind {
            DeclKind::Const(_, init) => writable(*init),
            DeclKind::Var(_, init) => writable(*init),
        },
        StmtKind::Assign(_, _) => false,
    }
}

/// The tokens of `keyword name = init ;`
pub open spec fn binding_tokens(keyword: Keyword, name: String, init: Expr) -> Seq<Token> {
    seq![
        loose(TokenKind::Keyword(keyword)),
        loose(TokenKind::Identifier(name)),
        loose(TokenKind::Eq),
    ] + expr_tokens(init) + seq![loose(TokenKind::SemiColon)]
}

/// The tokens of a statement.
pub open spec fn stmt_tokens(stmt: Stmt) -> Seq<Token> {
    match stmt.kind {
        StmtKind::Expr(expr) => expr_tokens(*expr) + seq![loose(TokenKind::SemiColon)],
        StmtKind::Print(expr) => seq![loose(TokenKind::Keyword(Keyword::Print))] + expr_tokens(
            *expr,
        ) + seq![loose(TokenKind::SemiColon)],
        StmtKind::Decl(decl) => match decl.kind {
            DeclKind::Const(name, init) => binding_tokens(Keyword::Const, name, *init),
            DeclKind::Var(name, init) => binding_tokens(Keyword::Var, name, *init),
        },
        StmtKind::Assign(name, expr) => seq![
            loose(TokenKind::Identifier(name)),
            loose(TokenKind::Eq),
        ] + expr_tokens(*expr) + seq![loose(TokenKind::SemiColon)],
    }
}

/// Law: a statement that the grammar can express reads back from its
/// tokens, wherever they stand.
pub proof fn lemma_statement_round_trip(tokens: Seq<Token>, pos: nat, stmt: Stmt)
    requires
        writable_stmt(stmt),
        stands_at(tokens, pos, stmt_tokens(stmt)),
    ensures
        stmt_tokens(stmt).len() > 0,
        !(stmt_tokens(stmt)[0].kind is Eof),
        parse_declaration(tokens, pos) == Ok::<(Stmt, nat), Fault>(
            (stmt, stmt_tokens(stmt).len()),
        ),
{
    let piece = stmt_tokens(stmt);
    let semi = loose(TokenKind::SemiColon);
    match stmt.kind {
        StmtKind::Expr(expr) => {
            let inner = expr_tokens(*expr);
            lemma_first_token(*expr);
            assert(piece[0] == inner[0]);
            assert(tokens[pos as int + 0] == piece[0]);
            assert(stands_at(tokens, pos, inner)) by {
                assert forall|i: int| 0 <= i < inner.len() implies tokens[pos as int + i]
                    == #[trigger] inner[i] by {
                    assert(piece[i] == inner[i]);
                }
            }
            assert(piece[inner.len() as int] == semi);
            assert(tokens[pos as int + inner.len() as int] == piece[inner.len() as int]);
            lemma_expression_round_trip(tokens, pos, *expr);
        },
        StmtKind::Print(expr) => {
            let inner = expr_tokens(*expr);
            assert(tokens[pos as int + 0] == piece[0]);
            assert(stands_at(tokens, pos + 1, inner)) by {
                assert forall|i: int| 0 <= i < inner.len() implies tokens[pos as int + 1 + i]
                    == #[trigger] inner[i] by {
                    assert(piece[i + 1] == inner[i]);
                }
            }
            assert(piece[inner.len() as int + 1] == semi);
            assert(tokens[pos as int + inner.len() as int + 1] == piece[inner.len() as int + 1]);
            lemma_expression_round_trip(tokens, pos + 1, *expr);
        },
        StmtKind::Decl(decl) => {
            let init = match decl.kind {
                DeclKind::Const(_, init) => *init,
                DeclKind::Var(_, init) => *init,
            };
            let inner = expr_tokens(init);
            assert(tokens[pos as int + 0] == piece[0]);
            assert(tokens[pos as int + 1] == piece[1]);
            assert(tokens[pos as int + 2] == piece[2]);
            assert(stands_at(tokens, pos + 3, inner)) by {
                assert forall|i: int| 0 <= i < inner.len() implies tokens[pos as int + 3 + i]
                    == #[trigger] inner[i] by {
                    assert(piece[i + 3] == inner[i]);
                }
            }
            assert(piece[inner.len() as int + 3] == semi);
            assert(tokens[pos as int + inner.len() as int + 3] == piece[inner.len() as int + 3]);
            lemma_expression_round_trip(tokens, pos + 3, init);
        },
        StmtKind::Assign(_, _) => {},
    }
}

/// The tokens of a program: those of its statements, then the end of
/// input.
pub open spec fn program_tokens(statements: Seq<Stmt>) -> Seq<Token>
    decreases statements.len(),
{
    if statements.len() == 0 {
        seq![loose(TokenKind::Eof)]
    } else {
        stmt_tokens(statements[0]) + program_tokens(statements.drop_first())
    }
}

/// The tokens of a program read back as the program, wherever they stand.
pub proof fn lemma_program_reads_back(tokens: Seq<Token>, pos: nat, statements: Seq<Stmt>)
    requires
        forall|i: int| 0 <= i < statements.len() ==> writable_stmt(#[trigger] statements[i]),
        stands_at(tokens, pos, program_tokens(statements)),
    ensures
        parse_program(tokens, pos) == Ok::<Seq<Stmt>, Fault>(statements),
    decreases statements.len(),
{
    let piece = program_tokens(statements);
    if statements.len() == 0 {
        assert(tokens[pos as int + 0] == piece[0]);
        assert(statements =~= Seq::<Stmt>::empty());
    } else {
        let first = statements[0];
        let head = stmt_tokens(first);
        let others = statements.drop_first();
        let tail = program_tokens(others);
        assert(stands_at(tokens, pos, head)) by {
            assert forall|i: int| 0 <= i < head.len() implies tokens[pos as int + i]
                == #[trigger] head[i] by {
                assert(piece[i] == head[i]);
            }
        }
        lemma_statement_round_trip(tokens, pos, first);
        assert(piece[0] == head[0]);
        assert(tokens[pos as int + 0] == piece[0]);
        assert(stands_at(tokens, pos + head.len(), tail)) by {
            assert forall|i: int| 0 <= i < tail.len() implies tokens[pos as int + head.len() as int + i]
                == #[trigger] tail[i] by {
                assert(piece[head.len() as int + i] == tail[i]);
            }
        }
        assert forall|i: int| 0 <= i < others.len() implies writable_stmt(
            #[trigger] others[i],
        ) by {
            assert(others[i] == statements[i + 1]);
        }
        lemma_program_reads_back(tokens, pos + head.len(), others);
        assert(seq![first] + others =~= statements);
    }
}

/// Law: writing a program as tokens and parsing those tokens gives the
/// program back, if the grammar can express each of its statements.
pub proof fn lemma_round_trip(statements: Seq<Stmt>)
    requires
        forall|i: int| 0 <= i < statements.len() ==> writable_stmt(#[trigger] statements[i]),
    ensures
        parse_program(program_tokens(statements), 0) == Ok::<Seq<Stmt>, Fault>(statements),
{
    lemma_program_reads_back(program_tokens(statements), 0, statements);
}

/// The token of a unary operator.
pub fn unary_kind(op: UnOp) -> (kind: TokenKind)
    ensures
        kind == unary_token(op),
{
    match op {
        UnOp::Not => TokenKind::Not,
        UnOp::Neg => TokenKind::Minus,
    }
}

/// The token of a binary operator.
pub fn binary_kind(op: BinOp) -> (kind: TokenKind)
    ensures
        kind == binary_token(op),
{
    match op {
        BinOp::Add => TokenKind::Plus,
        BinOp::Sub => TokenKind::Minus,
        BinOp::Mul => TokenKind::Star,
        BinOp::Div => TokenKind::Slash,
        BinOp::Rem => TokenKind::Percent,
        BinOp::And => TokenKind::AndAnd,
        BinOp::Or => TokenKind::OrOr,
        BinOp::Eq => TokenKind::EqEq,
        BinOp::Lt => TokenKind::Lt,
        BinOp::Le => TokenKind::Le,
        BinOp::Ne => TokenKind::Ne,
        BinOp::Ge => TokenKind::Ge,
        BinOp::Gt => TokenKind::Gt,
    }
}

/// Adds a token that stands in no source.
fn push_loose(tokens: &mut Vec<Token>, kind: TokenKind)
    ensures
        final(tokens)@ == old(tokens)@.push(loose(kind)),
{
    tokens.push(Token { kind, span: Span { start: 0, end: 0 } });
}

/// Adds the tokens of an expression.
pub fn write_expr(expr: &Expr, tokens: &mut Vec<Token>)
    ensures
        final(tokens)@ == old(tokens)@ + expr_tokens(*expr),
    decreases expr,
{
    let ghost before = tokens@;
    match &expr.kind {
        ExprKind::Literal(literal) => {
            push_loose(tokens, TokenKind::Literal(literal.clone()));
            assert(tokens@ =~= before + expr_tokens(*expr));
        },
        ExprKind::Variable(name) => {
            push_loose(tokens, TokenKind::Identifier(name.clone()));
            assert(tokens@ =~= before + expr_tokens(*expr));
        },
        ExprKind::Unary(op, operand) => {
            push_loose(tokens, unary_kind(*op));
            write_expr(operand, tokens);
            assert(tokens@ =~= before + expr_tokens(*expr));
        },
        ExprKind::Binary(op, lhs, rhs) => {
            push_loose(tokens, TokenKind::Delim(DelimDir::Open, DelimType::Paren));
            write_expr(lhs, tokens);
            push_loose(tokens, binary_kind(*op));
            write_expr(rhs, tokens);
            push_loose(tokens, TokenKind::Delim(DelimDir::Close, DelimType::Paren));
            assert(tokens@ =~= before + expr_tokens(*expr));
        },
    }
}

/// Adds the tokens of a statement.
pub fn write_stmt(stmt: &Stmt, tokens: &mut Vec<Token>)
    ensures
        final(tokens)@ == old(tokens)@ + stmt_tokens(*stmt),
{
    let ghost before = tokens@;
    match &stmt.kind {
        StmtKind::Expr(expr) => {
            write_expr(expr, tokens);
        },
        StmtKind::Print(expr) => {
            push_loose(tokens, TokenKind::Keyword(Keyword::Print));
            write_expr(expr, tokens);
        },
        StmtKind::Decl(decl) => {
            let (keyword, name, init) = match &decl.kind {
                DeclKind::Const(name, init) => (Keyword::Const, name, init),
                DeclKind::Var(name, init) => (Keyword::Var, name, init),
            };
            push_loose(tokens, TokenKind::Keyword(keyword));
            push_loose(tokens, TokenKind::Identifier(name.clone()));
            push_loose(tokens, TokenKind::Eq);
            write_expr(init, tokens);
        },
        StmtKind::Assign(name, expr) => {
            push_loose(tokens, TokenKind::Identifier(name.clone()));
            push_loose(tokens, TokenKind::Eq);
            write_expr(expr, tokens);
        },
    }
    push_loose(tokens, TokenKind::SemiColon);
    assert(tokens@ =~= before + stmt_tokens(*stmt));
}

/// The tokens of a program, the one for the end of input included.
pub fn unparse(statements: &Vec<Stmt>) -> (tokens: Vec<Token>)
    ensures
        tokens@ == program_tokens(statements@),
{
    let mut tokens: Vec<Token> = Vec::new();
    let mut i: usize = 0;
    proof {
        assert(statements@.subrange(0, statements@.len() as int) =~= statements@);
        assert(tokens@ + program_tokens(statements@) =~= program_tokens(statements@));
    }
    while i < statements.len()
        invariant
            i <= statements.len(),
            tokens@ + program_tokens(statements@.subrange(i as int, statements@.len() as int))
                == program_tokens(statements@),
        decreases statements.len() - i,
    {
        let ghost before = tokens@;
        let ghost left = statements@.subrange(i as int, statements@.len() as int);
        write_stmt(&statements[i], &mut tokens);
        proof {
            assert(left[0] == statements@[i as int]);
            assert(left.drop_first() =~= statements@.subrange(
                i + 1,
                statements@.len() as int,
            ));
            assert(tokens@ + program_tokens(left.drop_first()) =~= before + program_tokens(left));
        }
        i += 1;
    }
    let ghost written = tokens@;
    push_loose(&mut tokens, TokenKind::Eof);
    proof {
        assert(statements@.subrange(i as int, statements@.len() as int).len() == 0);
        assert(tokens@ =~= written + seq![loose(TokenKind::Eof)]);
    }
    tokens
}

} // verus!
