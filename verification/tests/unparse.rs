use mypl::ast::{BinOp, Decl, DeclKind, Expr, ExprKind, Stmt, StmtKind, UnOp};
use mypl::parse::{ParseError, Parser};
use mypl::recursive_descent_parser::RecursiveDescentParser;
use mypl::token::{DelimDir, DelimType, Keyword, Literal, TokenKind};
use mypl::tokenizer::tokenize;
use mypl::unparse::{binary_kind, unary_kind, unparse, write_expr, write_stmt};

fn lit(value: i128) -> Expr {
    Expr { kind: ExprKind::Literal(Literal::Integer(value)) }
}

fn var(name: &str) -> Expr {
    Expr { kind: ExprKind::Variable(name.to_string()) }
}

fn bin(op: BinOp, lhs: Expr, rhs: Expr) -> Expr {
    Expr { kind: ExprKind::Binary(op, Box::new(lhs), Box::new(rhs)) }
}

fn un(op: UnOp, operand: Expr) -> Expr {
    Expr { kind: ExprKind::Unary(op, Box::new(operand)) }
}

fn reparse(statements: &Vec<Stmt>) -> Result<Vec<Stmt>, ParseError> {
    let tokens = unparse(statements);
    let mut parser = RecursiveDescentParser::new(&tokens);
    parser.parse()
}

fn parse(source: &str) -> Vec<Stmt> {
    let tokens = tokenize(source);
    let mut parser = RecursiveDescentParser::new(&tokens);
    parser.parse().unwrap()
}

#[test]
fn binary_operators_are_written_in_parentheses() {
    let mut tokens = Vec::new();
    write_expr(&bin(BinOp::Add, lit(1), un(UnOp::Neg, var("x"))), &mut tokens);
    let kinds: Vec<TokenKind> = tokens.into_iter().map(|t| t.kind).collect();
    assert_eq!(
        vec![
            TokenKind::Delim(DelimDir::Open, DelimType::Paren),
            TokenKind::Literal(Literal::Integer(1)),
            TokenKind::Plus,
            TokenKind::Minus,
            TokenKind::Identifier("x".to_string()),
            TokenKind::Delim(DelimDir::Close, DelimType::Paren),
        ],
        kinds
    );
}

#[test]
fn statements_end_with_a_semicolon_and_programs_with_the_end_of_input() {
    let decl = Stmt {
        kind: StmtKind::Decl(Box::new(Decl { kind: DeclKind::Var("x".to_string(), Box::new(lit(1))) })),
    };
    let mut tokens = Vec::new();
    write_stmt(&decl, &mut tokens);
    let kinds: Vec<TokenKind> = tokens.into_iter().map(|t| t.kind).collect();
    assert_eq!(
        vec![
            TokenKind::Keyword(Keyword::Var),
            TokenKind::Identifier("x".to_string()),
            TokenKind::Eq,
            TokenKind::Literal(Literal::Integer(1)),
            TokenKind::SemiColon,
        ],
        kinds
    );
    let kinds: Vec<TokenKind> = unparse(&vec![]).into_iter().map(|t| t.kind).collect();
    assert_eq!(vec![TokenKind::Eof], kinds);
}

#[test]
fn a_program_reads_back_from_its_tokens() {
    let program = vec![
        Stmt {
            kind: StmtKind::Decl(Box::new(Decl {
                kind: DeclKind::Const("a".to_string(), Box::new(bin(BinOp::Mul, lit(2), lit(3)))),
            })),
        },
        Stmt {
            kind: StmtKind::Decl(Box::new(Decl {
                kind: DeclKind::Var(
                    "b".to_string(),
                    Box::new(un(UnOp::Not, bin(BinOp::Le, var("a"), lit(6)))),
                ),
            })),
        },
        Stmt {
            kind: StmtKind::Print(Box::new(bin(
                BinOp::Eq,
                bin(BinOp::Sub, lit(1), bin(BinOp::Sub, lit(2), lit(3))),
                bin(BinOp::Div, bin(BinOp::Add, lit(1), lit(2)), un(UnOp::Neg, un(UnOp::Neg, lit(4)))),
            ))),
        },
        Stmt { kind: StmtKind::Expr(Box::new(bin(BinOp::Gt, bin(BinOp::Ne, lit(1), lit(2)), var("b")))) },
        Stmt { kind: StmtKind::Expr(Box::new(Expr { kind: ExprKind::Literal(Literal::Integer(-5)) })) },
    ];
    assert_eq!(Ok(parse("")), reparse(&vec![]));
    let again = reparse(&program);
    assert_eq!(Ok(program), again);
}

#[test]
fn what_was_parsed_reads_back() {
    for source in [
        "1 + 2 * 3;",
        "(1 + 2) * 3;",
        "1 - 2 - 3 == 4 < 5;",
        "const x = !true; var y = -x; print \"a\"; x / 2.5;",
        "!!a != --b;",
    ] {
        let program = parse(source);
        assert_eq!(Ok(parse(source)), reparse(&program));
    }
}

#[test]
fn operators_without_a_tier_do_not_read_back() {
    let both = vec![Stmt {
        kind: StmtKind::Expr(Box::new(bin(BinOp::And, var("a"), var("b")))),
    }];
    assert_eq!(Err(ParseError::ExpectedToken(")".to_string(), "primary".to_string())), reparse(&both));
    let assign = vec![Stmt { kind: StmtKind::Assign("x".to_string(), Box::new(lit(2))) }];
    assert_eq!(
        Err(ParseError::Default("exprStmt: Expected token \";\"".to_string())),
        reparse(&assign)
    );
}

#[test]
fn operators_have_their_tokens() {
    assert_eq!(TokenKind::Minus, unary_kind(UnOp::Neg));
    assert_eq!(TokenKind::Not, unary_kind(UnOp::Not));
    assert_eq!(TokenKind::Minus, binary_kind(BinOp::Sub));
    assert_eq!(TokenKind::Percent, binary_kind(BinOp::Rem));
    assert_eq!(TokenKind::AndAnd, binary_kind(BinOp::And));
    assert_eq!(TokenKind::OrOr, binary_kind(BinOp::Or));
    assert_eq!(TokenKind::Ge, binary_kind(BinOp::Ge));
}

#[test]
fn trees_are_cloned_whole() {
    let program = parse("const x = -(1 + 2) * 3; print x == 4; x;");
    let copies: Vec<Stmt> = program.iter().map(|stmt| stmt.clone()).collect();
    assert_eq!(program, copies);
    let expr = bin(BinOp::Add, un(UnOp::Not, var("a")), lit(7));
    assert_eq!(expr, expr.clone());
}
