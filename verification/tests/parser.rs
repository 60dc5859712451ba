use mypl::ast::{BinOp, Decl, DeclKind, Expr, ExprKind, Stmt, StmtKind, UnOp};
use mypl::parse::{ParseError, Parser};
use mypl::recursive_descent_parser::RecursiveDescentParser;
use mypl::token::Literal;
use mypl::tokenizer::tokenize;

fn parse(source: &str) -> Result<Vec<Stmt>, ParseError> {
    let tokens = tokenize(source);
    let mut parser = RecursiveDescentParser::new(&tokens);
    parser.parse()
}

fn lit(value: i128) -> Expr {
    Expr { kind: ExprKind::Literal(Literal::Integer(value)) }
}

fn var(name: &str) -> Expr {
    Expr { kind: ExprKind::Variable(name.to_string()) }
}

fn bin(op: BinOp, lhs: Expr, rhs: Expr) -> Expr {
    Expr { kind: ExprKind::Binary(op, Box::new(lhs), Box::new(rhs)) }
}

fn un(op: UnOp, operand: Expr) -> Expr {
    Expr { kind: ExprKind::Unary(op, Box::new(operand)) }
}

fn expr_stmt(expr: Expr) -> Stmt {
    Stmt { kind: StmtKind::Expr(Box::new(expr)) }
}

fn expected(token: &str, place: &str) -> Result<Vec<Stmt>, ParseError> {
    Err(ParseError::ExpectedToken(token.to_string(), place.to_string()))
}

fn plain(message: &str) -> Result<Vec<Stmt>, ParseError> {
    Err(ParseError::Default(message.to_string()))
}

#[test]
fn multiplication_binds_tighter_than_addition() {
    assert_eq!(
        Ok(vec![expr_stmt(bin(BinOp::Add, lit(1), bin(BinOp::Mul, lit(2), lit(3))))]),
        parse("1 + 2 * 3;")
    );
}

#[test]
fn parentheses_override_precedence() {
    assert_eq!(
        Ok(vec![expr_stmt(bin(BinOp::Mul, bin(BinOp::Add, lit(1), lit(2)), lit(3)))]),
        parse("(1 + 2) * 3;")
    );
}

#[test]
fn binary_operators_nest_to_the_left() {
    assert_eq!(
        Ok(vec![expr_stmt(bin(BinOp::Sub, bin(BinOp::Sub, lit(1), lit(2)), lit(3)))]),
        parse("1 - 2 - 3;")
    );
    assert_eq!(
        Ok(vec![expr_stmt(bin(BinOp::Ne, bin(BinOp::Eq, lit(1), lit(2)), lit(3)))]),
        parse("1 == 2 != 3;")
    );
    assert_eq!(
        Ok(vec![expr_stmt(bin(BinOp::Div, bin(BinOp::Mul, lit(8), lit(2)), lit(4)))]),
        parse("8 * 2 / 4;")
    );
}

#[test]
fn the_four_tiers_are_ordered() {
    // 1 == 2 < 3 + 4 * 5   is   1 == (2 < (3 + (4 * 5)))
    assert_eq!(
        Ok(vec![expr_stmt(bin(
            BinOp::Eq,
            lit(1),
            bin(BinOp::Lt, lit(2), bin(BinOp::Add, lit(3), bin(BinOp::Mul, lit(4), lit(5))))
        ))]),
        parse("1 == 2 < 3 + 4 * 5;")
    );
    assert_eq!(
        Ok(vec![expr_stmt(bin(BinOp::Ge, bin(BinOp::Le, lit(1), lit(2)), lit(3)))]),
        parse("1 <= 2 >= 3;")
    );
}

#[test]
fn unary_operators_nest_to_the_right() {
    assert_eq!(
        Ok(vec![expr_stmt(un(UnOp::Not, un(UnOp::Not, var("x"))))]),
        parse("!!x;")
    );
    assert_eq!(
        Ok(vec![expr_stmt(bin(BinOp::Sub, lit(1), un(UnOp::Neg, un(UnOp::Neg, lit(2)))))]),
        parse("1 - --2;")
    );
}

#[test]
fn declarations_and_print() {
    assert_eq!(
        Ok(vec![
            Stmt {
                kind: StmtKind::Decl(Box::new(Decl {
                    kind: DeclKind::Const("x".to_string(), Box::new(lit(1)))
                }))
            },
            Stmt {
                kind: StmtKind::Decl(Box::new(Decl {
                    kind: DeclKind::Var("y".to_string(), Box::new(bin(BinOp::Add, var("x"), lit(1))))
                }))
            },
            Stmt { kind: StmtKind::Print(Box::new(var("y"))) },
        ]),
        parse("const x = 1; var y = x + 1; print y;")
    );
}

#[test]
fn literals_of_every_kind_are_primaries() {
    assert_eq!(
        Ok(vec![
            expr_stmt(Expr { kind: ExprKind::Literal(Literal::Bool(true)) }),
            expr_stmt(Expr { kind: ExprKind::Literal(Literal::String("\"a\"".to_string())) }),
            expr_stmt(Expr { kind: ExprKind::Literal(Literal::Float("1.5".to_string())) }),
        ]),
        parse("true; \"a\"; 1.5;")
    );
}

#[test]
fn empty_program_has_no_statements() {
    assert_eq!(Ok(vec![]), parse(""));
    assert_eq!(Ok(vec![]), parse("  \n"));
}

#[test]
fn missing_semicolon_is_a_fault() {
    assert_eq!(plain("exprStmt: Expected token \";\""), parse("1 + 2"));
    assert_eq!(expected(";", "print_statement"), parse("print 1"));
    assert_eq!(expected(";", "decl"), parse("var x = 1"));
    assert_eq!(expected(";", "const_decl"), parse("const x = 1 2;"));
}

#[test]
fn assignment_is_not_in_the_grammar() {
    assert_eq!(plain("exprStmt: Expected token \";\""), parse("x = 2;"));
}

#[test]
fn malformed_declarations_are_faults() {
    assert_eq!(expected("identifier", "const_decl"), parse("const = 1;"));
    assert_eq!(expected("identifier", "decl"), parse("var 1 = 1;"));
    assert_eq!(expected("=", "const_decl"), parse("const x 1;"));
    assert_eq!(expected("=", "decl"), parse("var x;"));
    assert_eq!(plain("expected expression in const_decl"), parse("const x = ;"));
    assert_eq!(plain("expected expression at var_decl"), parse("var x = ;"));
}

#[test]
fn malformed_expressions_are_faults() {
    assert_eq!(plain("primary expression exhausted"), parse("1 + ;"));
    assert_eq!(plain("primary expression exhausted"), parse("print ;"));
    assert_eq!(plain("primary expression exhausted"), parse("#;"));
    assert_eq!(expected(")", "primary"), parse("(1 + 2;"));
    assert_eq!(plain("expected expression in primary"), parse("();"));
}

#[test]
fn the_first_fault_ends_the_parse() {
    assert_eq!(expected(")", "primary"), parse("1; (2; const = 3;"));
}

#[test]
fn tokens_without_an_end_of_input_are_a_fault() {
    let mut tokens = tokenize("1;");
    tokens.pop();
    let mut parser = RecursiveDescentParser::new(&tokens);
    assert_eq!(plain("primary expression exhausted"), parser.parse());
}

#[test]
fn messages_of_faults() {
    assert_eq!(
        "ParseError: primary expression exhausted",
        ParseError::Default("primary expression exhausted".to_string()).message()
    );
    assert_eq!(
        "Expected token \";\" at \"decl\"",
        ParseError::ExpectedToken(";".to_string(), "decl".to_string()).message()
    );
}
