use mypl::ast::{BinOp, Expr, ExprKind, Stmt, StmtKind, UnOp};
use mypl::environment::{Entity, Environment, Mutability};
use mypl::error::InterperterError;
use mypl::expr_eval::{accept_answer, ExprEval, FloatQuery, Value, ValueType};
use mypl::interperter::{apply_binary, apply_unary, Effect, Interperter};
use mypl::parse::Parser;
use mypl::recursive_descent_parser::RecursiveDescentParser;
use mypl::token::Literal;
use mypl::tokenizer::tokenize;

/// Floating-point arithmetic as the machine does it.
fn floats(query: FloatQuery) -> Value {
    match query {
        FloatQuery::Literal(text) => Value::Float(text.parse::<f64>().unwrap().to_bits()),
        FloatQuery::Negate(bits) => Value::Float((-1.0 * f64::from_bits(bits)).to_bits()),
        FloatQuery::Quotient(lhs, rhs) => Value::Float((lhs as f64 / rhs as f64).to_bits()),
        FloatQuery::Binary(op, lhs, rhs) => {
            let (lhs, rhs) = (f64::from_bits(lhs), f64::from_bits(rhs));
            match op {
                BinOp::Add => Value::Float((lhs + rhs).to_bits()),
                BinOp::Sub => Value::Float((lhs - rhs).to_bits()),
                BinOp::Mul => Value::Float((lhs * rhs).to_bits()),
                BinOp::Div => Value::Float((lhs / rhs).to_bits()),
                BinOp::Eq => Value::Bool(lhs == rhs),
                BinOp::Ne => Value::Bool(lhs != rhs),
                BinOp::Lt => Value::Bool(lhs < rhs),
                BinOp::Le => Value::Bool(lhs <= rhs),
                BinOp::Ge => Value::Bool(lhs >= rhs),
                BinOp::Gt => Value::Bool(lhs > rhs),
                _ => unreachable!(),
            }
        }
    }
}

fn float(number: f64) -> Value {
    Value::Float(number.to_bits())
}

fn parse(source: &str) -> Vec<Stmt> {
    let tokens = tokenize(source);
    let mut parser = RecursiveDescentParser::new(&tokens);
    parser.parse().unwrap()
}

fn run(interperter: &mut Interperter, source: &str) -> Vec<Result<Effect, InterperterError>> {
    parse(source).iter().map(|stmt| interperter.interpret_stmt(stmt, &floats)).collect()
}

fn eval(source: &str) -> Result<Effect, InterperterError> {
    let mut interperter = Interperter::new();
    run(&mut interperter, source).pop().unwrap()
}

fn value(v: Value) -> Result<Effect, InterperterError> {
    Ok(Effect::Evaluated(v))
}

#[test]
fn variable_is_read_and_stays_bound() {
    let mut interperter = Interperter::new();
    let effects = run(&mut interperter, "var x = 5; x + 1;");
    assert_eq!(vec![Ok(Effect::Declared), value(Value::Integer(6))], effects);
    assert_eq!(Ok(&Value::Integer(5)), interperter.variable("x"));
}

#[test]
fn assignment_to_a_constant_fails_and_changes_nothing() {
    let mut interperter = Interperter::new();
    assert_eq!(vec![Ok(Effect::Declared)], run(&mut interperter, "const x = 1;"));
    let assign = Stmt {
        kind: StmtKind::Assign(
            "x".to_string(),
            Box::new(Expr { kind: ExprKind::Literal(Literal::Integer(2)) }),
        ),
    };
    assert_eq!(
        Err(InterperterError::ImmutableAssignment("x".to_string())),
        interperter.interpret_stmt(&assign, &floats)
    );
    assert_eq!(Ok(&Value::Integer(1)), interperter.variable("x"));
}

#[test]
fn assignment_to_a_variable_changes_its_value() {
    let mut interperter = Interperter::new();
    run(&mut interperter, "var x = 1;");
    let assign = |name: &str, value: i128| Stmt {
        kind: StmtKind::Assign(
            name.to_string(),
            Box::new(Expr { kind: ExprKind::Literal(Literal::Integer(value)) }),
        ),
    };
    assert_eq!(Ok(Effect::Assigned), interperter.interpret_stmt(&assign("x", 2), &floats));
    assert_eq!(Ok(&Value::Integer(2)), interperter.variable("x"));
    assert_eq!(
        Err(InterperterError::SymbolNotFound("y".to_string())),
        interperter.interpret_stmt(&assign("y", 2), &floats)
    );
    assert_eq!(Err(InterperterError::SymbolNotFound("y".to_string())), interperter.variable("y"));
}

#[test]
fn operands_of_different_types_are_a_mismatch() {
    let mut interperter = Interperter::new();
    run(&mut interperter, "var x = 5;");
    assert_eq!(
        vec![Err(InterperterError::BinaryExprTypeMismatch(ValueType::Integer, ValueType::Bool))],
        run(&mut interperter, "5 + true;")
    );
    assert_eq!(Ok(&Value::Integer(5)), interperter.variable("x"));
    assert_eq!(
        Err(InterperterError::BinaryExprTypeMismatch(ValueType::Integer, ValueType::Float)),
        eval("1 + 1.0;")
    );
}

#[test]
fn integer_division_yields_a_float() {
    assert_eq!(value(float(2.0)), eval("4 / 2;"));
    assert_eq!(value(float(0.5)), eval("1 / 2;"));
}

#[test]
fn integer_arithmetic_and_comparisons() {
    assert_eq!(value(Value::Integer(7)), eval("1 + 2 * 3;"));
    assert_eq!(value(Value::Integer(9)), eval("(1 + 2) * 3;"));
    assert_eq!(value(Value::Integer(-4)), eval("1 - 2 - 3;"));
    assert_eq!(value(Value::Bool(true)), eval("2 >= 2;"));
    assert_eq!(value(Value::Bool(false)), eval("2 > 2;"));
    assert_eq!(value(Value::Bool(true)), eval("3 > 2;"));
    assert_eq!(value(Value::Bool(true)), eval("1 < 2;"));
    assert_eq!(value(Value::Bool(true)), eval("2 <= 2;"));
    assert_eq!(value(Value::Bool(false)), eval("1 == 2;"));
    assert_eq!(value(Value::Bool(true)), eval("1 != 2;"));
}

#[test]
fn integer_overflow_is_an_error() {
    let overflow = Err(InterperterError::Generic("integer overflow".to_string()));
    assert_eq!(overflow, eval("170141183460469231731687303715884105727 + 1;"));
    assert_eq!(overflow, eval("170141183460469231731687303715884105727 * 2;"));
    assert_eq!(overflow, eval("-170141183460469231731687303715884105727 - 2;"));
    assert_eq!(overflow, eval("-(-170141183460469231731687303715884105727 - 1);"));
    assert_eq!(
        value(Value::Integer(i128::MIN)),
        eval("-170141183460469231731687303715884105727 - 1;")
    );
}

#[test]
fn float_arithmetic_and_comparisons() {
    assert_eq!(value(float(4.0)), eval("1.5 + 2.5;"));
    assert_eq!(value(float(3.0)), eval("1.5 * 2.0;"));
    assert_eq!(value(float(-1.0)), eval("1.5 - 2.5;"));
    assert_eq!(value(float(0.75)), eval("1.5 / 2.0;"));
    assert_eq!(value(float(-1.5)), eval("-1.5;"));
    assert_eq!(value(Value::Bool(true)), eval("1.5 < 2.5;"));
    assert_eq!(value(Value::Bool(true)), eval("2.5 >= 2.5;"));
    assert_eq!(value(Value::Bool(false)), eval("2.5 > 2.5;"));
    assert_eq!(value(Value::Bool(false)), eval("1.5 == 2.5;"));
}

#[test]
fn unary_operators_check_the_type_of_their_operand() {
    assert_eq!(value(Value::Bool(false)), eval("!true;"));
    assert_eq!(value(Value::Integer(-3)), eval("-3;"));
    assert_eq!(
        Err(InterperterError::InvalidUnaryApplication(UnOp::Neg, ValueType::Bool)),
        eval("-true;")
    );
    assert_eq!(
        Err(InterperterError::InvalidUnaryApplication(UnOp::Not, ValueType::Integer)),
        eval("!1;")
    );
    assert_eq!(
        Err(InterperterError::InvalidUnaryApplication(UnOp::Not, ValueType::Float)),
        eval("!1.5;")
    );
    assert_eq!(
        Err(InterperterError::InvalidUnaryApplication(UnOp::Neg, ValueType::String)),
        eval("-\"a\";")
    );
}

#[test]
fn operators_that_a_type_does_not_have() {
    assert_eq!(
        Err(InterperterError::InvalidBinaryApplication(
            BinOp::Add,
            ValueType::String,
            ValueType::String
        )),
        eval("var a = \"a\"; a + a;")
    );
    assert_eq!(
        Err(InterperterError::InvalidBinaryApplication(BinOp::Lt, ValueType::Bool, ValueType::Bool)),
        eval("true < false;")
    );
    assert_eq!(value(Value::Bool(true)), eval("var a = \"a\";\nvar b = \"a\";\na == b;"));
    assert_eq!(value(Value::Bool(true)), eval("var a = \"a\";\nvar b = \"b\";\na != b;"));
    assert_eq!(value(Value::Bool(false)), eval("var a = \"a\";\nvar b = \"b\";\na == b;"));
    assert_eq!(value(Value::Bool(false)), eval("true == false;"));
}

#[test]
fn operators_outside_the_grammar_still_evaluate() {
    let t = Value::Bool(true);
    let f = Value::Bool(false);
    assert_eq!(Ok(Value::Bool(false)), apply_binary(BinOp::And, &t, &f, &floats));
    assert_eq!(Ok(Value::Bool(true)), apply_binary(BinOp::Or, &t, &f, &floats));
    assert_eq!(Ok(Value::Bool(true)), ExprEval::bin_bool_bool(&BinOp::Or, &f, &t));
    assert_eq!(
        Err(InterperterError::InvalidBinaryApplication(
            BinOp::Rem,
            ValueType::Integer,
            ValueType::Integer
        )),
        apply_binary(BinOp::Rem, &Value::Integer(5), &Value::Integer(2), &floats)
    );
    assert_eq!(
        Err(InterperterError::InvalidBinaryApplication(
            BinOp::Rem,
            ValueType::Float,
            ValueType::Float
        )),
        apply_binary(BinOp::Rem, &float(5.0), &float(2.0), &floats)
    );
    assert_eq!(Ok(Value::Bool(true)), apply_unary(UnOp::Not, Value::Bool(false), &floats));
}

#[test]
fn both_operands_are_evaluated() {
    // No short circuit: the right operand fails although the left decides.
    let lhs = Expr { kind: ExprKind::Literal(Literal::Bool(false)) };
    let rhs = Expr { kind: ExprKind::Variable("missing".to_string()) };
    let both = Expr { kind: ExprKind::Binary(BinOp::And, Box::new(lhs), Box::new(rhs)) };
    assert_eq!(
        Err(InterperterError::SymbolNotFound("missing".to_string())),
        Interperter::new().evaluate_expr(&both, &floats)
    );
}

#[test]
fn the_left_operand_fails_first() {
    assert_eq!(Err(InterperterError::SymbolNotFound("a".to_string())), eval("a + b;"));
}

#[test]
fn declaration_evaluates_its_initializer_first() {
    let mut interperter = Interperter::new();
    assert_eq!(
        vec![Err(InterperterError::SymbolNotFound("x".to_string()))],
        run(&mut interperter, "const x = x;")
    );
    assert_eq!(Err(InterperterError::SymbolNotFound("x".to_string())), interperter.variable("x"));
}

#[test]
fn redeclaration_is_an_error_and_keeps_the_old_value() {
    let mut interperter = Interperter::new();
    assert_eq!(
        vec![
            Ok(Effect::Declared),
            Err(InterperterError::SymbolAlreadyDefined("x".to_string())),
            Err(InterperterError::SymbolAlreadyDefined("x".to_string())),
        ],
        run(&mut interperter, "var x = 1; var x = 2; const x = 3;")
    );
    assert_eq!(Ok(&Value::Integer(1)), interperter.variable("x"));
}

#[test]
fn earlier_statements_persist_when_a_later_one_fails() {
    let mut interperter = Interperter::new();
    let effects = run(&mut interperter, "var x = 1; y; var z = x + 1;");
    assert_eq!(
        vec![
            Ok(Effect::Declared),
            Err(InterperterError::SymbolNotFound("y".to_string())),
            Ok(Effect::Declared),
        ],
        effects
    );
    assert_eq!(Ok(&Value::Integer(2)), interperter.variable("z"));
}

#[test]
fn print_hands_out_the_value_to_print() {
    assert_eq!(Ok(Effect::Printed(Value::Integer(3))), eval("print 1 + 2;"));
    assert_eq!(
        Ok(Effect::Printed(Value::String("\"hi\"".to_string()))),
        eval("print \"hi\";")
    );
}

#[test]
fn an_answer_of_the_wrong_type_is_refused() {
    let wrong = Err(InterperterError::Generic("floating-point answer of the wrong type".to_string()));
    assert_eq!(wrong, accept_answer(true, float(1.0)));
    assert_eq!(wrong, accept_answer(false, Value::Bool(true)));
    assert_eq!(wrong, accept_answer(false, Value::Integer(1)));
    assert_eq!(Ok(float(1.0)), accept_answer(false, float(1.0)));
    assert_eq!(Ok(Value::Bool(true)), accept_answer(true, Value::Bool(true)));
    let liar = |_query: FloatQuery| Value::Integer(0);
    assert_eq!(wrong, apply_binary(BinOp::Div, &Value::Integer(4), &Value::Integer(2), &liar));
}

#[test]
fn environment_keeps_names_apart() {
    let mut environment = Environment::new();
    assert_eq!(Ok(()), environment.define_variable("a", Mutability::Mutable, Value::Integer(1)));
    assert_eq!(Ok(()), environment.define_variable("b", Mutability::Immutable, Value::Bool(true)));
    assert_eq!(
        Err(InterperterError::SymbolAlreadyDefined("a".to_string())),
        environment.define_variable("a", Mutability::Immutable, Value::Integer(2))
    );
    assert_eq!(
        Ok(&Entity::Variable(Mutability::Mutable, Value::Integer(1))),
        environment.get_entity("a")
    );
    assert_eq!(Ok(()), environment.assign_to_variable("a", Value::Integer(3)));
    assert_eq!(Ok(&Value::Integer(3)), environment.get_variable_value("a"));
    assert_eq!(
        Err(InterperterError::ImmutableAssignment("b".to_string())),
        environment.assign_to_variable("b", Value::Bool(false))
    );
    assert_eq!(Ok(&Value::Bool(true)), environment.get_variable_value("b"));
    assert_eq!(
        Err(InterperterError::SymbolNotFound("c".to_string())),
        environment.assign_to_variable("c", Value::Integer(0))
    );
    assert_eq!(
        Err(InterperterError::SymbolNotFound("c".to_string())),
        environment.update_entity("c", Entity::Variable(Mutability::Mutable, Value::Integer(0)))
    );
    assert_eq!(
        Ok(()),
        environment.update_entity("b", Entity::Variable(Mutability::Mutable, Value::Integer(0)))
    );
    assert_eq!(Ok(&Value::Integer(0)), environment.get_variable_value("b"));
    assert_eq!(
        Err(InterperterError::SymbolAlreadyDefined("b".to_string())),
        environment.insert_entity("b", Entity::Variable(Mutability::Mutable, Value::Integer(0)))
    );
}

#[test]
fn values_know_their_type() {
    assert_eq!(ValueType::String, Value::String("a".to_string()).get_type());
    assert_eq!(ValueType::Float, float(1.0).get_type());
    assert_eq!(ValueType::Integer, Value::Integer(1).get_type());
    assert_eq!(ValueType::Bool, Value::Bool(true).get_type());
    assert_eq!(&7, Value::Integer(7).unwrap_integer());
    assert_eq!(&true, Value::Bool(true).unwrap_bool());
    assert_eq!("a", Value::String("a".to_string()).unwrap_string());
    assert_eq!(&1.0f64.to_bits(), float(1.0).unwrap_float());
}
