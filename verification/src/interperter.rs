//! The evaluator: walks the tree of an expression or a statement against an
//! environment.
//!
//! Floating-point numbers are computed by a function that the caller hands
//! in. Nothing is assumed of that function, so what an evaluation yields is
//! stated as a relation: `evaluates` holds of every outcome that the
//! function's answers allow. Where no floating-point number is involved the
//! relation holds of one outcome only.

use crate::ast::{BinOp, Decl, DeclKind, Expr, ExprKind, Stmt, StmtKind, UnOp};
use crate::environment::{assigned, inserted, lookup, Entity, Environment, Mutability};
use crate::error::{answer_message, outcome_of, Failure, InterperterError};
use crate::expr_eval::{
    accepted, answers_all, ask, bool_result, float_gives, float_pair_gives, integer_gives,
    integer_or_overflow, integer_value, is_arithmetic, is_comparison, string_result, ExprEval,
    FloatQuery, Value, ValueType,
};
use crate::token::Literal;
use vstd::prelude::*;
use vstd::string::*;

verus! {

/// `outcome` is what a literal gives.
pub open spec fn literal_gives<F: Fn(FloatQuery) -> Value>(
    floats: F,
    literal: Literal,
    outcome: Result<Value, Failure>,
) -> bool {
    match literal {
        Literal::String(text) => outcome == Ok::<Value, Failure>(Value::String(text)),
        Literal::Bool(truth) => outcome == Ok::<Value, Failure>(Value::Bool(truth)),
        Literal::Integer(number) => outcome == Ok::<Value, Failure>(Value::Integer(number)),
        Literal::Float(text) => float_gives(floats, FloatQuery::Literal(text), outcome),
    }
}

/// `outcome` is what a unary operator gives on a value: `!` is defined on
/// truth values only, `-` on numbers only.
pub open spec fn unary_gives<F: Fn(FloatQuery) -> Value>(
    floats: F,
    op: UnOp,
    operand: Value,
    outcome: Result<Value, Failure>,
) -> bool {
    match operand {
        Value::Bool(truth) if op == UnOp::Not => outcome == Ok::<Value, Failure>(
            Value::Bool(!truth),
        ),
        Value::Integer(number) if op == UnOp::Neg => outcome == integer_value(-number),
        Value::Float(bits) if op == UnOp::Neg => float_gives(
            floats,
            FloatQuery::Negate(bits),
            outcome,
        ),
        _ => outcome == Err::<Value, Failure>(
            Failure::InvalidUnaryApplication(op, operand.type_of()),
        ),
    }
}

/// `outcome` is what a binary operator gives on two values: they must be of
/// one type, and the operator must be defined on that type.
pub open spec fn binary_gives<F: Fn(FloatQuery) -> Value>(
    floats: F,
    op: BinOp,
    lhs: Value,
    rhs: Value,
    outcome: Result<Value, Failure>,
) -> bool {
    match (lhs, rhs) {
        (Value::String(a), Value::String(b)) => outcome == string_result(op, a@, b@),
        (Value::Float(a), Value::Float(b)) => float_pair_gives(floats, op, a, b, outcome),
        (Value::Integer(a), Value::Integer(b)) => integer_gives(floats, op, a, b, outcome),
        (Value::Bool(a), Value::Bool(b)) => outcome == bool_result(op, a, b),
        _ => outcome == Err::<Value, Failure>(
            Failure::BinaryExprTypeMismatch(lhs.type_of(), rhs.type_of()),
        ),
    }
}

/// What follows the evaluation of an operand: its failure, or what the
/// operator makes of its value.
pub open spec fn unary_then<F: Fn(FloatQuery) -> Value>(
    floats: F,
    op: UnOp,
    operand: Result<Value, Failure>,
    outcome: Result<Value, Failure>,
) -> bool {
    match operand {
        Ok(value) => unary_gives(floats, op, value, outcome),
        Err(failure) => outcome == Err::<Value, Failure>(failure),
    }
}

/// What follows the evaluation of the two operands of a binary operator:
/// the failure of the left one, else the failure of the right one, else what
/// the operator makes of their values.
pub open spec fn binary_then<F: Fn(FloatQuery) -> Value>(
    floats: F,
    op: BinOp,
    left: Result<Value, Failure>,
    right: Result<Value, Failure>,
    outcome: Result<Value, Failure>,
) -> bool {
    match left {
        Ok(a) => match right {
            Ok(b) => binary_gives(floats, op, a, b, outcome),
            Err(failure) => outcome == Err::<Value, Failure>(failure),
        },
        Err(failure) => outcome == Err::<Value, Failure>(failure),
    }
}

/// `outcome` is what the expression gives in the environment `env`: the
/// operands are evaluated from left to right, both of them whatever the
/// operator is, and the first failure ends the evaluation.
pub open spec fn evaluates<F: Fn(FloatQuery) -> Value>(
    floats: F,
    env: Map<Seq<char>, Entity>,
    expr: Expr,
    outcome: Result<Value, Failure>,
) -> bool
    decreases expr,
{
    match expr.kind {
        ExprKind::Literal(literal) => literal_gives(floats, literal, outcome),
        ExprKind::Variable(name) => outcome == lookup(env, name@),
        ExprKind::Unary(op, operand) => exists|inner: Result<Value, Failure>|
            evaluates(floats, env, *operand, inner) && #[trigger] unary_then(
                floats,
                op,
                inner,
                outcome,
            ),
        ExprKind::Binary(op, lhs, rhs) => exists|
            left: Result<Value, Failure>,
            right: Result<Value, Failure>,
        |
            evaluates(floats, env, *lhs, left) && (left is Ok ==> evaluates(
                floats,
                env,
                *rhs,
                right,
            )) && #[trigger] binary_then(floats, op, left, right, outcome),
    }
}

/// An expression `op operand` gives what the operator makes of what the
/// operand gives.
pub proof fn lemma_unary_evaluates<F: Fn(FloatQuery) -> Value>(
    floats: F,
    env: Map<Seq<char>, Entity>,
    op: UnOp,
    operand: Expr,
    inner: Result<Value, Failure>,
    outcome: Result<Value, Failure>,
)
    requires
        evaluates(floats, env, operand, inner),
        unary_then(floats, op, inner, outcome),
    ensures
        evaluates(floats, env, Expr { kind: ExprKind::Unary(op, Box::new(operand)) }, outcome),
{
}

/// An expression `lhs op rhs` whose left operand fails gives that failure.
pub proof fn lemma_binary_fails_left<F: Fn(FloatQuery) -> Value>(
    floats: F,
    env: Map<Seq<char>, Entity>,
    op: BinOp,
    lhs: Expr,
    rhs: Expr,
    failure: Failure,
)
    requires
        evaluates(floats, env, lhs, Err(failure)),
    ensures
        evaluates(
            floats,
            env,
            Expr { kind: ExprKind::Binary(op, Box::new(lhs), Box::new(rhs)) },
            Err(failure),
        ),
{
    assert(binary_then(floats, op, Err(failure), Err(failure), Err(failure)));
}

/// An expression `lhs op rhs` whose left operand has a value gives the
/// failure of the right operand, or what the operator makes of both values.
pub proof fn lemma_binary_evaluates<F: Fn(FloatQuery) -> Value>(
    floats: F,
    env: Map<Seq<char>, Entity>,
    op: BinOp,
    lhs: Expr,
    rhs: Expr,
    left: Value,
    right: Result<Value, Failure>,
    outcome: Result<Value, Failure>,
)
    requires
        evaluates(floats, env, lhs, Ok(left)),
        evaluates(floats, env, rhs, right),
        binary_then(floats, op, Ok(left), right, outcome),
    ensures
        evaluates(
            floats,
            env,
            Expr { kind: ExprKind::Binary(op, Box::new(lhs), Box::new(rhs)) },
            outcome,
        ),
{
}

/// Law: the quotient of two integers is never an integer. Whatever the
/// floating-point function answers, dividing one integer by another gives a
/// floating-point number, or fails because the answer was none.
pub proof fn lemma_integer_division_gives_float<F: Fn(FloatQuery) -> Value>(
    floats: F,
    lhs: i128,
    rhs: i128,
    outcome: Result<Value, Failure>,
)
    requires
        binary_gives(floats, BinOp::Div, Value::Integer(lhs), Value::Integer(rhs), outcome),
    ensures
        outcome matches Ok(quotient) ==> quotient is Float,
        outcome matches Err(failure) ==> failure == Failure::Generic(answer_message()),
{
}

/// Law: operands of different types are never computed with. A binary
/// operator on two values of different types gives the mismatch of their
/// types, whatever the operator is.
pub proof fn lemma_mismatch_is_an_error<F: Fn(FloatQuery) -> Value>(
    floats: F,
    op: BinOp,
    lhs: Value,
    rhs: Value,
    outcome: Result<Value, Failure>,
)
    requires
        lhs.type_of() != rhs.type_of(),
        binary_gives(floats, op, lhs, rhs, outcome),
    ensures
        outcome == Err::<Value, Failure>(
            Failure::BinaryExprTypeMismatch(lhs.type_of(), rhs.type_of()),
        ),
{
}

/// The floating-point function gives one answer to each query.
pub open spec fn is_function<F: Fn(FloatQuery) -> Value>(floats: F) -> bool {
    forall|query: FloatQuery, a: Value, b: Value|
        #[trigger] call_ensures(floats, (query,), a) && #[trigger] call_ensures(
            floats,
            (query,),
            b,
        ) ==> a == b
}

/// A query to a floating-point function that gives one answer to each
/// query has one outcome.
pub proof fn lemma_float_gives_one<F: Fn(FloatQuery) -> Value>(
    floats: F,
    query: FloatQuery,
    first: Result<Value, Failure>,
    second: Result<Value, Failure>,
)
    requires
        is_function(floats),
        float_gives(floats, query, first),
        float_gives(floats, query, second),
    ensures
        first == second,
{
    let a = choose|a: Value| #[trigger]
        call_ensures(floats, (query,), a) && first == accepted(query.asks_truth(), a);
    let b = choose|b: Value| #[trigger]
        call_ensures(floats, (query,), b) && second == accepted(query.asks_truth(), b);
    assert(a == b);
}

/// Law: evaluation is as determined as the floating-point function. Where
/// that function gives one answer to each query, an expression has one
/// outcome in an environment.
pub proof fn lemma_evaluation_is_determined<F: Fn(FloatQuery) -> Value>(
    floats: F,
    env: Map<Seq<char>, Entity>,
    expr: Expr,
    first: Result<Value, Failure>,
    second: Result<Value, Failure>,
)
    requires
        is_function(floats),
        evaluates(floats, env, expr, first),
        evaluates(floats, env, expr, second),
    ensures
        first == second,
    decreases expr,
{
    match expr.kind {
        ExprKind::Literal(literal) => {
            if let Literal::Float(text) = literal {
                lemma_float_gives_one(floats, FloatQuery::Literal(text), first, second);
            }
        },
        ExprKind::Variable(_) => {},
        ExprKind::Unary(op, operand) => {
            let a = choose|inner: Result<Value, Failure>|
                evaluates(floats, env, *operand, inner) && #[trigger] unary_then(
                    floats,
                    op,
                    inner,
                    first,
                );
            let b = choose|inner: Result<Value, Failure>|
                evaluates(floats, env, *operand, inner) && #[trigger] unary_then(
                    floats,
                    op,
                    inner,
                    second,
                );
            lemma_evaluation_is_determined(floats, env, *operand, a, b);
            if let Ok(Value::Float(bits)) = a {
                if op == UnOp::Neg {
                    lemma_float_gives_one(floats, FloatQuery::Negate(bits), first, second);
                }
            }
        },
        ExprKind::Binary(op, lhs, rhs) => {
            let (a, c) = choose|left: Result<Value, Failure>, right: Result<Value, Failure>|
                evaluates(floats, env, *lhs, left) && (left is Ok ==> evaluates(
                    floats,
                    env,
                    *rhs,
                    right,
                )) && #[trigger] binary_then(floats, op, left, right, first);
            let (b, d) = choose|left: Result<Value, Failure>, right: Result<Value, Failure>|
                evaluates(floats, env, *lhs, left) && (left is Ok ==> evaluates(
                    floats,
                    env,
                    *rhs,
                    right,
                )) && #[trigger] binary_then(floats, op, left, right, second);
            lemma_evaluation_is_determined(floats, env, *lhs, a, b);
            if a is Ok {
                lemma_evaluation_is_determined(floats, env, *rhs, c, d);
                if let (Ok(x), Ok(y)) = (a, c) {
                    match (x, y) {
                        (Value::Float(m), Value::Float(n)) => {
                            if is_arithmetic(op) || is_comparison(op) {
                                lemma_float_gives_one(
                                    floats,
                                    FloatQuery::Binary(op, m, n),
                                    first,
                                    second,
                                );
                            }
                        },
                        (Value::Integer(m), Value::Integer(n)) => {
                            if op == BinOp::Div {
                                lemma_float_gives_one(
                                    floats,
                                    FloatQuery::Quotient(m, n),
                                    first,
                                    second,
                                );
                            }
                        },
                        _ => {},
                    }
                }
            }
        },
    }
}

/// Number of operators above the deepest leaf of an expression.
pub open spec fn depth(expr: Expr) -> nat
    decreases expr,
{
    match expr.kind {
        ExprKind::Literal(_) => 0,
        ExprKind::Variable(_) => 0,
        ExprKind::Unary(_, operand) => 1 + depth(*operand),
        ExprKind::Binary(_, lhs, rhs) => 1 + if depth(*lhs) >= depth(*rhs) {
            depth(*lhs)
        } else {
            depth(*rhs)
        },
    }
}

/// What the execution of a statement leaves behind for its caller.
#[derive(Debug, PartialEq)]
pub enum Effect {
    /// The value of an expression statement.
    Evaluated(Value),
    /// The value that a print statement wants printed.
    Printed(Value),
    /// A variable was declared.
    Declared,
    /// A variable was given a new value.
    Assigned,
}

/// A statement with an expression only: its value is handed out, as one to
/// print if `print` is set, and the environment stays as it is.
pub open spec fn shows(
    value: Result<Value, Failure>,
    print: bool,
    outcome: Result<Effect, Failure>,
) -> bool {
    match value {
        Ok(v) => outcome == Ok::<Effect, Failure>(
            if print {
                Effect::Printed(v)
            } else {
                Effect::Evaluated(v)
            },
        ),
        Err(failure) => outcome == Err::<Effect, Failure>(failure),
    }
}

/// The outcome of a change to the environment, and the environment that it
/// leaves.
pub open spec fn changes(
    env: Map<Seq<char>, Entity>,
    change: Result<Map<Seq<char>, Entity>, Failure>,
    done: Effect,
    outcome: Result<Effect, Failure>,
    after: Map<Seq<char>, Entity>,
) -> bool {
    match change {
        Ok(next) => outcome == Ok::<Effect, Failure>(done) && after == next,
        Err(failure) => outcome == Err::<Effect, Failure>(failure) && after == env,
    }
}

/// A declaration: the initializer is evaluated before the name is looked
/// at, so a declaration cannot refer to itself.
pub open spec fn declares<F: Fn(FloatQuery) -> Value>(
    floats: F,
    env: Map<Seq<char>, Entity>,
    name: Seq<char>,
    mutability: Mutability,
    init: Expr,
    outcome: Result<Effect, Failure>,
    after: Map<Seq<char>, Entity>,
) -> bool {
    exists|value: Result<Value, Failure>| #[trigger]
        evaluates(floats, env, init, value) && match value {
            Ok(v) => changes(
                env,
                inserted(env, name, Entity::Variable(mutability, v)),
                Effect::Declared,
                outcome,
                after,
            ),
            Err(failure) => outcome == Err::<Effect, Failure>(failure) && after == env,
        }
}

/// `outcome` is what the statement gives in the environment `env`, and
/// `after` is the environment that it leaves.
pub open spec fn executes<F: Fn(FloatQuery) -> Value>(
    floats: F,
    env: Map<Seq<char>, Entity>,
    stmt: Stmt,
    outcome: Result<Effect, Failure>,
    after: Map<Seq<char>, Entity>,
) -> bool {
    match stmt.kind {
        StmtKind::Expr(expr) => after == env && exists|value: Result<Value, Failure>| #[trigger]
            evaluates(floats, env, *expr, value) && shows(value, false, outcome),
        StmtKind::Print(expr) => after == env && exists|value: Result<Value, Failure>| #[trigger]
            evaluates(floats, env, *expr, value) && shows(value, true, outcome),
        StmtKind::Decl(decl) => match decl.kind {
            DeclKind::Const(name, init) => declares(
                floats,
                env,
                name@,
                Mutability::Immutable,
                *init,
                outcome,
                after,
            ),
            DeclKind::Var(name, init) => declares(
                floats,
                env,
                name@,
                Mutability::Mutable,
                *init,
                outcome,
                after,
            ),
        },
        StmtKind::Assign(name, expr) => exists|value: Result<Value, Failure>| #[trigger]
            evaluates(floats, env, *expr, value) && match value {
                Ok(v) => changes(env, assigned(env, name@, v), Effect::Assigned, outcome, after),
                Err(failure) => outcome == Err::<Effect, Failure>(failure) && after == env,
            },
    }
}

/// Applies a unary operator to a value.
pub fn apply_unary<F: Fn(FloatQuery) -> Value>(op: UnOp, operand: Value, floats: &F) -> (result:
    Result<Value, InterperterError>)
    requires
        answers_all(*floats),
    ensures
        unary_gives(*floats, op, operand, outcome_of(result)),
{
    match operand {
        Value::String(_) => Err(InterperterError::InvalidUnaryApplication(op, ValueType::String)),
        Value::Bool(val) => match op {
            UnOp::Not => Ok(Value::Bool(!val)),
            UnOp::Neg => Err(InterperterError::InvalidUnaryApplication(op, ValueType::Bool)),
        },
        Value::Integer(val) => match op {
            UnOp::Not => Err(InterperterError::InvalidUnaryApplication(op, ValueType::Integer)),
            UnOp::Neg => {
                let zero: i128 = 0;
                integer_or_overflow(zero.checked_sub(val))
            },
        },
        Value::Float(val) => match op {
            UnOp::Not => Err(InterperterError::InvalidUnaryApplication(op, ValueType::Float)),
            UnOp::Neg => ask(floats, FloatQuery::Negate(val)),
        },
    }
}

/// Applies a binary operator to two values.
pub fn apply_binary<F: Fn(FloatQuery) -> Value>(
    op: BinOp,
    lhs: &Value,
    rhs: &Value,
    floats: &F,
) -> (result: Result<Value, InterperterError>)
    requires
        answers_all(*floats),
    ensures
        binary_gives(*floats, op, *lhs, *rhs, outcome_of(result)),
{
    let lhs_type = lhs.get_type();
    let rhs_type = rhs.get_type();
    if lhs_type != rhs_type {
        return Err(InterperterError::BinaryExprTypeMismatch(lhs_type, rhs_type));
    }
    match lhs_type {
        ValueType::String => ExprEval::bin_string_string(&op, lhs, rhs),
        ValueType::Float => ExprEval::bin_float_float(&op, lhs, rhs, floats),
        ValueType::Integer => ExprEval::bin_integer_integer(&op, lhs, rhs, floats),
        ValueType::Bool => ExprEval::bin_bool_bool(&op, lhs, rhs),
    }
}

/// A session: an environment, and the statements that are run against it.
/// Its view is the environment as a map from the text of a name to the
/// entity.
pub struct Interperter {
    environment: Environment,
}

impl View for Interperter {
    type V = Map<Seq<char>, Entity>;

    /// The variables of the session.
    closed spec fn view(&self) -> Map<Seq<char>, Entity> {
        self.environment@
    }
}

impl Interperter {
    /// A session with an empty environment.
    pub fn new() -> (interperter: Self)
        ensures
            interperter@ == Map::<Seq<char>, Entity>::empty(),
    {
        Self { environment: Environment::new() }
    }

    /// The value of a declared variable.
    pub fn variable(&self, name: &str) -> (result: Result<&Value, InterperterError>)
        ensures
            match lookup(self@, name@) {
                Ok(value) => result == Ok::<&Value, InterperterError>(&value),
                Err(failure) => result matches Err(e) && e@ == failure,
            },
    {
        self.environment.get_variable_value(name)
    }

    /// Evaluates an expression in the environment of the session, which it
    /// leaves as it is.
    pub fn evaluate_expr<F: Fn(FloatQuery) -> Value>(&self, expr: &Expr, floats: &F) -> (result:
        Result<Value, InterperterError>)
        requires
            answers_all(*floats),
        ensures
            evaluates(*floats, self@, *expr, outcome_of(result)),
        decreases depth(*expr), 1nat,
    {
        match &expr.kind {
            ExprKind::Binary(op, lhs, rhs) => self.visit_binary_expr(op, lhs, rhs, floats),
            ExprKind::Unary(op, operand) => self.visit_unary_expr(op, operand, floats),
            ExprKind::Literal(literal) => self.visit_literal_expr(literal, floats),
            ExprKind::Variable(identifier) => self.visit_variable_expr(identifier),
        }
    }

    fn visit_binary_expr<F: Fn(FloatQuery) -> Value>(
        &self,
        op: &BinOp,
        lhs: &Expr,
        rhs: &Expr,
        floats: &F,
    ) -> (result: Result<Value, InterperterError>)
        requires
            answers_all(*floats),
        ensures
            evaluates(
                *floats,
                self@,
                Expr { kind: ExprKind::Binary(*op, Box::new(*lhs), Box::new(*rhs)) },
                outcome_of(result),
            ),
        decreases
                1 + if depth(*lhs) >= depth(*rhs) {
                    depth(*lhs)
                } else {
                    depth(*rhs)
                },
                0nat,
    {
        let lhs_val = match self.evaluate_expr(lhs, floats) {
            Ok(value) => value,
            Err(error) => {
                proof {
                    lemma_binary_fails_left(*floats, self@, *op, *lhs, *rhs, error@);
                }
                return Err(error);
            },
        };
        let rhs_val = match self.evaluate_expr(rhs, floats) {
            Ok(value) => value,
            Err(error) => {
                proof {
                    lemma_binary_evaluates(
                        *floats,
                        self@,
                        *op,
                        *lhs,
                        *rhs,
                        lhs_val,
                        Err(error@),
                        Err(error@),
                    );
                }
                return Err(error);
            },
        };
        let result = apply_binary(*op, &lhs_val, &rhs_val, floats);
        proof {
            lemma_binary_evaluates(
                *floats,
                self@,
                *op,
                *lhs,
                *rhs,
                lhs_val,
                Ok(rhs_val),
                outcome_of(result),
            );
        }
        result
    }

    fn visit_unary_expr<F: Fn(FloatQuery) -> Value>(&self, op: &UnOp, expr: &Expr, floats: &F) -> (result:
        Result<Value, InterperterError>)
        requires
            answers_all(*floats),
        ensures
            evaluates(
                *floats,
                self@,
                Expr { kind: ExprKind::Unary(*op, Box::new(*expr)) },
                outcome_of(result),
            ),
        decreases 1 + depth(*expr), 0nat,
    {
        let expr_val = match self.evaluate_expr(expr, floats) {
            Ok(value) => value,
            Err(error) => {
                proof {
                    lemma_unary_evaluates(
                        *floats,
                        self@,
                        *op,
                        *expr,
                        Err(error@),
                        Err(error@),
                    );
                }
                return Err(error);
            },
        };
        let ghost operand = expr_val;
        let result = apply_unary(*op, expr_val, floats);
        proof {
            lemma_unary_evaluates(*floats, self@, *op, *expr, Ok(operand), outcome_of(result));
        }
        result
    }

    fn visit_literal_expr<F: Fn(FloatQuery) -> Value>(&self, literal: &Literal, floats: &F) -> (result:
        Result<Value, InterperterError>)
        requires
            answers_all(*floats),
        ensures
            literal_gives(*floats, *literal, outcome_of(result)),
    {
        match literal {
            Literal::String(val) => Ok(Value::String(val.clone())),
            Literal::Bool(val) => Ok(Value::Bool(*val)),
            Literal::Integer(val) => Ok(Value::Integer(*val)),
            Literal::Float(val) => ask(floats, FloatQuery::Literal(val.clone())),
        }
    }

    fn visit_variable_expr(&self, identifier: &String) -> (result: Result<
        Value,
        InterperterError,
    >)
        ensures
            outcome_of(result) == lookup(self@, identifier@),
    {
        match self.environment.get_variable_value(identifier.as_str()) {
            Ok(value) => Ok(value.clone()),
            Err(error) => Err(error),
        }
    }

    /// Runs a statement: `outcome` tells what it gave, and the environment
    /// is changed by a declaration or an assignment that succeeds, and by
    /// nothing else.
    pub fn interpret_stmt<F: Fn(FloatQuery) -> Value>(&mut self, stmt: &Stmt, floats: &F) -> (result:
        Result<Effect, InterperterError>)
        requires
            answers_all(*floats),
        ensures
            executes(*floats, old(self)@, *stmt, outcome_of(result), final(self)@),
            result is Err ==> final(self)@ == old(self)@,
            stmt.kind is Expr || stmt.kind is Print ==> final(self)@ == old(self)@,
    {
        match &stmt.kind {
            StmtKind::Expr(expr) => self.visit_expr_stmt(expr, floats),
            StmtKind::Print(expr) => self.visit_print_stmt(expr, floats),
            StmtKind::Decl(decl) => self.visit_decl_stmt(decl, floats),
            StmtKind::Assign(identifier, expr) => self.visit_assign_stmt(identifier, expr, floats),
        }
    }

    fn visit_expr_stmt<F: Fn(FloatQuery) -> Value>(&self, expr: &Expr, floats: &F) -> (result:
        Result<Effect, InterperterError>)
        requires
            answers_all(*floats),
        ensures
            exists|value: Result<Value, Failure>| #[trigger]
                evaluates(*floats, self@, *expr, value) && shows(
                    value,
                    false,
                    outcome_of(result),
                ),
    {
        match self.evaluate_expr(expr, floats) {
            Ok(value) => Ok(Effect::Evaluated(value)),
            Err(error) => Err(error),
        }
    }

    fn visit_print_stmt<F: Fn(FloatQuery) -> Value>(&self, expr: &Expr, floats: &F) -> (result:
        Result<Effect, InterperterError>)
        requires
            answers_all(*floats),
        ensures
            exists|value: Result<Value, Failure>| #[trigger]
                evaluates(*floats, self@, *expr, value) && shows(value, true, outcome_of(result)),
    {
        match self.evaluate_expr(expr, floats) {
            Ok(value) => Ok(Effect::Printed(value)),
            Err(error) => Err(error),
        }
    }

    fn visit_decl_stmt<F: Fn(FloatQuery) -> Value>(&mut self, decl: &Decl, floats: &F) -> (result:
        Result<Effect, InterperterError>)
        requires
            answers_all(*floats),
        ensures
            executes(
                *floats,
                old(self)@,
                Stmt { kind: StmtKind::Decl(Box::new(*decl)) },
                outcome_of(result),
                final(self)@,
            ),
            result is Err ==> final(self)@ == old(self)@,
    {
        let (ident, init_expr, mutability) = match &decl.kind {
            DeclKind::Const(ident, init_expr) => (ident, init_expr, Mutability::Immutable),
            DeclKind::Var(ident, init_expr) => (ident, init_expr, Mutability::Mutable),
        };
        let expr_val = match self.evaluate_expr(init_expr, floats) {
            Ok(value) => value,
            Err(error) => {
                return Err(error);
            },
        };
        match self.environment.define_variable(ident.as_str(), mutability, expr_val) {
            Ok(()) => Ok(Effect::Declared),
            Err(error) => Err(error),
        }
    }

    fn visit_assign_stmt<F: Fn(FloatQuery) -> Value>(
        &mut self,
        identifier: &String,
        expr: &Expr,
        floats: &F,
    ) -> (result: Result<Effect, InterperterError>)
        requires
            answers_all(*floats),
        ensures
            executes(
                *floats,
                old(self)@,
                Stmt { kind: StmtKind::Assign(*identifier, Box::new(*expr)) },
                outcome_of(result),
                final(self)@,
            ),
            result is Err ==> final(self)@ == old(self)@,
    {
        let value = match self.evaluate_expr(expr, floats) {
            Ok(value) => value,
            Err(error) => {
                return Err(error);
            },
        };
        match self.environment.assign_to_variable(identifier.as_str(), value) {
            Ok(()) => Ok(Effect::Assigned),
            Err(error) => Err(error),
        }
    }
}

} // verus!
