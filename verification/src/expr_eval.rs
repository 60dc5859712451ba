//! Runtime values, and the binary operators on two values of one type.

use crate::ast::BinOp;
use crate::error::{answer_message, outcome_of, overflow_message, Failure, InterperterError};
use vstd::prelude::*;
use vstd::string::*;

verus! {

/// A runtime value. A floating-point number is held as the bit pattern of
/// an IEEE 754 double; arithmetic on such numbers is not done here but asked
/// of the caller (see `FloatQuery`).
#[derive(Debug, PartialEq)]
pub enum Value {
    String(String),
    Float(u64),
    Integer(i128),
    Bool(bool),
}

/// The type of a runtime value.
#[derive(Clone, Copy, Debug, PartialEq, Eq, Structural)]
pub enum ValueType {
    String,
    Float,
    Integer,
    Bool,
}

impl Clone for Value {
    fn clone(&self) -> (copy: Self)
        ensures
            copy == *self,
    {
        match self {
            Value::String(text) => Value::String(text.clone()),
            Value::Float(bits) => Value::Float(*bits),
            Value::Integer(number) => Value::Integer(*number),
            Value::Bool(truth) => Value::Bool(*truth),
        }
    }
}

impl Value {
    /// The type of the value.
    pub open spec fn type_of(self) -> ValueType {
        match self {
            Value::String(_) => ValueType::String,
            Value::Float(_) => ValueType::Float,
            Value::Integer(_) => ValueType::Integer,
            Value::Bool(_) => ValueType::Bool,
        }
    }

    /// The type of the value.
    pub fn get_type(&self) -> (value_type: ValueType)
        ensures
            value_type == self.type_of(),
    {
        match self {
            Value::String(_) => ValueType::String,
            Value::Float(_) => ValueType::Float,
            Value::Integer(_) => ValueType::Integer,
            Value::Bool(_) => ValueType::Bool,
        }
    }

    /// The text of a string value.
    pub fn unwrap_string(&self) -> (text: &String)
        requires
            self is String,
        ensures
            *self == Value::String(*text),
    {
        match self {
            Value::String(val) => val,
            _ => unreached(),
        }
    }

    /// The bit pattern of a floating-point value.
    pub fn unwrap_float(&self) -> (bits: &u64)
        requires
            self is Float,
        ensures
            *self == Value::Float(*bits),
    {
        match self {
            Value::Float(val) => val,
            _ => unreached(),
        }
    }

    /// The number of an integer value.
    pub fn unwrap_integer(&self) -> (number: &i128)
        requires
            self is Integer,
        ensures
            *self == Value::Integer(*number),
    {
        match self {
            Value::Integer(val) => val,
            _ => unreached(),
        }
    }

    /// The truth of a truth value.
    pub fn unwrap_bool(&self) -> (truth: &bool)
        requires
            self is Bool,
        ensures
            *self == Value::Bool(*truth),
    {
        match self {
            Value::Bool(val) => val,
            _ => unreached(),
        }
    }
}

/// A question about floating-point numbers. This library holds such numbers
/// by their bit patterns and computes nothing on them: whoever runs an
/// evaluation hands it a function that answers these questions.
#[derive(Debug, PartialEq)]
pub enum FloatQuery {
    /// The number that the text of a literal denotes.
    Literal(String),
    /// The negative of a number.
    Negate(u64),
    /// Two numbers under an arithmetic operator or a comparison.
    Binary(BinOp, u64, u64),
    /// The quotient of two integers, both taken as floating-point numbers.
    Quotient(i128, i128),
}

/// The operators that are defined on two floating-point numbers and give a
/// number.
pub open spec fn is_arithmetic(op: BinOp) -> bool {
    op == BinOp::Add || op == BinOp::Sub || op == BinOp::Mul || op == BinOp::Div
}

/// The operators that compare two numbers.
pub open spec fn is_comparison(op: BinOp) -> bool {
    op == BinOp::Eq || op == BinOp::Ne || op == BinOp::Lt || op == BinOp::Le || op == BinOp::Ge
        || op == BinOp::Gt
}

impl FloatQuery {
    /// Whether the answer to the query is a truth value; otherwise it is a
    /// number.
    pub open spec fn asks_truth(self) -> bool {
        self matches FloatQuery::Binary(op, _, _) && is_comparison(op)
    }

    /// Whether the answer to the query is a truth value; otherwise it is a
    /// number.
    pub fn wants_truth(&self) -> (truth: bool)
        ensures
            truth == self.asks_truth(),
    {
        match self {
            FloatQuery::Binary(op, _, _) => match op {
                BinOp::Eq | BinOp::Ne | BinOp::Lt | BinOp::Le | BinOp::Ge | BinOp::Gt => true,
                _ => false,
            },
            _ => false,
        }
    }
}

/// What an answer to a floating-point query is worth: the answer itself if
/// it is of the type asked for, a number or a truth value, and an error
/// otherwise.
pub open spec fn accepted(asks_truth: bool, answer: Value) -> Result<Value, Failure> {
    if asks_truth && answer is Bool || !asks_truth && answer is Float {
        Ok(answer)
    } else {
        Err(Failure::Generic(answer_message()))
    }
}

/// Checks the type of an answer to a floating-point query.
pub fn accept_answer(asks_truth: bool, answer: Value) -> (result: Result<Value, InterperterError>)
    ensures
        outcome_of(result) == accepted(asks_truth, answer),
{
    let fine = match &answer {
        Value::Bool(_) => asks_truth,
        Value::Float(_) => !asks_truth,
        _ => false,
    };
    if fine {
        Ok(answer)
    } else {
        Err(InterperterError::Generic("floating-point answer of the wrong type".to_owned()))
    }
}

/// `outcome` is what the floating-point function can make of `query`: one
/// of its answers, checked for its type.
pub open spec fn float_gives<F: Fn(FloatQuery) -> Value>(
    floats: F,
    query: FloatQuery,
    outcome: Result<Value, Failure>,
) -> bool {
    exists|answer: Value| #[trigger]
        call_ensures(floats, (query,), answer) && outcome == accepted(query.asks_truth(), answer)
}

/// The floating-point function takes every query.
pub open spec fn answers_all<F: Fn(FloatQuery) -> Value>(floats: F) -> bool {
    forall|query: FloatQuery| #[trigger] call_requires(floats, (query,))
}

/// Puts a query to the floating-point function and checks the type of the
/// answer.
pub fn ask<F: Fn(FloatQuery) -> Value>(floats: &F, query: FloatQuery) -> (result: Result<
    Value,
    InterperterError,
>)
    requires
        answers_all(*floats),
    ensures
        float_gives(*floats, query, outcome_of(result)),
{
    let asks_truth = query.wants_truth();
    let answer = floats(query);
    accept_answer(asks_truth, answer)
}

/// Two strings under a binary operator: they can be compared for equality.
pub open spec fn string_result(op: BinOp, lhs: Seq<char>, rhs: Seq<char>) -> Result<
    Value,
    Failure,
> {
    match op {
        BinOp::Eq => Ok(Value::Bool(lhs == rhs)),
        BinOp::Ne => Ok(Value::Bool(lhs != rhs)),
        _ => Err(Failure::InvalidBinaryApplication(op, ValueType::String, ValueType::String)),
    }
}

/// Two truth values under a binary operator: conjunction, disjunction and
/// comparison for equality.
pub open spec fn bool_result(op: BinOp, lhs: bool, rhs: bool) -> Result<Value, Failure> {
    match op {
        BinOp::And => Ok(Value::Bool(lhs && rhs)),
        BinOp::Or => Ok(Value::Bool(lhs || rhs)),
        BinOp::Eq => Ok(Value::Bool(lhs == rhs)),
        BinOp::Ne => Ok(Value::Bool(lhs != rhs)),
        _ => Err(Failure::InvalidBinaryApplication(op, ValueType::Bool, ValueType::Bool)),
    }
}

/// An integer as a value, if it fits in 128 signed bits.
pub open spec fn integer_value(number: int) -> Result<Value, Failure> {
    if i128::MIN <= number <= i128::MAX {
        Ok(Value::Integer(number as i128))
    } else {
        Err(Failure::Generic(overflow_message()))
    }
}

/// Two integers under a binary operator other than division: sum,
/// difference and product are integers where they fit, comparisons are truth
/// values.
pub open spec fn integer_result(op: BinOp, lhs: i128, rhs: i128) -> Result<Value, Failure>
    recommends
        op != BinOp::Div,
{
    match op {
        BinOp::Add => integer_value(lhs + rhs),
        BinOp::Sub => integer_value(lhs - rhs),
        BinOp::Mul => integer_value(lhs * rhs),
        BinOp::Eq => Ok(Value::Bool(lhs == rhs)),
        BinOp::Lt => Ok(Value::Bool(lhs < rhs)),
        BinOp::Le => Ok(Value::Bool(lhs <= rhs)),
        BinOp::Ne => Ok(Value::Bool(lhs != rhs)),
        BinOp::Ge => Ok(Value::Bool(lhs >= rhs)),
        BinOp::Gt => Ok(Value::Bool(lhs > rhs)),
        _ => Err(Failure::InvalidBinaryApplication(op, ValueType::Integer, ValueType::Integer)),
    }
}

/// `outcome` is what two integers give under a binary operator. Division is
/// true division: its result is the floating-point quotient, never an
/// integer.
pub open spec fn integer_gives<F: Fn(FloatQuery) -> Value>(
    floats: F,
    op: BinOp,
    lhs: i128,
    rhs: i128,
    outcome: Result<Value, Failure>,
) -> bool {
    if op == BinOp::Div {
        float_gives(floats, FloatQuery::Quotient(lhs, rhs), outcome)
    } else {
        outcome == integer_result(op, lhs, rhs)
    }
}

/// `outcome` is what two floating-point numbers give under a binary
/// operator: arithmetic and comparisons are asked of the floating-point
/// function, the other operators are not defined.
pub open spec fn float_pair_gives<F: Fn(FloatQuery) -> Value>(
    floats: F,
    op: BinOp,
    lhs: u64,
    rhs: u64,
    outcome: Result<Value, Failure>,
) -> bool {
    if is_arithmetic(op) || is_comparison(op) {
        float_gives(floats, FloatQuery::Binary(op, lhs, rhs), outcome)
    } else {
        outcome == Err::<Value, Failure>(
            Failure::InvalidBinaryApplication(op, ValueType::Float, ValueType::Float),
        )
    }
}

/// The error for an integer that does not fit in 128 signed bits.
pub fn overflow() -> (error: InterperterError)
    ensures
        error@ == Failure::Generic(overflow_message()),
{
    InterperterError::Generic("integer overflow".to_owned())
}

/// A sum, difference or product as a value, if it was representable.
pub fn integer_or_overflow(number: Option<i128>) -> (result: Result<Value, InterperterError>)
    ensures
        outcome_of(result) == match number {
            Some(n) => Ok::<Value, Failure>(Value::Integer(n)),
            None => Err(Failure::Generic(overflow_message())),
        },
{
    match number {
        Some(n) => Ok(Value::Integer(n)),
        None => Err(overflow()),
    }
}

/// The binary operators on two values of one type.
pub struct ExprEval;

impl ExprEval {
    /// A binary operator on two strings.
    pub fn bin_string_string(op: &BinOp, lhs: &Value, rhs: &Value) -> (result: Result<
        Value,
        InterperterError,
    >)
        requires
            lhs is String,
            rhs is String,
        ensures
            outcome_of(result) == string_result(*op, lhs->String_0@, rhs->String_0@),
    {
        let lhs = lhs.unwrap_string();
        let rhs = rhs.unwrap_string();
        match op {
            BinOp::Eq => Ok(Value::Bool(*lhs == *rhs)),
            BinOp::Ne => Ok(Value::Bool(!(*lhs == *rhs))),
            _ => Err(
                InterperterError::InvalidBinaryApplication(
                    *op,
                    ValueType::String,
                    ValueType::String,
                ),
            ),
        }
    }

    /// A binary operator on two integers. A sum, difference or product
    /// that does not fit in 128 signed bits is an error; a quotient is
    /// asked of the floating-point function.
    pub fn bin_integer_integer<F: Fn(FloatQuery) -> Value>(
        op: &BinOp,
        lhs: &Value,
        rhs: &Value,
        floats: &F,
    ) -> (result: Result<Value, InterperterError>)
        requires
            lhs is Integer,
            rhs is Integer,
            answers_all(*floats),
        ensures
            integer_gives(*floats, *op, lhs->Integer_0, rhs->Integer_0, outcome_of(result)),
    {
        let lhs = *lhs.unwrap_integer();
        let rhs = *rhs.unwrap_integer();
        match op {
            BinOp::Add => integer_or_overflow(lhs.checked_add(rhs)),
            BinOp::Sub => integer_or_overflow(lhs.checked_sub(rhs)),
            BinOp::Mul => integer_or_overflow(lhs.checked_mul(rhs)),
            BinOp::Div => ask(floats, FloatQuery::Quotient(lhs, rhs)),
            BinOp::Eq => Ok(Value::Bool(lhs == rhs)),
            BinOp::Lt => Ok(Value::Bool(lhs < rhs)),
            BinOp::Le => Ok(Value::Bool(lhs <= rhs)),
            BinOp::Ne => Ok(Value::Bool(lhs != rhs)),
            BinOp::Ge => Ok(Value::Bool(lhs >= rhs)),
            BinOp::Gt => Ok(Value::Bool(lhs > rhs)),
            _ => Err(
                InterperterError::InvalidBinaryApplication(
                    *op,
                    ValueType::Integer,
                    ValueType::Integer,
                ),
            ),
        }
    }

    /// A binary operator on two floating-point numbers, asked of the
    /// floating-point function where the operator is defined on them.
    pub fn bin_float_float<F: Fn(FloatQuery) -> Value>(
        op: &BinOp,
        lhs: &Value,
        rhs: &Value,
        floats: &F,
    ) -> (result: Result<Value, InterperterError>)
        requires
            lhs is Float,
            rhs is Float,
            answers_all(*floats),
        ensures
            float_pair_gives(*floats, *op, lhs->Float_0, rhs->Float_0, outcome_of(result)),
    {
        let lhs = *lhs.unwrap_float();
        let rhs = *rhs.unwrap_float();
        match op {
            BinOp::And | BinOp::Or | BinOp::Rem => Err(
                InterperterError::InvalidBinaryApplication(
                    *op,
                    ValueType::Float,
                    ValueType::Float,
                ),
            ),
            _ => ask(floats, FloatQuery::Binary(*op, lhs, rhs)),
        }
    }

    /// A binary operator on two truth values.
    pub fn bin_bool_bool(op: &BinOp, lhs: &Value, rhs: &Value) -> (result: Result<
        Value,
        InterperterError,
    >)
        requires
            lhs is Bool,
            rhs is Bool,
        ensures
            outcome_of(result) == bool_result(*op, lhs->Bool_0, rhs->Bool_0),
    {
        let lhs = *lhs.unwrap_bool();
        let rhs = *rhs.unwrap_bool();
        match op {
            BinOp::And => Ok(Value::Bool(lhs && rhs)),
            BinOp::Or => Ok(Value::Bool(lhs || rhs)),
            BinOp::Eq => Ok(Value::Bool(lhs == rhs)),
            BinOp::Ne => Ok(Value::Bool(lhs != rhs)),
            _ => Err(
                InterperterError::InvalidBinaryApplication(*op, ValueType::Bool, ValueType::Bool),
            ),
        }
    }
}

} // verus!
