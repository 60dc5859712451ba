//! What can go wrong while a program runs.

use crate::ast::{BinOp, UnOp};
use crate::expr_eval::ValueType;
use vstd::prelude::*;

verus! {

/// Why a statement or an expression could not be run.
#[derive(Debug, PartialEq)]
pub enum InterperterError {
    Generic(String),
    /// The operands of a binary operator are of different types.
    BinaryExprTypeMismatch(ValueType, ValueType),
    /// The operator is not defined on operands of this type.
    InvalidBinaryApplication(BinOp, ValueType, ValueType),
    /// The operator is not defined on an operand of this type.
    InvalidUnaryApplication(UnOp, ValueType),
    /// No variable of this name has been declared.
    SymbolNotFound(String),
    /// A variable of this name has been declared before.
    SymbolAlreadyDefined(String),
    /// The variable of this name was declared with `const`.
    ImmutableAssignment(String),
}

/// An error by the texts that it carries.
pub enum Failure {
    Generic(Seq<char>),
    BinaryExprTypeMismatch(ValueType, ValueType),
    InvalidBinaryApplication(BinOp, ValueType, ValueType),
    InvalidUnaryApplication(UnOp, ValueType),
    SymbolNotFound(Seq<char>),
    SymbolAlreadyDefined(Seq<char>),
    ImmutableAssignment(Seq<char>),
}

impl View for InterperterError {
    type V = Failure;

    open spec fn view(&self) -> Failure {
        match self {
            InterperterError::Generic(message) => Failure::Generic(message@),
            InterperterError::BinaryExprTypeMismatch(lhs, rhs) => Failure::BinaryExprTypeMismatch(
                *lhs,
                *rhs,
            ),
            InterperterError::InvalidBinaryApplication(op, lhs, rhs) =>
                Failure::InvalidBinaryApplication(*op, *lhs, *rhs),
            InterperterError::InvalidUnaryApplication(op, operand) =>
                Failure::InvalidUnaryApplication(*op, *operand),
            InterperterError::SymbolNotFound(name) => Failure::SymbolNotFound(name@),
            InterperterError::SymbolAlreadyDefined(name) => Failure::SymbolAlreadyDefined(name@),
            InterperterError::ImmutableAssignment(name) => Failure::ImmutableAssignment(name@),
        }
    }
}

/// A result with its error taken by the texts that it carries.
pub open spec fn outcome_of<T>(result: Result<T, InterperterError>) -> Result<T, Failure> {
    match result {
        Ok(value) => Ok(value),
        Err(error) => Err(error@),
    }
}

/// The message of an integer operation whose result does not fit in 128
/// signed bits.
pub open spec fn overflow_message() -> Seq<char> {
    "integer overflow"@
}

/// The message for an answer to a floating-point query that is not of the
/// type that the query asks for.
pub open spec fn answer_message() -> Seq<char> {
    "floating-point answer of the wrong type"@
}

} // verus!
