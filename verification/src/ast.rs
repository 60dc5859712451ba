//! The syntax tree: expressions, declarations and statements.

use crate::token::Literal;
use vstd::prelude::*;

verus! {

/// An operator with two operands.
#[derive(Clone, Copy, Debug, PartialEq, Eq, Structural)]
pub enum BinOp {
    Add,
    Sub,
    Mul,
    Div,
    Rem,
    And,
    Or,
    Eq,
    Lt,
    Le,
    Ne,
    Ge,
    Gt,
}

impl BinOp {
    /// The operator as it is written in a source.
    pub open spec fn code(self) -> Seq<char> {
        match self {
            BinOp::Add => "+"@,
            BinOp::Sub => "-"@,
            BinOp::Mul => "*"@,
            BinOp::Div => "/"@,
            BinOp::Rem => "%"@,
            BinOp::And => "&&"@,
            BinOp::Or => "||"@,
            BinOp::Eq => "=="@,
            BinOp::Lt => "<"@,
            BinOp::Le => "<="@,
            BinOp::Ne => "!="@,
            BinOp::Ge => ">="@,
            BinOp::Gt => ">"@,
        }
    }

    /// The operator as it is written in a source.
    pub fn as_code(&self) -> (code: &'static str)
        ensures
            code@ == self.code(),
    {
        match self {
            BinOp::Add => "+",
            BinOp::Sub => "-",
            BinOp::Mul => "*",
            BinOp::Div => "/",
            BinOp::Rem => "%",
            BinOp::And => "&&",
            BinOp::Or => "||",
            BinOp::Eq => "==",
            BinOp::Lt => "<",
            BinOp::Le => "<=",
            BinOp::Ne => "!=",
            BinOp::Ge => ">=",
            BinOp::Gt => ">",
        }
    }
}

/// An operator with one operand.
#[derive(Clone, Copy, Debug, PartialEq, Eq, Structural)]
pub enum UnOp {
    /// The `!` operator for logical inversion
    Not,
    /// The `-` operator for negation
    Neg,
}

impl UnOp {
    /// The operator as it is written in a source.
    pub open spec fn code(self) -> Seq<char> {
        match self {
            UnOp::Not => "!"@,
            UnOp::Neg => "-"@,
        }
    }

    /// The operator as it is written in a source.
    pub fn as_code(&self) -> (code: &'static str)
        ensures
            code@ == self.code(),
    {
        match self {
            UnOp::Not => "!",
            UnOp::Neg => "-",
        }
    }
}

/// What an expression is: each variant owns its operands.
#[derive(Debug, PartialEq)]
pub enum ExprKind {
    Binary(BinOp, Box<Expr>, Box<Expr>),
    Unary(UnOp, Box<Expr>),
    Literal(Literal),
    Variable(String),
}

/// An expression.
#[derive(Debug, PartialEq)]
pub struct Expr {
    pub kind: ExprKind,
}

/// What a declaration declares: a name and the expression of its first value.
#[derive(Debug, PartialEq)]
pub enum DeclKind {
    Var(String, Box<Expr>),
    Const(String, Box<Expr>),
}

/// A declaration.
#[derive(Debug, PartialEq)]
pub struct Decl {
    pub kind: DeclKind,
}

/// What a statement is.
#[derive(Debug, PartialEq)]
pub enum StmtKind {
    /// Evaluates the expression.
    Expr(Box<Expr>),
    /// Evaluates the expression and prints its value.
    Print(Box<Expr>),
    Decl(Box<Decl>),
    /// Gives a declared variable a new value. No source text parses to this
    /// statement: the grammar has no assignment.
    Assign(String, Box<Expr>),
}

/// A statement.
#[derive(Debug, PartialEq)]
pub struct Stmt {
    pub kind: StmtKind,
}

impl Clone for Expr {
    fn clone(&self) -> (copy: Self)
        ensures
            copy == *self,
        decreases *self,
    {
        match &self.kind {
            ExprKind::Binary(op, lhs, rhs) => {
                let lhs: &Expr = lhs;
                let rhs: &Expr = rhs;
                Expr { kind: ExprKind::Binary(*op, Box::new(lhs.clone()), Box::new(rhs.clone())) }
            },
            ExprKind::Unary(op, operand) => {
                let operand: &Expr = operand;
                Expr { kind: ExprKind::Unary(*op, Box::new(operand.clone())) }
            },
            ExprKind::Literal(literal) => Expr { kind: ExprKind::Literal(literal.clone()) },
            ExprKind::Variable(name) => Expr { kind: ExprKind::Variable(name.clone()) },
        }
    }
}

impl Clone for Decl {
    fn clone(&self) -> (copy: Self)
        ensures
            copy == *self,
    {
        match &self.kind {
            DeclKind::Var(name, init) => {
                let init: &Expr = init;
                Decl { kind: DeclKind::Var(name.clone(), Box::new(init.clone())) }
            },
            DeclKind::Const(name, init) => {
                let init: &Expr = init;
                Decl { kind: DeclKind::Const(name.clone(), Box::new(init.clone())) }
            },
        }
    }
}

impl Clone for Stmt {
    fn clone(&self) -> (copy: Self)
        ensures
            copy == *self,
    {
        match &self.kind {
            StmtKind::Expr(expr) => {
                let expr: &Expr = expr;
                Stmt { kind: StmtKind::Expr(Box::new(expr.clone())) }
            },
            StmtKind::Print(expr) => {
                let expr: &Expr = expr;
                Stmt { kind: StmtKind::Print(Box::new(expr.clone())) }
            },
            StmtKind::Decl(decl) => {
                let decl: &Decl = decl;
                Stmt { kind: StmtKind::Decl(Box::new(decl.clone())) }
            },
            StmtKind::Assign(name, expr) => {
                let expr: &Expr = expr;
                Stmt { kind: StmtKind::Assign(name.clone(), Box::new(expr.clone())) }
            },
        }
    }
}

/// The expression of a literal.
pub open spec fn literal_expr(literal: Literal) -> Expr {
    Expr { kind: ExprKind::Literal(literal) }
}

/// The expression of a variable.
pub open spec fn variable_expr(name: String) -> Expr {
    Expr { kind: ExprKind::Variable(name) }
}

/// The expression `op operand`.
pub open spec fn unary_expr(op: UnOp, operand: Expr) -> Expr {
    Expr { kind: ExprKind::Unary(op, Box::new(operand)) }
}

/// The expression `lhs op rhs`.
pub open spec fn binary_expr(op: BinOp, lhs: Expr, rhs: Expr) -> Expr {
    Expr { kind: ExprKind::Binary(op, Box::new(lhs), Box::new(rhs)) }
}

} // verus!
