//! A small scripting language: tokenizer, recursive-descent parser, syntax
//! tree and tree-walking evaluator, with machine-checked contracts.

pub mod ast;
pub mod cli;
pub mod environment;
pub mod error;
pub mod expr_eval;
pub mod grammar;
pub mod interperter;
pub mod number;
pub mod parse;
pub mod pattern;
pub mod recursive_descent_parser;
pub mod scan;
pub mod sign;
pub mod source_peeker;
pub mod span;
pub mod text;
pub mod token;
pub mod tokenizer;
pub mod unparse;
