//! A verified tree-walking interpreter for a small dynamically typed
//! scripting language: a lexical scanner, a recursive-descent parser and
//! an AST evaluator over a lexically scoped environment chain, with
//! first-class user functions and early return.
pub mod environment;
pub mod error_handler;
pub mod expression;
pub mod interpreter;
pub mod laws;
pub mod lit;
pub mod num;
pub mod parser;
pub mod scanner;
pub mod span;
pub mod statement;
pub mod text;
pub mod tokens;
