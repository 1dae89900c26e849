//! The three error taxonomies: scanning, parsing and runtime errors, each
//! line- or span-tagged, with their mathematical images.
use vstd::prelude::*;
use crate::lit::{LitType, ValModel};
use crate::span::Span;

verus! {

/// An error raised by the scanner.
#[derive(Clone, Copy, PartialEq, Eq, Structural, Debug)]
pub enum ScannerError {
    UnexpectedCharacter { line: usize, ch: char },
    UnterminatedString { line: usize },
}

/// An error raised by the parser.
pub enum ParserError {
    /// A specific token was required and something else stood there.
    ExpectToken { line: usize, lexeme: String, message: String },
    /// The left side of `=` is not a variable.
    InvalidAssignmentTarget { line: usize },
    /// The right side of `=` could not be parsed.
    UnexpectedAssignmentTarget { line: usize },
    /// A parameter list has more than 255 entries.
    TooManyParameters { line: usize },
    /// An argument list has more than 255 entries.
    TooManyArguments { line: usize },
    MissingIfCondition { line: usize },
    MissingThenBranch { line: usize },
    WhileMissingCondition { line: usize },
    WhileMissingBody { line: usize },
    LogicAndMissingRight { line: usize },
    LogicOrMissingRight { line: usize },
    VarMissingExpr { line: usize },
    PrintNoExpression { line: usize },
}

/// Mathematical image of a parser error.
pub ghost enum ParserErrorModel {
    ExpectToken { line: nat, lexeme: Seq<char>, message: Seq<char> },
    InvalidAssignmentTarget { line: nat },
    UnexpectedAssignmentTarget { line: nat },
    TooManyParameters { line: nat },
    TooManyArguments { line: nat },
    MissingIfCondition { line: nat },
    MissingThenBranch { line: nat },
    WhileMissingCondition { line: nat },
    WhileMissingBody { line: nat },
    LogicAndMissingRight { line: nat },
    LogicOrMissingRight { line: nat },
    VarMissingExpr { line: nat },
    PrintNoExpression { line: nat },
}

impl View for ParserError {
    type V = ParserErrorModel;

    open spec fn view(&self) -> ParserErrorModel {
        match *self {
            ParserError::ExpectToken { line, lexeme, message } => ParserErrorModel::ExpectToken {
                line: line as nat,
                lexeme: lexeme@,
                message: message@,
            },
            ParserError::InvalidAssignmentTarget { line } =>
                ParserErrorModel::InvalidAssignmentTarget { line: line as nat },
            ParserError::UnexpectedAssignmentTarget { line } =>
                ParserErrorModel::UnexpectedAssignmentTarget { line: line as nat },
            ParserError::TooManyParameters { line } =>
                ParserErrorModel::TooManyParameters { line: line as nat },
            ParserError::TooManyArguments { line } =>
                ParserErrorModel::TooManyArguments { line: line as nat },
            ParserError::MissingIfCondition { line } =>
                ParserErrorModel::MissingIfCondition { line: line as nat },
            ParserError::MissingThenBranch { line } =>
                ParserErrorModel::MissingThenBranch { line: line as nat },
            ParserError::WhileMissingCondition { line } =>
                ParserErrorModel::WhileMissingCondition { line: line as nat },
            ParserError::WhileMissingBody { line } =>
                ParserErrorModel::WhileMissingBody { line: line as nat },
            ParserError::LogicAndMissingRight { line } =>
                ParserErrorModel::LogicAndMissingRight { line: line as nat },
            ParserError::LogicOrMissingRight { line } =>
                ParserErrorModel::LogicOrMissingRight { line: line as nat },
            ParserError::VarMissingExpr { line } =>
                ParserErrorModel::VarMissingExpr { line: line as nat },
            ParserError::PrintNoExpression { line } =>
                ParserErrorModel::PrintNoExpression { line: line as nat },
        }
    }
}

/// An error raised while evaluating, or the internal `Return` signal used
/// to unwind a function body (it never surfaces to a caller of the
/// library: the function-call frame catches it).
pub enum RuntimeError {
    /// Internal signal carrying the value of an executed `return`.
    Return(LitType),
    /// The native clock could not read the time.
    NativeFunctionError,
    IncorrectArgumentCount { expected: usize, got: usize },
    NotCallable { span: Span },
    UndefinedVariable { name: String, span: Span },
    DivideByZero { span: Span },
    /// Unary `-` applied to a value that is not a number.
    UnaryExpects { span: Span },
    /// A unary node whose operator is neither `!` nor `-`.
    InvalidUnary { span: Span },
    /// A binary node on two numbers whose operator is not one the
    /// language defines.
    InvalidNumerical { span: Span },
    BinaryTypeMismatch { span: Span },
    /// A binary operator other than `+` applied to two strings.
    InvalidStringConcat { span: Span },
    /// The evaluation budget ran out; a program that terminates never
    /// raises this when run with a large enough budget.
    Exhausted,
}

/// Mathematical image of a runtime error.
pub ghost enum RuntimeErrorModel {
    Return(ValModel),
    NativeFunctionError,
    IncorrectArgumentCount { expected: nat, got: nat },
    NotCallable { span: Span },
    UndefinedVariable { name: Seq<char>, span: Span },
    DivideByZero { span: Span },
    UnaryExpects { span: Span },
    InvalidUnary { span: Span },
    InvalidNumerical { span: Span },
    BinaryTypeMismatch { span: Span },
    InvalidStringConcat { span: Span },
    Exhausted,
}

impl View for RuntimeError {
    type V = RuntimeErrorModel;

    open spec fn view(&self) -> RuntimeErrorModel {
        match *self {
            RuntimeError::Return(v) => RuntimeErrorModel::Return(v@),
            RuntimeError::NativeFunctionError => RuntimeErrorModel::NativeFunctionError,
            RuntimeError::IncorrectArgumentCount { expected, got } =>
                RuntimeErrorModel::IncorrectArgumentCount {
                    expected: expected as nat,
                    got: got as nat,
                },
            RuntimeError::NotCallable { span } => RuntimeErrorModel::NotCallable { span },
            RuntimeError::UndefinedVariable { name, span } =>
                RuntimeErrorModel::UndefinedVariable { name: name@, span },
            RuntimeError::DivideByZero { span } => RuntimeErrorModel::DivideByZero { span },
            RuntimeError::UnaryExpects { span } => RuntimeErrorModel::UnaryExpects { span },
            RuntimeError::InvalidUnary { span } => RuntimeErrorModel::InvalidUnary { span },
            RuntimeError::InvalidNumerical { span } => RuntimeErrorModel::InvalidNumerical {
                span,
            },
            RuntimeError::BinaryTypeMismatch { span } =>
                RuntimeErrorModel::BinaryTypeMismatch { span },
            RuntimeError::InvalidStringConcat { span } =>
                RuntimeErrorModel::InvalidStringConcat { span },
            RuntimeError::Exhausted => RuntimeErrorModel::Exhausted,
        }
    }
}

/// What a whole run can fail with: the first scanning, parsing or
/// runtime error of the run unit.
pub enum LoxError {
    Scan(ScannerError),
    Parse(ParserError),
    Runtime(RuntimeError),
}

/// Mathematical image of a run error.
pub ghost enum LoxErrorModel {
    Scan(ScannerError),
    Parse(ParserErrorModel),
    Runtime(RuntimeErrorModel),
}

impl View for LoxError {
    type V = LoxErrorModel;

    open spec fn view(&self) -> LoxErrorModel {
        match self {
            LoxError::Scan(e) => LoxErrorModel::Scan(*e),
            LoxError::Parse(e) => LoxErrorModel::Parse(e@),
            LoxError::Runtime(e) => LoxErrorModel::Runtime(e@),
        }
    }
}

} // verus!
