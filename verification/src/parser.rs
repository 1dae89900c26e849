//! The parser: token stream to abstract syntax tree.
//!
//! Recursive descent with one-token lookahead, no backtracking. The
//! grammar (higher precedence is a deeper production, binary operators
//! left-associative, assignment right-associative):
//!
//! ```text
//! program     = declaration* EOF
//! declaration = funDecl | varDecl | statement
//! funDecl     = "fun" IDENT "(" params? ")" block      ; params max 255
//! varDecl     = "var" IDENT ("=" expression)? ";"
//! statement   = exprStmt | printStmt | block
//!             | ifStmt | whileStmt | forStmt | returnStmt
//! expression  = assignment
//! assignment  = IDENT "=" assignment | logic_or
//! logic_or    = logic_and ("or" logic_and)*
//! logic_and   = equality ("and" equality)*
//! equality    = comparison (("!="|"==") comparison)*
//! comparison  = term ((">"|">="|"<"|"<=") term)*
//! term        = factor (("-"|"+") factor)*
//! factor      = unary (("/"|"*") unary)*
//! unary       = ("!"|"-") unary | call
//! call        = primary ("(" args? ")")*               ; args max 255
//! primary     = NUMBER | STRING | "true" | "false" | "nil"
//!             | "(" expression ")" | IDENT
//! ```
//!
//! The `p_*` spec functions are the mathematical parser: for every token
//! list and position they say exactly which node is produced and where
//! parsing continues, or which error is raised. The executable parser is
//! proved to return exactly that. `for` loops are desugared at parse time
//! into `{ init?; while (cond ?? true) { body; incr?; } }`.
use vstd::prelude::*;
use vstd::string::StringExecFns;
use crate::error_handler::{ParserError, ParserErrorModel};
use crate::expression::{Expr, ExprModel, exprs_model, lemma_exprs_model};
use crate::lit::{LitType, ValModel};
use crate::num::{num_of_literal, parse_literal};
use crate::span::Span;
use crate::statement::{Statement, StmtModel, stmts_model, lemma_stmts_model};
use crate::tokens::{Token, TokenModel, TokenType, tokens_model};

verus! {

/// Outcome of one mathematical parsing step: a node and the position
/// after it, or an error.
pub ghost enum PRes<T> {
    Parsed { v: T, next: int },
    Failed { e: ParserErrorModel },
}

/// The token at a position; a synthetic end-of-file token beyond the end.
pub open spec fn tok_at(toks: Seq<TokenModel>, pos: int) -> TokenModel {
    if 0 <= pos < toks.len() {
        toks[pos]
    } else {
        TokenModel { ty: TokenType::Eof, lexeme: Seq::empty(), literal: None, line: 1 }
    }
}

/// The position a sub-parse continues at, clamped so that parsing always
/// advances and stays just past the token list; every parse consumes at
/// least one token, so the clamp never moves a real result.
pub open spec fn adv(toks: Seq<TokenModel>, next: int, pos: int) -> int {
    let lo = if next > pos {
        next
    } else {
        pos + 1
    };
    if lo > toks.len() + 1 {
        (toks.len() + 1) as int
    } else {
        lo
    }
}

pub open spec fn mk_span(a: int, b: int) -> Span {
    Span { first: a as usize, last: b as usize }
}

/// The error a failed `consume` of `ty` raises: the offending token's
/// line and lexeme with the given message.
pub open spec fn expect_err(toks: Seq<TokenModel>, pos: int, message: Seq<char>) -> ParserErrorModel {
    ParserErrorModel::ExpectToken {
        line: tok_at(toks, pos).line,
        lexeme: tok_at(toks, pos).lexeme,
        message,
    }
}

pub open spec fn p_consume(toks: Seq<TokenModel>, pos: int, ty: TokenType, message: Seq<char>) -> PRes<
    TokenModel,
> {
    if 0 <= pos < toks.len() && toks[pos].ty == ty {
        PRes::Parsed { v: toks[pos], next: pos + 1 }
    } else {
        PRes::Failed { e: expect_err(toks, pos, message) }
    }
}

#[verifier::opaque]
pub open spec fn p_primary(toks: Seq<TokenModel>, pos: int) -> PRes<ExprModel>
    decreases toks.len() + 1 - pos, 0int,
{
    if pos > toks.len() {
        PRes::Failed { e: expect_err(toks, pos, "Expected expression."@) }
    } else {
        let t = tok_at(toks, pos);
        if t.ty == TokenType::False {
            PRes::Parsed {
                v: ExprModel::Literal {
                    span: mk_span(pos, pos + 1),
                    value: Some(ValModel::Bool(false)),
                },
                next: pos + 1,
            }
        } else if t.ty == TokenType::True {
            PRes::Parsed {
                v: ExprModel::Literal { span: mk_span(pos, pos + 1), value: Some(ValModel::Bool(true)) },
                next: pos + 1,
            }
        } else if t.ty == TokenType::Nil {
            PRes::Parsed {
                v: ExprModel::Literal { span: mk_span(pos, pos + 1), value: Some(ValModel::Nil) },
                next: pos + 1,
            }
        } else if t.ty == TokenType::NumberLit {
            match t.literal {
                Some(lit) => match num_of_literal(lit) {
                    Some(bits) => PRes::Parsed {
                        v: ExprModel::Literal {
                            span: mk_span(pos, pos + 1),
                            value: Some(ValModel::Number(bits)),
                        },
                        next: pos + 1,
                    },
                    None => PRes::Failed { e: expect_err(toks, pos, "Expected a number literal."@) },
                },
                None => PRes::Failed { e: expect_err(toks, pos, "Expected a number literal."@) },
            }
        } else if t.ty == TokenType::StringLit {
            match t.literal {
                Some(lit) => PRes::Parsed {
                    v: ExprModel::Literal {
                        span: mk_span(pos, pos + 1),
                        value: Some(ValModel::Str(lit)),
                    },
                    next: pos + 1,
                },
                None => PRes::Failed { e: expect_err(toks, pos, "Expected a string literal."@) },
            }
        } else if t.ty == TokenType::LeftParen {
            match p_expression(toks, adv(toks, pos + 1, pos)) {
                PRes::Parsed { v, next } => match p_consume(
                    toks,
                    next,
                    TokenType::RightParen,
                    "Expected ')' after expression."@,
                ) {
                    PRes::Parsed { next: n2, .. } => PRes::Parsed {
                        v: ExprModel::Grouping { span: mk_span(pos, n2), expression: Box::new(v) },
                        next: n2,
                    },
                    PRes::Failed { e } => PRes::Failed { e },
                },
                PRes::Failed { e } => PRes::Failed { e },
            }
        } else if t.ty == TokenType::Ident {
            PRes::Parsed {
                v: ExprModel::Variable { span: mk_span(pos, pos + 1), name: t },
                next: pos + 1,
            }
        } else {
            PRes::Failed { e: expect_err(toks, pos, "Expected expression."@) }
        }
}
}

/// The arguments of a call, after the opening parenthesis; at most 255.
#[verifier::opaque]
pub open spec fn p_args(toks: Seq<TokenModel>, pos: int, acc: Seq<ExprModel>) -> PRes<
    Seq<ExprModel>,
>
    decreases toks.len() + 1 - pos, 12int,
{
    if pos > toks.len() {
        PRes::Failed { e: expect_err(toks, pos, "Expected expression."@) }
    } else {
        match p_expression(toks, pos) {
            PRes::Parsed { v, next } => {
                if acc.len() >= 255 {
                    PRes::Failed {
                        e: ParserErrorModel::TooManyArguments { line: tok_at(toks, pos).line },
                    }
                } else if tok_at(toks, next).ty == TokenType::Comma {
                    p_args(toks, adv(toks, next + 1, pos), acc + seq![v])
                } else {
                    PRes::Parsed { v: acc + seq![v], next }
                }
            },
            PRes::Failed { e } => PRes::Failed { e },
        }
}
}

/// Zero or more `( args? )` call suffixes applied to `callee`.
#[verifier::opaque]
pub open spec fn p_call_rest(toks: Seq<TokenModel>, pos: int, start: int, callee: ExprModel) -> PRes<
    ExprModel,
>
    decreases toks.len() + 1 - pos, 1int,
{
    if pos > toks.len() {
        PRes::Failed { e: expect_err(toks, pos, "Expected expression."@) }
    } else {
        if tok_at(toks, pos).ty == TokenType::LeftParen {
            let after = if tok_at(toks, pos + 1).ty == TokenType::RightParen {
                PRes::Parsed { v: Seq::<ExprModel>::empty(), next: pos + 1 }
            } else {
                p_args(toks, adv(toks, pos + 1, pos), Seq::empty())
            };
            match after {
                PRes::Parsed { v: args, next } => match p_consume(
                    toks,
                    next,
                    TokenType::RightParen,
                    "Expected ')' after arguments."@,
                ) {
                    PRes::Parsed { v: paren, next: n2 } => p_call_rest(
                        toks,
                        adv(toks, n2, pos),
                        start,
                        ExprModel::Call {
                            span: mk_span(start, n2),
                            callee: Box::new(callee),
                            paren,
                            arguments: args,
                        },
                    ),
                    PRes::Failed { e } => PRes::Failed { e },
                },
                PRes::Failed { e } => PRes::Failed { e },
            }
        } else {
            PRes::Parsed { v: callee, next: pos }
        }
}
}

#[verifier::opaque]
pub open spec fn p_call(toks: Seq<TokenModel>, pos: int) -> PRes<ExprModel>
    decreases toks.len() + 1 - pos, 2int,
{
    if pos > toks.len() {
        PRes::Failed { e: expect_err(toks, pos, "Expected expression."@) }
    } else {
        match p_primary(toks, pos) {
            PRes::Parsed { v, next } => p_call_rest(toks, adv(toks, next, pos), pos, v),
            PRes::Failed { e } => PRes::Failed { e },
        }
}
}

#[verifier::opaque]
pub open spec fn p_unary(toks: Seq<TokenModel>, pos: int) -> PRes<ExprModel>
    decreases toks.len() + 1 - pos, 3int,
{
    if pos > toks.len() {
        PRes::Failed { e: expect_err(toks, pos, "Expected expression."@) }
    } else {
        let t = tok_at(toks, pos);
        if t.ty == TokenType::Bang || t.ty == TokenType::Minus {
            match p_unary(toks, adv(toks, pos + 1, pos)) {
                PRes::Parsed { v, next } => PRes::Parsed {
                    v: ExprModel::Unary { span: mk_span(pos, next), operator: t, right: Box::new(v) },
                    next,
                },
                PRes::Failed { e } => PRes::Failed { e },
            }
        } else {
            p_call(toks, pos)
        }
}
}

#[verifier::opaque]
pub open spec fn p_factor_rest(toks: Seq<TokenModel>, pos: int, start: int, left: ExprModel) -> PRes<
    ExprModel,
>
    decreases toks.len() + 1 - pos, 0int,
{
    if pos > toks.len() {
        PRes::Failed { e: expect_err(toks, pos, "Expected expression."@) }
    } else {
        let t = tok_at(toks, pos);
        if t.ty == TokenType::Slash || t.ty == TokenType::Star {
            match p_unary(toks, adv(toks, pos + 1, pos)) {
                PRes::Parsed { v, next } => p_factor_rest(
                    toks,
                    adv(toks, next, pos),
                    start,
                    ExprModel::Binary {
                        span: mk_span(start, next),
                        left: Box::new(left),
                        operator: t,
                        right: Box::new(v),
                    },
                ),
                PRes::Failed { e } => PRes::Failed { e },
            }
        } else {
            PRes::Parsed { v: left, next: pos }
        }
}
}

#[verifier::opaque]
pub open spec fn p_factor(toks: Seq<TokenModel>, pos: int) -> PRes<ExprModel>
    decreases toks.len() + 1 - pos, 4int,
{
    if pos > toks.len() {
        PRes::Failed { e: expect_err(toks, pos, "Expected expression."@) }
    } else {
        match p_unary(toks, pos) {
            PRes::Parsed { v, next } => p_factor_rest(toks, adv(toks, next, pos), pos, v),
            PRes::Failed { e } => PRes::Failed { e },
        }
}
}

#[verifier::opaque]
pub open spec fn p_term_rest(toks: Seq<TokenModel>, pos: int, start: int, left: ExprModel) -> PRes<
    ExprModel,
>
    decreases toks.len() + 1 - pos, 0int,
{
    if pos > toks.len() {
        PRes::Failed { e: expect_err(toks, pos, "Expected expression."@) }
    } else {
        let t = tok_at(toks, pos);
        if t.ty == TokenType::Minus || t.ty == TokenType::Plus {
            match p_factor(toks, adv(toks, pos + 1, pos)) {
                PRes::Parsed { v, next } => p_term_rest(
                    toks,
                    adv(toks, next, pos),
                    start,
                    ExprModel::Binary {
                        span: mk_span(start, next),
                        left: Box::new(left),
                        operator: t,
                        right: Box::new(v),
                    },
                ),
                PRes::Failed { e } => PRes::Failed { e },
            }
        } else {
            PRes::Parsed { v: left, next: pos }
        }
}
}

#[verifier::opaque]
pub open spec fn p_term(toks: Seq<TokenModel>, pos: int) -> PRes<ExprModel>
    decreases toks.len() + 1 - pos, 5int,
{
    if pos > toks.len() {
        PRes::Failed { e: expect_err(toks, pos, "Expected expression."@) }
    } else {
        match p_factor(toks, pos) {
            PRes::Parsed { v, next } => p_term_rest(toks, adv(toks, next, pos), pos, v),
            PRes::Failed { e } => PRes::Failed { e },
        }
}
}

pub open spec fn is_comparison_op(ty: TokenType) -> bool {
    ty == TokenType::Greater || ty == TokenType::GreaterEqual || ty == TokenType::Less || ty
        == TokenType::LessEqual
}

#[verifier::opaque]
pub open spec fn p_comparison_rest(
    toks: Seq<TokenModel>,
    pos: int,
    start: int,
    left: ExprModel,
) -> PRes<ExprModel>
    decreases toks.len() + 1 - pos, 0int,
{
    if pos > toks.len() {
        PRes::Failed { e: expect_err(toks, pos, "Expected expression."@) }
    } else {
        let t = tok_at(toks, pos);
        if is_comparison_op(t.ty) {
            match p_term(toks, adv(toks, pos + 1, pos)) {
                PRes::Parsed { v, next } => p_comparison_rest(
                    toks,
                    adv(toks, next, pos),
                    start,
                    ExprModel::Binary {
                        span: mk_span(start, next),
                        left: Box::new(left),
                        operator: t,
                        right: Box::new(v),
                    },
                ),
                PRes::Failed { e } => PRes::Failed { e },
            }
        } else {
            PRes::Parsed { v: left, next: pos }
        }
}
}

#[verifier::opaque]
pub open spec fn p_comparison(toks: Seq<TokenModel>, pos: int) -> PRes<ExprModel>
    decreases toks.len() + 1 - pos, 6int,
{
    if pos > toks.len() {
        PRes::Failed { e: expect_err(toks, pos, "Expected expression."@) }
    } else {
        match p_term(toks, pos) {
            PRes::Parsed { v, next } => p_comparison_rest(toks, adv(toks, next, pos), pos, v),
            PRes::Failed { e } => PRes::Failed { e },
        }
}
}

#[verifier::opaque]
pub open spec fn p_equality_rest(toks: Seq<TokenModel>, pos: int, start: int, left: ExprModel) -> PRes<
    ExprModel,
>
    decreases toks.len() + 1 - pos, 0int,
{
    if pos > toks.len() {
        PRes::Failed { e: expect_err(toks, pos, "Expected expression."@) }
    } else {
        let t = tok_at(toks, pos);
        if t.ty == TokenType::BangEqual || t.ty == TokenType::EqualEqual {
            match p_comparison(toks, adv(toks, pos + 1, pos)) {
                PRes::Parsed { v, next } => p_equality_rest(
                    toks,
                    adv(toks, next, pos),
                    start,
                    ExprModel::Binary {
                        span: mk_span(start, next),
                        left: Box::new(left),
                        operator: t,
                        right: Box::new(v),
                    },
                ),
                PRes::Failed { e } => PRes::Failed { e },
            }
        } else {
            PRes::Parsed { v: left, next: pos }
        }
}
}

#[verifier::opaque]
pub open spec fn p_equality(toks: Seq<TokenModel>, pos: int) -> PRes<ExprModel>
    decreases toks.len() + 1 - pos, 7int,
{
    if pos > toks.len() {
        PRes::Failed { e: expect_err(toks, pos, "Expected expression."@) }
    } else {
        match p_comparison(toks, pos) {
            PRes::Parsed { v, next } => p_equality_rest(toks, adv(toks, next, pos), pos, v),
            PRes::Failed { e } => PRes::Failed { e },
        }
}
}

#[verifier::opaque]
pub open spec fn p_logic_and_rest(
    toks: Seq<TokenModel>,
    pos: int,
    start: int,
    left: ExprModel,
) -> PRes<ExprModel>
    decreases toks.len() + 1 - pos, 0int,
{
    if pos > toks.len() {
        PRes::Failed { e: expect_err(toks, pos, "Expected expression."@) }
    } else {
        let t = tok_at(toks, pos);
        if t.ty == TokenType::And {
            if tok_at(toks, pos + 1).ty == TokenType::Eof {
                PRes::Failed { e: ParserErrorModel::LogicAndMissingRight { line: t.line } }
            } else {
            match p_equality(toks, adv(toks, pos + 1, pos)) {
                PRes::Parsed { v, next } => p_logic_and_rest(
                    toks,
                    adv(toks, next, pos),
                    start,
                    ExprModel::Logical {
                        span: mk_span(start, next),
                        left: Box::new(left),
                        operator: t,
                        right: Box::new(v),
                    },
                ),
                PRes::Failed { e } => PRes::Failed { e },
            }
            }
        } else {
            PRes::Parsed { v: left, next: pos }
        }
}
}

#[verifier::opaque]
pub open spec fn p_logic_and(toks: Seq<TokenModel>, pos: int) -> PRes<ExprModel>
    decreases toks.len() + 1 - pos, 8int,
{
    if pos > toks.len() {
        PRes::Failed { e: expect_err(toks, pos, "Expected expression."@) }
    } else {
        match p_equality(toks, pos) {
            PRes::Parsed { v, next } => p_logic_and_rest(toks, adv(toks, next, pos), pos, v),
            PRes::Failed { e } => PRes::Failed { e },
        }
}
}

#[verifier::opaque]
pub open spec fn p_logic_or_rest(
    toks: Seq<TokenModel>,
    pos: int,
    start: int,
    left: ExprModel,
) -> PRes<ExprModel>
    decreases toks.len() + 1 - pos, 0int,
{
    if pos > toks.len() {
        PRes::Failed { e: expect_err(toks, pos, "Expected expression."@) }
    } else {
        let t = tok_at(toks, pos);
        if t.ty == TokenType::Or {
            if tok_at(toks, pos + 1).ty == TokenType::Eof {
                PRes::Failed { e: ParserErrorModel::LogicOrMissingRight { line: t.line } }
            } else {
            match p_logic_and(toks, adv(toks, pos + 1, pos)) {
                PRes::Parsed { v, next } => p_logic_or_rest(
                    toks,
                    adv(toks, next, pos),
                    start,
                    ExprModel::Logical {
                        span: mk_span(start, next),
                        left: Box::new(left),
                        operator: t,
                        right: Box::new(v),
                    },
                ),
                PRes::Failed { e } => PRes::Failed { e },
            }
            }
        } else {
            PRes::Parsed { v: left, next: pos }
        }
}
}

#[verifier::opaque]
pub open spec fn p_logic_or(toks: Seq<TokenModel>, pos: int) -> PRes<ExprModel>
    decreases toks.len() + 1 - pos, 9int,
{
    if pos > toks.len() {
        PRes::Failed { e: expect_err(toks, pos, "Expected expression."@) }
    } else {
        match p_logic_and(toks, pos) {
            PRes::Parsed { v, next } => p_logic_or_rest(toks, adv(toks, next, pos), pos, v),
            PRes::Failed { e } => PRes::Failed { e },
        }
}
}

/// Assignment is right-associative: the left side must turn out to be a
/// plain variable.
#[verifier::opaque]
pub open spec fn p_assignment(toks: Seq<TokenModel>, pos: int) -> PRes<ExprModel>
    decreases toks.len() + 1 - pos, 10int,
{
    if pos > toks.len() {
        PRes::Failed { e: expect_err(toks, pos, "Expected expression."@) }
    } else {
        match p_logic_or(toks, pos) {
            PRes::Parsed { v, next } => {
                if tok_at(toks, next).ty == TokenType::Equal {
                    if tok_at(toks, next + 1).ty == TokenType::Eof {
                        PRes::Failed {
                            e: ParserErrorModel::UnexpectedAssignmentTarget {
                                line: tok_at(toks, next).line,
                            },
                        }
                    } else {
                    match p_assignment(toks, adv(toks, next + 1, pos)) {
                        PRes::Parsed { v: value, next: n2 } => match v {
                            ExprModel::Variable { span: _, name } => PRes::Parsed {
                                v: ExprModel::Assign {
                                    span: mk_span(pos, n2),
                                    name,
                                    value: Box::new(value),
                                },
                                next: n2,
                            },
                            _ => PRes::Failed {
                                e: ParserErrorModel::InvalidAssignmentTarget {
                                    line: tok_at(toks, next).line,
                                },
                            },
                        },
                        PRes::Failed { e } => PRes::Failed { e },
                    }
                    }
                } else {
                    PRes::Parsed { v, next }
                }
            },
            PRes::Failed { e } => PRes::Failed { e },
        }
}
}

#[verifier::opaque]
pub open spec fn p_expression(toks: Seq<TokenModel>, pos: int) -> PRes<ExprModel>
    decreases toks.len() + 1 - pos, 11int,
{
    if pos > toks.len() {
        PRes::Failed { e: expect_err(toks, pos, "Expected expression."@) }
    } else {
        p_assignment(toks, pos)
}
}

/// One parameter list entry after another, at most 255 in all.
#[verifier::opaque]
pub open spec fn p_params(toks: Seq<TokenModel>, pos: int, acc: Seq<TokenModel>) -> PRes<
    Seq<TokenModel>,
>
    decreases toks.len() + 1 - pos, 0int,
{
    if pos > toks.len() {
        PRes::Failed { e: expect_err(toks, pos, "Expected expression."@) }
    } else if acc.len() >= 255 {
        PRes::Failed { e: ParserErrorModel::TooManyParameters { line: tok_at(toks, pos).line } }
    } else {
        match p_consume(toks, pos, TokenType::Ident, "Expect parameter name."@) {
            PRes::Parsed { v, next } => {
                if tok_at(toks, next).ty == TokenType::Comma {
                    p_params(toks, adv(toks, next + 1, pos), acc + seq![v])
                } else {
                    PRes::Parsed { v: acc + seq![v], next }
                }
            },
            PRes::Failed { e } => PRes::Failed { e },
        }
    }
}

/// The statements of a block after its opening brace, through the
/// closing brace.
#[verifier::opaque]
pub open spec fn p_block_items(toks: Seq<TokenModel>, pos: int, acc: Seq<StmtModel>) -> PRes<
    Seq<StmtModel>,
>
    decreases toks.len() + 1 - pos, 16int,
{
    if pos > toks.len() {
        PRes::Failed { e: expect_err(toks, pos, "Expected expression."@) }
    } else if tok_at(toks, pos).ty == TokenType::RightBrace {
        PRes::Parsed { v: acc, next: pos + 1 }
    } else if tok_at(toks, pos).ty == TokenType::Eof {
        PRes::Failed { e: expect_err(toks, pos, "Expected '}' after block."@) }
    } else {
        match p_declaration(toks, pos) {
            PRes::Parsed { v, next } => p_block_items(toks, adv(toks, next, pos), acc + seq![v]),
            PRes::Failed { e } => PRes::Failed { e },
        }
    }
}

/// A `var` declaration after its keyword; `start` is the keyword's
/// position.
#[verifier::opaque]
pub open spec fn p_var_decl(toks: Seq<TokenModel>, pos: int, start: int) -> PRes<StmtModel>
    decreases toks.len() + 1 - pos, 0int,
{
    if pos > toks.len() {
        PRes::Failed { e: expect_err(toks, pos, "Expected expression."@) }
    } else {
        match p_consume(toks, pos, TokenType::Ident, "Expected variable name."@) {
            PRes::Parsed { v: name, next } => {
                if tok_at(toks, next).ty == TokenType::Equal {
                    if tok_at(toks, next + 1).ty == TokenType::Eof {
                        PRes::Failed { e: ParserErrorModel::VarMissingExpr { line: name.line } }
                    } else {
                    match p_expression(toks, adv(toks, next + 1, pos)) {
                        PRes::Parsed { v: init, next: n2 } => match p_consume(
                            toks,
                            n2,
                            TokenType::Semicolon,
                            "Expect ';' after variable declaration."@,
                        ) {
                            PRes::Parsed { next: n3, .. } => PRes::Parsed {
                                v: StmtModel::Var {
                                    span: mk_span(start, n3),
                                    name,
                                    expression: Some(init),
                                },
                                next: n3,
                            },
                            PRes::Failed { e } => PRes::Failed { e },
                        },
                        PRes::Failed { e } => PRes::Failed { e },
                    }
                    }
                } else {
                    match p_consume(
                        toks,
                        next,
                        TokenType::Semicolon,
                        "Expected ';' after uninitialized variable."@,
                    ) {
                        PRes::Parsed { next: n2, .. } => PRes::Parsed {
                            v: StmtModel::Var { span: mk_span(start, n2), name, expression: None },
                            next: n2,
                        },
                        PRes::Failed { e } => PRes::Failed { e },
                    }
                }
            },
            PRes::Failed { e } => PRes::Failed { e },
        }
    }
}

/// A function declaration after its `fun` keyword; `start` is the
/// keyword's position.
#[verifier::opaque]
pub open spec fn p_fun_decl(toks: Seq<TokenModel>, pos: int, start: int) -> PRes<StmtModel>
    decreases toks.len() + 1 - pos, 0int,
{
    if pos > toks.len() {
        PRes::Failed { e: expect_err(toks, pos, "Expected expression."@) }
    } else {
        match p_consume(toks, pos, TokenType::Ident, "Expect function name."@) {
            PRes::Parsed { v: name, next } => match p_consume(
                toks,
                next,
                TokenType::LeftParen,
                "Expect '(' after function name."@,
            ) {
                PRes::Parsed { next: n2, .. } => {
                    let params = if tok_at(toks, n2).ty == TokenType::RightParen {
                        PRes::Parsed { v: Seq::<TokenModel>::empty(), next: n2 }
                    } else {
                        p_params(toks, adv(toks, n2, pos), Seq::empty())
                    };
                    match params {
                        PRes::Parsed { v: ps, next: n3 } => match p_consume(
                            toks,
                            n3,
                            TokenType::RightParen,
                            "Expect ')' after parameters."@,
                        ) {
                            PRes::Parsed { next: n4, .. } => match p_consume(
                                toks,
                                n4,
                                TokenType::LeftBrace,
                                "Expect '{' before function body."@,
                            ) {
                                PRes::Parsed { next: n5, .. } => match p_block_items(
                                    toks,
                                    adv(toks, n5, pos),
                                    Seq::empty(),
                                ) {
                                    PRes::Parsed { v: body, next: n6 } => PRes::Parsed {
                                        v: StmtModel::Function {
                                            span: mk_span(start, n6),
                                            name,
                                            params: ps,
                                            body,
                                        },
                                        next: n6,
                                    },
                                    PRes::Failed { e } => PRes::Failed { e },
                                },
                                PRes::Failed { e } => PRes::Failed { e },
                            },
                            PRes::Failed { e } => PRes::Failed { e },
                        },
                        PRes::Failed { e } => PRes::Failed { e },
                    }
                },
                PRes::Failed { e } => PRes::Failed { e },
            },
            PRes::Failed { e } => PRes::Failed { e },
        }
    }
}

/// An `if` statement after its keyword; `start` is the keyword's
/// position.
#[verifier::opaque]
pub open spec fn p_if(toks: Seq<TokenModel>, pos: int, start: int) -> PRes<StmtModel>
    decreases toks.len() + 1 - pos, 0int,
{
    if pos > toks.len() {
        PRes::Failed { e: expect_err(toks, pos, "Expected expression."@) }
    } else if tok_at(toks, pos).ty != TokenType::LeftParen {
        PRes::Failed { e: ParserErrorModel::MissingIfCondition { line: tok_at(toks, pos).line } }
    } else {
        match p_consume(toks, pos, TokenType::LeftParen, "Expected '(' after 'if'."@) {
            PRes::Parsed { next: n1, .. } => match p_expression(toks, adv(toks, n1, pos)) {
                PRes::Parsed { v: cond, next: n2 } => match p_consume(
                    toks,
                    n2,
                    TokenType::RightParen,
                    "Expected ')' after if condition."@,
                ) {
                    PRes::Parsed { next: n3, .. } => if tok_at(toks, n3).ty == TokenType::Eof {
                        PRes::Failed {
                            e: ParserErrorModel::MissingThenBranch { line: tok_at(toks, n3).line },
                        }
                    } else {
                        match p_statement(toks, adv(toks, n3, pos)) {
                        PRes::Parsed { v: then_b, next: n4 } => {
                            if tok_at(toks, n4).ty == TokenType::Else {
                                match p_statement(toks, adv(toks, n4 + 1, pos)) {
                                    PRes::Parsed { v: else_b, next: n5 } => PRes::Parsed {
                                        v: StmtModel::If {
                                            span: mk_span(start, n5),
                                            condition: cond,
                                            then_branch: Box::new(then_b),
                                            else_branch: Some(Box::new(else_b)),
                                        },
                                        next: n5,
                                    },
                                    PRes::Failed { e } => PRes::Failed { e },
                                }
                            } else {
                                PRes::Parsed {
                                    v: StmtModel::If {
                                        span: mk_span(start, n4),
                                        condition: cond,
                                        then_branch: Box::new(then_b),
                                        else_branch: None,
                                    },
                                    next: n4,
                                }
                            }
                        },
                        PRes::Failed { e } => PRes::Failed { e },
                    }
                    },
                    PRes::Failed { e } => PRes::Failed { e },
                },
                PRes::Failed { e } => PRes::Failed { e },
            },
            PRes::Failed { e } => PRes::Failed { e },
        }
    }
}

/// A `while` statement after its keyword; `start` is the keyword's
/// position.
#[verifier::opaque]
pub open spec fn p_while(toks: Seq<TokenModel>, pos: int, start: int) -> PRes<StmtModel>
    decreases toks.len() + 1 - pos, 0int,
{
    if pos > toks.len() {
        PRes::Failed { e: expect_err(toks, pos, "Expected expression."@) }
    } else if tok_at(toks, pos).ty != TokenType::LeftParen {
        PRes::Failed {
            e: ParserErrorModel::WhileMissingCondition { line: tok_at(toks, pos).line },
        }
    } else {
        match p_consume(toks, pos, TokenType::LeftParen, "Expect '(' after 'while'."@) {
            PRes::Parsed { next: n1, .. } => match p_expression(toks, adv(toks, n1, pos)) {
                PRes::Parsed { v: cond, next: n2 } => match p_consume(
                    toks,
                    n2,
                    TokenType::RightParen,
                    "Expected ')' after condition."@,
                ) {
                    PRes::Parsed { next: n3, .. } => if tok_at(toks, n3).ty == TokenType::Eof {
                        PRes::Failed {
                            e: ParserErrorModel::WhileMissingBody { line: tok_at(toks, n3).line },
                        }
                    } else {
                        match p_statement(toks, adv(toks, n3, pos)) {
                        PRes::Parsed { v: body, next: n4 } => PRes::Parsed {
                            v: StmtModel::While {
                                span: mk_span(start, n4),
                                condition: cond,
                                body: Box::new(body),
                            },
                            next: n4,
                        },
                        PRes::Failed { e } => PRes::Failed { e },
                    }
                    },
                    PRes::Failed { e } => PRes::Failed { e },
                },
                PRes::Failed { e } => PRes::Failed { e },
            },
            PRes::Failed { e } => PRes::Failed { e },
        }
    }
}

/// A `for` statement after its keyword, desugared at parse time into
/// `{ init?; while (cond ?? true) { body; incr?; } }`.
#[verifier::opaque]
pub open spec fn p_for(toks: Seq<TokenModel>, pos: int, start: int) -> PRes<StmtModel>
    decreases toks.len() + 1 - pos, 0int,
{
    if pos > toks.len() {
        PRes::Failed { e: expect_err(toks, pos, "Expected expression."@) }
    } else {
        match p_consume(toks, pos, TokenType::LeftParen, "Expected '(' after 'for'."@) {
            PRes::Parsed { next: n1, .. } => {
                let initr: PRes<Option<StmtModel>> = if tok_at(toks, n1).ty
                    == TokenType::Semicolon {
                    PRes::Parsed { v: None, next: n1 + 1 }
                } else if tok_at(toks, n1).ty == TokenType::Var {
                    match p_var_decl(toks, adv(toks, n1 + 1, pos), n1) {
                        PRes::Parsed { v, next } => PRes::Parsed { v: Some(v), next },
                        PRes::Failed { e } => PRes::Failed { e },
                    }
                } else {
                    match p_expr_stmt(toks, adv(toks, n1, pos)) {
                        PRes::Parsed { v, next } => PRes::Parsed { v: Some(v), next },
                        PRes::Failed { e } => PRes::Failed { e },
                    }
                };
                match initr {
                    PRes::Parsed { v: init, next: n2 } => {
                        let condr: PRes<Option<ExprModel>> = if tok_at(toks, n2).ty
                            == TokenType::Semicolon {
                            PRes::Parsed { v: None, next: n2 }
                        } else {
                            match p_expression(toks, adv(toks, n2, pos)) {
                                PRes::Parsed { v, next } => PRes::Parsed { v: Some(v), next },
                                PRes::Failed { e } => PRes::Failed { e },
                            }
                        };
                        match condr {
                            PRes::Parsed { v: cond, next: n3 } => match p_consume(
                                toks,
                                n3,
                                TokenType::Semicolon,
                                "Expect ';' after loop condition."@,
                            ) {
                                PRes::Parsed { next: n4, .. } => {
                                    let incrr: PRes<Option<ExprModel>> = if tok_at(toks, n4).ty
                                        == TokenType::RightParen {
                                        PRes::Parsed { v: None, next: n4 }
                                    } else {
                                        match p_expression(toks, adv(toks, n4, pos)) {
                                            PRes::Parsed { v, next } => PRes::Parsed {
                                                v: Some(v),
                                                next,
                                            },
                                            PRes::Failed { e } => PRes::Failed { e },
                                        }
                                    };
                                    match incrr {
                                        PRes::Parsed { v: incr, next: n5 } => match p_consume(
                                            toks,
                                            n5,
                                            TokenType::RightParen,
                                            "Expect ')' after for clause."@,
                                        ) {
                                            PRes::Parsed { next: n6, .. } => match p_statement(
                                                toks,
                                                adv(toks, n6, pos),
                                            ) {
                                                PRes::Parsed { v: body, next: n7 } => PRes::Parsed {
                                                    v: desugar_for(
                                                        init,
                                                        cond,
                                                        incr,
                                                        body,
                                                        mk_span(start, n7),
                                                    ),
                                                    next: n7,
                                                },
                                                PRes::Failed { e } => PRes::Failed { e },
                                            },
                                            PRes::Failed { e } => PRes::Failed { e },
                                        },
                                        PRes::Failed { e } => PRes::Failed { e },
                                    }
                                },
                                PRes::Failed { e } => PRes::Failed { e },
                            },
                            PRes::Failed { e } => PRes::Failed { e },
                        }
                    },
                    PRes::Failed { e } => PRes::Failed { e },
                }
            },
            PRes::Failed { e } => PRes::Failed { e },
        }
    }
}

/// The parse-time desugaring of `for (init; cond; incr) body`: a missing
/// condition becomes the literal `true`, the increment is appended in a
/// synthetic block after the body, and the initializer is prepended in an
/// enclosing block.
pub open spec fn desugar_for(
    init: Option<StmtModel>,
    cond: Option<ExprModel>,
    incr: Option<ExprModel>,
    body: StmtModel,
    span: Span,
) -> StmtModel {
    let body2 = match incr {
        Some(inc) => StmtModel::Block {
            span,
            statements: seq![body, StmtModel::Expression { span, expression: inc }],
        },
        None => body,
    };
    let cond2 = match cond {
        Some(c) => c,
        None => ExprModel::Literal { span, value: Some(ValModel::Bool(true)) },
    };
    let w = StmtModel::While { span, condition: cond2, body: Box::new(body2) };
    match init {
        Some(st) => StmtModel::Block { span, statements: seq![st, w] },
        None => w,
    }
}

/// A `return` statement after its keyword; a missing value becomes the
/// literal `nil`. `start` is the keyword's position.
#[verifier::opaque]
pub open spec fn p_return(toks: Seq<TokenModel>, pos: int, start: int) -> PRes<StmtModel>
    decreases toks.len() + 1 - pos, 0int,
{
    if pos > toks.len() {
        PRes::Failed { e: expect_err(toks, pos, "Expected expression."@) }
    } else if tok_at(toks, pos).ty == TokenType::Semicolon {
        PRes::Parsed {
            v: StmtModel::Return {
                span: mk_span(start, pos + 1),
                keyword: tok_at(toks, start),
                value: ExprModel::Literal { span: mk_span(start, pos + 1), value: Some(ValModel::Nil) },
            },
            next: pos + 1,
        }
    } else {
        match p_expression(toks, pos) {
            PRes::Parsed { v, next } => match p_consume(
                toks,
                next,
                TokenType::Semicolon,
                "Expect ';' after return value."@,
            ) {
                PRes::Parsed { next: n2, .. } => PRes::Parsed {
                    v: StmtModel::Return {
                        span: mk_span(start, n2),
                        keyword: tok_at(toks, start),
                        value: v,
                    },
                    next: n2,
                },
                PRes::Failed { e } => PRes::Failed { e },
            },
            PRes::Failed { e } => PRes::Failed { e },
        }
    }
}

/// A `print` statement after its keyword; `start` is the keyword's
/// position.
#[verifier::opaque]
pub open spec fn p_print(toks: Seq<TokenModel>, pos: int, start: int) -> PRes<StmtModel>
    decreases toks.len() + 1 - pos, 0int,
{
    if pos > toks.len() {
        PRes::Failed { e: expect_err(toks, pos, "Expected expression."@) }
    } else if tok_at(toks, pos).ty == TokenType::Eof {
        PRes::Failed { e: ParserErrorModel::PrintNoExpression { line: tok_at(toks, start).line } }
    } else {
        match p_expression(toks, pos) {
            PRes::Parsed { v, next } => match p_consume(
                toks,
                next,
                TokenType::Semicolon,
                "Expect ';' after value."@,
            ) {
                PRes::Parsed { next: n2, .. } => PRes::Parsed {
                    v: StmtModel::Print { span: mk_span(start, n2), expression: v },
                    next: n2,
                },
                PRes::Failed { e } => PRes::Failed { e },
            },
            PRes::Failed { e } => PRes::Failed { e },
        }
    }
}

/// An expression statement.
#[verifier::opaque]
pub open spec fn p_expr_stmt(toks: Seq<TokenModel>, pos: int) -> PRes<StmtModel>
    decreases toks.len() + 1 - pos, 13int,
{
    if pos > toks.len() {
        PRes::Failed { e: expect_err(toks, pos, "Expected expression."@) }
    } else {
        match p_expression(toks, pos) {
            PRes::Parsed { v, next } => match p_consume(
                toks,
                next,
                TokenType::Semicolon,
                "Expected ';' after expression statement."@,
            ) {
                PRes::Parsed { next: n2, .. } => PRes::Parsed {
                    v: StmtModel::Expression { span: mk_span(pos, n2), expression: v },
                    next: n2,
                },
                PRes::Failed { e } => PRes::Failed { e },
            },
            PRes::Failed { e } => PRes::Failed { e },
        }
    }
}

#[verifier::opaque]
pub open spec fn p_statement(toks: Seq<TokenModel>, pos: int) -> PRes<StmtModel>
    decreases toks.len() + 1 - pos, 14int,
{
    if pos > toks.len() {
        PRes::Failed { e: expect_err(toks, pos, "Expected expression."@) }
    } else {
        let t = tok_at(toks, pos);
        if t.ty == TokenType::LeftBrace {
            match p_block_items(toks, adv(toks, pos + 1, pos), Seq::empty()) {
                PRes::Parsed { v, next } => PRes::Parsed {
                    v: StmtModel::Block { span: mk_span(pos, next), statements: v },
                    next,
                },
                PRes::Failed { e } => PRes::Failed { e },
            }
        } else if t.ty == TokenType::If {
            p_if(toks, adv(toks, pos + 1, pos), pos)
        } else if t.ty == TokenType::Print {
            p_print(toks, adv(toks, pos + 1, pos), pos)
        } else if t.ty == TokenType::Return {
            p_return(toks, adv(toks, pos + 1, pos), pos)
        } else if t.ty == TokenType::While {
            p_while(toks, adv(toks, pos + 1, pos), pos)
        } else if t.ty == TokenType::For {
            p_for(toks, adv(toks, pos + 1, pos), pos)
        } else {
            p_expr_stmt(toks, pos)
        }
    }
}

#[verifier::opaque]
pub open spec fn p_declaration(toks: Seq<TokenModel>, pos: int) -> PRes<StmtModel>
    decreases toks.len() + 1 - pos, 15int,
{
    if pos > toks.len() {
        PRes::Failed { e: expect_err(toks, pos, "Expected expression."@) }
    } else {
        let t = tok_at(toks, pos);
        if t.ty == TokenType::Fun {
            p_fun_decl(toks, adv(toks, pos + 1, pos), pos)
        } else if t.ty == TokenType::Var {
            p_var_decl(toks, adv(toks, pos + 1, pos), pos)
        } else {
            p_statement(toks, pos)
        }
    }
}

/// Declarations up to the end-of-file token.
#[verifier::opaque]
pub open spec fn p_program(toks: Seq<TokenModel>, pos: int, acc: Seq<StmtModel>) -> PRes<
    Seq<StmtModel>,
>
    decreases toks.len() + 1 - pos, 17int,
{
    if pos > toks.len() {
        PRes::Parsed { v: acc, next: 0 }
    } else if tok_at(toks, pos).ty == TokenType::Eof {
        PRes::Parsed { v: acc, next: 0 }
    } else {
        match p_declaration(toks, pos) {
            PRes::Parsed { v, next } => p_program(toks, adv(toks, next, pos), acc + seq![v]),
            PRes::Failed { e } => PRes::Failed { e },
        }
    }
}

/// The full mathematical parser: the statements of a whole program, or
/// the first parse error.
pub open spec fn parse_program(toks: Seq<TokenModel>) -> Result<Seq<StmtModel>, ParserErrorModel> {
    match p_program(toks, 0, Seq::empty()) {
        PRes::Parsed { v, .. } => Ok(v),
        PRes::Failed { e } => Err(e),
    }
}


/// The parser over a fixed token list; grammar functions take and return
/// positions into it.
pub struct Parser {
    pub tokens: Vec<Token>,
}

impl Parser {
    /// The mathematical image of the token list.
    pub open spec fn toks(&self) -> Seq<TokenModel> {
        tokens_model(self.tokens@)
    }

    pub fn new(tokens: Vec<Token>) -> (p: Parser)
        ensures
            p.tokens@ == tokens@,
    {
        Parser { tokens }
    }

    /// The diagnostic snippet a span denotes against this parser's
    /// tokens.
    pub fn get_span(&self, span: Span) -> (r: String)
        ensures
            r@ == crate::span::span_render(span, self.toks()),
    {
        crate::span::SpanParser::parse(span, &self.tokens)
    }

    /// The category of the token at `pos` (end-of-file past the end).
    fn tok_ty(&self, pos: usize) -> (t: TokenType)
        ensures
            t == tok_at(self.toks(), pos as int).ty,
    {
        if pos < self.tokens.len() {
            self.tokens[pos].ty
        } else {
            TokenType::Eof
        }
    }

    /// A copy of the token at `pos` (a synthetic end-of-file token past
    /// the end).
    fn tok_clone(&self, pos: usize) -> (t: Token)
        ensures
            t@ == tok_at(self.toks(), pos as int),
    {
        if pos < self.tokens.len() {
            self.tokens[pos].clone()
        } else {
            Token::new(TokenType::Eof, String::new(), None, 1)
        }
    }

    /// The error a failed `consume` raises at `pos`.
    fn expect_error(&self, pos: usize, message: &str) -> (pe: ParserError)
        ensures
            pe@ == expect_err(self.toks(), pos as int, message@),
    {
        let t = self.tok_clone(pos);
        ParserError::ExpectToken { line: t.line, lexeme: t.lexeme, message: message.to_owned() }
    }

    /// Takes the token at `pos` when it has the wanted category, else the
    /// `ExpectToken` error with the given message.
    fn consume(&self, pos: usize, ty: TokenType, message: &str) -> (r: Result<
        (Token, usize),
        ParserError,
    >)
        requires
            pos <= self.tokens@.len(),
        ensures
            match r {
                Ok((t, next)) => p_consume(self.toks(), pos as int, ty, message@)
                    == PRes::Parsed::<TokenModel> { v: t@, next: next as int } && next == pos + 1
                    && pos < self.tokens@.len(),
                Err(pe) => p_consume(self.toks(), pos as int, ty, message@)
                    == PRes::Failed::<TokenModel> { e: pe@ },
            },
    {
        if pos < self.tokens.len() && self.tokens[pos].ty == ty {
            Ok((self.tokens[pos].clone(), pos + 1))
        } else {
            Err(self.expect_error(pos, message))
        }
    }

    #[verifier::rlimit(100)]
    #[verifier::spinoff_prover]
    fn primary(&self, pos: usize) -> (r: Result<(Expr, usize), ParserError>)
        requires
            pos <= self.tokens@.len(),
        ensures
            match r {
                Ok((e, next)) => p_primary(self.toks(), pos as int) == PRes::Parsed::<ExprModel> {
                    v: e@,
                    next: next as int,
                } && pos < next <= self.tokens@.len(),
                Err(pe) => p_primary(self.toks(), pos as int) == PRes::Failed::<ExprModel> {
                    e: pe@,
                },
            },
        decreases self.tokens@.len() + 1 - pos, 0int,
    {
        let n = self.tokens.len();
        proof {
            assert(n == self.tokens@.len());
            reveal(p_primary);
                    reveal_with_fuel(crate::expression::expr_model, 2);
                    reveal_with_fuel(crate::lit::lit_model, 2);
        }
        let t = self.tok_clone(pos);
        match t.ty {
            TokenType::False => {
                let g = Expr::Literal {
                    span: Span { first: pos, last: pos + 1 },
                    value: Some(LitType::Bool(false)),
                };
                proof {
                    reveal(p_primary);
                    reveal_with_fuel(crate::expression::expr_model, 2);
                    reveal_with_fuel(crate::lit::lit_model, 2);
                    assert(p_primary(self.toks(), pos as int) == PRes::Parsed::<ExprModel> {
                        v: g@,
                        next: pos as int + 1,
                    });
                }
                Ok((g, pos + 1))
            },
            TokenType::True => {
                let g = Expr::Literal {
                    span: Span { first: pos, last: pos + 1 },
                    value: Some(LitType::Bool(true)),
                };
                proof {
                    reveal(p_primary);
                    reveal_with_fuel(crate::expression::expr_model, 2);
                    reveal_with_fuel(crate::lit::lit_model, 2);
                    assert(p_primary(self.toks(), pos as int) == PRes::Parsed::<ExprModel> {
                        v: g@,
                        next: pos as int + 1,
                    });
                }
                Ok((g, pos + 1))
            },
            TokenType::Nil => {
                let g = Expr::Literal {
                    span: Span { first: pos, last: pos + 1 },
                    value: Some(LitType::Nil),
                };
                proof {
                    reveal(p_primary);
                    reveal_with_fuel(crate::expression::expr_model, 2);
                    reveal_with_fuel(crate::lit::lit_model, 2);
                    assert(p_primary(self.toks(), pos as int) == PRes::Parsed::<ExprModel> {
                        v: g@,
                        next: pos as int + 1,
                    });
                }
                Ok((g, pos + 1))
            },
            TokenType::NumberLit => match t.literal {
                Some(lit) => match parse_literal(lit.as_str()) {
                    Some(bits) => {
                        let g = Expr::Literal {
                            span: Span { first: pos, last: pos + 1 },
                            value: Some(LitType::Number(bits)),
                        };
                        proof {
                            reveal(p_primary);
                    reveal_with_fuel(crate::expression::expr_model, 2);
                    reveal_with_fuel(crate::lit::lit_model, 2);
                            assert(p_primary(self.toks(), pos as int) == PRes::Parsed::<
                                ExprModel,
                            > { v: g@, next: pos as int + 1 });
                        }
                        Ok((g, pos + 1))
                    },
                    None => {
                        let pe = self.expect_error(pos, "Expected a number literal.");
                        proof {
                            reveal(p_primary);
                    reveal_with_fuel(crate::expression::expr_model, 2);
                    reveal_with_fuel(crate::lit::lit_model, 2);
                            assert(p_primary(self.toks(), pos as int) == PRes::Failed::<
                                ExprModel,
                            > { e: pe@ });
                        }
                        Err(pe)
                    },
                },
                None => {
                    let pe = self.expect_error(pos, "Expected a number literal.");
                    proof {
                        reveal(p_primary);
                    reveal_with_fuel(crate::expression::expr_model, 2);
                    reveal_with_fuel(crate::lit::lit_model, 2);
                        assert(p_primary(self.toks(), pos as int) == PRes::Failed::<ExprModel> {
                            e: pe@,
                        });
                    }
                    Err(pe)
                },
            },
            TokenType::StringLit => match t.literal {
                Some(lit) => {
                    let g = Expr::Literal {
                        span: Span { first: pos, last: pos + 1 },
                        value: Some(LitType::Str(lit)),
                    };
                    proof {
                        reveal(p_primary);
                    reveal_with_fuel(crate::expression::expr_model, 2);
                    reveal_with_fuel(crate::lit::lit_model, 2);
                        assert(p_primary(self.toks(), pos as int) == PRes::Parsed::<ExprModel> {
                            v: g@,
                            next: pos as int + 1,
                        });
                    }
                    Ok((g, pos + 1))
                },
                None => {
                    let pe = self.expect_error(pos, "Expected a string literal.");
                    proof {
                        reveal(p_primary);
                    reveal_with_fuel(crate::expression::expr_model, 2);
                    reveal_with_fuel(crate::lit::lit_model, 2);
                        assert(p_primary(self.toks(), pos as int) == PRes::Failed::<ExprModel> {
                            e: pe@,
                        });
                    }
                    Err(pe)
                },
            },
            TokenType::LeftParen => match self.expression(pos + 1) {
                Ok((e, next)) => match self.consume(
                    next,
                    TokenType::RightParen,
                    "Expected ')' after expression.",
                ) {
                    Ok((_, n2)) => {
                        let g = Expr::Grouping {
                            span: Span { first: pos, last: n2 },
                            expression: Box::new(e),
                        };
                        proof {
                            reveal(p_primary);
                    reveal_with_fuel(crate::expression::expr_model, 2);
                    reveal_with_fuel(crate::lit::lit_model, 2);
                            assert(adv(self.toks(), pos as int + 1, pos as int) == pos as int
                                + 1);
                            assert(p_primary(self.toks(), pos as int) == PRes::Parsed::<
                                ExprModel,
                            > { v: g@, next: n2 as int });
                        }
                        Ok((g, n2))
                    },
                    Err(pe) => {
                        proof {
                            reveal(p_primary);
                    reveal_with_fuel(crate::expression::expr_model, 2);
                    reveal_with_fuel(crate::lit::lit_model, 2);
                            assert(adv(self.toks(), pos as int + 1, pos as int) == pos as int
                                + 1);
                            assert(p_primary(self.toks(), pos as int) == PRes::Failed::<
                                ExprModel,
                            > { e: pe@ });
                        }
                        Err(pe)
                    },
                },
                Err(pe) => {
                    proof {
                        reveal(p_primary);
                    reveal_with_fuel(crate::expression::expr_model, 2);
                    reveal_with_fuel(crate::lit::lit_model, 2);
                        assert(adv(self.toks(), pos as int + 1, pos as int) == pos as int + 1);
                        assert(p_primary(self.toks(), pos as int) == PRes::Failed::<ExprModel> {
                            e: pe@,
                        });
                    }
                    Err(pe)
                },
            },
            TokenType::Ident => {
                let g = Expr::Variable { span: Span { first: pos, last: pos + 1 }, name: t };
                proof {
                    reveal(p_primary);
                    reveal_with_fuel(crate::expression::expr_model, 2);
                    reveal_with_fuel(crate::lit::lit_model, 2);
                    assert(p_primary(self.toks(), pos as int) == PRes::Parsed::<ExprModel> {
                        v: g@,
                        next: pos as int + 1,
                    });
                }
                Ok((g, pos + 1))
            },
            _ => {
                let pe = self.expect_error(pos, "Expected expression.");
                proof {
                    reveal(p_primary);
                    reveal_with_fuel(crate::expression::expr_model, 2);
                    reveal_with_fuel(crate::lit::lit_model, 2);
                    assert(p_primary(self.toks(), pos as int) == PRes::Failed::<ExprModel> {
                        e: pe@,
                    });
                }
                Err(pe)
            },
        }
    }

    #[verifier::rlimit(100)]
    #[verifier::spinoff_prover]
    fn args(&self, pos: usize, acc: Vec<Expr>) -> (r: Result<(Vec<Expr>, usize), ParserError>)
        requires
            pos <= self.tokens@.len(),
        ensures
            match r {
                Ok((v, next)) => p_args(self.toks(), pos as int, exprs_model(acc@))
                    == PRes::Parsed::<Seq<ExprModel>> { v: exprs_model(v@), next: next as int }
                    && pos < next <= self.tokens@.len(),
                Err(pe) => p_args(self.toks(), pos as int, exprs_model(acc@)) == PRes::Failed::<
                    Seq<ExprModel>,
                > { e: pe@ },
            },
        decreases self.tokens@.len() + 1 - pos, 12int,
    {
        let r = ({
            let n = self.tokens.len();
            proof {
                assert(n == self.tokens@.len());
            }
            let mut acc = acc;
            match self.expression(pos) {
                Ok((e, next)) => {
                    if acc.len() >= 255 {
                        let t = self.tok_clone(pos);
                        proof {
                            lemma_exprs_model(acc@);
                        }
                        Err(ParserError::TooManyArguments { line: t.line })
                    } else {
                        proof {
                            lemma_exprs_model(acc@);
                        }
                        let ghost acc0 = acc@;
                        acc.push(e);
                        proof {
                            lemma_exprs_model(acc@);
                            assert(exprs_model(acc@) =~= exprs_model(acc0) + seq![e@]);
                        }
                        if self.tok_ty(next) == TokenType::Comma {
                            self.args(next + 1, acc)
                        } else {
                            Ok((acc, next))
                        }
                    }
                },
                Err(pe) => Err(pe),
            }
            });
        proof {
            reveal(p_args);
            assert(self.toks().len() == self.tokens@.len());
        }
        r
    }

    #[verifier::rlimit(100)]
    #[verifier::spinoff_prover]
    fn call_rest(&self, pos: usize, start: usize, callee: Expr) -> (r: Result<
        (Expr, usize),
        ParserError,
    >)
        requires
            pos <= self.tokens@.len(),
            start <= pos,
        ensures
            match r {
                Ok((e, next)) => p_call_rest(self.toks(), pos as int, start as int, callee@)
                    == PRes::Parsed::<ExprModel> { v: e@, next: next as int } && pos <= next
                    <= self.tokens@.len(),
                Err(pe) => p_call_rest(self.toks(), pos as int, start as int, callee@)
                    == PRes::Failed::<ExprModel> { e: pe@ },
            },
        decreases self.tokens@.len() + 1 - pos, 1int,
    {
        let r = ({
            let n = self.tokens.len();
            proof {
                assert(n == self.tokens@.len());
            }
            if self.tok_ty(pos) == TokenType::LeftParen {
                let empty_args: Vec<Expr> = Vec::new();
                proof {
                    lemma_exprs_model(empty_args@);
                    assert(exprs_model(empty_args@) =~= Seq::<ExprModel>::empty());
                }
                let after: Result<(Vec<Expr>, usize), ParserError> = if self.tok_ty(pos + 1)
                    == TokenType::RightParen {
                    Ok((empty_args, pos + 1))
                } else {
                    self.args(pos + 1, empty_args)
                };
                match after {
                    Ok((arguments, next)) => match self.consume(
                        next,
                        TokenType::RightParen,
                        "Expected ')' after arguments.",
                    ) {
                        Ok((paren, n2)) => {
                            self.call_rest(
                                n2,
                                start,
                                Expr::Call {
                                    span: Span { first: start, last: n2 },
                                    callee: Box::new(callee),
                                    paren,
                                    arguments,
                                },
                            )
                        },
                        Err(pe) => Err(pe),
                    },
                    Err(pe) => Err(pe),
                }
            } else {
                Ok((callee, pos))
            }
            });
        proof {
            reveal(p_call_rest);
            assert(self.toks().len() == self.tokens@.len());
        }
        r
    }

    #[verifier::rlimit(100)]
    #[verifier::spinoff_prover]
    fn call(&self, pos: usize) -> (r: Result<(Expr, usize), ParserError>)
        requires
            pos <= self.tokens@.len(),
        ensures
            match r {
                Ok((e, next)) => p_call(self.toks(), pos as int) == PRes::Parsed::<ExprModel> {
                    v: e@,
                    next: next as int,
                } && pos < next <= self.tokens@.len(),
                Err(pe) => p_call(self.toks(), pos as int) == PRes::Failed::<ExprModel> { e: pe@ },
            },
        decreases self.tokens@.len() + 1 - pos, 2int,
    {
        let r = ({
            match self.primary(pos) {
                Ok((e, next)) => self.call_rest(next, pos, e),
                Err(pe) => Err(pe),
            }
            });
        proof {
            reveal(p_call);
            assert(self.toks().len() == self.tokens@.len());
        }
        r
    }

    #[verifier::rlimit(100)]
    #[verifier::spinoff_prover]
    fn unary(&self, pos: usize) -> (r: Result<(Expr, usize), ParserError>)
        requires
            pos <= self.tokens@.len(),
        ensures
            match r {
                Ok((e, next)) => p_unary(self.toks(), pos as int) == PRes::Parsed::<ExprModel> {
                    v: e@,
                    next: next as int,
                } && pos < next <= self.tokens@.len(),
                Err(pe) => p_unary(self.toks(), pos as int) == PRes::Failed::<ExprModel> {
                    e: pe@,
                },
            },
        decreases self.tokens@.len() + 1 - pos, 3int,
    {
        let r = ({
            let n = self.tokens.len();
            proof {
                assert(n == self.tokens@.len());
            }
            let ty = self.tok_ty(pos);
            if ty == TokenType::Bang || ty == TokenType::Minus {
                let operator = self.tok_clone(pos);
                match self.unary(pos + 1) {
                    Ok((e, next)) => Ok((
                        Expr::Unary {
                            span: Span { first: pos, last: next },
                            operator,
                            right: Box::new(e),
                        },
                        next,
                    )),
                    Err(pe) => Err(pe),
                }
            } else {
                self.call(pos)
            }
            });
        proof {
            reveal(p_unary);
            assert(self.toks().len() == self.tokens@.len());
        }
        r
    }

    #[verifier::rlimit(100)]
    #[verifier::spinoff_prover]
    fn factor_rest(&self, pos: usize, start: usize, left: Expr) -> (r: Result<
        (Expr, usize),
        ParserError,
    >)
        requires
            pos <= self.tokens@.len(),
        ensures
            match r {
                Ok((e, next)) => p_factor_rest(self.toks(), pos as int, start as int, left@)
                    == PRes::Parsed::<ExprModel> { v: e@, next: next as int } && pos <= next
                    <= self.tokens@.len(),
                Err(pe) => p_factor_rest(self.toks(), pos as int, start as int, left@)
                    == PRes::Failed::<ExprModel> { e: pe@ },
            },
        decreases self.tokens@.len() + 1 - pos, 0int,
    {
        let r = ({
            let n = self.tokens.len();
            proof {
                assert(n == self.tokens@.len());
            }
            let ty = self.tok_ty(pos);
            if ty == TokenType::Slash || ty == TokenType::Star {
                let operator = self.tok_clone(pos);
                match self.unary(pos + 1) {
                    Ok((right, next)) => self.factor_rest(
                        next,
                        start,
                        Expr::Binary {
                            span: Span { first: start, last: next },
                            left: Box::new(left),
                            operator,
                            right: Box::new(right),
                        },
                    ),
                    Err(pe) => Err(pe),
                }
            } else {
                Ok((left, pos))
            }
            });
        proof {
            reveal(p_factor_rest);
            assert(self.toks().len() == self.tokens@.len());
        }
        r
    }

    #[verifier::rlimit(100)]
    #[verifier::spinoff_prover]
    fn factor(&self, pos: usize) -> (r: Result<(Expr, usize), ParserError>)
        requires
            pos <= self.tokens@.len(),
        ensures
            match r {
                Ok((e, next)) => p_factor(self.toks(), pos as int) == PRes::Parsed::<ExprModel> {
                    v: e@,
                    next: next as int,
                } && pos < next <= self.tokens@.len(),
                Err(pe) => p_factor(self.toks(), pos as int) == PRes::Failed::<ExprModel> {
                    e: pe@,
                },
            },
        decreases self.tokens@.len() + 1 - pos, 4int,
    {
        let r = ({
            match self.unary(pos) {
                Ok((e, next)) => self.factor_rest(next, pos, e),
                Err(pe) => Err(pe),
            }
            });
        proof {
            reveal(p_factor);
            assert(self.toks().len() == self.tokens@.len());
        }
        r
    }

    #[verifier::rlimit(100)]
    #[verifier::spinoff_prover]
    fn term_rest(&self, pos: usize, start: usize, left: Expr) -> (r: Result<
        (Expr, usize),
        ParserError,
    >)
        requires
            pos <= self.tokens@.len(),
        ensures
            match r {
                Ok((e, next)) => p_term_rest(self.toks(), pos as int, start as int, left@)
                    == PRes::Parsed::<ExprModel> { v: e@, next: next as int } && pos <= next
                    <= self.tokens@.len(),
                Err(pe) => p_term_rest(self.toks(), pos as int, start as int, left@)
                    == PRes::Failed::<ExprModel> { e: pe@ },
            },
        decreases self.tokens@.len() + 1 - pos, 0int,
    {
        let r = ({
            let n = self.tokens.len();
            proof {
                assert(n == self.tokens@.len());
            }
            let ty = self.tok_ty(pos);
            if ty == TokenType::Minus || ty == TokenType::Plus {
                let operator = self.tok_clone(pos);
                match self.factor(pos + 1) {
                    Ok((right, next)) => self.term_rest(
                        next,
                        start,
                        Expr::Binary {
                            span: Span { first: start, last: next },
                            left: Box::new(left),
                            operator,
                            right: Box::new(right),
                        },
                    ),
                    Err(pe) => Err(pe),
                }
            } else {
                Ok((left, pos))
            }
            });
        proof {
            reveal(p_term_rest);
            assert(self.toks().len() == self.tokens@.len());
        }
        r
    }

    #[verifier::rlimit(100)]
    #[verifier::spinoff_prover]
    fn term(&self, pos: usize) -> (r: Result<(Expr, usize), ParserError>)
        requires
            pos <= self.tokens@.len(),
        ensures
            match r {
                Ok((e, next)) => p_term(self.toks(), pos as int) == PRes::Parsed::<ExprModel> {
                    v: e@,
                    next: next as int,
                } && pos < next <= self.tokens@.len(),
                Err(pe) => p_term(self.toks(), pos as int) == PRes::Failed::<ExprModel> {
                    e: pe@,
                },
            },
        decreases self.tokens@.len() + 1 - pos, 5int,
    {
        let r = ({
            match self.factor(pos) {
                Ok((e, next)) => self.term_rest(next, pos, e),
                Err(pe) => Err(pe),
            }
            });
        proof {
            reveal(p_term);
            assert(self.toks().len() == self.tokens@.len());
        }
        r
    }

    #[verifier::rlimit(100)]
    #[verifier::spinoff_prover]
    fn comparison_rest(&self, pos: usize, start: usize, left: Expr) -> (r: Result<
        (Expr, usize),
        ParserError,
    >)
        requires
            pos <= self.tokens@.len(),
        ensures
            match r {
                Ok((e, next)) => p_comparison_rest(self.toks(), pos as int, start as int, left@)
                    == PRes::Parsed::<ExprModel> { v: e@, next: next as int } && pos <= next
                    <= self.tokens@.len(),
                Err(pe) => p_comparison_rest(self.toks(), pos as int, start as int, left@)
                    == PRes::Failed::<ExprModel> { e: pe@ },
            },
        decreases self.tokens@.len() + 1 - pos, 0int,
    {
        let r = ({
            let n = self.tokens.len();
            proof {
                assert(n == self.tokens@.len());
            }
            let ty = self.tok_ty(pos);
            if ty == TokenType::Greater || ty == TokenType::GreaterEqual || ty == TokenType::Less || ty
                == TokenType::LessEqual {
                let operator = self.tok_clone(pos);
                match self.term(pos + 1) {
                    Ok((right, next)) => self.comparison_rest(
                        next,
                        start,
                        Expr::Binary {
                            span: Span { first: start, last: next },
                            left: Box::new(left),
                            operator,
                            right: Box::new(right),
                        },
                    ),
                    Err(pe) => Err(pe),
                }
            } else {
                Ok((left, pos))
            }
            });
        proof {
            reveal(p_comparison_rest);
            assert(self.toks().len() == self.tokens@.len());
        }
        r
    }

    #[verifier::rlimit(100)]
    #[verifier::spinoff_prover]
    fn comparison(&self, pos: usize) -> (r: Result<(Expr, usize), ParserError>)
        requires
            pos <= self.tokens@.len(),
        ensures
            match r {
                Ok((e, next)) => p_comparison(self.toks(), pos as int) == PRes::Parsed::<
                    ExprModel,
                > { v: e@, next: next as int } && pos < next <= self.tokens@.len(),
                Err(pe) => p_comparison(self.toks(), pos as int) == PRes::Failed::<ExprModel> {
                    e: pe@,
                },
            },
        decreases self.tokens@.len() + 1 - pos, 6int,
    {
        let r = ({
            match self.term(pos) {
                Ok((e, next)) => self.comparison_rest(next, pos, e),
                Err(pe) => Err(pe),
            }
            });
        proof {
            reveal(p_comparison);
            assert(self.toks().len() == self.tokens@.len());
        }
        r
    }

    #[verifier::rlimit(100)]
    #[verifier::spinoff_prover]
    fn equality_rest(&self, pos: usize, start: usize, left: Expr) -> (r: Result<
        (Expr, usize),
        ParserError,
    >)
        requires
            pos <= self.tokens@.len(),
        ensures
            match r {
                Ok((e, next)) => p_equality_rest(self.toks(), pos as int, start as int, left@)
                    == PRes::Parsed::<ExprModel> { v: e@, next: next as int } && pos <= next
                    <= self.tokens@.len(),
                Err(pe) => p_equality_rest(self.toks(), pos as int, start as int, left@)
                    == PRes::Failed::<ExprModel> { e: pe@ },
            },
        decreases self.tokens@.len() + 1 - pos, 0int,
    {
        let r = ({
            let n = self.tokens.len();
            proof {
                assert(n == self.tokens@.len());
            }
            let ty = self.tok_ty(pos);
            if ty == TokenType::BangEqual || ty == TokenType::EqualEqual {
                let operator = self.tok_clone(pos);
                match self.comparison(pos + 1) {
                    Ok((right, next)) => self.equality_rest(
                        next,
                        start,
                        Expr::Binary {
                            span: Span { first: start, last: next },
                            left: Box::new(left),
                            operator,
                            right: Box::new(right),
                        },
                    ),
                    Err(pe) => Err(pe),
                }
            } else {
                Ok((left, pos))
            }
            });
        proof {
            reveal(p_equality_rest);
            assert(self.toks().len() == self.tokens@.len());
        }
        r
    }

    #[verifier::rlimit(100)]
    #[verifier::spinoff_prover]
    fn equality(&self, pos: usize) -> (r: Result<(Expr, usize), ParserError>)
        requires
            pos <= self.tokens@.len(),
        ensures
            match r {
                Ok((e, next)) => p_equality(self.toks(), pos as int) == PRes::Parsed::<ExprModel> {
                    v: e@,
                    next: next as int,
                } && pos < next <= self.tokens@.len(),
                Err(pe) => p_equality(self.toks(), pos as int) == PRes::Failed::<ExprModel> {
                    e: pe@,
                },
            },
        decreases self.tokens@.len() + 1 - pos, 7int,
    {
        let r = ({
            match self.comparison(pos) {
                Ok((e, next)) => self.equality_rest(next, pos, e),
                Err(pe) => Err(pe),
            }
            });
        proof {
            reveal(p_equality);
            assert(self.toks().len() == self.tokens@.len());
        }
        r
    }

    #[verifier::rlimit(100)]
    #[verifier::spinoff_prover]
    fn logic_and_rest(&self, pos: usize, start: usize, left: Expr) -> (r: Result<
        (Expr, usize),
        ParserError,
    >)
        requires
            pos <= self.tokens@.len(),
        ensures
            match r {
                Ok((e, next)) => p_logic_and_rest(self.toks(), pos as int, start as int, left@)
                    == PRes::Parsed::<ExprModel> { v: e@, next: next as int } && pos <= next
                    <= self.tokens@.len(),
                Err(pe) => p_logic_and_rest(self.toks(), pos as int, start as int, left@)
                    == PRes::Failed::<ExprModel> { e: pe@ },
            },
        decreases self.tokens@.len() + 1 - pos, 0int,
    {
        let r = ({
            let n = self.tokens.len();
            proof {
                assert(n == self.tokens@.len());
            }
            if self.tok_ty(pos) == TokenType::And {
                if self.tok_ty(pos + 1) == TokenType::Eof {
                    let operator = self.tok_clone(pos);
                    Err(ParserError::LogicAndMissingRight { line: operator.line })
                } else {
                let operator = self.tok_clone(pos);
                match self.equality(pos + 1) {
                    Ok((right, next)) => self.logic_and_rest(
                        next,
                        start,
                        Expr::Logical {
                            span: Span { first: start, last: next },
                            left: Box::new(left),
                            operator,
                            right: Box::new(right),
                        },
                    ),
                    Err(pe) => Err(pe),
                }
                }
            } else {
                Ok((left, pos))
            }
            });
        proof {
            reveal(p_logic_and_rest);
            assert(self.toks().len() == self.tokens@.len());
        }
        r
    }

    #[verifier::rlimit(100)]
    #[verifier::spinoff_prover]
    fn logic_and(&self, pos: usize) -> (r: Result<(Expr, usize), ParserError>)
        requires
            pos <= self.tokens@.len(),
        ensures
            match r {
                Ok((e, next)) => p_logic_and(self.toks(), pos as int) == PRes::Parsed::<
                    ExprModel,
                > { v: e@, next: next as int } && pos < next <= self.tokens@.len(),
                Err(pe) => p_logic_and(self.toks(), pos as int) == PRes::Failed::<ExprModel> {
                    e: pe@,
                },
            },
        decreases self.tokens@.len() + 1 - pos, 8int,
    {
        let r = ({
            match self.equality(pos) {
                Ok((e, next)) => self.logic_and_rest(next, pos, e),
                Err(pe) => Err(pe),
            }
            });
        proof {
            reveal(p_logic_and);
            assert(self.toks().len() == self.tokens@.len());
        }
        r
    }

    #[verifier::rlimit(100)]
    #[verifier::spinoff_prover]
    fn logic_or_rest(&self, pos: usize, start: usize, left: Expr) -> (r: Result<
        (Expr, usize),
        ParserError,
    >)
        requires
            pos <= self.tokens@.len(),
        ensures
            match r {
                Ok((e, next)) => p_logic_or_rest(self.toks(), pos as int, start as int, left@)
                    == PRes::Parsed::<ExprModel> { v: e@, next: next as int } && pos <= next
                    <= self.tokens@.len(),
                Err(pe) => p_logic_or_rest(self.toks(), pos as int, start as int, left@)
                    == PRes::Failed::<ExprModel> { e: pe@ },
            },
        decreases self.tokens@.len() + 1 - pos, 0int,
    {
        let r = ({
            let n = self.tokens.len();
            proof {
                assert(n == self.tokens@.len());
            }
            if self.tok_ty(pos) == TokenType::Or {
                if self.tok_ty(pos + 1) == TokenType::Eof {
                    let operator = self.tok_clone(pos);
                    Err(ParserError::LogicOrMissingRight { line: operator.line })
                } else {
                let operator = self.tok_clone(pos);
                match self.logic_and(pos + 1) {
                    Ok((right, next)) => self.logic_or_rest(
                        next,
                        start,
                        Expr::Logical {
                            span: Span { first: start, last: next },
                            left: Box::new(left),
                            operator,
                            right: Box::new(right),
                        },
                    ),
                    Err(pe) => Err(pe),
                }
                }
            } else {
                Ok((left, pos))
            }
            });
        proof {
            reveal(p_logic_or_rest);
            assert(self.toks().len() == self.tokens@.len());
        }
        r
    }

    #[verifier::rlimit(100)]
    #[verifier::spinoff_prover]
    fn logic_or(&self, pos: usize) -> (r: Result<(Expr, usize), ParserError>)
        requires
            pos <= self.tokens@.len(),
        ensures
            match r {
                Ok((e, next)) => p_logic_or(self.toks(), pos as int) == PRes::Parsed::<ExprModel> {
                    v: e@,
                    next: next as int,
                } && pos < next <= self.tokens@.len(),
                Err(pe) => p_logic_or(self.toks(), pos as int) == PRes::Failed::<ExprModel> {
                    e: pe@,
                },
            },
        decreases self.tokens@.len() + 1 - pos, 9int,
    {
        let r = ({
            match self.logic_and(pos) {
                Ok((e, next)) => self.logic_or_rest(next, pos, e),
                Err(pe) => Err(pe),
            }
            });
        proof {
            reveal(p_logic_or);
            assert(self.toks().len() == self.tokens@.len());
        }
        r
    }

    #[verifier::rlimit(100)]
    #[verifier::spinoff_prover]
    fn assignment(&self, pos: usize) -> (r: Result<(Expr, usize), ParserError>)
        requires
            pos <= self.tokens@.len(),
        ensures
            match r {
                Ok((e, next)) => p_assignment(self.toks(), pos as int) == PRes::Parsed::<
                    ExprModel,
                > { v: e@, next: next as int } && pos < next <= self.tokens@.len(),
                Err(pe) => p_assignment(self.toks(), pos as int) == PRes::Failed::<ExprModel> {
                    e: pe@,
                },
            },
        decreases self.tokens@.len() + 1 - pos, 10int,
    {
        let r = ({
            let n = self.tokens.len();
            proof {
                assert(n == self.tokens@.len());
            }
            match self.logic_or(pos) {
                Ok((e, next)) => {
                    if self.tok_ty(next) == TokenType::Equal {
                        let eq_tok = self.tok_clone(next);
                        if self.tok_ty(next + 1) == TokenType::Eof {
                            Err(ParserError::UnexpectedAssignmentTarget { line: eq_tok.line })
                        } else {
                        match self.assignment(next + 1) {
                            Ok((value, n2)) => match e {
                                Expr::Variable { span: _, name } => Ok((
                                    Expr::Assign {
                                        span: Span { first: pos, last: n2 },
                                        name,
                                        value: Box::new(value),
                                    },
                                    n2,
                                )),
                                _ => Err(ParserError::InvalidAssignmentTarget { line: eq_tok.line }),
                            },
                            Err(pe) => Err(pe),
                        }
                        }
                    } else {
                        Ok((e, next))
                    }
                },
                Err(pe) => Err(pe),
            }
            });
        proof {
            reveal(p_assignment);
            assert(self.toks().len() == self.tokens@.len());
        }
        r
    }

    #[verifier::rlimit(100)]
    #[verifier::spinoff_prover]
    fn expression(&self, pos: usize) -> (r: Result<(Expr, usize), ParserError>)
        requires
            pos <= self.tokens@.len(),
        ensures
            match r {
                Ok((e, next)) => p_expression(self.toks(), pos as int) == PRes::Parsed::<
                    ExprModel,
                > { v: e@, next: next as int } && pos < next <= self.tokens@.len(),
                Err(pe) => p_expression(self.toks(), pos as int) == PRes::Failed::<ExprModel> {
                    e: pe@,
                },
            },
        decreases self.tokens@.len() + 1 - pos, 11int,
    {
        let r = ({
            self.assignment(pos)
            });
        proof {
            reveal(p_expression);
            assert(self.toks().len() == self.tokens@.len());
        }
        r
    }
    #[verifier::rlimit(100)]
    #[verifier::spinoff_prover]
    fn params(&self, pos: usize, acc: Vec<Token>) -> (r: Result<(Vec<Token>, usize), ParserError>)
        requires
            pos <= self.tokens@.len(),
        ensures
            match r {
                Ok((v, next)) => p_params(self.toks(), pos as int, tokens_model(acc@))
                    == PRes::Parsed::<Seq<TokenModel>> { v: tokens_model(v@), next: next as int }
                    && pos < next <= self.tokens@.len(),
                Err(pe) => p_params(self.toks(), pos as int, tokens_model(acc@)) == PRes::Failed::<
                    Seq<TokenModel>,
                > { e: pe@ },
            },
        decreases self.tokens@.len() + 1 - pos, 0int,
    {
        reveal(p_params);
        let n = self.tokens.len();
        proof {
            assert(n == self.tokens@.len());
        }
        let mut acc = acc;
        if acc.len() >= 255 {
            let t = self.tok_clone(pos);
            return Err(ParserError::TooManyParameters { line: t.line });
        }
        match self.consume(pos, TokenType::Ident, "Expect parameter name.") {
            Ok((name, next)) => {
                let ghost acc0 = acc@;
                acc.push(name);
                proof {
                    assert(tokens_model(acc@) =~= tokens_model(acc0) + seq![acc@.last()@]);
                }
                if self.tok_ty(next) == TokenType::Comma {
                    let r = self.params(next + 1, acc);
                    proof {
                        reveal(p_params);
                    }
                    r
                } else {
                    proof {
                        reveal(p_params);
                    }
                    Ok((acc, next))
                }
            },
            Err(pe) => {
                proof {
                    reveal(p_params);
                }
                Err(pe)
            },
        }
    }

    #[verifier::rlimit(100)]
    #[verifier::spinoff_prover]
    fn block_items(&self, pos: usize, acc: Vec<Statement>) -> (r: Result<
        (Vec<Statement>, usize),
        ParserError,
    >)
        requires
            pos <= self.tokens@.len(),
        ensures
            match r {
                Ok((v, next)) => p_block_items(self.toks(), pos as int, stmts_model(acc@))
                    == PRes::Parsed::<Seq<StmtModel>> { v: stmts_model(v@), next: next as int }
                    && pos < next <= self.tokens@.len(),
                Err(pe) => p_block_items(self.toks(), pos as int, stmts_model(acc@))
                    == PRes::Failed::<Seq<StmtModel>> { e: pe@ },
            },
        decreases self.tokens@.len() + 1 - pos, 16int,
    {
        reveal(p_block_items);
        let n = self.tokens.len();
        proof {
            assert(n == self.tokens@.len());
        }
        let mut acc = acc;
        let ty = self.tok_ty(pos);
        if ty == TokenType::RightBrace {
            return Ok((acc, pos + 1));
        }
        if ty == TokenType::Eof {
            return Err(self.expect_error(pos, "Expected '}' after block."));
        }
        match self.declaration(pos) {
            Ok((st, next)) => {
                let ghost acc0 = acc@;
                acc.push(st);
                proof {
                    lemma_stmts_model(acc0);
                    lemma_stmts_model(acc@);
                    assert(stmts_model(acc@) =~= stmts_model(acc0) + seq![acc@.last()@]);
                }
                let r = self.block_items(next, acc);
                proof {
                    reveal(p_block_items);
                }
                r
            },
            Err(pe) => {
                proof {
                    reveal(p_block_items);
                }
                Err(pe)
            },
        }
    }

    #[verifier::rlimit(100)]
    #[verifier::spinoff_prover]
    fn var_declaration(&self, pos: usize, start: usize) -> (r: Result<
        (Statement, usize),
        ParserError,
    >)
        requires
            pos <= self.tokens@.len(),
        ensures
            match r {
                Ok((st, next)) => p_var_decl(self.toks(), pos as int, start as int)
                    == PRes::Parsed::<StmtModel> { v: st@, next: next as int } && pos < next
                    <= self.tokens@.len(),
                Err(pe) => p_var_decl(self.toks(), pos as int, start as int) == PRes::Failed::<
                    StmtModel,
                > { e: pe@ },
            },
        decreases self.tokens@.len() + 1 - pos, 0int,
    {
        reveal(p_var_decl);
        let n = self.tokens.len();
        proof {
            assert(n == self.tokens@.len());
        }
        match self.consume(pos, TokenType::Ident, "Expected variable name.") {
            Ok((name, next)) => {
                if self.tok_ty(next) == TokenType::Equal {
                    if self.tok_ty(next + 1) == TokenType::Eof {
                        return Err(ParserError::VarMissingExpr { line: name.line });
                    }
                    match self.expression(next + 1) {
                        Ok((init, n2)) => match self.consume(
                            n2,
                            TokenType::Semicolon,
                            "Expect ';' after variable declaration.",
                        ) {
                            Ok((_, n3)) => {
                                let st = Statement::Var {
                                    span: Span { first: start, last: n3 },
                                    name,
                                    expression: Some(init),
                                };
                                proof {
                                    reveal(p_var_decl);
                                    reveal_with_fuel(crate::statement::stmt_model, 2);
                                    assert(adv(self.toks(), next as int + 1, pos as int) == next
                                        as int + 1);
                                    assert(st@ == StmtModel::Var {
                                        span: mk_span(start as int, n3 as int),
                                        name: name@,
                                        expression: Some(init@),
                                    });
                                }
                                Ok((st, n3))
                            },
                            Err(pe) => {
                                proof {
                                    reveal(p_var_decl);
                                    assert(adv(self.toks(), next as int + 1, pos as int) == next
                                        as int + 1);
                                }
                                Err(pe)
                            },
                        },
                        Err(pe) => {
                            proof {
                                reveal(p_var_decl);
                                assert(adv(self.toks(), next as int + 1, pos as int) == next
                                    as int + 1);
                            }
                            Err(pe)
                        },
                    }
                } else {
                    match self.consume(
                        next,
                        TokenType::Semicolon,
                        "Expected ';' after uninitialized variable.",
                    ) {
                        Ok((_, n2)) => {
                            let st = Statement::Var {
                                span: Span { first: start, last: n2 },
                                name,
                                expression: None,
                            };
                            proof {
                                reveal(p_var_decl);
                                reveal_with_fuel(crate::statement::stmt_model, 2);
                                assert(st@ == StmtModel::Var {
                                    span: mk_span(start as int, n2 as int),
                                    name: name@,
                                    expression: None,
                                });
                            }
                            Ok((st, n2))
                        },
                        Err(pe) => {
                            proof {
                                reveal(p_var_decl);
                            }
                            Err(pe)
                        },
                    }
                }
            },
            Err(pe) => {
                proof {
                    reveal(p_var_decl);
                }
                Err(pe)
            },
        }
    }



    #[verifier::rlimit(100)]
    #[verifier::spinoff_prover]
    fn function_declaration(&self, pos: usize, start: usize) -> (r: Result<
        (Statement, usize),
        ParserError,
    >)
        requires
            pos <= self.tokens@.len(),
        ensures
            match r {
                Ok((st, next)) => p_fun_decl(self.toks(), pos as int, start as int)
                    == PRes::Parsed::<StmtModel> { v: st@, next: next as int } && pos < next
                    <= self.tokens@.len(),
                Err(pe) => p_fun_decl(self.toks(), pos as int, start as int) == PRes::Failed::<
                    StmtModel,
                > { e: pe@ },
            },
        decreases self.tokens@.len() + 1 - pos, 0int,
    {
        reveal(p_fun_decl);
        let n = self.tokens.len();
        proof {
            assert(n == self.tokens@.len());
        }
        let name = match self.consume(pos, TokenType::Ident, "Expect function name.") {
            Ok(v) => v,
            Err(pe) => {
                return Err(pe);
            },
        };
        let open = match self.consume(name.1, TokenType::LeftParen, "Expect '(' after function name.") {
            Ok(v) => v,
            Err(pe) => {
                return Err(pe);
            },
        };
        let empty_params: Vec<Token> = Vec::new();
        proof {
            assert(tokens_model(empty_params@) =~= Seq::<TokenModel>::empty());
        }
        let params = if self.tok_ty(open.1) == TokenType::RightParen {
            (empty_params, open.1)
        } else {
            match self.params(open.1, empty_params) {
                Ok(v) => v,
                Err(pe) => {
                    return Err(pe);
                },
            }
        };
        let close = match self.consume(params.1, TokenType::RightParen, "Expect ')' after parameters.") {
            Ok(v) => v,
            Err(pe) => {
                return Err(pe);
            },
        };
        let brace = match self.consume(close.1, TokenType::LeftBrace, "Expect '{' before function body.") {
            Ok(v) => v,
            Err(pe) => {
                return Err(pe);
            },
        };
        let empty_body: Vec<Statement> = Vec::new();
        proof {
            lemma_stmts_model(empty_body@);
            assert(stmts_model(empty_body@) =~= Seq::<StmtModel>::empty());
        }
        let body = match self.block_items(brace.1, empty_body) {
            Ok(v) => v,
            Err(pe) => {
                return Err(pe);
            },
        };
        let st = Statement::Function {
            span: Span { first: start, last: body.1 },
            name: name.0,
            params: params.0,
            body: body.0,
        };
        proof {
            reveal(p_fun_decl);
            reveal_with_fuel(crate::statement::stmt_model, 2);
            assert(Seq::new(st->Function_params@.len(), |i: int| st->Function_params@[i]@)
                =~= tokens_model(params.0@));
            assert(st@ == StmtModel::Function {
                span: mk_span(start as int, body.1 as int),
                name: name.0@,
                params: tokens_model(params.0@),
                body: stmts_model(body.0@),
            });
        }
        Ok((st, body.1))
    }

    #[verifier::rlimit(100)]
    #[verifier::spinoff_prover]
    fn if_statement(&self, pos: usize, start: usize) -> (r: Result<(Statement, usize), ParserError>)
        requires
            pos <= self.tokens@.len(),
        ensures
            match r {
                Ok((st, next)) => p_if(self.toks(), pos as int, start as int) == PRes::Parsed::<
                    StmtModel,
                > { v: st@, next: next as int } && pos < next <= self.tokens@.len(),
                Err(pe) => p_if(self.toks(), pos as int, start as int) == PRes::Failed::<
                    StmtModel,
                > { e: pe@ },
            },
        decreases self.tokens@.len() + 1 - pos, 0int,
    {
        reveal(p_if);
        let n = self.tokens.len();
        proof {
            assert(n == self.tokens@.len());
        }
        if self.tok_ty(pos) != TokenType::LeftParen {
            let t = self.tok_clone(pos);
            return Err(ParserError::MissingIfCondition { line: t.line });
        }
        let open = match self.consume(pos, TokenType::LeftParen, "Expected '(' after 'if'.") {
            Ok(v) => v,
            Err(pe) => {
                return Err(pe);
            },
        };
        let cond = match self.expression(open.1) {
            Ok(v) => v,
            Err(pe) => {
                return Err(pe);
            },
        };
        let close = match self.consume(cond.1, TokenType::RightParen, "Expected ')' after if condition.") {
            Ok(v) => v,
            Err(pe) => {
                return Err(pe);
            },
        };
        if self.tok_ty(close.1) == TokenType::Eof {
            let t = self.tok_clone(close.1);
            return Err(ParserError::MissingThenBranch { line: t.line });
        }
        let then_b = match self.statement(close.1) {
            Ok(v) => v,
            Err(pe) => {
                return Err(pe);
            },
        };
        if self.tok_ty(then_b.1) == TokenType::Else {
            let else_b = match self.statement(then_b.1 + 1) {
                Ok(v) => v,
                Err(pe) => {
                    return Err(pe);
                },
            };
            let st = Statement::If {
                span: Span { first: start, last: else_b.1 },
                condition: cond.0,
                then_branch: Box::new(then_b.0),
                else_branch: Some(Box::new(else_b.0)),
            };
            proof {
                reveal(p_if);
                reveal_with_fuel(crate::statement::stmt_model, 2);
            }
            Ok((st, else_b.1))
        } else {
            let st = Statement::If {
                span: Span { first: start, last: then_b.1 },
                condition: cond.0,
                then_branch: Box::new(then_b.0),
                else_branch: None,
            };
            proof {
                reveal(p_if);
                reveal_with_fuel(crate::statement::stmt_model, 2);
            }
            Ok((st, then_b.1))
        }
    }

    #[verifier::rlimit(100)]
    #[verifier::spinoff_prover]
    fn while_statement(&self, pos: usize, start: usize) -> (r: Result<
        (Statement, usize),
        ParserError,
    >)
        requires
            pos <= self.tokens@.len(),
        ensures
            match r {
                Ok((st, next)) => p_while(self.toks(), pos as int, start as int) == PRes::Parsed::<
                    StmtModel,
                > { v: st@, next: next as int } && pos < next <= self.tokens@.len(),
                Err(pe) => p_while(self.toks(), pos as int, start as int) == PRes::Failed::<
                    StmtModel,
                > { e: pe@ },
            },
        decreases self.tokens@.len() + 1 - pos, 0int,
    {
        reveal(p_while);
        let n = self.tokens.len();
        proof {
            assert(n == self.tokens@.len());
        }
        if self.tok_ty(pos) != TokenType::LeftParen {
            let t = self.tok_clone(pos);
            return Err(ParserError::WhileMissingCondition { line: t.line });
        }
        let open = match self.consume(pos, TokenType::LeftParen, "Expect '(' after 'while'.") {
            Ok(v) => v,
            Err(pe) => {
                return Err(pe);
            },
        };
        let cond = match self.expression(open.1) {
            Ok(v) => v,
            Err(pe) => {
                return Err(pe);
            },
        };
        let close = match self.consume(cond.1, TokenType::RightParen, "Expected ')' after condition.") {
            Ok(v) => v,
            Err(pe) => {
                return Err(pe);
            },
        };
        if self.tok_ty(close.1) == TokenType::Eof {
            let t = self.tok_clone(close.1);
            return Err(ParserError::WhileMissingBody { line: t.line });
        }
        let body = match self.statement(close.1) {
            Ok(v) => v,
            Err(pe) => {
                return Err(pe);
            },
        };
        let st = Statement::While {
            span: Span { first: start, last: body.1 },
            condition: cond.0,
            body: Box::new(body.0),
        };
        proof {
            reveal(p_while);
            reveal_with_fuel(crate::statement::stmt_model, 2);
        }
        Ok((st, body.1))
    }

    #[verifier::rlimit(100)]
    #[verifier::spinoff_prover]
    fn for_statement(&self, pos: usize, start: usize) -> (r: Result<
        (Statement, usize),
        ParserError,
    >)
        requires
            pos <= self.tokens@.len(),
        ensures
            match r {
                Ok((st, next)) => p_for(self.toks(), pos as int, start as int) == PRes::Parsed::<
                    StmtModel,
                > { v: st@, next: next as int } && pos < next <= self.tokens@.len(),
                Err(pe) => p_for(self.toks(), pos as int, start as int) == PRes::Failed::<
                    StmtModel,
                > { e: pe@ },
            },
        decreases self.tokens@.len() + 1 - pos, 0int,
    {
        reveal(p_for);
        let n = self.tokens.len();
        proof {
            assert(n == self.tokens@.len());
        }
        let open = match self.consume(pos, TokenType::LeftParen, "Expected '(' after 'for'.") {
            Ok(v) => v,
            Err(pe) => {
                return Err(pe);
            },
        };
        let init_ty = self.tok_ty(open.1);
        let initializer: (Option<Statement>, usize) = if init_ty == TokenType::Semicolon {
            (None, open.1 + 1)
        } else if init_ty == TokenType::Var {
            match self.var_declaration(open.1 + 1, open.1) {
                Ok((st, next)) => (Some(st), next),
                Err(pe) => {
                    return Err(pe);
                },
            }
        } else {
            match self.expression_statement(open.1) {
                Ok((st, next)) => (Some(st), next),
                Err(pe) => {
                    return Err(pe);
                },
            }
        };
        let condition: (Option<Expr>, usize) = if self.tok_ty(initializer.1)
            == TokenType::Semicolon {
            (None, initializer.1)
        } else {
            match self.expression(initializer.1) {
                Ok((e, next)) => (Some(e), next),
                Err(pe) => {
                    return Err(pe);
                },
            }
        };
        let semi = match self.consume(condition.1, TokenType::Semicolon, "Expect ';' after loop condition.") {
            Ok(v) => v,
            Err(pe) => {
                return Err(pe);
            },
        };
        let increment: (Option<Expr>, usize) = if self.tok_ty(semi.1) == TokenType::RightParen {
            (None, semi.1)
        } else {
            match self.expression(semi.1) {
                Ok((e, next)) => (Some(e), next),
                Err(pe) => {
                    return Err(pe);
                },
            }
        };
        let close = match self.consume(increment.1, TokenType::RightParen, "Expect ')' after for clause.") {
            Ok(v) => v,
            Err(pe) => {
                return Err(pe);
            },
        };
        let body = match self.statement(close.1) {
            Ok(v) => v,
            Err(pe) => {
                return Err(pe);
            },
        };
        let span = Span { first: start, last: body.1 };
        let ghost initm: Option<StmtModel> = match initializer.0 {
            Some(ref ist) => Some(ist@),
            None => None,
        };
        let ghost condm: Option<ExprModel> = match condition.0 {
            Some(ref c) => Some(c@),
            None => None,
        };
        let ghost incm: Option<ExprModel> = match increment.0 {
            Some(ref inc) => Some(inc@),
            None => None,
        };
        let ghost bodym = body.0@;
        let body2: Statement = match increment.0 {
            Some(inc) => {
                let mut stmts: Vec<Statement> = Vec::new();
                stmts.push(body.0);
                stmts.push(Statement::Expression { span, expression: inc });
                let b = Statement::Block { span, statements: stmts };
                proof {
                    reveal_with_fuel(crate::statement::stmts_model, 3);
                    reveal_with_fuel(crate::statement::stmt_model, 2);
                    assert(stmts@ =~= seq![stmts@[0], stmts@[1]]);
                    assert(stmts_model(stmts@) =~= seq![
                        bodym,
                        StmtModel::Expression { span, expression: incm->0 },
                    ]);
                    assert(b@ == StmtModel::Block {
                        span,
                        statements: seq![
                            bodym,
                            StmtModel::Expression { span, expression: incm->0 },
                        ],
                    });
                }
                b
            },
            None => body.0,
        };
        let ghost body2m = body2@;
        let cond2: Expr = match condition.0 {
            Some(c) => c,
            None => Expr::Literal { span, value: Some(LitType::Bool(true)) },
        };
        proof {
            reveal_with_fuel(crate::expression::expr_model, 2);
            reveal_with_fuel(crate::lit::lit_model, 2);
            assert(cond2@ == (match condm {
                Some(c) => c,
                None => ExprModel::Literal { span, value: Some(ValModel::Bool(true)) },
            }));
        }
        let ghost cond2m = cond2@;
        let w = Statement::While { span, condition: cond2, body: Box::new(body2) };
        proof {
            reveal_with_fuel(crate::statement::stmt_model, 2);
            assert(w@ == StmtModel::While { span, condition: cond2m, body: Box::new(body2m) });
        }
        let ghost wm = w@;
        let st: Statement = match initializer.0 {
            Some(ist) => {
                let mut stmts: Vec<Statement> = Vec::new();
                stmts.push(ist);
                stmts.push(w);
                let b = Statement::Block { span, statements: stmts };
                proof {
                    reveal_with_fuel(crate::statement::stmts_model, 3);
                    reveal_with_fuel(crate::statement::stmt_model, 2);
                    assert(stmts@ =~= seq![stmts@[0], stmts@[1]]);
                    assert(stmts_model(stmts@) =~= seq![initm->0, wm]);
                    assert(b@ == StmtModel::Block { span, statements: seq![initm->0, wm] });
                }
                b
            },
            None => w,
        };
        proof {
            reveal(p_for);
            assert(st@ == desugar_for(initm, condm, incm, bodym, mk_span(
                start as int,
                body.1 as int,
            )));
        }
        Ok((st, body.1))
    }

    #[verifier::rlimit(100)]
    #[verifier::spinoff_prover]
    fn return_statement(&self, pos: usize, start: usize) -> (r: Result<
        (Statement, usize),
        ParserError,
    >)
        requires
            pos <= self.tokens@.len(),
        ensures
            match r {
                Ok((st, next)) => p_return(self.toks(), pos as int, start as int)
                    == PRes::Parsed::<StmtModel> { v: st@, next: next as int } && pos < next
                    <= self.tokens@.len(),
                Err(pe) => p_return(self.toks(), pos as int, start as int) == PRes::Failed::<
                    StmtModel,
                > { e: pe@ },
            },
        decreases self.tokens@.len() + 1 - pos, 0int,
    {
        reveal(p_return);
        let n = self.tokens.len();
        proof {
            assert(n == self.tokens@.len());
        }
        let keyword = self.tok_clone(start);
        if self.tok_ty(pos) == TokenType::Semicolon {
            let st = Statement::Return {
                span: Span { first: start, last: pos + 1 },
                keyword,
                value: Expr::Literal {
                    span: Span { first: start, last: pos + 1 },
                    value: Some(LitType::Nil),
                },
            };
            proof {
                reveal(p_return);
                reveal_with_fuel(crate::statement::stmt_model, 4);
                reveal_with_fuel(crate::expression::expr_model, 3);
                reveal_with_fuel(crate::lit::lit_model, 2);
                assert(st@ == StmtModel::Return {
                    span: mk_span(start as int, pos as int + 1),
                    keyword: tok_at(self.toks(), start as int),
                    value: ExprModel::Literal {
                        span: mk_span(start as int, pos as int + 1),
                        value: Some(ValModel::Nil),
                    },
                });
            }
            Ok((st, pos + 1))
        } else {
            let value = match self.expression(pos) {
                Ok(v) => v,
                Err(pe) => {
                    return Err(pe);
                },
            };
            let semi = match self.consume(value.1, TokenType::Semicolon, "Expect ';' after return value.") {
                Ok(v) => v,
                Err(pe) => {
                    return Err(pe);
                },
            };
            let st = Statement::Return {
                span: Span { first: start, last: semi.1 },
                keyword,
                value: value.0,
            };
            proof {
                reveal(p_return);
                reveal_with_fuel(crate::statement::stmt_model, 2);
                assert(st@ == StmtModel::Return {
                    span: mk_span(start as int, semi.1 as int),
                    keyword: tok_at(self.toks(), start as int),
                    value: value.0@,
                });
            }
            Ok((st, semi.1))
        }
    }

    #[verifier::rlimit(100)]
    #[verifier::spinoff_prover]
    fn print_statement(&self, pos: usize, start: usize) -> (r: Result<
        (Statement, usize),
        ParserError,
    >)
        requires
            pos <= self.tokens@.len(),
        ensures
            match r {
                Ok((st, next)) => p_print(self.toks(), pos as int, start as int) == PRes::Parsed::<
                    StmtModel,
                > { v: st@, next: next as int } && pos < next <= self.tokens@.len(),
                Err(pe) => p_print(self.toks(), pos as int, start as int) == PRes::Failed::<
                    StmtModel,
                > { e: pe@ },
            },
        decreases self.tokens@.len() + 1 - pos, 0int,
    {
        reveal(p_print);
        let n = self.tokens.len();
        proof {
            assert(n == self.tokens@.len());
        }
        if self.tok_ty(pos) == TokenType::Eof {
            let t = self.tok_clone(start);
            return Err(ParserError::PrintNoExpression { line: t.line });
        }
        let value = match self.expression(pos) {
            Ok(v) => v,
            Err(pe) => {
                return Err(pe);
            },
        };
        let semi = match self.consume(value.1, TokenType::Semicolon, "Expect ';' after value.") {
            Ok(v) => v,
            Err(pe) => {
                return Err(pe);
            },
        };
        let st = Statement::Print { span: Span { first: start, last: semi.1 }, expression: value.0 };
        proof {
            reveal(p_print);
            reveal_with_fuel(crate::statement::stmt_model, 2);
        }
        Ok((st, semi.1))
    }

    #[verifier::rlimit(100)]
    #[verifier::spinoff_prover]
    fn expression_statement(&self, pos: usize) -> (r: Result<(Statement, usize), ParserError>)
        requires
            pos <= self.tokens@.len(),
        ensures
            match r {
                Ok((st, next)) => p_expr_stmt(self.toks(), pos as int) == PRes::Parsed::<
                    StmtModel,
                > { v: st@, next: next as int } && pos < next <= self.tokens@.len(),
                Err(pe) => p_expr_stmt(self.toks(), pos as int) == PRes::Failed::<StmtModel> {
                    e: pe@,
                },
            },
        decreases self.tokens@.len() + 1 - pos, 13int,
    {
        reveal(p_expr_stmt);
        let n = self.tokens.len();
        proof {
            assert(n == self.tokens@.len());
        }
        let value = match self.expression(pos) {
            Ok(v) => v,
            Err(pe) => {
                return Err(pe);
            },
        };
        let semi = match self.consume(
            value.1,
            TokenType::Semicolon,
            "Expected ';' after expression statement.",
        ) {
            Ok(v) => v,
            Err(pe) => {
                return Err(pe);
            },
        };
        let st = Statement::Expression {
            span: Span { first: pos, last: semi.1 },
            expression: value.0,
        };
        proof {
            reveal(p_expr_stmt);
            reveal_with_fuel(crate::statement::stmt_model, 2);
        }
        Ok((st, semi.1))
    }

    #[verifier::rlimit(100)]
    #[verifier::spinoff_prover]
    fn statement(&self, pos: usize) -> (r: Result<(Statement, usize), ParserError>)
        requires
            pos <= self.tokens@.len(),
        ensures
            match r {
                Ok((st, next)) => p_statement(self.toks(), pos as int) == PRes::Parsed::<
                    StmtModel,
                > { v: st@, next: next as int } && pos < next <= self.tokens@.len(),
                Err(pe) => p_statement(self.toks(), pos as int) == PRes::Failed::<StmtModel> {
                    e: pe@,
                },
            },
        decreases self.tokens@.len() + 1 - pos, 14int,
    {
        reveal(p_statement);
        let n = self.tokens.len();
        proof {
            assert(n == self.tokens@.len());
        }
        let ty = self.tok_ty(pos);
        if ty == TokenType::LeftBrace {
            let empty_body: Vec<Statement> = Vec::new();
            proof {
                lemma_stmts_model(empty_body@);
                assert(stmts_model(empty_body@) =~= Seq::<StmtModel>::empty());
            }
            match self.block_items(pos + 1, empty_body) {
                Ok((stmts, next)) => {
                    let st = Statement::Block {
                        span: Span { first: pos, last: next },
                        statements: stmts,
                    };
                    proof {
                        reveal(p_statement);
                        reveal_with_fuel(crate::statement::stmt_model, 2);
                    }
                    Ok((st, next))
                },
                Err(pe) => {
                    proof {
                        reveal(p_statement);
                    }
                    Err(pe)
                },
            }
        } else if ty == TokenType::If {
            let r = self.if_statement(pos + 1, pos);
            proof {
                reveal(p_statement);
            }
            r
        } else if ty == TokenType::Print {
            let r = self.print_statement(pos + 1, pos);
            proof {
                reveal(p_statement);
            }
            r
        } else if ty == TokenType::Return {
            let r = self.return_statement(pos + 1, pos);
            proof {
                reveal(p_statement);
            }
            r
        } else if ty == TokenType::While {
            let r = self.while_statement(pos + 1, pos);
            proof {
                reveal(p_statement);
            }
            r
        } else if ty == TokenType::For {
            let r = self.for_statement(pos + 1, pos);
            proof {
                reveal(p_statement);
            }
            r
        } else {
            let r = self.expression_statement(pos);
            proof {
                reveal(p_statement);
            }
            r
        }
    }

    #[verifier::rlimit(100)]
    #[verifier::spinoff_prover]
    fn declaration(&self, pos: usize) -> (r: Result<(Statement, usize), ParserError>)
        requires
            pos <= self.tokens@.len(),
        ensures
            match r {
                Ok((st, next)) => p_declaration(self.toks(), pos as int) == PRes::Parsed::<
                    StmtModel,
                > { v: st@, next: next as int } && pos < next <= self.tokens@.len(),
                Err(pe) => p_declaration(self.toks(), pos as int) == PRes::Failed::<StmtModel> {
                    e: pe@,
                },
            },
        decreases self.tokens@.len() + 1 - pos, 15int,
    {
        reveal(p_declaration);
        let n = self.tokens.len();
        proof {
            assert(n == self.tokens@.len());
        }
        let ty = self.tok_ty(pos);
        if ty == TokenType::Fun {
            let r = self.function_declaration(pos + 1, pos);
            proof {
                reveal(p_declaration);
            }
            r
        } else if ty == TokenType::Var {
            let r = self.var_declaration(pos + 1, pos);
            proof {
                reveal(p_declaration);
            }
            r
        } else {
            let r = self.statement(pos);
            proof {
                reveal(p_declaration);
            }
            r
        }
    }

    #[verifier::rlimit(100)]
    #[verifier::spinoff_prover]
    fn program_items(&self, pos: usize, acc: Vec<Statement>) -> (r: Result<
        Vec<Statement>,
        ParserError,
    >)
        requires
            pos <= self.tokens@.len(),
        ensures
            match r {
                Ok(v) => p_program(self.toks(), pos as int, stmts_model(acc@)) == PRes::Parsed::<
                    Seq<StmtModel>,
                > { v: stmts_model(v@), next: 0 },
                Err(pe) => p_program(self.toks(), pos as int, stmts_model(acc@)) == PRes::Failed::<
                    Seq<StmtModel>,
                > { e: pe@ },
            },
        decreases self.tokens@.len() + 1 - pos, 17int,
    {
        reveal(p_program);
        let n = self.tokens.len();
        proof {
            assert(n == self.tokens@.len());
        }
        let mut acc = acc;
        if self.tok_ty(pos) == TokenType::Eof {
            proof {
                reveal(p_program);
                assert(p_program(self.toks(), pos as int, stmts_model(acc@)) == PRes::Parsed::<
                    Seq<StmtModel>,
                > { v: stmts_model(acc@), next: 0 });
            }
            return Ok(acc);
        }
        match self.declaration(pos) {
            Ok((st, next)) => {
                let ghost acc0 = acc@;
                acc.push(st);
                proof {
                    lemma_stmts_model(acc0);
                    lemma_stmts_model(acc@);
                    assert(stmts_model(acc@) =~= stmts_model(acc0) + seq![acc@.last()@]);
                }
                let ghost accm = stmts_model(acc@);
                let r = self.program_items(next, acc);
                proof {
                    reveal(p_program);
                    assert(adv(self.toks(), next as int, pos as int) == next as int);
                    match r {
                        Ok(ref v) => {
                            assert(p_program(self.toks(), pos as int, stmts_model(acc0))
                                == PRes::Parsed::<Seq<StmtModel>> {
                                v: stmts_model(v@),
                                next: 0,
                            });
                        },
                        Err(_) => {},
                    }
                }
                r
            },
            Err(pe) => {
                proof {
                    reveal(p_program);
                }
                Err(pe)
            },
        }
    }

    /// Parses the whole token list as a program: exactly the statements
    /// `parse_program` describes, or the first parse error.
    #[verifier::rlimit(100)]
    #[verifier::spinoff_prover]
    pub fn parse(&self) -> (r: Result<Vec<Statement>, ParserError>)
        ensures
            match r {
                Ok(ss) => parse_program(self.toks()) == Ok::<Seq<StmtModel>, ParserErrorModel>(
                    stmts_model(ss@),
                ),
                Err(pe) => parse_program(self.toks()) == Err::<Seq<StmtModel>, ParserErrorModel>(
                    pe@,
                ),
            },
    {
        let empty: Vec<Statement> = Vec::new();
        proof {
            lemma_stmts_model(empty@);
            assert(stmts_model(empty@) =~= Seq::<StmtModel>::empty());
        }
        let r = self.program_items(0, empty);
        match r {
            Ok(ss) => Ok(ss),
            Err(pe) => Err(pe),
        }
    }
}

} // verus!