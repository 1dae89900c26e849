//! The evaluator: walks the AST against the environment chain, collecting
//! printed lines in an output buffer.
//!
//! `eval_expr_s` and `exec_stmt_s` are the mathematical semantics: a
//! fuel-indexed big-step evaluator over the models of values, scopes and
//! output. The executable evaluator is proved to produce exactly the
//! state and result the semantics gives. Fuel is consumed once per
//! function call and once per loop iteration; a run that exhausts it ends
//! in the `Exhausted` error, which a terminating program never reaches
//! under a large enough budget.
//!
//! The native `clock` draws from a queue of readings (milliseconds since
//! the Unix epoch) that the embedder supplies with
//! [`Interpreter::provide_clock_reading`]; reading the machine clock is
//! I/O and stays outside the library. An exhausted queue or a `None`
//! entry surfaces as `NativeFunctionError`.
use vstd::prelude::*;
use vstd::string::StringExecFns;
use crate::environment::{Environment, ScopeModel, assoc, lookup, resolve};
use crate::error_handler::{LoxError, LoxErrorModel, RuntimeError, RuntimeErrorModel};
use crate::expression::{Expr, ExprModel};
use crate::lit::{FunModel, LitType, LoxCallable, LoxFunction, ValModel, fun_model};
use crate::num;
use crate::parser::{Parser, parse_program};
use crate::scanner::{Scanner, scan};
use crate::span::Span;
use crate::statement::{Statement, StmtModel, stmts_model, lemma_stmts_model};
use crate::tokens::{Token, TokenType, tokens_model};

verus! {

/// The evaluator's state: the scope arena, the lines printed so far, and
/// the clock readings not yet consumed.
#[verifier::ext_equal]
pub ghost struct EvalState {
    pub scopes: Seq<ScopeModel>,
    pub output: Seq<Seq<char>>,
    pub clocks: Seq<Option<u64>>,
}

/// Truthiness: only `nil` and `false` are falsy.
pub open spec fn truthy_val(v: ValModel) -> bool {
    match v {
        ValModel::Nil => false,
        ValModel::Bool(b) => b,
        _ => true,
    }
}

/// The display form of a value: the decimal rendering of a number, the
/// raw text of a string, `true`/`false`, `nil`, and the callable forms.
pub open spec fn display_val(v: ValModel) -> Seq<char> {
    match v {
        ValModel::Number(b) => num::num_display(b),
        ValModel::Str(s) => s,
        ValModel::Bool(b) => if b {
            "true"@
        } else {
            "false"@
        },
        ValModel::Nil => "nil"@,
        ValModel::Clock => "<native fn>"@,
        ValModel::Fun(f) => "<fn "@ + f.name + ">"@,
    }
}

/// What a binary operator yields on two evaluated operands: IEEE-754
/// arithmetic and comparison on two numbers (`/` by zero fails, `!=` is
/// the negation of `==`), `+` as concatenation on two strings (any other
/// operator on two strings fails), and a type mismatch otherwise.
pub open spec fn binary_spec(op: TokenType, l: ValModel, r: ValModel, span: Span) -> Result<
    ValModel,
    RuntimeErrorModel,
> {
    match (l, r) {
        (ValModel::Number(a), ValModel::Number(b)) => {
            if op == TokenType::Plus {
                Ok(ValModel::Number(num::num_add(a, b)))
            } else if op == TokenType::Minus {
                Ok(ValModel::Number(num::num_sub(a, b)))
            } else if op == TokenType::Star {
                Ok(ValModel::Number(num::num_mul(a, b)))
            } else if op == TokenType::Slash {
                if num::num_cmp(b, num::ZERO_BITS) == num::NumCmp::Equal {
                    Err(RuntimeErrorModel::DivideByZero { span })
                } else {
                    Ok(ValModel::Number(num::num_div(a, b)))
                }
            } else if op == TokenType::Less {
                Ok(ValModel::Bool(num::num_cmp(a, b) == num::NumCmp::Less))
            } else if op == TokenType::LessEqual {
                Ok(
                    ValModel::Bool(
                        num::num_cmp(a, b) == num::NumCmp::Less || num::num_cmp(a, b)
                            == num::NumCmp::Equal,
                    ),
                )
            } else if op == TokenType::Greater {
                Ok(ValModel::Bool(num::num_cmp(a, b) == num::NumCmp::Greater))
            } else if op == TokenType::GreaterEqual {
                Ok(
                    ValModel::Bool(
                        num::num_cmp(a, b) == num::NumCmp::Greater || num::num_cmp(a, b)
                            == num::NumCmp::Equal,
                    ),
                )
            } else if op == TokenType::EqualEqual {
                Ok(ValModel::Bool(num::num_cmp(a, b) == num::NumCmp::Equal))
            } else if op == TokenType::BangEqual {
                Ok(ValModel::Bool(!(num::num_cmp(a, b) == num::NumCmp::Equal)))
            } else {
                Err(RuntimeErrorModel::InvalidNumerical { span })
            }
        },
        (ValModel::Str(a), ValModel::Str(b)) => {
            if op == TokenType::Plus {
                Ok(ValModel::Str(a + b))
            } else {
                Err(RuntimeErrorModel::InvalidStringConcat { span })
            }
        },
        _ => Err(RuntimeErrorModel::BinaryTypeMismatch { span }),
    }
}

/// What a unary operator yields: `-` negates a number (and only a
/// number), `!` negates truthiness of any value.
pub open spec fn unary_spec(op: TokenType, v: ValModel, span: Span) -> Result<
    ValModel,
    RuntimeErrorModel,
> {
    if op == TokenType::Minus {
        match v {
            ValModel::Number(b) => Ok(ValModel::Number(num::num_neg(b))),
            _ => Err(RuntimeErrorModel::UnaryExpects { span }),
        }
    } else if op == TokenType::Bang {
        Ok(ValModel::Bool(!truthy_val(v)))
    } else {
        Err(RuntimeErrorModel::InvalidUnary { span })
    }
}

/// The value of an expression and the state after it. Sub-expressions
/// evaluate left to right; a literal with an absent payload denotes nil.
#[verifier::opaque]
pub open spec fn eval_expr_s(st: EvalState, scope: int, e: ExprModel, fuel: nat) -> (
    EvalState,
    Result<ValModel, RuntimeErrorModel>,
)
    decreases fuel, e, 1int,
{
    match e {
        ExprModel::Literal { span, value } => (
            st,
            Ok(
                match value {
                    Some(v) => v,
                    None => ValModel::Nil,
                },
            ),
        ),
        ExprModel::Grouping { span, expression } => eval_expr_s(st, scope, *expression, fuel),
        ExprModel::Unary { span, operator, right } => {
            let (st1, r1) = eval_expr_s(st, scope, *right, fuel);
            match r1 {
                Ok(v) => (st1, unary_spec(operator.ty, v, span)),
                Err(er) => (st1, Err(er)),
            }
        },
        ExprModel::Binary { span, left, operator, right } => {
            let (st1, r1) = eval_expr_s(st, scope, *left, fuel);
            match r1 {
                Ok(lv) => {
                    let (st2, r2) = eval_expr_s(st1, scope, *right, fuel);
                    match r2 {
                        Ok(rv) => (st2, binary_spec(operator.ty, lv, rv, span)),
                        Err(er) => (st2, Err(er)),
                    }
                },
                Err(er) => (st1, Err(er)),
            }
        },
        ExprModel::Logical { span, left, operator, right } => {
            let (st1, r1) = eval_expr_s(st, scope, *left, fuel);
            match r1 {
                Ok(lv) => {
                    if operator.ty == TokenType::Or {
                        if truthy_val(lv) {
                            (st1, Ok(lv))
                        } else {
                            eval_expr_s(st1, scope, *right, fuel)
                        }
                    } else {
                        if !truthy_val(lv) {
                            (st1, Ok(lv))
                        } else {
                            eval_expr_s(st1, scope, *right, fuel)
                        }
                    }
                },
                Err(er) => (st1, Err(er)),
            }
        },
        ExprModel::Variable { span, name } => {
            match lookup(st.scopes, scope, name.lexeme) {
                Some(v) => (st, Ok(v)),
                None => (st, Err(RuntimeErrorModel::UndefinedVariable { name: name.lexeme, span })),
            }
        },
        ExprModel::Assign { span, name, value } => {
            let (st1, r1) = eval_expr_s(st, scope, *value, fuel);
            match r1 {
                Ok(v) => {
                    match resolve(st1.scopes, scope, name.lexeme) {
                        Some(j) => (
                            EvalState {
                                scopes: st1.scopes.update(
                                    j,
                                    ScopeModel {
                                        parent: st1.scopes[j].parent,
                                        bindings: st1.scopes[j].bindings.insert(name.lexeme, v),
                                    },
                                ),
                                ..st1
                            },
                            Ok(v),
                        ),
                        None => (
                            st1,
                            Err(RuntimeErrorModel::UndefinedVariable { name: name.lexeme, span }),
                        ),
                    }
                },
                Err(er) => (st1, Err(er)),
            }
        },
        ExprModel::Call { span, callee, paren, arguments } => {
            let (st1, r1) = eval_expr_s(st, scope, *callee, fuel);
            match r1 {
                Ok(cv) => {
                    let (st2, r2) = eval_args_s(st1, scope, arguments, 0, fuel, Seq::empty());
                    match r2 {
                        Ok(vs) => {
                            match cv {
                                ValModel::Clock => {
                                    if vs.len() != 0 {
                                        (
                                            st2,
                                            Err(
                                                RuntimeErrorModel::IncorrectArgumentCount {
                                                    expected: 0,
                                                    got: vs.len(),
                                                },
                                            ),
                                        )
                                    } else if st2.clocks.len() == 0 {
                                        (st2, Err(RuntimeErrorModel::NativeFunctionError))
                                    } else {
                                        let st3 = EvalState {
                                            clocks: st2.clocks.drop_first(),
                                            ..st2
                                        };
                                        match st2.clocks[0] {
                                            Some(ms) => (
                                                st3,
                                                Ok(
                                                    ValModel::Number(
                                                        num::num_div(
                                                            num::num_of_int(ms),
                                                            num::num_of_int(1000),
                                                        ),
                                                    ),
                                                ),
                                            ),
                                            None => (
                                                st3,
                                                Err(RuntimeErrorModel::NativeFunctionError),
                                            ),
                                        }
                                    }
                                },
                                ValModel::Fun(f) => {
                                    if vs.len() != f.params.len() {
                                        (
                                            st2,
                                            Err(
                                                RuntimeErrorModel::IncorrectArgumentCount {
                                                    expected: f.params.len(),
                                                    got: vs.len(),
                                                },
                                            ),
                                        )
                                    } else if fuel == 0 {
                                        (st2, Err(RuntimeErrorModel::Exhausted))
                                    } else {
                                        call_fun_s(st2, f, vs, (fuel - 1) as nat)
                                    }
                                },
                                _ => (st2, Err(RuntimeErrorModel::NotCallable { span })),
                            }
                        },
                        Err(er) => (st2, Err(er)),
                    }
                },
                Err(er) => (st1, Err(er)),
            }
        },
    }
}

/// The values of the arguments from index `i` on, evaluated left to
/// right.
#[verifier::opaque]
pub open spec fn eval_args_s(
    st: EvalState,
    scope: int,
    es: Seq<ExprModel>,
    i: int,
    fuel: nat,
    acc: Seq<ValModel>,
) -> (EvalState, Result<Seq<ValModel>, RuntimeErrorModel>)
    decreases fuel, es, es.len() - i,
{
    if 0 <= i < es.len() {
        let (st1, r1) = eval_expr_s(st, scope, es[i], fuel);
        match r1 {
            Ok(v) => eval_args_s(st1, scope, es, i + 1, fuel, acc + seq![v]),
            Err(er) => (st1, Err(er)),
        }
    } else {
        (st, Ok(acc))
    }
}

/// A user-function call on evaluated arguments: a fresh scope whose
/// parent is the closure's defining scope, the parameters bound to the
/// arguments, the body run in it; a `Return` signal's value is the call's
/// result, a body that falls off the end yields nil.
#[verifier::opaque]
pub open spec fn call_fun_s(st: EvalState, f: FunModel, args: Seq<ValModel>, fuel: nat) -> (
    EvalState,
    Result<ValModel, RuntimeErrorModel>,
)
    decreases fuel, f, 2int,
{
    let frame = st.scopes.len() as int;
    let st1 = EvalState {
        scopes: st.scopes + seq![
            ScopeModel { parent: Some(f.closure), bindings: assoc(f.params, args) },
        ],
        ..st
    };
    let (st2, r) = exec_block_s(st1, frame, f.body, 0, fuel);
    match r {
        Ok(_) => (st2, Ok(ValModel::Nil)),
        Err(RuntimeErrorModel::Return(v)) => (st2, Ok(v)),
        Err(er) => (st2, Err(er)),
    }
}

/// The statements of a block (or function body) from index `i` on, run in
/// order.
#[verifier::opaque]
pub open spec fn exec_block_s(
    st: EvalState,
    scope: int,
    ss: Seq<StmtModel>,
    i: int,
    fuel: nat,
) -> (EvalState, Result<(), RuntimeErrorModel>)
    decreases fuel, ss, ss.len() - i,
{
    if 0 <= i < ss.len() {
        let (st1, r1) = exec_stmt_s(st, scope, ss[i], fuel);
        match r1 {
            Ok(_) => exec_block_s(st1, scope, ss, i + 1, fuel),
            Err(er) => (st1, Err(er)),
        }
    } else {
        (st, Ok(()))
    }
}

/// One statement's effect: the state after it and the value it yields
/// (only an expression statement yields one). The `Return` signal travels
/// as an error until a call frame catches it.
#[verifier::opaque]
pub open spec fn exec_stmt_s(st: EvalState, scope: int, s: StmtModel, fuel: nat) -> (
    EvalState,
    Result<Option<ValModel>, RuntimeErrorModel>,
)
    decreases fuel, s, 1int,
{
    match s {
        StmtModel::Expression { span, expression } => {
            let (st1, r1) = eval_expr_s(st, scope, expression, fuel);
            match r1 {
                Ok(v) => (st1, Ok(Some(v))),
                Err(er) => (st1, Err(er)),
            }
        },
        StmtModel::Print { span, expression } => {
            let (st1, r1) = eval_expr_s(st, scope, expression, fuel);
            match r1 {
                Ok(v) => (
                    EvalState { output: st1.output + seq![display_val(v)], ..st1 },
                    Ok(None),
                ),
                Err(er) => (st1, Err(er)),
            }
        },
        StmtModel::Var { span, name, expression } => {
            match expression {
                Some(e) => {
                    let (st1, r1) = eval_expr_s(st, scope, e, fuel);
                    match r1 {
                        Ok(v) => (define_s(st1, scope, name.lexeme, v), Ok(None)),
                        Err(er) => (st1, Err(er)),
                    }
                },
                None => (define_s(st, scope, name.lexeme, ValModel::Nil), Ok(None)),
            }
        },
        StmtModel::Block { span, statements } => {
            let frame = st.scopes.len() as int;
            let st1 = EvalState {
                scopes: st.scopes + seq![
                    ScopeModel { parent: Some(scope), bindings: Map::empty() },
                ],
                ..st
            };
            let (st2, r) = exec_block_s(st1, frame, statements, 0, fuel);
            match r {
                Ok(_) => (st2, Ok(None)),
                Err(er) => (st2, Err(er)),
            }
        },
        StmtModel::If { span, condition, then_branch, else_branch } => {
            let (st1, r1) = eval_expr_s(st, scope, condition, fuel);
            match r1 {
                Ok(c) => {
                    if truthy_val(c) {
                        exec_stmt_s(st1, scope, *then_branch, fuel)
                    } else {
                        match else_branch {
                            Some(eb) => exec_stmt_s(st1, scope, *eb, fuel),
                            None => (st1, Ok(None)),
                        }
                    }
                },
                Err(er) => (st1, Err(er)),
            }
        },
        StmtModel::While { span, condition, body } => exec_while_s(st, scope, s, fuel),
        StmtModel::Function { span, name, params, body } => {
            let f = ValModel::Fun(
                FunModel { name: name.lexeme, params: lexemes_of(params), body, closure: scope },
            );
            (define_s(st, scope, name.lexeme, f), Ok(None))
        },
        StmtModel::Return { span, keyword, value } => {
            let (st1, r1) = eval_expr_s(st, scope, value, fuel);
            match r1 {
                Ok(v) => (st1, Err(RuntimeErrorModel::Return(v))),
                Err(er) => (st1, Err(er)),
            }
        },
    }
}

/// A `while` statement: evaluate the condition; while truthy, run the
/// body, spending one unit of fuel per iteration. A `Return` signal (or
/// any error) from the body passes straight through: loops never catch
/// it.
pub open spec fn exec_while_s(st: EvalState, scope: int, s: StmtModel, fuel: nat) -> (
    EvalState,
    Result<Option<ValModel>, RuntimeErrorModel>,
)
    decreases fuel, s, 0int,
{
    match s {
        StmtModel::While { span, condition, body } => {
            let (st1, r1) = eval_expr_s(st, scope, condition, fuel);
            match r1 {
                Ok(c) => {
                    if !truthy_val(c) {
                        (st1, Ok(None))
                    } else {
                        let (st2, r2) = exec_stmt_s(st1, scope, *body, fuel);
                        match r2 {
                            Ok(_) => {
                                if fuel == 0 {
                                    (st2, Err(RuntimeErrorModel::Exhausted))
                                } else {
                                    exec_while_s(st2, scope, s, (fuel - 1) as nat)
                                }
                            },
                            Err(er) => (st2, Err(er)),
                        }
                    }
                },
                Err(er) => (st1, Err(er)),
            }
        },
        _ => (st, Ok(None)),
    }
}

/// Binding a name in a scope: the scope's map gains the binding; an
/// out-of-range scope index changes nothing (the executable evaluator
/// never passes one).
pub open spec fn define_s(st: EvalState, scope: int, name: Seq<char>, v: ValModel) -> EvalState {
    if 0 <= scope < st.scopes.len() {
        EvalState {
            scopes: st.scopes.update(
                scope,
                ScopeModel {
                    parent: st.scopes[scope].parent,
                    bindings: st.scopes[scope].bindings.insert(name, v),
                },
            ),
            ..st
        }
    } else {
        st
    }
}

/// The parameter names of a function declaration.
pub open spec fn lexemes_of(params: Seq<crate::tokens::TokenModel>) -> Seq<Seq<char>> {
    Seq::new(params.len(), |i: int| params[i].lexeme)
}

/// A whole program's effect: the statements in order; in interactive mode
/// the value of each top-level expression statement is printed.
#[verifier::opaque]
pub open spec fn run_s(
    st: EvalState,
    scope: int,
    prog: Seq<StmtModel>,
    i: int,
    fuel: nat,
    repl: bool,
) -> (EvalState, Result<(), RuntimeErrorModel>)
    decreases fuel, prog, prog.len() - i,
{
    if 0 <= i < prog.len() {
        let (st1, r1) = exec_stmt_s(st, scope, prog[i], fuel);
        match r1 {
            Ok(Some(v)) => {
                let st2 = if repl {
                    EvalState { output: st1.output + seq![display_val(v)], ..st1 }
                } else {
                    st1
                };
                run_s(st2, scope, prog, i + 1, fuel, repl)
            },
            Ok(None) => run_s(st1, scope, prog, i + 1, fuel, repl),
            Err(er) => (st1, Err(er)),
        }
    } else {
        (st, Ok(()))
    }
}

/// The images of the printed lines.
pub open spec fn texts(v: Seq<String>) -> Seq<Seq<char>> {
    Seq::new(v.len(), |i: int| v[i]@)
}

pub open spec fn val_res_model(r: Result<LitType, RuntimeError>) -> Result<
    ValModel,
    RuntimeErrorModel,
> {
    match r {
        Ok(v) => Ok(v@),
        Err(er) => Err(er@),
    }
}

pub open spec fn opt_res_model(r: Result<Option<LitType>, RuntimeError>) -> Result<
    Option<ValModel>,
    RuntimeErrorModel,
> {
    match r {
        Ok(Some(v)) => Ok(Some(v@)),
        Ok(None) => Ok(None),
        Err(er) => Err(er@),
    }
}

pub open spec fn unit_res_model(r: Result<(), RuntimeError>) -> Result<(), RuntimeErrorModel> {
    match r {
        Ok(_) => Ok(()),
        Err(er) => Err(er@),
    }
}

/// The interpreter: the scope arena (index 0 holds the globals), the
/// output buffer, the clock-reading queue, the token list of the last
/// scanned source (kept for diagnostics), and the interactive-mode flag.
pub struct Interpreter {
    pub env: Environment,
    pub output: Vec<String>,
    pub clocks: Vec<Option<u64>>,
    pub tokens: Vec<Token>,
    pub is_repl: bool,
}

impl Interpreter {
    /// The mathematical image of the evaluator's state.
    pub open spec fn st(&self) -> EvalState {
        EvalState { scopes: self.env@, output: texts(self.output@), clocks: self.clocks@ }
    }

    /// What every evaluating method preserves: a well-formed arena that
    /// only grows, and the untouched token list and mode flag.
    pub open spec fn frame_ok(pre: Interpreter, post: Interpreter) -> bool {
        &&& post.env.wf()
        &&& pre.env@.len() <= post.env@.len()
        &&& post.tokens@ == pre.tokens@
        &&& post.is_repl == pre.is_repl
    }
}

/// Truthiness of a value: only `nil` and `false` are falsy.
pub fn is_truthy(v: &LitType) -> (r: bool)
    ensures
        r == truthy_val(v@),
{
    match v {
        LitType::Nil => false,
        LitType::Bool(b) => *b,
        _ => true,
    }
}

/// The display form of a value, as `print` writes it.
pub fn print_lit(v: &LitType) -> (r: String)
    ensures
        r@ == display_val(v@),
{
    match v {
        LitType::Number(b) => num::display(*b),
        LitType::Str(s) => s.clone(),
        LitType::Bool(b) => {
            if *b {
                String::from_str("true")
            } else {
                String::from_str("false")
            }
        },
        LitType::Nil => String::from_str("nil"),
        LitType::Callable(LoxCallable::Clock) => String::from_str("<native fn>"),
        LitType::Callable(LoxCallable::Function(f)) => {
            let r = String::from_str("<fn ").concat(f.name.as_str()).concat(">");
            proof {
                reveal_with_fuel(crate::lit::lit_model, 2);
                assert(r@ =~= "<fn "@ + f.name@ + ">"@);
            }
            r
        },
    }
}

/// Applies a binary operator to two evaluated operands, exactly as
/// `binary_spec` says.
pub fn binary_expr(operator: &Token, l: &LitType, r: &LitType, span: Span) -> (res: Result<
    LitType,
    RuntimeError,
>)
    ensures
        val_res_model(res) == binary_spec(operator@.ty, l@, r@, span),
{
    match (l, r) {
        (LitType::Number(a), LitType::Number(b)) => {
            let op = operator.ty;
            if op == TokenType::Plus {
                Ok(LitType::Number(num::add(*a, *b)))
            } else if op == TokenType::Minus {
                Ok(LitType::Number(num::sub(*a, *b)))
            } else if op == TokenType::Star {
                Ok(LitType::Number(num::mul(*a, *b)))
            } else if op == TokenType::Slash {
                if num::cmp(*b, num::ZERO_BITS) == num::NumCmp::Equal {
                    Err(RuntimeError::DivideByZero { span })
                } else {
                    Ok(LitType::Number(num::div(*a, *b)))
                }
            } else if op == TokenType::Less {
                Ok(LitType::Bool(num::cmp(*a, *b) == num::NumCmp::Less))
            } else if op == TokenType::LessEqual {
                let c = num::cmp(*a, *b);
                Ok(LitType::Bool(c == num::NumCmp::Less || c == num::NumCmp::Equal))
            } else if op == TokenType::Greater {
                Ok(LitType::Bool(num::cmp(*a, *b) == num::NumCmp::Greater))
            } else if op == TokenType::GreaterEqual {
                let c = num::cmp(*a, *b);
                Ok(LitType::Bool(c == num::NumCmp::Greater || c == num::NumCmp::Equal))
            } else if op == TokenType::EqualEqual {
                Ok(LitType::Bool(num::cmp(*a, *b) == num::NumCmp::Equal))
            } else if op == TokenType::BangEqual {
                Ok(LitType::Bool(!(num::cmp(*a, *b) == num::NumCmp::Equal)))
            } else {
                Err(RuntimeError::InvalidNumerical { span })
            }
        },
        (LitType::Str(a), LitType::Str(b)) => {
            if operator.ty == TokenType::Plus {
                let joined = a.clone().concat(b.as_str());
                Ok(LitType::Str(joined))
            } else {
                Err(RuntimeError::InvalidStringConcat { span })
            }
        },
        _ => Err(RuntimeError::BinaryTypeMismatch { span }),
    }
}

/// Applies a unary operator to an evaluated operand, exactly as
/// `unary_spec` says.
pub fn unary_expr(operator: &Token, v: &LitType, span: Span) -> (res: Result<
    LitType,
    RuntimeError,
>)
    ensures
        val_res_model(res) == unary_spec(operator@.ty, v@, span),
{
    if operator.ty == TokenType::Minus {
        match v {
            LitType::Number(b) => Ok(LitType::Number(num::neg(*b))),
            _ => Err(RuntimeError::UnaryExpects { span }),
        }
    } else if operator.ty == TokenType::Bang {
        Ok(LitType::Bool(!is_truthy(v)))
    } else {
        Err(RuntimeError::InvalidUnary { span })
    }
}

impl Interpreter {
    /// Evaluates an expression against the chain starting at `scope`:
    /// exactly the value and state `eval_expr_s` gives.
    #[verifier::rlimit(100)]
    #[verifier::spinoff_prover]
    pub fn evaluate_expr(&mut self, scope: usize, e: &Expr, fuel: u64) -> (r: Result<
        LitType,
        RuntimeError,
    >)
        requires
            old(self).env.wf(),
            scope < old(self).env@.len(),
        ensures
            final(self).env.wf(),
            old(self).env@.len() <= final(self).env@.len(),
            final(self).tokens@ == old(self).tokens@,
            final(self).is_repl == old(self).is_repl,
            ({
                let (st2, res) = eval_expr_s(old(self).st(), scope as int, e@, fuel as nat);
                final(self).st() == st2 && val_res_model(r) == res
            }),
        decreases fuel, e, 1int,
    {
        reveal(eval_expr_s);
        match e {
            Expr::Literal { span, value } => {
                let v = match value {
                    Some(l) => l.clone(),
                    None => LitType::Nil,
                };
                proof {
                    reveal(eval_expr_s);
                    reveal_with_fuel(crate::expression::expr_model, 2);
                    assert(old(self).env@.len() <= self.env@.len());
                }
                Ok(v)
            },
            Expr::Grouping { span, expression } => {
                let r = self.evaluate_expr(scope, expression, fuel);
                proof {
                    reveal(eval_expr_s);
                    reveal_with_fuel(crate::expression::expr_model, 2);
                    assert(old(self).env@.len() <= self.env@.len());
                }
                r
            },
            Expr::Unary { span, operator, right } => {
                match self.evaluate_expr(scope, right, fuel) {
                    Ok(v) => {
                        let res = unary_expr(operator, &v, *span);
                        proof {
                            reveal(eval_expr_s);
                            reveal_with_fuel(crate::expression::expr_model, 2);
                        }
                        res
                    },
                    Err(er) => {
                        proof {
                            reveal(eval_expr_s);
                            reveal_with_fuel(crate::expression::expr_model, 2);
                        }
                        Err(er)
                    },
                }
            },
            Expr::Binary { span, left, operator, right } => {
                match self.evaluate_expr(scope, left, fuel) {
                    Ok(lv) => match self.evaluate_expr(scope, right, fuel) {
                        Ok(rv) => {
                            let res = binary_expr(operator, &lv, &rv, *span);
                            proof {
                                reveal(eval_expr_s);
                                reveal_with_fuel(crate::expression::expr_model, 2);
                                assert(old(self).env@.len() <= self.env@.len());
                            }
                            res
                        },
                        Err(er) => {
                            proof {
                                reveal(eval_expr_s);
                                reveal_with_fuel(crate::expression::expr_model, 2);
                                assert(old(self).env@.len() <= self.env@.len());
                            }
                            Err(er)
                        },
                    },
                    Err(er) => {
                        proof {
                            reveal(eval_expr_s);
                            reveal_with_fuel(crate::expression::expr_model, 2);
                        }
                        Err(er)
                    },
                }
            },
            Expr::Logical { span, left, operator, right } => {
                match self.evaluate_expr(scope, left, fuel) {
                    Ok(lv) => {
                        let keep_left = if operator.ty == TokenType::Or {
                            is_truthy(&lv)
                        } else {
                            !is_truthy(&lv)
                        };
                        if keep_left {
                            proof {
                                reveal(eval_expr_s);
                                reveal_with_fuel(crate::expression::expr_model, 2);
                                assert(old(self).env@.len() <= self.env@.len());
                            }
                            Ok(lv)
                        } else {
                            let r = self.evaluate_expr(scope, right, fuel);
                            proof {
                                reveal(eval_expr_s);
                                reveal_with_fuel(crate::expression::expr_model, 2);
                                assert(old(self).env@.len() <= self.env@.len());
                            }
                            r
                        }
                    },
                    Err(er) => {
                        proof {
                            reveal(eval_expr_s);
                            reveal_with_fuel(crate::expression::expr_model, 2);
                        }
                        Err(er)
                    },
                }
            },
            Expr::Variable { span, name } => {
                let r = match self.env.get(scope, &name.lexeme) {
                    Some(v) => Ok(v),
                    None => Err(
                        RuntimeError::UndefinedVariable { name: name.lexeme.clone(), span: *span },
                    ),
                };
                proof {
                    reveal(eval_expr_s);
                    reveal_with_fuel(crate::expression::expr_model, 2);
                    assert(old(self).env@.len() <= self.env@.len());
                }
                r
            },
            Expr::Assign { span, name, value } => {
                match self.evaluate_expr(scope, value, fuel) {
                    Ok(v) => {
                        let stored = v.clone();
                        if self.env.assign(scope, &name.lexeme, stored) {
                            proof {
                                reveal(eval_expr_s);
                                reveal_with_fuel(crate::expression::expr_model, 2);
                                assert(old(self).env@.len() <= self.env@.len());
                            }
                            Ok(v)
                        } else {
                            proof {
                                reveal(eval_expr_s);
                                reveal_with_fuel(crate::expression::expr_model, 2);
                                assert(old(self).env@.len() <= self.env@.len());
                            }
                            Err(
                                RuntimeError::UndefinedVariable {
                                    name: name.lexeme.clone(),
                                    span: *span,
                                },
                            )
                        }
                    },
                    Err(er) => {
                        proof {
                            reveal(eval_expr_s);
                            reveal_with_fuel(crate::expression::expr_model, 2);
                        }
                        Err(er)
                    },
                }
            },
            Expr::Call { .. } => {
                let r = self.call_expr(scope, e, fuel);
                proof {
                    reveal(eval_expr_s);
                    reveal_with_fuel(crate::expression::expr_model, 2);
                    assert(old(self).env@.len() <= self.env@.len());
                }
                r
            },
        }
    }

    /// Evaluates a call: the callee, then each argument left to right,
    /// then the invocation (arity checked, the clock drawing a queued
    /// reading, a user function running its body in a fresh frame).
    #[verifier::rlimit(100)]
    #[verifier::spinoff_prover]
    fn call_expr(&mut self, scope: usize, e: &Expr, fuel: u64) -> (r: Result<
        LitType,
        RuntimeError,
    >)
        requires
            old(self).env.wf(),
            scope < old(self).env@.len(),
            e is Call,
        ensures
            Interpreter::frame_ok(*old(self), *final(self)),
            ({
                let (st2, res) = eval_expr_s(old(self).st(), scope as int, e@, fuel as nat);
                final(self).st() == st2 && val_res_model(r) == res
            }),
        decreases fuel, e, 0int,
    {
        reveal(eval_expr_s);
        proof {
            reveal_with_fuel(crate::expression::expr_model, 2);
        }
        let (callee, arguments, span): (&Expr, &Vec<Expr>, Span) = match e {
            Expr::Call { span, callee, paren, arguments } => (&**callee, arguments, *span),
            _ => {
                return Err(RuntimeError::Exhausted);
            },
        };
        match self.evaluate_expr(scope, callee, fuel) {
            Ok(cv) => {
                let args0: Vec<LitType> = Vec::new();
                proof {
                    assert(lits_model(args0@) =~= Seq::<ValModel>::empty());
                }
                match self.eval_args(scope, arguments, 0, fuel, args0) {
                    Ok(vs) => {
                        match cv {
                            LitType::Callable(LoxCallable::Clock) => {
                                if vs.len() != 0 {
                                    proof {
                                        reveal(eval_expr_s);
                                    }
                                    Err(
                                        RuntimeError::IncorrectArgumentCount {
                                            expected: 0,
                                            got: vs.len(),
                                        },
                                    )
                                } else if self.clocks.len() == 0 {
                                    proof {
                                        reveal(eval_expr_s);
                                    }
                                    Err(RuntimeError::NativeFunctionError)
                                } else {
                                    let ghost pre_clocks = self.clocks@;
                                    let head = self.clocks.remove(0);
                                    proof {
                                        reveal(eval_expr_s);
                                        assert(self.clocks@ =~= pre_clocks.drop_first());
                                    }
                                    match head {
                                        Some(ms) => {
                                            let secs = num::div(
                                                num::from_int(ms),
                                                num::from_int(1000),
                                            );
                                            Ok(LitType::Number(secs))
                                        },
                                        None => Err(RuntimeError::NativeFunctionError),
                                    }
                                }
                            },
                            LitType::Callable(LoxCallable::Function(f)) => {
                                if vs.len() != f.params.len() {
                                    proof {
                                        reveal(eval_expr_s);
                                        reveal_with_fuel(crate::lit::lit_model, 2);
                                    }
                                    Err(
                                        RuntimeError::IncorrectArgumentCount {
                                            expected: f.params.len(),
                                            got: vs.len(),
                                        },
                                    )
                                } else if fuel == 0 {
                                    proof {
                                        reveal(eval_expr_s);
                                        reveal_with_fuel(crate::lit::lit_model, 2);
                                    }
                                    Err(RuntimeError::Exhausted)
                                } else {
                                    let r = self.call_function(f, vs, fuel - 1);
                                    proof {
                                        reveal(eval_expr_s);
                                        reveal_with_fuel(crate::lit::lit_model, 2);
                                    }
                                    r
                                }
                            },
                            _ => {
                                proof {
                                    reveal(eval_expr_s);
                                }
                                Err(RuntimeError::NotCallable { span })
                            },
                        }
                    },
                    Err(er) => {
                        proof {
                            reveal(eval_expr_s);
                        }
                        Err(er)
                    },
                }
            },
            Err(er) => {
                proof {
                    reveal(eval_expr_s);
                }
                Err(er)
            },
        }
    }

    /// Evaluates the arguments from index `i` on, left to right.
    #[verifier::rlimit(100)]
    #[verifier::spinoff_prover]
    fn eval_args(
        &mut self,
        scope: usize,
        es: &Vec<Expr>,
        i: usize,
        fuel: u64,
        acc: Vec<LitType>,
    ) -> (r: Result<Vec<LitType>, RuntimeError>)
        requires
            old(self).env.wf(),
            scope < old(self).env@.len(),
            i <= es@.len(),
        ensures
            Interpreter::frame_ok(*old(self), *final(self)),
            ({
                let (st2, res) = eval_args_s(
                    old(self).st(),
                    scope as int,
                    crate::expression::exprs_model(es@),
                    i as int,
                    fuel as nat,
                    lits_model(acc@),
                );
                final(self).st() == st2 && (match r {
                    Ok(vs) => res == Ok::<Seq<ValModel>, RuntimeErrorModel>(lits_model(vs@)),
                    Err(er) => res == Err::<Seq<ValModel>, RuntimeErrorModel>(er@),
                })
            }),
        decreases fuel, es@, es@.len() - i,
    {
        reveal(eval_args_s);
        proof {
            crate::expression::lemma_exprs_model(es@);
        }
        let mut acc = acc;
        if i < es.len() {
            match self.evaluate_expr(scope, &es[i], fuel) {
                Ok(v) => {
                    let ghost acc0 = acc@;
                    acc.push(v);
                    proof {
                        assert(lits_model(acc@) =~= lits_model(acc0) + seq![acc@.last()@]);
                    }
                    let r = self.eval_args(scope, es, i + 1, fuel, acc);
                    proof {
                        reveal(eval_args_s);
                    }
                    r
                },
                Err(er) => {
                    proof {
                        reveal(eval_args_s);
                    }
                    Err(er)
                },
            }
        } else {
            proof {
                reveal(eval_args_s);
            }
            Ok(acc)
        }
    }

    /// Invokes a user function on evaluated arguments: a fresh frame over
    /// the captured scope, the parameters bound in order, the body run in
    /// it; the `Return` signal's value (or nil) is the result.
    #[verifier::rlimit(100)]
    #[verifier::spinoff_prover]
    fn call_function(&mut self, f: LoxFunction, args: Vec<LitType>, fuel: u64) -> (r: Result<
        LitType,
        RuntimeError,
    >)
        requires
            old(self).env.wf(),
            f.params@.len() == args@.len(),
        ensures
            Interpreter::frame_ok(*old(self), *final(self)),
            ({
                let (st2, res) = call_fun_s(old(self).st(), fun_model(f), lits_model(args@), fuel as nat);
                final(self).st() == st2 && val_res_model(r) == res
            }),
        decreases fuel, f, 2int,
    {
        reveal(call_fun_s);
        let frame = self.env.push_scope(f.closure);
        let ghost pushed = self.env@;
        let n = f.params.len();
        let mut k: usize = 0;
        while k < n
            invariant
                self.env.wf(),
                n == f.params@.len(),
                n == args@.len(),
                k <= n,
                frame == pushed.len() - 1,
                frame < self.env@.len(),
                self.env@.len() == pushed.len(),
                self.output@ == old(self).output@,
                self.clocks@ == old(self).clocks@,
                self.tokens@ == old(self).tokens@,
                self.is_repl == old(self).is_repl,
                pushed =~= old(self).env@ + seq![
                    ScopeModel { parent: Some(f.closure as int), bindings: Map::empty() },
                ],
                self.env@ =~= pushed.update(
                    frame as int,
                    ScopeModel {
                        parent: Some(f.closure as int),
                        bindings: assoc(
                            fun_model(f).params.take(k as int),
                            lits_model(args@).take(k as int),
                        ),
                    },
                ),
            decreases n - k,
        {
            let name = f.params[k].clone();
            let v = args[k].clone();
            self.env.define(frame, name, v);
            proof {
                let ps = fun_model(f).params;
                let vs = lits_model(args@);
                assert(ps.take(k + 1).take(k as int) =~= ps.take(k as int));
                assert(vs.take(k + 1).take(k as int) =~= vs.take(k as int));
                assert(ps.take(k + 1)[k as int] == ps[k as int]);
                assert(vs.take(k + 1)[k as int] == vs[k as int]);
                assert(self.env@ =~= pushed.update(
                    frame as int,
                    ScopeModel {
                        parent: Some(f.closure as int),
                        bindings: assoc(ps.take(k + 1), vs.take(k + 1)),
                    },
                ));
            }
            k = k + 1;
        }
        proof {
            assert(fun_model(f).params.take(n as int) =~= fun_model(f).params);
            assert(lits_model(args@).take(n as int) =~= lits_model(args@));
            assert(self.env@ =~= old(self).env@ + seq![
                ScopeModel {
                    parent: Some(f.closure as int),
                    bindings: assoc(fun_model(f).params, lits_model(args@)),
                },
            ]);
        }
        let r = self.exec_stmts(frame, &f.body, 0, fuel);
        proof {
            reveal(call_fun_s);
        }
        match r {
            Ok(_) => Ok(LitType::Nil),
            Err(RuntimeError::Return(v)) => Ok(v),
            Err(er) => Err(er),
        }
    }

    /// Runs a block's statements in a fresh scope whose parent is
    /// `scope`: the caller's scope is untouched on every exit path, since
    /// evaluation after the block continues at the caller's own index.
    #[verifier::rlimit(100)]
    #[verifier::spinoff_prover]
    pub fn block_statement(&mut self, scope: usize, statements: &Vec<Statement>, fuel: u64) -> (r:
        Result<Option<LitType>, RuntimeError>)
        requires
            old(self).env.wf(),
            scope < old(self).env@.len(),
        ensures
            Interpreter::frame_ok(*old(self), *final(self)),
            ({
                let frame = old(self).st().scopes.len() as int;
                let entered = EvalState {
                    scopes: old(self).st().scopes + seq![
                        ScopeModel { parent: Some(scope as int), bindings: Map::empty() },
                    ],
                    ..old(self).st()
                };
                let (st2, res) = exec_block_s(
                    entered,
                    frame,
                    stmts_model(statements@),
                    0,
                    fuel as nat,
                );
                final(self).st() == st2 && (match r {
                    Ok(v) => v is None && res == Ok::<(), RuntimeErrorModel>(()),
                    Err(er) => res == Err::<(), RuntimeErrorModel>(er@),
                })
            }),
        decreases fuel, statements@, statements@.len() + 1,
    {
        let frame = self.env.push_scope(scope);
        let r = self.exec_stmts(frame, statements, 0, fuel);
        match r {
            Ok(_) => Ok(None),
            Err(er) => Err(er),
        }
    }

    /// Runs the statements of a block or function body from index `i` on.
    #[verifier::rlimit(100)]
    #[verifier::spinoff_prover]
    fn exec_stmts(&mut self, scope: usize, ss: &Vec<Statement>, i: usize, fuel: u64) -> (r: Result<
        (),
        RuntimeError,
    >)
        requires
            old(self).env.wf(),
            scope < old(self).env@.len(),
            i <= ss@.len(),
        ensures
            Interpreter::frame_ok(*old(self), *final(self)),
            ({
                let (st2, res) = exec_block_s(
                    old(self).st(),
                    scope as int,
                    stmts_model(ss@),
                    i as int,
                    fuel as nat,
                );
                final(self).st() == st2 && unit_res_model(r) == res
            }),
        decreases fuel, ss@, ss@.len() - i,
    {
        reveal(exec_block_s);
        proof {
            lemma_stmts_model(ss@);
        }
        if i < ss.len() {
            match self.evaluate_statement(scope, &ss[i], fuel) {
                Ok(_) => {
                    let r = self.exec_stmts(scope, ss, i + 1, fuel);
                    proof {
                        reveal(exec_block_s);
                    }
                    r
                },
                Err(er) => {
                    proof {
                        reveal(exec_block_s);
                    }
                    Err(er)
                },
            }
        } else {
            Ok(())
        }
    }

    /// Runs one statement in the chain starting at `scope`: exactly the
    /// state and yield `exec_stmt_s` gives.
    #[verifier::rlimit(100)]
    #[verifier::spinoff_prover]
    pub fn evaluate_statement(&mut self, scope: usize, s: &Statement, fuel: u64) -> (r: Result<
        Option<LitType>,
        RuntimeError,
    >)
        requires
            old(self).env.wf(),
            scope < old(self).env@.len(),
        ensures
            Interpreter::frame_ok(*old(self), *final(self)),
            ({
                let (st2, res) = exec_stmt_s(old(self).st(), scope as int, s@, fuel as nat);
                final(self).st() == st2 && opt_res_model(r) == res
            }),
        decreases fuel, s, 1int,
    {
        reveal(exec_stmt_s);
        match s {
            Statement::Expression { span, expression } => {
                let r = self.evaluate_expr(scope, expression, fuel);
                proof {
                    reveal(exec_stmt_s);
                    reveal_with_fuel(crate::statement::stmt_model, 2);
                }
                match r {
                    Ok(v) => Ok(Some(v)),
                    Err(er) => Err(er),
                }
            },
            Statement::Print { span, expression } => {
                match self.evaluate_expr(scope, expression, fuel) {
                    Ok(v) => {
                        let line = print_lit(&v);
                        let ghost out0 = self.output@;
                        self.output.push(line);
                        proof {
                            reveal(exec_stmt_s);
                            reveal_with_fuel(crate::statement::stmt_model, 2);
                            assert(texts(self.output@) =~= texts(out0) + seq![
                                self.output@.last()@,
                            ]);
                        }
                        Ok(None)
                    },
                    Err(er) => {
                        proof {
                            reveal(exec_stmt_s);
                            reveal_with_fuel(crate::statement::stmt_model, 2);
                        }
                        Err(er)
                    },
                }
            },
            Statement::Var { span, name, expression } => {
                let v = match expression {
                    Some(e) => match self.evaluate_expr(scope, e, fuel) {
                        Ok(v) => v,
                        Err(er) => {
                            proof {
                                reveal(exec_stmt_s);
                                reveal_with_fuel(crate::statement::stmt_model, 2);
                            }
                            return Err(er);
                        },
                    },
                    None => LitType::Nil,
                };
                self.env.define(scope, name.lexeme.clone(), v);
                proof {
                    reveal(exec_stmt_s);
                    reveal_with_fuel(crate::statement::stmt_model, 2);
                }
                Ok(None)
            },
            Statement::Block { span, statements } => {
                let r = self.block_statement(scope, statements, fuel);
                proof {
                    reveal(exec_stmt_s);
                    reveal_with_fuel(crate::statement::stmt_model, 2);
                }
                r
            },
            Statement::If { span, condition, then_branch, else_branch } => {
                match self.evaluate_expr(scope, condition, fuel) {
                    Ok(c) => {
                        if is_truthy(&c) {
                            let r = self.evaluate_statement(scope, then_branch, fuel);
                            proof {
                                reveal(exec_stmt_s);
                                reveal_with_fuel(crate::statement::stmt_model, 2);
                            }
                            r
                        } else {
                            match else_branch {
                                Some(eb) => {
                                    let r = self.evaluate_statement(scope, eb, fuel);
                                    proof {
                                        reveal(exec_stmt_s);
                                        reveal_with_fuel(crate::statement::stmt_model, 2);
                                    }
                                    r
                                },
                                None => {
                                    proof {
                                        reveal(exec_stmt_s);
                                        reveal_with_fuel(crate::statement::stmt_model, 2);
                                    }
                                    Ok(None)
                                },
                            }
                        }
                    },
                    Err(er) => {
                        proof {
                            reveal(exec_stmt_s);
                            reveal_with_fuel(crate::statement::stmt_model, 2);
                        }
                        Err(er)
                    },
                }
            },
            Statement::While { .. } => {
                let r = self.while_statement(scope, s, fuel);
                proof {
                    reveal(exec_stmt_s);
                }
                r
            },
            Statement::Function { span, name, params, body } => {
                let mut param_names: Vec<String> = Vec::new();
                let np = params.len();
                let mut k: usize = 0;
                while k < np
                    invariant
                        np == params@.len(),
                        k <= np,
                        param_names@.len() == k,
                        forall|j: int| 0 <= j < k ==> (#[trigger] param_names@[j])@
                            == params@[j]@.lexeme,
                    decreases np - k,
                {
                    param_names.push(params[k].lexeme.clone());
                    k = k + 1;
                }
                let func = LoxFunction {
                    name: name.lexeme.clone(),
                    params: param_names,
                    body: crate::statement::clone_stmts(body),
                    closure: scope,
                };
                proof {
                    reveal(exec_stmt_s);
                    reveal_with_fuel(crate::statement::stmt_model, 2);
                    reveal_with_fuel(crate::lit::lit_model, 2);
                    assert(fun_model(func).params =~= lexemes_of(
                        Seq::new(params@.len(), |j: int| params@[j]@),
                    ));
                }
                self.env.define(
                    scope,
                    name.lexeme.clone(),
                    LitType::Callable(LoxCallable::Function(func)),
                );
                Ok(None)
            },
            Statement::Return { span, keyword, value } => {
                let r = self.evaluate_expr(scope, value, fuel);
                proof {
                    reveal(exec_stmt_s);
                    reveal_with_fuel(crate::statement::stmt_model, 2);
                }
                match r {
                    Ok(v) => Err(RuntimeError::Return(v)),
                    Err(er) => Err(er),
                }
            },
        }
    }

    /// Runs a `while` statement, spending one unit of fuel per iteration;
    /// a `Return` signal from the body passes straight through.
    #[verifier::rlimit(100)]
    #[verifier::spinoff_prover]
    fn while_statement(&mut self, scope: usize, s: &Statement, fuel: u64) -> (r: Result<
        Option<LitType>,
        RuntimeError,
    >)
        requires
            old(self).env.wf(),
            scope < old(self).env@.len(),
            s is While,
        ensures
            Interpreter::frame_ok(*old(self), *final(self)),
            ({
                let (st2, res) = exec_while_s(old(self).st(), scope as int, s@, fuel as nat);
                final(self).st() == st2 && opt_res_model(r) == res
            }),
        decreases fuel, s, 0int,
    {
        match s {
            Statement::While { span, condition, body } => {
                match self.evaluate_expr(scope, condition, fuel) {
                    Ok(c) => {
                        if !is_truthy(&c) {
                            proof {
                                reveal_with_fuel(crate::statement::stmt_model, 2);
                            }
                            Ok(None)
                        } else {
                            match self.evaluate_statement(scope, body, fuel) {
                                Ok(_) => {
                                    if fuel == 0 {
                                        proof {
                                            reveal_with_fuel(crate::statement::stmt_model, 2);
                                        }
                                        Err(RuntimeError::Exhausted)
                                    } else {
                                        let r = self.while_statement(scope, s, fuel - 1);
                                        proof {
                                            reveal_with_fuel(crate::statement::stmt_model, 2);
                                        }
                                        r
                                    }
                                },
                                Err(er) => {
                                    proof {
                                        reveal(exec_while_s);
                                        reveal_with_fuel(crate::statement::stmt_model, 2);
                                    }
                                    Err(er)
                                },
                            }
                        }
                    },
                    Err(er) => {
                        proof {
                            reveal_with_fuel(crate::statement::stmt_model, 2);
                        }
                        Err(er)
                    },
                }
            },
            _ => {
                Ok(None)
            },
        }
    }
}

/// The images of a value list, element for element.
pub open spec fn lits_model(s: Seq<LitType>) -> Seq<ValModel> {
    Seq::new(s.len(), |i: int| s[i]@)
}

impl Interpreter {
    /// A fresh interpreter: one global scope holding only the native
    /// `clock`, an empty output buffer, an empty clock queue, file mode.
    pub fn build() -> (it: Interpreter)
        ensures
            it.env.wf(),
            it.st() == (EvalState {
                scopes: seq![
                    ScopeModel {
                        parent: None,
                        bindings: Map::empty().insert("clock"@, ValModel::Clock),
                    },
                ],
                output: Seq::empty(),
                clocks: Seq::empty(),
            }),
            !it.is_repl,
            it.tokens@ == Seq::<Token>::empty(),
    {
        let mut env = Environment::new();
        env.define(0, String::from_str("clock"), LitType::Callable(LoxCallable::Clock));
        let it = Interpreter {
            env,
            output: Vec::new(),
            clocks: Vec::new(),
            tokens: Vec::new(),
            is_repl: false,
        };
        proof {
            reveal_with_fuel(crate::lit::lit_model, 2);
            assert(texts(it.output@) =~= Seq::<Seq<char>>::empty());
            assert(it.st().scopes =~= seq![
                ScopeModel {
                    parent: None,
                    bindings: Map::empty().insert("clock"@, ValModel::Clock),
                },
            ]);
            assert(it.st() =~= (EvalState {
                scopes: seq![
                    ScopeModel {
                        parent: None,
                        bindings: Map::empty().insert("clock"@, ValModel::Clock),
                    },
                ],
                output: Seq::empty(),
                clocks: Seq::empty(),
            }));
        }
        it
    }

    /// The diagnostic snippet a span denotes against the tokens of the
    /// last scanned source.
    pub fn get_span(&self, span: Span) -> (r: String)
        ensures
            r@ == crate::span::span_render(span, tokens_model(self.tokens@)),
    {
        crate::span::SpanParser::parse(span, &self.tokens)
    }

    /// Queues one clock reading (milliseconds since the Unix epoch, or
    /// `None` for a failed read) for the native `clock` to draw.
    pub fn provide_clock_reading(&mut self, reading: Option<u64>)
        ensures
            final(self).clocks@ == old(self).clocks@.push(reading),
            final(self).env == old(self).env,
            final(self).output == old(self).output,
            final(self).tokens == old(self).tokens,
            final(self).is_repl == old(self).is_repl,
    {
        self.clocks.push(reading);
    }

    /// Runs the top-level statements from index `i` on against the global
    /// scope; in interactive mode each expression statement's value is
    /// printed.
    #[verifier::rlimit(100)]
    #[verifier::spinoff_prover]
    fn run_stmts(&mut self, scope: usize, prog: &Vec<Statement>, i: usize, fuel: u64) -> (r:
        Result<(), RuntimeError>)
        requires
            old(self).env.wf(),
            scope < old(self).env@.len(),
            i <= prog@.len(),
        ensures
            Interpreter::frame_ok(*old(self), *final(self)),
            ({
                let (st2, res) = run_s(
                    old(self).st(),
                    scope as int,
                    stmts_model(prog@),
                    i as int,
                    fuel as nat,
                    old(self).is_repl,
                );
                final(self).st() == st2 && unit_res_model(r) == res
            }),
        decreases fuel, prog@, prog@.len() - i,
    {
        reveal(run_s);
        proof {
            lemma_stmts_model(prog@);
        }
        if i < prog.len() {
            match self.evaluate_statement(scope, &prog[i], fuel) {
                Ok(Some(v)) => {
                    if self.is_repl {
                        let line = print_lit(&v);
                        let ghost out0 = self.output@;
                        self.output.push(line);
                        proof {
                            assert(texts(self.output@) =~= texts(out0) + seq![
                                self.output@.last()@,
                            ]);
                        }
                    }
                    let r = self.run_stmts(scope, prog, i + 1, fuel);
                    proof {
                        reveal(run_s);
                    }
                    r
                },
                Ok(None) => {
                    let r = self.run_stmts(scope, prog, i + 1, fuel);
                    proof {
                        reveal(run_s);
                    }
                    r
                },
                Err(er) => {
                    proof {
                        reveal(run_s);
                    }
                    Err(er)
                },
            }
        } else {
            Ok(())
        }
    }

    /// Runs one unit of source against the persistent globals: scan,
    /// parse, then execute every statement in order, with `fuel` bounding
    /// calls and loop iterations. The scanned tokens are kept for
    /// diagnostics; on a scanning error they are cleared.
    #[verifier::rlimit(100)]
    #[verifier::spinoff_prover]
    pub fn run(&mut self, contents: String, fuel: u64) -> (r: Result<(), LoxError>)
        requires
            old(self).env.wf(),
            0 < old(self).env@.len(),
        ensures
            final(self).env.wf(),
            final(self).is_repl == old(self).is_repl,
            ({
                match scan(contents@) {
                    Ok(toks) => {
                        &&& tokens_model(final(self).tokens@) == toks
                        &&& match parse_program(toks) {
                            Ok(prog) => {
                                let (st2, res) = run_s(
                                    old(self).st(),
                                    0,
                                    prog,
                                    0,
                                    fuel as nat,
                                    old(self).is_repl,
                                );
                                final(self).st() == st2 && (match r {
                                    Ok(_) => res == Ok::<(), RuntimeErrorModel>(()),
                                    Err(le) => match le {
                                        LoxError::Runtime(re) => res == Err::<
                                            (),
                                            RuntimeErrorModel,
                                        >(re@),
                                        _ => false,
                                    },
                                })
                            },
                            Err(pe) => final(self).st() == old(self).st() && (match r {
                                Err(le) => le@ == LoxErrorModel::Parse(pe),
                                Ok(_) => false,
                            }),
                        }
                    },
                    Err(se) => final(self).st() == old(self).st() && final(self).tokens@
                        == Seq::<Token>::empty() && (match r {
                        Err(le) => le@ == LoxErrorModel::Scan(se),
                        Ok(_) => false,
                    }),
                }
            }),
    {
        let mut scanner = Scanner::build(contents);
        let toks = match scanner.scan_tokens() {
            Ok(ts) => ts,
            Err(se) => {
                self.tokens = Vec::new();
                return Err(LoxError::Scan(se));
            },
        };
        let parser = Parser::new(toks);
        let prog = match parser.parse() {
            Ok(p) => p,
            Err(pe) => {
                self.tokens = parser.tokens;
                return Err(LoxError::Parse(pe));
            },
        };
        self.tokens = parser.tokens;
        match self.run_stmts(0, &prog, 0, fuel) {
            Ok(_) => Ok(()),
            Err(re) => Err(LoxError::Runtime(re)),
        }
    }
}

} // verus!
