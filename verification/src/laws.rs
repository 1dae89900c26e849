//! The language's laws, proved of the mathematical scanner, parser and
//! evaluator that the executable pipeline is verified against.
use vstd::prelude::*;
use crate::environment::{ScopeModel, lookup};
use crate::error_handler::RuntimeErrorModel;
use crate::expression::ExprModel;
use crate::interpreter::{
    EvalState, binary_spec, call_fun_s, define_s, eval_args_s, eval_expr_s, exec_block_s,
    exec_stmt_s, exec_while_s, truthy_val,
};
use crate::lit::{FunModel, ValModel};
use crate::num;
use crate::parser::parse_program;
use crate::scanner::scan;
use crate::span::Span;
use crate::statement::StmtModel;
use crate::tokens::{TokenModel, TokenType};

verus! {

/// Scanning and parsing are deterministic: both are functions of the
/// source text alone, and the executable scanner and parser are proved to
/// return exactly their values, so two runs over equal sources end alike.
pub proof fn lemma_pipeline_deterministic(s1: Seq<char>, s2: Seq<char>)
    requires
        s1 == s2,
    ensures
        scan(s1) == scan(s2),
        scan(s1) matches Ok(toks) ==> parse_program(toks) == parse_program(
            match scan(s2) {
                Ok(t) => t,
                Err(_) => Seq::empty(),
            },
        ),
{
}

/// Arithmetic on two numbers yields the IEEE-754 binary32 result of the
/// operation, as named by the trusted bridge; division fails exactly on a
/// right operand equal to zero.
pub proof fn lemma_arithmetic_is_ieee(a: u32, b: u32, span: Span)
    ensures
        binary_spec(TokenType::Plus, ValModel::Number(a), ValModel::Number(b), span) == Ok::<
            ValModel,
            RuntimeErrorModel,
        >(ValModel::Number(num::num_add(a, b))),
        binary_spec(TokenType::Minus, ValModel::Number(a), ValModel::Number(b), span) == Ok::<
            ValModel,
            RuntimeErrorModel,
        >(ValModel::Number(num::num_sub(a, b))),
        binary_spec(TokenType::Star, ValModel::Number(a), ValModel::Number(b), span) == Ok::<
            ValModel,
            RuntimeErrorModel,
        >(ValModel::Number(num::num_mul(a, b))),
        num::num_cmp(b, num::ZERO_BITS) != num::NumCmp::Equal ==> binary_spec(
            TokenType::Slash,
            ValModel::Number(a),
            ValModel::Number(b),
            span,
        ) == Ok::<ValModel, RuntimeErrorModel>(ValModel::Number(num::num_div(a, b))),
        num::num_cmp(b, num::ZERO_BITS) == num::NumCmp::Equal ==> binary_spec(
            TokenType::Slash,
            ValModel::Number(a),
            ValModel::Number(b),
            span,
        ) == Err::<ValModel, RuntimeErrorModel>(RuntimeErrorModel::DivideByZero { span }),
        binary_spec(TokenType::EqualEqual, ValModel::Number(a), ValModel::Number(b), span) == Ok::<
            ValModel,
            RuntimeErrorModel,
        >(ValModel::Bool(num::num_cmp(a, b) == num::NumCmp::Equal)),
        binary_spec(TokenType::BangEqual, ValModel::Number(a), ValModel::Number(b), span) == Ok::<
            ValModel,
            RuntimeErrorModel,
        >(ValModel::Bool(!(num::num_cmp(a, b) == num::NumCmp::Equal))),
{
}

/// Evaluating an identifier bound in no enclosing scope raises
/// `UndefinedVariable`, and changes nothing.
pub proof fn lemma_unbound_variable(
    st: EvalState,
    scope: int,
    span: Span,
    name: TokenModel,
    fuel: nat,
)
    requires
        lookup(st.scopes, scope, name.lexeme) is None,
    ensures
        eval_expr_s(st, scope, ExprModel::Variable { span, name }, fuel) == (
            st,
            Err::<ValModel, RuntimeErrorModel>(
                RuntimeErrorModel::UndefinedVariable { name: name.lexeme, span },
            ),
        ),
{
    reveal(eval_expr_s);
}

/// After a definition, reading the name in the same scope yields the
/// defined value (until an assignment overwrites the binding or an inner
/// definition shadows it: exactly the `Assign` case of `eval_expr_s` and
/// `define_s` change what `lookup` returns).
pub proof fn lemma_define_then_read(
    st: EvalState,
    scope: int,
    span: Span,
    name: TokenModel,
    v: ValModel,
    fuel: nat,
)
    requires
        0 <= scope < st.scopes.len(),
    ensures
        ({
            let st1 = define_s(st, scope, name.lexeme, v);
            eval_expr_s(st1, scope, ExprModel::Variable { span, name }, fuel) == (
                st1,
                Ok::<ValModel, RuntimeErrorModel>(v),
            )
        }),
{
    reveal(eval_expr_s);
}

/// Scopes on the parent chain below a common prefix are untouched by
/// growing the arena: a lookup that starts inside the prefix sees only
/// the prefix.
pub proof fn lemma_lookup_prefix(s1: Seq<ScopeModel>, s2: Seq<ScopeModel>, s: int, name: Seq<char>)
    requires
        s1.len() <= s2.len(),
        forall|k: int| 0 <= k < s1.len() ==> s2[k] == s1[k],
        0 <= s < s1.len(),
    ensures
        lookup(s2, s, name) == lookup(s1, s, name),
    decreases s,
{
    if !s1[s].bindings.contains_key(name) {
        match s1[s].parent {
            Some(p) => {
                if 0 <= p < s {
                    lemma_lookup_prefix(s1, s2, p, name);
                }
            },
            None => {},
        }
    }
}

/// Block scoping: defining a name in a fresh block scope shadows it there
/// while the outer scope's view of the name is unchanged, and leaving the
/// block (evaluation continues at the outer index) restores it.
pub proof fn lemma_block_scoping(
    st: EvalState,
    scope: int,
    span: Span,
    name: TokenModel,
    v2: ValModel,
    fuel: nat,
)
    requires
        0 <= scope < st.scopes.len(),
    ensures
        ({
            let child = st.scopes.len() as int;
            let entered = EvalState {
                scopes: st.scopes + seq![
                    ScopeModel { parent: Some(scope), bindings: Map::empty() },
                ],
                ..st
            };
            let shadowed = define_s(entered, child, name.lexeme, v2);
            &&& eval_expr_s(shadowed, child, ExprModel::Variable { span, name }, fuel) == (
                shadowed,
                Ok::<ValModel, RuntimeErrorModel>(v2),
            )
            &&& lookup(shadowed.scopes, scope, name.lexeme) == lookup(
                st.scopes,
                scope,
                name.lexeme,
            )
        }),
{
    reveal(eval_expr_s);
    let child = st.scopes.len() as int;
    let entered = EvalState {
        scopes: st.scopes + seq![ScopeModel { parent: Some(scope), bindings: Map::empty() }],
        ..st
    };
    let shadowed = define_s(entered, child, name.lexeme, v2);
    lemma_lookup_prefix(st.scopes, shadowed.scopes, scope, name.lexeme);
}

/// `or` does not evaluate its right operand when the left is truthy: the
/// outcome equals the left operand's evaluation, whatever stands on the
/// right.
pub proof fn lemma_or_short_circuit(
    st: EvalState,
    scope: int,
    span: Span,
    left: ExprModel,
    operator: TokenModel,
    right: ExprModel,
    fuel: nat,
)
    requires
        operator.ty == TokenType::Or,
        eval_expr_s(st, scope, left, fuel).1 matches Ok(v) && truthy_val(v),
    ensures
        eval_expr_s(
            st,
            scope,
            ExprModel::Logical {
                span,
                left: Box::new(left),
                operator,
                right: Box::new(right),
            },
            fuel,
        ) == eval_expr_s(st, scope, left, fuel),
{
    reveal(eval_expr_s);
}

/// `and` does not evaluate its right operand when the left is falsy.
pub proof fn lemma_and_short_circuit(
    st: EvalState,
    scope: int,
    span: Span,
    left: ExprModel,
    operator: TokenModel,
    right: ExprModel,
    fuel: nat,
)
    requires
        operator.ty == TokenType::And,
        eval_expr_s(st, scope, left, fuel).1 matches Ok(v) && !truthy_val(v),
    ensures
        eval_expr_s(
            st,
            scope,
            ExprModel::Logical {
                span,
                left: Box::new(left),
                operator,
                right: Box::new(right),
            },
            fuel,
        ) == eval_expr_s(st, scope, left, fuel),
{
    reveal(eval_expr_s);
}

/// A `Return` signal raised in a loop body passes straight through the
/// loop: `while` never catches it.
pub proof fn lemma_return_passes_loop(
    st: EvalState,
    scope: int,
    s: StmtModel,
    v: ValModel,
    fuel: nat,
)
    requires
        s is While,
        eval_expr_s(st, scope, s->While_condition, fuel).1 matches Ok(c) && truthy_val(c),
        ({
            let st1 = eval_expr_s(st, scope, s->While_condition, fuel).0;
            exec_stmt_s(st1, scope, *s->While_body, fuel).1 == Err::<
                Option<ValModel>,
                RuntimeErrorModel,
            >(RuntimeErrorModel::Return(v))
        }),
    ensures
        ({
            let st1 = eval_expr_s(st, scope, s->While_condition, fuel).0;
            let st2 = exec_stmt_s(st1, scope, *s->While_body, fuel).0;
            exec_while_s(st, scope, s, fuel) == (
                st2,
                Err::<Option<ValModel>, RuntimeErrorModel>(RuntimeErrorModel::Return(v)),
            )
        }),
{
    reveal(eval_expr_s);
    reveal(eval_args_s);
    reveal(call_fun_s);
    reveal(exec_block_s);
    reveal(exec_stmt_s);
}

/// The function-call frame catches the `Return` signal: its value is the
/// call's result, and it travels no further.
pub proof fn lemma_return_caught_by_call(
    st: EvalState,
    f: FunModel,
    args: Seq<ValModel>,
    v: ValModel,
    fuel: nat,
)
    requires
        ({
            let frame = st.scopes.len() as int;
            let entered = EvalState {
                scopes: st.scopes + seq![
                    ScopeModel {
                        parent: Some(f.closure),
                        bindings: crate::environment::assoc(f.params, args),
                    },
                ],
                ..st
            };
            exec_block_s(entered, frame, f.body, 0, fuel).1 == Err::<(), RuntimeErrorModel>(
                RuntimeErrorModel::Return(v),
            )
        }),
    ensures
        call_fun_s(st, f, args, fuel).1 == Ok::<ValModel, RuntimeErrorModel>(v),
{
    reveal(eval_expr_s);
    reveal(eval_args_s);
    reveal(call_fun_s);
    reveal(exec_block_s);
    reveal(exec_stmt_s);
}

/// Calling a user function with the wrong number of arguments raises
/// `IncorrectArgumentCount` carrying the expected and actual counts.
pub proof fn lemma_arity_enforced(
    st: EvalState,
    scope: int,
    span: Span,
    callee: ExprModel,
    paren: TokenModel,
    arguments: Seq<ExprModel>,
    f: FunModel,
    vs: Seq<ValModel>,
    fuel: nat,
)
    requires
        eval_expr_s(st, scope, callee, fuel).1 == Ok::<ValModel, RuntimeErrorModel>(
            ValModel::Fun(f),
        ),
        ({
            let st1 = eval_expr_s(st, scope, callee, fuel).0;
            eval_args_s(st1, scope, arguments, 0, fuel, Seq::empty()).1 == Ok::<
                Seq<ValModel>,
                RuntimeErrorModel,
            >(vs)
        }),
        vs.len() != f.params.len(),
    ensures
        ({
            let st1 = eval_expr_s(st, scope, callee, fuel).0;
            let st2 = eval_args_s(st1, scope, arguments, 0, fuel, Seq::empty()).0;
            eval_expr_s(
                st,
                scope,
                ExprModel::Call { span, callee: Box::new(callee), paren, arguments },
                fuel,
            ) == (
                st2,
                Err::<ValModel, RuntimeErrorModel>(
                    RuntimeErrorModel::IncorrectArgumentCount {
                        expected: f.params.len(),
                        got: vs.len(),
                    },
                ),
            )
        }),
{
    reveal(eval_expr_s);
    reveal(eval_args_s);
    reveal(call_fun_s);
    reveal(exec_block_s);
    reveal(exec_stmt_s);
}

} // verus!
