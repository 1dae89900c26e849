//! Statement nodes of the abstract syntax tree, with their mathematical
//! image used by the parser and evaluator contracts.
use vstd::prelude::*;
use crate::expression::{Expr, ExprModel, expr_model};
use crate::span::Span;
use crate::tokens::{Token, TokenModel};

verus! {

/// A statement node. Every node carries the source span of the tokens it
/// was parsed from.
pub enum Statement {
    Expression { span: Span, expression: Expr },
    Print { span: Span, expression: Expr },
    Var { span: Span, name: Token, expression: Option<Expr> },
    Block { span: Span, statements: Vec<Statement> },
    If { span: Span, condition: Expr, then_branch: Box<Statement>, else_branch: Option<Box<Statement>> },
    While { span: Span, condition: Expr, body: Box<Statement> },
    Function { span: Span, name: Token, params: Vec<Token>, body: Vec<Statement> },
    Return { span: Span, keyword: Token, value: Expr },
}

/// Mathematical image of a statement node.
pub ghost enum StmtModel {
    Expression { span: Span, expression: ExprModel },
    Print { span: Span, expression: ExprModel },
    Var { span: Span, name: TokenModel, expression: Option<ExprModel> },
    Block { span: Span, statements: Seq<StmtModel> },
    If { span: Span, condition: ExprModel, then_branch: Box<StmtModel>, else_branch: Option<Box<StmtModel>> },
    While { span: Span, condition: ExprModel, body: Box<StmtModel> },
    Function { span: Span, name: TokenModel, params: Seq<TokenModel>, body: Seq<StmtModel> },
    Return { span: Span, keyword: TokenModel, value: ExprModel },
}

pub open spec fn stmt_model(s: Statement) -> StmtModel
    decreases s,
{
    match s {
        Statement::Expression { span, expression } => StmtModel::Expression {
            span,
            expression: expr_model(expression),
        },
        Statement::Print { span, expression } => StmtModel::Print {
            span,
            expression: expr_model(expression),
        },
        Statement::Var { span, name, expression } => StmtModel::Var {
            span,
            name: name@,
            expression: match expression {
                Some(e) => Some(expr_model(e)),
                None => None,
            },
        },
        Statement::Block { span, statements } => StmtModel::Block {
            span,
            statements: stmts_model(statements@),
        },
        Statement::If { span, condition, then_branch, else_branch } => StmtModel::If {
            span,
            condition: expr_model(condition),
            then_branch: Box::new(stmt_model(*then_branch)),
            else_branch: match else_branch {
                Some(e) => Some(Box::new(stmt_model(*e))),
                None => None,
            },
        },
        Statement::While { span, condition, body } => StmtModel::While {
            span,
            condition: expr_model(condition),
            body: Box::new(stmt_model(*body)),
        },
        Statement::Function { span, name, params, body } => StmtModel::Function {
            span,
            name: name@,
            params: Seq::new(params@.len(), |i: int| params@[i]@),
            body: stmts_model(body@),
        },
        Statement::Return { span, keyword, value } => StmtModel::Return {
            span,
            keyword: keyword@,
            value: expr_model(value),
        },
    }
}

pub open spec fn stmts_model(s: Seq<Statement>) -> Seq<StmtModel>
    decreases s,
{
    if s.len() == 0 {
        Seq::empty()
    } else {
        seq![stmt_model(s[0])] + stmts_model(s.drop_first())
    }
}

pub broadcast proof fn lemma_stmts_model(s: Seq<Statement>)
    ensures
        (#[trigger] stmts_model(s)).len() == s.len(),
        forall|i: int| 0 <= i < s.len() ==> stmts_model(s)[i] == stmt_model(s[i]),
    decreases s.len(),
{
    if s.len() > 0 {
        lemma_stmts_model(s.drop_first());
    }
}

impl View for Statement {
    type V = StmtModel;

    open spec fn view(&self) -> StmtModel {
        stmt_model(*self)
    }
}

impl Clone for Statement {
    fn clone(&self) -> (r: Self)
        ensures
            r@ == self@,
        decreases *self,
    {
        match self {
            Statement::Expression { span, expression } => Statement::Expression {
                span: *span,
                expression: expression.clone(),
            },
            Statement::Print { span, expression } => Statement::Print {
                span: *span,
                expression: expression.clone(),
            },
            Statement::Var { span, name, expression } => Statement::Var {
                span: *span,
                name: name.clone(),
                expression: match expression {
                    Some(e) => Some(e.clone()),
                    None => None,
                },
            },
            Statement::Block { span, statements } => {
                let r = Statement::Block { span: *span, statements: clone_stmts(statements) };
                proof {
                    assert(r@ =~= self@);
                }
                r
            },
            Statement::If { span, condition, then_branch, else_branch } => Statement::If {
                span: *span,
                condition: condition.clone(),
                then_branch: Box::new((**then_branch).clone()),
                else_branch: match else_branch {
                    Some(e) => Some(Box::new((**e).clone())),
                    None => None,
                },
            },
            Statement::While { span, condition, body } => Statement::While {
                span: *span,
                condition: condition.clone(),
                body: Box::new((**body).clone()),
            },
            Statement::Function { span, name, params, body } => {
                let mut ps: Vec<Token> = Vec::new();
                let n = params.len();
                for i in 0..n
                    invariant
                        n == params@.len(),
                        ps@.len() == i,
                        forall|j: int| 0 <= j < i ==> (#[trigger] ps@[j])@ == params@[j]@,
                {
                    ps.push(params[i].clone());
                }
                let r = Statement::Function {
                    span: *span,
                    name: name.clone(),
                    params: ps,
                    body: clone_stmts(body),
                };
                proof {
                    assert(Seq::new(ps@.len(), |i: int| ps@[i]@) =~= Seq::new(
                        params@.len(),
                        |i: int| params@[i]@,
                    ));
                    assert(r@ =~= self@);
                }
                r
            },
            Statement::Return { span, keyword, value } => Statement::Return {
                span: *span,
                keyword: keyword.clone(),
                value: value.clone(),
            },
        }
    }
}

/// Deep copy of a statement list, preserving the mathematical image of
/// every element.
pub fn clone_stmts(v: &Vec<Statement>) -> (r: Vec<Statement>)
    ensures
        r@.len() == v@.len(),
        forall|i: int| 0 <= i < v@.len() ==> (#[trigger] r@[i])@ == v@[i]@,
        stmts_model(r@) == stmts_model(v@),
    decreases v@,
{
    let mut r: Vec<Statement> = Vec::new();
    let n = v.len();
    for i in 0..n
        invariant
            n == v@.len(),
            r@.len() == i,
            forall|j: int| 0 <= j < i ==> (#[trigger] r@[j])@ == v@[j]@,
    {
        proof {
            assert(decreases_to!(v@ => v@[i as int]));
        }
        r.push(v[i].clone());
    }
    proof {
        lemma_stmts_model(r@);
        lemma_stmts_model(v@);
        assert(stmts_model(r@) =~= stmts_model(v@));
    }
    r
}

} // verus!
