//! Expression nodes of the abstract syntax tree, with their mathematical
//! image used by the parser and evaluator contracts.
use vstd::prelude::*;
use crate::lit::{LitType, ValModel, lit_model};
use crate::span::Span;
use crate::tokens::{Token, TokenModel};

verus! {

/// An expression node. Every node carries the source span of the tokens
/// it was parsed from.
pub enum Expr {
    Binary { span: Span, left: Box<Expr>, operator: Token, right: Box<Expr> },
    Grouping { span: Span, expression: Box<Expr> },
    Literal { span: Span, value: Option<LitType> },
    Unary { span: Span, operator: Token, right: Box<Expr> },
    Variable { span: Span, name: Token },
    Assign { span: Span, name: Token, value: Box<Expr> },
    Logical { span: Span, left: Box<Expr>, operator: Token, right: Box<Expr> },
    Call { span: Span, callee: Box<Expr>, paren: Token, arguments: Vec<Expr> },
}

/// Mathematical image of an expression node.
pub ghost enum ExprModel {
    Binary { span: Span, left: Box<ExprModel>, operator: TokenModel, right: Box<ExprModel> },
    Grouping { span: Span, expression: Box<ExprModel> },
    Literal { span: Span, value: Option<ValModel> },
    Unary { span: Span, operator: TokenModel, right: Box<ExprModel> },
    Variable { span: Span, name: TokenModel },
    Assign { span: Span, name: TokenModel, value: Box<ExprModel> },
    Logical { span: Span, left: Box<ExprModel>, operator: TokenModel, right: Box<ExprModel> },
    Call { span: Span, callee: Box<ExprModel>, paren: TokenModel, arguments: Seq<ExprModel> },
}

pub open spec fn expr_model(e: Expr) -> ExprModel
    decreases e,
{
    match e {
        Expr::Binary { span, left, operator, right } => ExprModel::Binary {
            span,
            left: Box::new(expr_model(*left)),
            operator: operator@,
            right: Box::new(expr_model(*right)),
        },
        Expr::Grouping { span, expression } => ExprModel::Grouping {
            span,
            expression: Box::new(expr_model(*expression)),
        },
        Expr::Literal { span, value } => ExprModel::Literal {
            span,
            value: match value {
                Some(l) => Some(lit_model(l)),
                None => None,
            },
        },
        Expr::Unary { span, operator, right } => ExprModel::Unary {
            span,
            operator: operator@,
            right: Box::new(expr_model(*right)),
        },
        Expr::Variable { span, name } => ExprModel::Variable { span, name: name@ },
        Expr::Assign { span, name, value } => ExprModel::Assign {
            span,
            name: name@,
            value: Box::new(expr_model(*value)),
        },
        Expr::Logical { span, left, operator, right } => ExprModel::Logical {
            span,
            left: Box::new(expr_model(*left)),
            operator: operator@,
            right: Box::new(expr_model(*right)),
        },
        Expr::Call { span, callee, paren, arguments } => ExprModel::Call {
            span,
            callee: Box::new(expr_model(*callee)),
            paren: paren@,
            arguments: exprs_model(arguments@),
        },
    }
}

pub open spec fn exprs_model(s: Seq<Expr>) -> Seq<ExprModel>
    decreases s,
{
    if s.len() == 0 {
        Seq::empty()
    } else {
        seq![expr_model(s[0])] + exprs_model(s.drop_first())
    }
}

pub broadcast proof fn lemma_exprs_model(s: Seq<Expr>)
    ensures
        (#[trigger] exprs_model(s)).len() == s.len(),
        forall|i: int| 0 <= i < s.len() ==> exprs_model(s)[i] == expr_model(s[i]),
    decreases s.len(),
{
    if s.len() > 0 {
        lemma_exprs_model(s.drop_first());
    }
}

impl View for Expr {
    type V = ExprModel;

    open spec fn view(&self) -> ExprModel {
        expr_model(*self)
    }
}

impl Clone for Expr {
    fn clone(&self) -> (r: Self)
        ensures
            r@ == self@,
        decreases *self,
    {
        match self {
            Expr::Binary { span, left, operator, right } => Expr::Binary {
                span: *span,
                left: Box::new((**left).clone()),
                operator: operator.clone(),
                right: Box::new((**right).clone()),
            },
            Expr::Grouping { span, expression } => Expr::Grouping {
                span: *span,
                expression: Box::new((**expression).clone()),
            },
            Expr::Literal { span, value: Some(l) } => Expr::Literal {
                span: *span,
                value: Some(l.clone()),
            },
            Expr::Literal { span, value: None } => Expr::Literal { span: *span, value: None },
            Expr::Unary { span, operator, right } => Expr::Unary {
                span: *span,
                operator: operator.clone(),
                right: Box::new((**right).clone()),
            },
            Expr::Variable { span, name } => Expr::Variable { span: *span, name: name.clone() },
            Expr::Assign { span, name, value } => Expr::Assign {
                span: *span,
                name: name.clone(),
                value: Box::new((**value).clone()),
            },
            Expr::Logical { span, left, operator, right } => Expr::Logical {
                span: *span,
                left: Box::new((**left).clone()),
                operator: operator.clone(),
                right: Box::new((**right).clone()),
            },
            Expr::Call { span, callee, paren, arguments } => {
                let args = clone_exprs(arguments);
                let r = Expr::Call {
                    span: *span,
                    callee: Box::new((**callee).clone()),
                    paren: paren.clone(),
                    arguments: args,
                };
                proof {
                    assert(r@ =~= self@);
                }
                r
            },
        }
    }
}

/// Deep copy of an expression list, preserving the mathematical image of
/// every element.
pub fn clone_exprs(v: &Vec<Expr>) -> (r: Vec<Expr>)
    ensures
        r@.len() == v@.len(),
        forall|i: int| 0 <= i < v@.len() ==> (#[trigger] r@[i])@ == v@[i]@,
        exprs_model(r@) == exprs_model(v@),
    decreases v@,
{
    let mut r: Vec<Expr> = Vec::new();
    let n = v.len();
    for i in 0..n
        invariant
            n == v@.len(),
            r@.len() == i,
            forall|j: int| 0 <= j < i ==> (#[trigger] r@[j])@ == v@[j]@,
    {
        proof {
            assert(decreases_to!(v@ => v@[i as int]));
        }
        r.push(v[i].clone());
    }
    proof {
        lemma_exprs_model(r@);
        lemma_exprs_model(v@);
        assert(exprs_model(r@) =~= exprs_model(v@));
    }
    r
}

} // verus!
