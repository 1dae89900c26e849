//! Runtime values: the tagged union the evaluator produces, including
//! callables (the native clock and user-defined functions).
//!
//! Numbers are IEEE-754 binary32 values. The verified code never touches
//! a float directly: a number is carried as its bit pattern (`u32`) and
//! all arithmetic goes through the trusted wrappers in `num`.
use vstd::prelude::*;
use crate::statement::{Statement, StmtModel, stmts_model};

verus! {

/// A user-defined function value: its name, parameter names, body and the
/// index (into the interpreter's scope arena) of the environment captured
/// at declaration time.
pub struct LoxFunction {
    pub name: String,
    pub params: Vec<String>,
    pub body: Vec<Statement>,
    pub closure: usize,
}

/// A callable runtime value: the native `clock` or a user function.
pub enum LoxCallable {
    Clock,
    Function(LoxFunction),
}

/// A runtime value. `Number` holds the IEEE-754 binary32 bit pattern.
pub enum LitType {
    Number(u32),
    Str(String),
    Bool(bool),
    Nil,
    Callable(LoxCallable),
}

/// Mathematical image of a user function.
pub ghost struct FunModel {
    pub name: Seq<char>,
    pub params: Seq<Seq<char>>,
    pub body: Seq<StmtModel>,
    pub closure: int,
}

/// Mathematical image of a runtime value.
pub ghost enum ValModel {
    Number(u32),
    Str(Seq<char>),
    Bool(bool),
    Nil,
    Clock,
    Fun(FunModel),
}

pub open spec fn fun_model(f: LoxFunction) -> FunModel
    decreases f,
{
    FunModel {
        name: f.name@,
        params: Seq::new(f.params@.len(), |i: int| f.params@[i]@),
        body: stmts_model(f.body@),
        closure: f.closure as int,
    }
}

pub open spec fn lit_model(l: LitType) -> ValModel
    decreases l,
{
    match l {
        LitType::Number(b) => ValModel::Number(b),
        LitType::Str(s) => ValModel::Str(s@),
        LitType::Bool(b) => ValModel::Bool(b),
        LitType::Nil => ValModel::Nil,
        LitType::Callable(LoxCallable::Clock) => ValModel::Clock,
        LitType::Callable(LoxCallable::Function(f)) => ValModel::Fun(fun_model(f)),
    }
}

impl View for LitType {
    type V = ValModel;

    open spec fn view(&self) -> ValModel {
        lit_model(*self)
    }
}

impl Clone for LoxFunction {
    fn clone(&self) -> (r: Self)
        ensures
            fun_model(r) == fun_model(*self),
        decreases *self,
    {
        let name = self.name.clone();
        let mut params: Vec<String> = Vec::new();
        for i in 0..self.params.len()
            invariant
                params@.len() == i,
                forall|j: int| 0 <= j < i ==> params@[j]@ == self.params@[j]@,
        {
            params.push(self.params[i].clone());
        }
        let body = crate::statement::clone_stmts(&self.body);
        proof {
            assert(Seq::new(params@.len(), |i: int| params@[i]@) =~= Seq::new(
                self.params@.len(),
                |i: int| self.params@[i]@,
            ));
        }
        LoxFunction { name, params, body, closure: self.closure }
    }
}

impl Clone for LoxCallable {
    fn clone(&self) -> (r: Self)
        ensures
            lit_model(LitType::Callable(r)) == lit_model(LitType::Callable(*self)),
        decreases *self,
    {
        match self {
            LoxCallable::Clock => LoxCallable::Clock,
            LoxCallable::Function(f) => LoxCallable::Function(f.clone()),
        }
    }
}

impl Clone for LitType {
    fn clone(&self) -> (r: Self)
        ensures
            r@ == self@,
        decreases *self,
    {
        match self {
            LitType::Number(b) => LitType::Number(*b),
            LitType::Str(s) => LitType::Str(s.clone()),
            LitType::Bool(b) => LitType::Bool(*b),
            LitType::Nil => LitType::Nil,
            LitType::Callable(c) => LitType::Callable(c.clone()),
        }
    }
}

} // verus!
