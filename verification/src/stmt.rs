//! Statements: binding definitions, function definitions and bare
//! expressions.
use vstd::prelude::*;

use crate::ast::sz_stmt;
use crate::ast::view_stmt;
use crate::env::Env;
use crate::semantics::sp_eval_stmt;
use crate::semantics::EVAL_DEPTH_LIMIT;
use crate::val::Val;
use crate::binding_def::BindingDef;
use crate::expr::Expr;
use crate::func_def::FuncDef;
use crate::grammar::sp_stmt;

verus! {

/// One statement.  At parse time the alternatives are tried in the order
/// function definition, binding definition, expression; the first success
/// wins.
#[derive(Debug, PartialEq)]
pub enum Stmt {
    BindingDef(BindingDef),
    Expr(Expr),
    FuncDef(FuncDef),
}

impl Clone for Stmt {
    /// A deep copy whose model is that of the original.
    fn clone(&self) -> (res: Self)
        ensures
            view_stmt(res) == view_stmt(*self),
        decreases *self,
    {
        match self {
            Stmt::BindingDef(bd) => Stmt::BindingDef(bd.clone()),
            Stmt::Expr(e) => Stmt::Expr(e.clone()),
            Stmt::FuncDef(fd) => Stmt::FuncDef(fd.clone()),
        }
    }
}

impl Stmt {
    /// Evaluates this statement with an explicit bound on nested calls.
    pub(crate) fn eval_at(&self, env: &mut Env, depth: u64) -> (r: Result<Val, String>)
        ensures
            match sp_eval_stmt(view_stmt(*self), old(env)@, depth as nat) {
                Ok((ge, v)) => r matches Ok(rv) && rv == v && final(env)@ == ge,
                Err(m) => r matches Err(e) && e@ == m && final(env)@ == old(env)@,
            },
        decreases depth, sz_stmt(*self), 1int,
    {
        match self {
            Stmt::BindingDef(bd) => match bd.eval_at(env, depth) {
                Ok(_) => Ok(Val::Unit),
                Err(e) => Err(e),
            },
            Stmt::Expr(e) => e.eval_at(env, depth),
            Stmt::FuncDef(fd) => match fd.eval_at(env, depth) {
                Ok(_) => Ok(Val::Unit),
                Err(e) => Err(e),
            },
        }
    }

    /// Evaluates this statement: definitions write into the innermost frame
    /// of the environment and yield the unit value; a bare expression leaves
    /// the environment unchanged and yields its value.
    pub fn eval(&self, env: &mut Env) -> (r: Result<Val, String>)
        ensures
            match sp_eval_stmt(view_stmt(*self), old(env)@, EVAL_DEPTH_LIMIT as nat) {
                Ok((ge, v)) => r matches Ok(rv) && rv == v && final(env)@ == ge,
                Err(m) => r matches Err(e) && e@ == m && final(env)@ == old(env)@,
            },
    {
        self.eval_at(env, EVAL_DEPTH_LIMIT)
    }

    /// Parses one statement, trying a function definition, then a binding
    /// definition, then an expression; the first success wins, and the
    /// failure reported is the expression's.
    pub fn new(s: &str) -> (r: Result<(&str, Stmt), String>)
        ensures
            match sp_stmt(s@) {
                Ok((rem, g)) => r matches Ok(t) && t.0@ == rem && view_stmt(t.1) == g,
                Err(m) => r matches Err(e) && e@ == m,
            },
            sp_stmt(s@) matches Ok(t) ==> t.0.len() < s@.len(),
        decreases s@.len(), 6int,
    {
        match FuncDef::new(s) {
            Ok((rest, func_def)) => Ok((rest, Stmt::FuncDef(func_def))),
            Err(_) => match BindingDef::new(s) {
                Ok((rest, binding_def)) => Ok((rest, Stmt::BindingDef(binding_def))),
                Err(_) => match Expr::new(s) {
                    Ok((rest, expr)) => Ok((rest, Stmt::Expr(expr))),
                    Err(e) => Err(e),
                },
            },
        }
    }
}

} // verus!
