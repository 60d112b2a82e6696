//! A bare identifier used as an expression: the usage of a binding.
use vstd::prelude::*;

use crate::ast::view_exprs;
use crate::ast::GExpr;
use crate::env::Env;
use crate::expr::func_call::call_function;
use crate::expr::Expr;
use crate::semantics::eval_matches;
use crate::semantics::sp_eval_expr;
use crate::semantics::EVAL_DEPTH_LIMIT;
use crate::utils::extract_ident;
use crate::val::Val;
use crate::utils::sp_extract_ident;

verus! {

/// A reference to a binding by name.  When no binding of the name exists but
/// a zero-parameter function does, evaluation falls back to calling that
/// function.
#[derive(Debug, PartialEq)]
pub struct BindingUsage {
    pub name: String,
}

impl Clone for BindingUsage {
    /// A copy whose name is that of the original.
    fn clone(&self) -> (res: Self)
        ensures
            res.name@ == self.name@,
    {
        BindingUsage { name: self.name.clone() }
    }
}

impl BindingUsage {
    /// Parses a binding usage: a bare identifier.
    pub fn new(s: &str) -> (r: Result<(&str, BindingUsage), String>)
        ensures
            match sp_extract_ident(s@) {
                Ok((rem, id)) => r matches Ok(t) && t.0@ == rem && t.1.name@ == id,
                Err(m) => r matches Err(e) && e@ == m,
            },
            sp_extract_ident(s@) matches Ok(t) ==> t.0.len() < s@.len(),
    {
        let (rest, name) = match extract_ident(s) {
            Ok(t) => t,
            Err(e) => {
                return Err(e);
            },
        };
        Ok((rest, BindingUsage { name: name.to_owned() }))
    }
}

impl BindingUsage {
    /// Evaluates this usage with an explicit bound on nested calls.
    pub(crate) fn eval_at(&self, env: &Env, depth: u64) -> (r: Result<Val, String>)
        ensures
            eval_matches(r, sp_eval_expr((GExpr::BindingUsage(self.name@)), env@, depth as nat)),
        decreases depth, 1int, 0int,
    {
        match env.get_binding(&self.name) {
            Ok(v) => Ok(v),
            Err(error_msg) => match env.get_func(&self.name) {
                Ok((params, _)) => if params.len() == 0 {
                    let no_args: Vec<Expr> = Vec::new();
                    proof {
                        assert(view_exprs(no_args@) =~= Seq::empty());
                    }
                    call_function(&self.name, &no_args, env, depth)
                } else {
                    Err(error_msg)
                },
                Err(_) => Err(error_msg),
            },
        }
    }

    /// Evaluates this usage: the bound value of the name if one exists;
    /// otherwise, if a zero-parameter function of the name exists, the
    /// result of calling it with no arguments; otherwise the
    /// undefined-binding failure.
    pub fn eval(&self, env: &Env) -> (r: Result<Val, String>)
        ensures
            eval_matches(
                r,
                sp_eval_expr((GExpr::BindingUsage(self.name@)), env@, EVAL_DEPTH_LIMIT as nat),
            ),
    {
        self.eval_at(env, EVAL_DEPTH_LIMIT)
    }
}

} // verus!
