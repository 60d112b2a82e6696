//! A `let` statement: the definition of a binding.
use vstd::prelude::*;

use crate::ast::sz_expr;
use crate::ast::view_expr;
use crate::env::Env;
use crate::semantics::sp_eval_expr;
use crate::semantics::store_binding_env;
use crate::semantics::EVAL_DEPTH_LIMIT;
use crate::ast::GStmt;
use crate::expr::Expr;
use crate::grammar::sp_binding_def;
use crate::utils::extract_ident;
use crate::utils::extract_whitespace;
use crate::utils::extract_whitespace1;
use crate::utils::lemma_prefix_len;
use crate::utils::tag;
use crate::utils::CharPred;

verus! {

/// `let <name> = <expr>`: evaluating stores the computed value under the
/// name in the current scope frame.
#[derive(Debug, PartialEq)]
pub struct BindingDef {
    pub name: String,
    pub val: Expr,
}

impl Clone for BindingDef {
    /// A deep copy whose model is that of the original.
    fn clone(&self) -> (res: Self)
        ensures
            res.name@ == self.name@,
            view_expr(res.val) == view_expr(self.val),
        decreases *self,
    {
        BindingDef { name: self.name.clone(), val: self.val.clone() }
    }
}

impl BindingDef {
    /// Evaluates this definition with an explicit bound on nested calls.
    pub(crate) fn eval_at(&self, env: &mut Env, depth: u64) -> (r: Result<(), String>)
        ensures
            match sp_eval_expr(view_expr(self.val), old(env)@, depth as nat) {
                Ok(v) => r matches Ok(_) && final(env)@ == store_binding_env(
                    old(env)@,
                    self.name@,
                    v,
                ),
                Err(m) => r matches Err(e) && e@ == m && final(env)@ == old(env)@,
            },
        decreases depth, 1 + sz_expr(self.val), 0int,
    {
        let value = match self.val.eval_at(env, depth) {
            Ok(v) => v,
            Err(e) => {
                return Err(e);
            },
        };
        env.store_binding(self.name.clone(), value);
        Ok(())
    }

    /// Evaluates this definition: computes the value and stores it under the
    /// name in the innermost frame of the environment.
    pub fn eval(&self, env: &mut Env) -> (r: Result<(), String>)
        ensures
            match sp_eval_expr(view_expr(self.val), old(env)@, EVAL_DEPTH_LIMIT as nat) {
                Ok(v) => r matches Ok(_) && final(env)@ == store_binding_env(
                    old(env)@,
                    self.name@,
                    v,
                ),
                Err(m) => r matches Err(e) && e@ == m && final(env)@ == old(env)@,
            },
    {
        self.eval_at(env, EVAL_DEPTH_LIMIT)
    }

    /// Parses a binding definition: the keyword `let`, the binding's name,
    /// the sign `=` and the defining expression.
    pub fn new(s: &str) -> (r: Result<(&str, BindingDef), String>)
        ensures
            match sp_binding_def(s@) {
                Ok((rem, g)) => r matches Ok(t) && t.0@ == rem && (GStmt::BindingDef {
                    name: t.1.name@,
                    value: view_expr(t.1.val),
                }) == g,
                Err(m) => r matches Err(e) && e@ == m,
            },
            sp_binding_def(s@) matches Ok(t) ==> t.0.len() < s@.len(),
        decreases s@.len(), 0int,
    {
        proof {
            reveal_strlit("let");
            reveal_strlit("=");
        }
        let s1 = match tag("let", s) {
            Ok(t) => t,
            Err(e) => {
                return Err(e);
            },
        };
        let (s2, _) = match extract_whitespace1(s1) {
            Ok(t) => t,
            Err(e) => {
                return Err(e);
            },
        };
        proof {
            lemma_prefix_len(CharPred::SpaceNewline, s1@);
        }
        let (s3, name) = match extract_ident(s2) {
            Ok(t) => t,
            Err(e) => {
                return Err(e);
            },
        };
        let (s4, _) = extract_whitespace(s3);
        proof {
            lemma_prefix_len(CharPred::SpaceNewline, s3@);
        }
        let s5 = match tag("=", s4) {
            Ok(t) => t,
            Err(e) => {
                return Err(e);
            },
        };
        let (s6, _) = extract_whitespace(s5);
        proof {
            lemma_prefix_len(CharPred::SpaceNewline, s5@);
        }
        let (s7, val) = match Expr::new(s6) {
            Ok(t) => t,
            Err(e) => {
                return Err(e);
            },
        };
        Ok((s7, BindingDef { name: name.to_owned(), val }))
    }
}

} // verus!
