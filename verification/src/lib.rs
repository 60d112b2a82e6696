//! A small expression-oriented language: integer arithmetic, `let` bindings,
//! lexically scoped blocks, and user-defined functions with positional
//! parameters.
//!
//! Source text is parsed by hand-written combinators into an abstract syntax
//! tree, and the tree is evaluated against a chained lexical-scope
//! environment.  Every parser is verified against the grammar model in
//! [`grammar`], and every evaluator against the evaluation model in
//! [`semantics`]; [`laws`] states the scoping and determinism properties
//! that follow.
use vstd::prelude::*;
use vstd::string::StrSliceExecFns;
use vstd::string::StringExecFns;

pub mod ast;
pub mod binding_def;
pub mod env;
pub mod expr;
pub mod func_def;
pub mod grammar;
pub mod laws;
pub mod semantics;
pub mod stmt;
pub mod utils;
pub mod val;

pub use env::Env;
pub use val::Val;

use crate::ast::view_stmt;
use crate::ast::GStmt;
use crate::grammar::sp_stmt;
use crate::semantics::sp_eval_stmt;
use crate::semantics::EVAL_DEPTH_LIMIT;
use crate::stmt::Stmt;

verus! {

/// The result of a successful top-level parse: one statement that consumed
/// the whole input.
#[derive(Debug)]
pub struct Parse(Stmt);

impl View for Parse {
    type V = GStmt;

    closed spec fn view(&self) -> GStmt {
        view_stmt(self.0)
    }
}

/// Parses a complete program: exactly one statement.  Input that the
/// statement grammar leaves unconsumed, trailing whitespace included, is a
/// failure of its own.
pub fn parse(s: &str) -> (r: Result<Parse, String>)
    ensures
        match sp_stmt(s@) {
            Ok((rem, g)) => if rem.len() == 0 {
                r matches Ok(p) && p@ == g
            } else {
                r matches Err(e) && e@ == "input was not consumed fully by parser."@
            },
            Err(m) => r matches Err(e) && e@ == m,
        },
{
    let (rest, stmt) = match Stmt::new(s) {
        Ok(t) => t,
        Err(e) => {
            return Err(e);
        },
    };
    if rest.unicode_len() == 0 {
        Ok(Parse(stmt))
    } else {
        Err(String::from_str("input was not consumed fully by parser."))
    }
}

impl Parse {
    /// Parses a complete program: exactly one statement consuming all input.
    pub fn parse(s: &str) -> (r: Result<Parse, String>)
        ensures
            match sp_stmt(s@) {
                Ok((rem, g)) => if rem.len() == 0 {
                    r matches Ok(p) && p@ == g
                } else {
                    r matches Err(e) && e@ == "input was not consumed fully by parser."@
                },
                Err(m) => r matches Err(e) && e@ == m,
            },
    {
        parse(s)
    }

    /// Evaluates the parsed program in the given environment.  The result is
    /// exactly what the evaluation model yields for the parsed statement, at
    /// the default call-depth bound.
    pub fn eval(&self, env: &mut Env) -> (r: Result<Val, String>)
        ensures
            match sp_eval_stmt(self@, old(env)@, EVAL_DEPTH_LIMIT as nat) {
                Ok((ge, v)) => r matches Ok(rv) && rv == v && final(env)@ == ge,
                Err(m) => r matches Err(e) && e@ == m && final(env)@ == old(env)@,
            },
    {
        self.0.eval(env)
    }
}

} // verus!
