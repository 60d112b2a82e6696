//! A call of a user-defined function with positional arguments.
use vstd::prelude::*;

use crate::ast::lemma_view_exprs;
use crate::ast::lemma_sz_exprs_elem;
use crate::ast::names_view;
use crate::ast::sz_exprs;
use crate::ast::view_expr;
use crate::ast::view_stmt;
use crate::env::Env;
use crate::semantics::bind_params;
use crate::semantics::empty_frame;
use crate::semantics::lookup_func;
use crate::semantics::sp_eval_args;
use crate::semantics::eval_matches;
use crate::semantics::lemma_eval_args_err;
use crate::semantics::lemma_eval_args_ok;
use crate::semantics::sp_eval_call;
use crate::semantics::sp_eval_expr;
use crate::semantics::EVAL_DEPTH_LIMIT;
use crate::utils::dec_string;
use crate::val::Val;
use crate::ast::view_exprs;
use crate::ast::GExpr;
use crate::expr::Expr;
use crate::grammar::sp_expr;
use crate::grammar::sp_expr_seq;
use crate::grammar::sp_func_call;
use crate::utils::extract_ident;
use crate::utils::lemma_prefix_len;
use crate::utils::take_while;
use crate::utils::take_while1;
use crate::utils::CharPred;
use vstd::string::StringExecFns;

verus! {

broadcast use vstd::std_specs::vec::group_vec_axioms;

/// A function call: the callee's name and one expression per argument.
#[derive(Debug, PartialEq)]
pub struct FuncCall {
    pub callee: String,
    pub params: Vec<Expr>,
}

/// Zero or more expressions separated by spaces, consumed greedily until one
/// fails to parse.
fn expr_sequence(s: &str) -> (r: (&str, Vec<Expr>))
    ensures
        r.0@ == sp_expr_seq(s@).0,
        view_exprs(r.1@) == sp_expr_seq(s@).1,
        r.0@.len() <= s@.len(),
    decreases s@.len(), 5int,
{
    let mut cur: &str = s;
    let mut exprs: Vec<Expr> = Vec::new();
    let mut done = false;
    while !done
        invariant
            sp_expr_seq(s@).0 == sp_expr_seq(cur@).0,
            sp_expr_seq(s@).1 == view_exprs(exprs@) + sp_expr_seq(cur@).1,
            cur@.len() <= s@.len(),
            done ==> sp_expr(cur@) matches Err(_),
        decreases (if done {
            0int
        } else {
            1int
        }), cur@.len(),
    {
        match Expr::new(cur) {
            Ok((new_s, e)) => {
                let ghost prev_exprs = exprs@;
                let ghost prev_cur = cur@;
                exprs.push(e);
                let (new_s2, _) = take_while(CharPred::Space, new_s);
                cur = new_s2;
                proof {
                    lemma_prefix_len(CharPred::Space, new_s@);
                    lemma_view_exprs(prev_exprs);
                    lemma_view_exprs(exprs@);
                    assert(view_exprs(exprs@) =~= view_exprs(prev_exprs) + seq![
                        crate::ast::view_expr(exprs@.last()),
                    ]);
                    assert(sp_expr_seq(prev_cur).1 =~= seq![crate::ast::view_expr(exprs@.last())]
                        + sp_expr_seq(cur@).1);
                    assert(view_exprs(exprs@) + sp_expr_seq(cur@).1 =~= view_exprs(prev_exprs)
                        + sp_expr_seq(prev_cur).1);
                }
            },
            Err(_) => {
                done = true;
            },
        }
    }
    proof {
        assert(sp_expr_seq(cur@).1 =~= Seq::empty());
        assert(view_exprs(exprs@) + sp_expr_seq(cur@).1 =~= view_exprs(exprs@));
    }
    (cur, exprs)
}

/// A deep copy of a list of expressions, elementwise.
fn clone_exprs(v: &Vec<Expr>) -> (r: Vec<Expr>)
    ensures
        view_exprs(r@) == view_exprs(v@),
    decreases *v,
{
    let mut r: Vec<Expr> = Vec::new();
    let mut i: usize = 0;
    while i < v.len()
        invariant
            i <= v.len(),
            r@.len() == i,
            forall|k: int| 0 <= k < i ==> view_expr(r@[k]) == view_expr(v@[k]),
        decreases v@.len() - i,
    {
        let e = &v[i];
        r.push(e.clone());
        i = i + 1;
    }
    proof {
        lemma_view_exprs(r@);
        lemma_view_exprs(v@);
        assert(view_exprs(r@) =~= view_exprs(v@));
    }
    r
}

/// Calls the function of the given name on the given argument expressions:
/// the callee is resolved in the caller's environment; the argument count
/// must equal the parameter count; every argument is evaluated in one fresh
/// child of the caller's environment before any parameter is bound; the
/// body then runs in that child with the parameters bound.
pub(crate) fn call_function(callee: &String, args: &Vec<Expr>, env: &Env, depth: u64) -> (r:
    Result<Val, String>)
    ensures
        eval_matches(r, sp_eval_call(callee@, view_exprs(args@), env@, depth as nat)),
    decreases depth, sz_exprs(args@), 1int,
{
    let ghost gargs = view_exprs(args@);
    proof {
        lemma_view_exprs(args@);
    }
    let mut child_env = env.create_child();
    let ghost child0 = child_env@;
    let (param_names, body) = match env.get_func(callee) {
        Ok(t) => t,
        Err(e) => {
            return Err(e);
        },
    };
    if param_names.len() != args.len() {
        let mut m = String::from_str("expected ");
        let expected = dec_string(param_names.len());
        m.append(expected.as_str());
        m.append(" parameters, got ");
        let actual = dec_string(args.len());
        m.append(actual.as_str());
        return Err(m);
    }
    let mut vals: Vec<Val> = Vec::new();
    let mut i: usize = 0;
    while i < args.len()
        invariant
            i <= args@.len(),
            vals@.len() == i,
            gargs == view_exprs(args@),
            gargs.len() == args@.len(),
            child_env@ == child0,
            child0 == env@.push(empty_frame()),
            lookup_func(env@, callee@) matches Some(f) && f.params == names_view(param_names@)
                && f.body == view_stmt(*body),
            param_names@.len() == args@.len(),
            forall|k: int| 0 <= k < i ==> sp_eval_expr(gargs[k], child0, depth as nat) == Ok::<
                Val,
                Seq<char>,
            >(vals@[k]),
        decreases args@.len() - i,
    {
        proof {
            lemma_view_exprs(args@);
            lemma_sz_exprs_elem(args@, i as int);
        }
        let e = &args[i];
        match e.eval_at(&child_env, depth) {
            Ok(v) => {
                vals.push(v);
                i = i + 1;
            },
            Err(err) => {
                proof {
                    lemma_eval_args_err(gargs, child0, depth as nat, i as int, err@);
                }
                return Err(err);
            },
        }
    }
    proof {
        lemma_eval_args_ok(gargs, child0, depth as nat, vals@);
    }
    if depth == 0 {
        return Err(String::from_str("call depth limit exceeded"));
    }
    let ghost gnames = names_view(param_names@);
    proof {
        assert(gnames.skip(0) =~= gnames);
        assert(vals@.skip(0) =~= vals@);
    }
    let mut j: usize = 0;
    while j < param_names.len()
        invariant
            j <= param_names@.len(),
            param_names@.len() == vals@.len(),
            param_names@.len() == args@.len(),
            gnames == names_view(param_names@),
            gnames.len() == param_names@.len(),
            gargs == view_exprs(args@),
            depth >= 1,
            child0 == env@.push(empty_frame()),
            lookup_func(env@, callee@) matches Some(f) && f.params == names_view(param_names@)
                && f.body == view_stmt(*body),
            sp_eval_args(gargs, child0, depth as nat) == Ok::<Seq<Val>, Seq<char>>(vals@),
            bind_params(child0, gnames, vals@) == bind_params(
                child_env@,
                gnames.skip(j as int),
                vals@.skip(j as int),
            ),
        decreases param_names@.len() - j,
    {
        let ghost prev_env = child_env@;
        let name_j = &param_names[j];
        let v = vals[j];
        child_env.store_binding(name_j.clone(), v);
        j = j + 1;
        proof {
            assert(gnames.skip(j - 1).drop_first() =~= gnames.skip(j as int));
            assert(vals@.skip(j - 1).drop_first() =~= vals@.skip(j as int));
            assert(gnames.skip(j - 1)[0] == gnames[j - 1]);
            assert(vals@.skip(j - 1)[0] == vals@[j - 1]);
        }
    }
    proof {
        assert(gnames.skip(param_names@.len() as int) =~= Seq::<Seq<char>>::empty());
        assert(vals@.skip(vals@.len() as int) =~= Seq::<Val>::empty());
    }
    let r = body.eval_at(&mut child_env, depth - 1);
    match r {
        Ok(v) => Ok(v),
        Err(e) => Err(e),
    }
}

impl FuncCall {
    /// Evaluates this call with an explicit bound on nested calls.
    pub(crate) fn eval_at(&self, env: &Env, depth: u64) -> (r: Result<Val, String>)
        ensures
            eval_matches(
                r,
                sp_eval_call(self.callee@, view_exprs(self.params@), env@, depth as nat),
            ),
        decreases depth, 1 + sz_exprs(self.params@), 0int,
    {
        call_function(&self.callee, &self.params, env, depth)
    }

    /// Evaluates this call in the given environment.
    pub fn eval(&self, env: &Env) -> (r: Result<Val, String>)
        ensures
            eval_matches(
                r,
                sp_eval_call(
                    self.callee@,
                    view_exprs(self.params@),
                    env@,
                    EVAL_DEPTH_LIMIT as nat,
                ),
            ),
    {
        self.eval_at(env, EVAL_DEPTH_LIMIT)
    }
}

impl Clone for FuncCall {
    /// A deep copy whose model is that of the original.
    fn clone(&self) -> (res: Self)
        ensures
            res.callee@ == self.callee@,
            view_exprs(res.params@) == view_exprs(self.params@),
        decreases *self,
    {
        FuncCall { callee: self.callee.clone(), params: clone_exprs(&self.params) }
    }
}

impl FuncCall {
    /// Parses a function call: an identifier, at least one space, and one
    /// or more space-separated argument expressions.  With no argument the
    /// parse fails, so a bare name is left to be a binding usage; a newline
    /// ends the statement rather than continuing the argument list.
    pub fn new(s: &str) -> (r: Result<(&str, FuncCall), String>)
        ensures
            match sp_func_call(s@) {
                Ok((rem, g)) => r matches Ok(t) && t.0@ == rem && (GExpr::FuncCall {
                    callee: t.1.callee@,
                    args: view_exprs(t.1.params@),
                }) == g,
                Err(m) => r matches Err(e) && e@ == m,
            },
            sp_func_call(s@) matches Ok(t) ==> t.0.len() < s@.len(),
        decreases s@.len(), 1int,
    {
        let (s1, callee) = match extract_ident(s) {
            Ok(t) => t,
            Err(e) => {
                return Err(e);
            },
        };
        let (s2, _) = match take_while1(CharPred::Space, s1, String::from_str(
            "expected whitespace",
        )) {
            Ok(t) => t,
            Err(e) => {
                return Err(e);
            },
        };
        proof {
            lemma_prefix_len(CharPred::Space, s1@);
        }
        let (s3, params) = expr_sequence(s2);
        if params.len() == 0 {
            Err(String::from_str("expected a sequence with more than one itme"))
        } else {
            proof {
                lemma_view_exprs(params@);
            }
            Ok((s3, FuncCall { callee: callee.to_owned(), params }))
        }
    }
}

} // verus!
