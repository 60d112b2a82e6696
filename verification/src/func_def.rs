//! A `fn` statement: the definition of a function.
use vstd::prelude::*;

use crate::ast::names_view;
use crate::env::Env;
use crate::semantics::store_func_env;
use crate::semantics::GFun;
use crate::semantics::EVAL_DEPTH_LIMIT;
use crate::ast::view_stmt;
use crate::ast::GStmt;
use crate::grammar::sp_func_def;
use crate::grammar::sp_ident_seq;
use crate::stmt::Stmt;
use crate::utils::extract_ident;
use crate::utils::extract_whitespace;
use crate::utils::extract_whitespace1;
use crate::utils::lemma_prefix_len;
use crate::utils::sp_extract_ident;
use crate::utils::tag;
use crate::utils::CharPred;

verus! {

broadcast use vstd::std_specs::vec::group_vec_axioms;

/// `fn <name> <params...> => <stmt>`: evaluating stores the parameter list
/// and the body under the name in the current scope frame.
#[derive(Debug, PartialEq)]
pub struct FuncDef {
    pub name: String,
    pub params: Vec<String>,
    pub body: Box<Stmt>,
}

/// Zero or more identifiers separated by optional whitespace, consumed
/// greedily until one fails to parse.
fn ident_sequence(s: &str) -> (r: (&str, Vec<String>))
    ensures
        r.0@ == sp_ident_seq(s@).0,
        names_view(r.1@) == sp_ident_seq(s@).1,
        r.0@.len() <= s@.len(),
    decreases s@.len(),
{
    let mut cur: &str = s;
    let mut idents: Vec<String> = Vec::new();
    let mut done = false;
    while !done
        invariant
            sp_ident_seq(s@).0 == sp_ident_seq(cur@).0,
            sp_ident_seq(s@).1 == names_view(idents@) + sp_ident_seq(cur@).1,
            cur@.len() <= s@.len(),
            done ==> sp_extract_ident(cur@) matches Err(_),
        decreases (if done {
            0int
        } else {
            1int
        }), cur@.len(),
    {
        match extract_ident(cur) {
            Ok((new_s, id)) => {
                let ghost prev_idents = idents@;
                let ghost prev_cur = cur@;
                idents.push(id.to_owned());
                let (new_s2, _) = extract_whitespace(new_s);
                cur = new_s2;
                proof {
                    lemma_prefix_len(CharPred::SpaceNewline, new_s@);
                    assert(names_view(idents@) =~= names_view(prev_idents) + seq![id@]);
                    assert(sp_ident_seq(prev_cur).1 =~= seq![id@] + sp_ident_seq(cur@).1);
                    assert(names_view(idents@) + sp_ident_seq(cur@).1 =~= names_view(prev_idents)
                        + sp_ident_seq(prev_cur).1);
                }
            },
            Err(_) => {
                done = true;
            },
        }
    }
    proof {
        assert(sp_ident_seq(cur@).1 =~= Seq::empty());
        assert(names_view(idents@) + sp_ident_seq(cur@).1 =~= names_view(idents@));
    }
    (cur, idents)
}

/// A copy of a list of names; `String::clone` keeps the value exactly.
pub(crate) fn clone_strings(v: &Vec<String>) -> (r: Vec<String>)
    ensures
        r@ == v@,
{
    let mut r: Vec<String> = Vec::new();
    let mut i: usize = 0;
    while i < v.len()
        invariant
            i <= v.len(),
            r@.len() == i,
            forall|k: int| 0 <= k < i ==> r@[k] == v@[k],
        decreases v@.len() - i,
    {
        let x = &v[i];
        r.push(x.clone());
        i = i + 1;
    }
    proof {
        assert(r@ =~= v@);
    }
    r
}

impl Clone for FuncDef {
    /// A deep copy whose model is that of the original.
    fn clone(&self) -> (res: Self)
        ensures
            res.name@ == self.name@,
            names_view(res.params@) == names_view(self.params@),
            view_stmt(*res.body) == view_stmt(*self.body),
        decreases *self,
    {
        FuncDef {
            name: self.name.clone(),
            params: clone_strings(&self.params),
            body: Box::new((*self.body).clone()),
        }
    }
}

impl FuncDef {
    /// Evaluates this definition with an explicit bound on nested calls.
    /// Storing a function always succeeds; the depth plays no part.
    pub(crate) fn eval_at(&self, env: &mut Env, depth: u64) -> (r: Result<(), String>)
        ensures
            r matches Ok(_),
            final(env)@ == store_func_env(
                old(env)@,
                self.name@,
                (GFun { params: names_view(self.params@), body: view_stmt(*self.body) }),
            ),
    {
        env.store_func(self.name.clone(), clone_strings(&self.params), (*self.body).clone());
        Ok(())
    }

    /// Evaluates this definition: stores the parameter names and the body
    /// under the function's name in the innermost frame of the environment.
    pub fn eval(&self, env: &mut Env) -> (r: Result<(), String>)
        ensures
            r matches Ok(_),
            final(env)@ == store_func_env(
                old(env)@,
                self.name@,
                (GFun { params: names_view(self.params@), body: view_stmt(*self.body) }),
            ),
    {
        self.eval_at(env, EVAL_DEPTH_LIMIT)
    }

    /// Parses a function definition: the keyword `fn`, the function's name,
    /// zero or more parameter names, the arrow `=>` and the body statement.
    pub fn new(s: &str) -> (r: Result<(&str, FuncDef), String>)
        ensures
            match sp_func_def(s@) {
                Ok((rem, g)) => r matches Ok(t) && t.0@ == rem && (GStmt::FuncDef {
                    name: t.1.name@,
                    params: names_view(t.1.params@),
                    body: Box::new(view_stmt(*t.1.body)),
                }) == g,
                Err(m) => r matches Err(e) && e@ == m,
            },
            sp_func_def(s@) matches Ok(t) ==> t.0.len() < s@.len(),
        decreases s@.len(), 0int,
    {
        proof {
            reveal_strlit("fn");
            reveal_strlit("=>");
        }
        let s1 = match tag("fn", s) {
            Ok(t) => t,
            Err(e) => {
                return Err(e);
            },
        };
        let (s2, _) = match extract_whitespace1(s1) {
            Ok(t) => t,
            Err(e) => {
                return Err(e);
            },
        };
        proof {
            lemma_prefix_len(CharPred::SpaceNewline, s1@);
        }
        let (s3, name) = match extract_ident(s2) {
            Ok(t) => t,
            Err(e) => {
                return Err(e);
            },
        };
        let (s4, _) = extract_whitespace(s3);
        proof {
            lemma_prefix_len(CharPred::SpaceNewline, s3@);
        }
        let (s5, params) = ident_sequence(s4);
        let s6 = match tag("=>", s5) {
            Ok(t) => t,
            Err(e) => {
                return Err(e);
            },
        };
        let (s7, _) = extract_whitespace(s6);
        proof {
            lemma_prefix_len(CharPred::SpaceNewline, s6@);
        }
        let (s8, body) = match Stmt::new(s7) {
            Ok(t) => t,
            Err(e) => {
                return Err(e);
            },
        };
        Ok((s8, FuncDef { name: name.to_owned(), params, body: Box::new(body) }))
    }
}

} // verus!
