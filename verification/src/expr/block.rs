//! A block: an ordered statement sequence forming one nested scope.
use vstd::prelude::*;

use crate::ast::lemma_view_stmts;
use crate::ast::lemma_sz_stmts_elem;
use crate::ast::sz_stmts;
use crate::ast::view_stmt;
use crate::ast::GExpr;
use crate::env::Env;
use crate::semantics::empty_frame;
use crate::semantics::eval_matches;
use crate::semantics::sp_eval_expr;
use crate::semantics::sp_eval_stmts;
use crate::semantics::EVAL_DEPTH_LIMIT;
use crate::val::Val;
use crate::ast::view_stmts;
use crate::grammar::sp_block;
use crate::grammar::sp_stmt;
use crate::grammar::sp_stmt_seq;
use crate::stmt::Stmt;
use crate::utils::extract_whitespace;
use crate::utils::lemma_prefix_len;
use crate::utils::tag;
use crate::utils::CharPred;

verus! {

broadcast use vstd::std_specs::vec::group_vec_axioms;

/// A braced sequence of statements.  A block evaluates in a fresh child
/// scope; only the final statement's value escapes.
#[derive(Debug, PartialEq)]
pub struct Block {
    pub stmts: Vec<Stmt>,
}

/// Zero or more statements separated by optional whitespace, consumed
/// greedily until one fails to parse.
fn stmt_sequence(s: &str) -> (r: (&str, Vec<Stmt>))
    ensures
        r.0@ == sp_stmt_seq(s@).0,
        view_stmts(r.1@) == sp_stmt_seq(s@).1,
        r.0@.len() <= s@.len(),
    decreases s@.len(), 7int,
{
    let mut cur: &str = s;
    let mut stmts: Vec<Stmt> = Vec::new();
    let mut done = false;
    while !done
        invariant
            sp_stmt_seq(s@).0 == sp_stmt_seq(cur@).0,
            sp_stmt_seq(s@).1 == view_stmts(stmts@) + sp_stmt_seq(cur@).1,
            cur@.len() <= s@.len(),
            done ==> sp_stmt(cur@) matches Err(_),
        decreases (if done {
            0int
        } else {
            1int
        }), cur@.len(),
    {
        proof {
            assert(view_stmts(stmts@) + sp_stmt_seq(cur@).1 == sp_stmt_seq(s@).1);
        }
        match Stmt::new(cur) {
            Ok((new_s, stmt)) => {
                let ghost prev_stmts = stmts@;
                let ghost prev_cur = cur@;
                stmts.push(stmt);
                let (new_s2, _) = extract_whitespace(new_s);
                cur = new_s2;
                proof {
                    lemma_prefix_len(CharPred::SpaceNewline, new_s@);
                    lemma_view_stmts(prev_stmts);
                    lemma_view_stmts(stmts@);
                    assert(view_stmts(stmts@) =~= view_stmts(prev_stmts) + seq![
                        crate::ast::view_stmt(stmt),
                    ]);
                    assert(sp_stmt_seq(prev_cur).1 =~= seq![crate::ast::view_stmt(stmt)]
                        + sp_stmt_seq(cur@).1);
                    assert(view_stmts(stmts@) + sp_stmt_seq(cur@).1 =~= view_stmts(prev_stmts)
                        + sp_stmt_seq(prev_cur).1);
                }
            },
            Err(_) => {
                done = true;
            },
        }
    }
    proof {
        assert(sp_stmt_seq(cur@).1 =~= Seq::empty());
        assert(view_stmts(stmts@) + sp_stmt_seq(cur@).1 =~= view_stmts(stmts@));
    }
    (cur, stmts)
}

/// A deep copy of a list of statements, elementwise.
fn clone_stmts(v: &Vec<Stmt>) -> (r: Vec<Stmt>)
    ensures
        view_stmts(r@) == view_stmts(v@),
    decreases *v,
{
    let mut r: Vec<Stmt> = Vec::new();
    let mut i: usize = 0;
    while i < v.len()
        invariant
            i <= v.len(),
            r@.len() == i,
            forall|k: int| 0 <= k < i ==> view_stmt(r@[k]) == view_stmt(v@[k]),
        decreases v@.len() - i,
    {
        let st = &v[i];
        r.push(st.clone());
        i = i + 1;
    }
    proof {
        lemma_view_stmts(r@);
        lemma_view_stmts(v@);
        assert(view_stmts(r@) =~= view_stmts(v@));
    }
    r
}

impl Clone for Block {
    /// A deep copy whose model is that of the original.
    fn clone(&self) -> (res: Self)
        ensures
            view_stmts(res.stmts@) == view_stmts(self.stmts@),
        decreases *self,
    {
        Block { stmts: clone_stmts(&self.stmts) }
    }
}

impl Block {
    /// Evaluates this block with an explicit bound on nested calls.
    pub(crate) fn eval_at(&self, env: &Env, depth: u64) -> (r: Result<Val, String>)
        ensures
            eval_matches(
                r,
                sp_eval_expr((GExpr::Block(view_stmts(self.stmts@))), env@, depth as nat),
            ),
        decreases depth, 1 + sz_stmts(self.stmts@), 0int,
    {
        let ghost gstmts = view_stmts(self.stmts@);
        proof {
            lemma_view_stmts(self.stmts@);
        }
        if self.stmts.len() == 0 {
            return Ok(Val::Unit);
        }
        let mut child_env = env.create_child();
        let ghost child0 = child_env@;
        let n = self.stmts.len();
        let mut i: usize = 0;
        proof {
            assert(gstmts.skip(0) =~= gstmts);
        }
        while i + 1 < n
            invariant
                i < n,
                n == self.stmts@.len(),
                self.stmts@.len() >= 1,
                gstmts == view_stmts(self.stmts@),
                gstmts.len() == self.stmts@.len(),
                child0 == env@.push(empty_frame()),
                sp_eval_stmts(gstmts, child0, depth as nat) == sp_eval_stmts(
                    gstmts.skip(i as int),
                    child_env@,
                    depth as nat,
                ),
            decreases self.stmts@.len() - i,
        {
            proof {
                lemma_view_stmts(self.stmts@);
                lemma_sz_stmts_elem(self.stmts@, i as int);
                assert(gstmts.skip(i as int)[0] == gstmts[i as int]);
                assert(gstmts.skip(i as int).drop_first() =~= gstmts.skip(i + 1));
            }
            let st = &self.stmts[i];
            match st.eval_at(&mut child_env, depth) {
                Ok(_) => {
                    i = i + 1;
                },
                Err(e) => {
                    return Err(e);
                },
            }
        }
        proof {
            lemma_sz_stmts_elem(self.stmts@, i as int);
            assert(gstmts.skip(i as int)[0] == gstmts[i as int]);
            assert(gstmts.skip(i as int).len() == 1);
        }
        let st = &self.stmts[i];
        match st.eval_at(&mut child_env, depth) {
            Ok(v) => Ok(v),
            Err(e) => Err(e),
        }
    }

    /// Evaluates this block: an empty block yields the unit value; otherwise
    /// every statement runs in order in one fresh child scope and the last
    /// statement's value is the result.  Nothing defined inside the block
    /// survives it.
    pub fn eval(&self, env: &Env) -> (r: Result<Val, String>)
        ensures
            eval_matches(
                r,
                sp_eval_expr(
                    (GExpr::Block(view_stmts(self.stmts@))),
                    env@,
                    EVAL_DEPTH_LIMIT as nat,
                ),
            ),
    {
        self.eval_at(env, EVAL_DEPTH_LIMIT)
    }

    /// Parses a block: statements between braces, consumed greedily until
    /// one fails to parse, after which the closing brace is required.
    pub fn new(s: &str) -> (r: Result<(&str, Block), String>)
        ensures
            match sp_block(s@) {
                Ok((rem, g)) => r matches Ok(t) && t.0@ == rem && view_stmts(t.1.stmts@) == g,
                Err(m) => r matches Err(e) && e@ == m,
            },
            sp_block(s@) matches Ok(t) ==> t.0.len() < s@.len(),
        decreases s@.len(), 0int,
    {
        proof {
            reveal_strlit("{");
            reveal_strlit("}");
        }
        let s1 = match tag("{", s) {
            Ok(t) => t,
            Err(e) => {
                return Err(e);
            },
        };
        let (s2, _) = extract_whitespace(s1);
        proof {
            lemma_prefix_len(CharPred::SpaceNewline, s1@);
        }
        let (s3, stmts) = stmt_sequence(s2);
        let (s4, _) = extract_whitespace(s3);
        proof {
            lemma_prefix_len(CharPred::SpaceNewline, s3@);
        }
        let s5 = match tag("}", s4) {
            Ok(t) => t,
            Err(e) => {
                return Err(e);
            },
        };
        Ok((s5, Block { stmts }))
    }
}

} // verus!
