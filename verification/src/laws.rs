//! Properties of the grammar and of evaluation, stated and proved over the
//! models that the library's contracts use.
use vstd::prelude::*;

use crate::ast::{GExpr, GStmt};
use crate::grammar::sp_expr;
use crate::grammar::sp_non_op;
use crate::grammar::sp_operation;
use crate::semantics::empty_frame;
use crate::semantics::lookup_binding;
use crate::semantics::lookup_func;
use crate::semantics::sp_eval_stmt;
use crate::semantics::store_binding_env;
use crate::semantics::store_func_env;
use crate::semantics::GFrame;
use crate::semantics::GFun;
use crate::val::Val;

verus! {

/// A non-operation parse never yields an operation node.
pub proof fn lemma_non_op_shape(s: Seq<char>)
    ensures
        sp_non_op(s) matches Ok(t) ==> !(t.1 is Operation),
{
}

/// The grammar has a single infix level: both operands of a parsed
/// operation are non-operations, so `1+2*3` cannot parse as one expression.
pub proof fn lemma_single_level_infix(s: Seq<char>)
    ensures
        sp_expr(s) matches Ok(t) ==> (t.1 matches GExpr::Operation { lhs, rhs, op } ==> !(*lhs
            is Operation) && !(*rhs is Operation)),
{
    lemma_non_op_shape(s);
    if sp_operation(s) is Ok {
        assert(sp_expr(s) == sp_operation(s));
    } else {
        assert(sp_expr(s) == sp_non_op(s));
    }
    match sp_non_op(s) {
        Ok((r0, _)) => {
            let r1 = crate::utils::sp_extract_ws(r0).0;
            match crate::grammar::sp_op(r1) {
                Ok((r2, _)) => {
                    let r3 = crate::utils::sp_extract_ws(r2).0;
                    lemma_non_op_shape(r3);
                },
                Err(_) => {},
            }
        },
        Err(_) => {},
    }
}

/// Evaluating a statement can change the innermost scope frame only: every
/// outer frame is exactly what it was.  A child scope never mutates its
/// parent.
pub proof fn lemma_stmt_keeps_outer_frames(st: GStmt, env: Seq<GFrame>, depth: nat)
    requires
        env.len() > 0,
    ensures
        sp_eval_stmt(st, env, depth) matches Ok(t) ==> t.0.len() == env.len() && (forall|i: int|
            0 <= i < env.len() - 1 ==> t.0[i] == env[i]),
{
}

/// Evaluating a bare expression statement, a block in particular, leaves the
/// environment exactly as it was: a binding defined inside a block is
/// invisible once the block ends.
pub proof fn lemma_expr_stmt_keeps_env(e: GExpr, env: Seq<GFrame>, depth: nat)
    ensures
        sp_eval_stmt(GStmt::Expr(e), env, depth) matches Ok(t) ==> t.0 == env,
{
}

/// The fresh frame a nested scope evaluates in hides nothing: a name with no
/// binding there resolves exactly as in the surrounding environment, so a
/// nested block may read the bindings of the outer scopes.
pub proof fn lemma_child_reads_parent(env: Seq<GFrame>, n: Seq<char>)
    ensures
        lookup_binding(env.push(empty_frame()), n) == lookup_binding(env, n),
{
    assert(env.push(empty_frame()).drop_last() =~= env);
}

/// Last write wins: after a value is stored under a name, looking the name
/// up yields exactly that value, and every other name resolves as before.
pub proof fn lemma_store_binding_then_lookup(env: Seq<GFrame>, n: Seq<char>, v: Val)
    requires
        env.len() > 0,
    ensures
        lookup_binding(store_binding_env(env, n, v), n) == Some(v),
        forall|m: Seq<char>|
            m != n ==> lookup_binding(store_binding_env(env, n, v), m) == lookup_binding(env, m),
{
    let env2 = store_binding_env(env, n, v);
    assert(env2.drop_last() =~= env.drop_last());
    assert forall|m: Seq<char>| m != n implies lookup_binding(env2, m) == lookup_binding(
        env,
        m,
    ) by {
        assert(env2.last().bindings.contains_key(m) == env.last().bindings.contains_key(m));
    }
}

/// Storing a function leaves every binding, and every other function, as it
/// was; looking the function's name up yields exactly what was stored.
pub proof fn lemma_store_func_then_lookup(env: Seq<GFrame>, n: Seq<char>, f: GFun)
    requires
        env.len() > 0,
    ensures
        lookup_func(store_func_env(env, n, f), n) == Some(f),
        forall|m: Seq<char>|
            m != n ==> lookup_func(store_func_env(env, n, f), m) == lookup_func(env, m),
        forall|m: Seq<char>|
            lookup_binding(store_func_env(env, n, f), m) == lookup_binding(env, m),
{
    let env2 = store_func_env(env, n, f);
    assert(env2.drop_last() =~= env.drop_last());
    assert forall|m: Seq<char>| m != n implies lookup_func(env2, m) == lookup_func(env, m) by {
        assert(env2.last().funcs.contains_key(m) == env.last().funcs.contains_key(m));
    }
    assert forall|m: Seq<char>| lookup_binding(env2, m) == lookup_binding(env, m) by {
        assert(env2.last().bindings =~= env.last().bindings);
    }
}

/// How an executable outcome is held to the statement model; the shape of
/// `Parse::eval`'s contract.
pub open spec fn stmt_outcome_matches(
    r: Result<Val, String>,
    st: GStmt,
    env: Seq<GFrame>,
    depth: nat,
) -> bool {
    match sp_eval_stmt(st, env, depth) {
        Ok((ge, v)) => r matches Ok(rv) && rv == v,
        Err(m) => r matches Err(e) && e@ == m,
    }
}

/// Determinism: two evaluations of the same parsed tree against equal
/// environments, two fresh default environments in particular, yield
/// identical outcomes.  There is no hidden state: the model is a function of
/// the tree, the environment and the depth bound alone.
pub proof fn lemma_eval_deterministic(
    st: GStmt,
    env1: Seq<GFrame>,
    env2: Seq<GFrame>,
    depth: nat,
    r1: Result<Val, String>,
    r2: Result<Val, String>,
)
    requires
        env1 == env2,
        stmt_outcome_matches(r1, st, env1, depth),
        stmt_outcome_matches(r2, st, env2, depth),
    ensures
        match (r1, r2) {
            (Ok(v1), Ok(v2)) => v1 == v2,
            (Err(e1), Err(e2)) => e1@ == e2@,
            _ => false,
        },
{
}

} // verus!
