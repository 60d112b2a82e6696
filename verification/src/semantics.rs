//! The mathematical model of evaluation.
//!
//! An environment is modelled as a sequence of scope frames, innermost last;
//! each frame maps names to bound values and to stored functions.  One spec
//! function per syntactic form says what evaluating it yields: either a value
//! (and, for statements, the updated environment) or a failure message.
//!
//! Two policies are part of this model, chosen because verified code may not
//! crash where the grammar leaves the behaviour open: arithmetic that leaves
//! the `i32` range or divides by zero fails with a message instead of
//! panicking, and the nesting of function calls is bounded by an explicit
//! depth so that runaway user recursion fails gracefully instead of
//! exhausting the call stack.
use vstd::prelude::*;

use crate::ast::{GExpr, GStmt};
use crate::expr::Op;
use crate::utils::dec_str;
use crate::val::Val;

verus! {

/// Model of a stored function: its parameter names and its body.
pub struct GFun {
    pub params: Seq<Seq<char>>,
    pub body: GStmt,
}

/// Model of one scope frame.
pub struct GFrame {
    pub bindings: Map<Seq<char>, Val>,
    pub funcs: Map<Seq<char>, GFun>,
}

/// A frame with nothing in it.
pub open spec fn empty_frame() -> GFrame {
    GFrame { bindings: Map::empty(), funcs: Map::empty() }
}

/// The model of a fresh default environment: one empty frame.
pub open spec fn default_env() -> Seq<GFrame> {
    seq![empty_frame()]
}

/// Looks a binding up, innermost frame first.
pub open spec fn lookup_binding(env: Seq<GFrame>, n: Seq<char>) -> Option<Val>
    decreases env.len(),
{
    if env.len() == 0 {
        None
    } else if env.last().bindings.contains_key(n) {
        Some(env.last().bindings[n])
    } else {
        lookup_binding(env.drop_last(), n)
    }
}

/// Looks a function up, innermost frame first.
pub open spec fn lookup_func(env: Seq<GFrame>, n: Seq<char>) -> Option<GFun>
    decreases env.len(),
{
    if env.len() == 0 {
        None
    } else if env.last().funcs.contains_key(n) {
        Some(env.last().funcs[n])
    } else {
        lookup_func(env.drop_last(), n)
    }
}

/// Stores a binding in the innermost frame, overwriting an earlier binding
/// of the same name there.
pub open spec fn store_binding_env(env: Seq<GFrame>, n: Seq<char>, v: Val) -> Seq<GFrame>
    recommends
        env.len() > 0,
{
    env.update(
        env.len() - 1,
        GFrame { bindings: env.last().bindings.insert(n, v), funcs: env.last().funcs },
    )
}

/// Stores a function in the innermost frame, overwriting an earlier function
/// of the same name there.
pub open spec fn store_func_env(env: Seq<GFrame>, n: Seq<char>, f: GFun) -> Seq<GFrame>
    recommends
        env.len() > 0,
{
    env.update(
        env.len() - 1,
        GFrame { bindings: env.last().bindings, funcs: env.last().funcs.insert(n, f) },
    )
}

/// The failure message for a name with no binding.
pub open spec fn msg_undefined_binding(n: Seq<char>) -> Seq<char> {
    "binding with name '"@ + n + "' does not exist"@
}

/// The failure message for a name with no function.
pub open spec fn msg_undefined_func(n: Seq<char>) -> Seq<char> {
    "function with name '"@ + n + "' does not exist."@
}

/// The failure message for a call whose argument count differs from the
/// function's parameter count.
pub open spec fn msg_arity(expected: nat, actual: nat) -> Seq<char> {
    "expected "@ + dec_str(expected) + " parameters, got "@ + dec_str(actual)
}

/// The failure message for an operation on a non-numeric operand.
pub open spec fn msg_non_numeric() -> Seq<char> {
    "cannot evaluate operation whose operands are not numbers"@
}

/// The failure message for a division by zero.
pub open spec fn msg_div_by_zero() -> Seq<char> {
    "division by zero"@
}

/// The failure message for arithmetic that leaves the `i32` range.
pub open spec fn msg_overflow() -> Seq<char> {
    "numeric overflow"@
}

/// The failure message when nested function calls exceed the depth bound.
pub open spec fn msg_depth() -> Seq<char> {
    "call depth limit exceeded"@
}

/// Applies one operator to two values.  Both operands must be numbers; the
/// result must stay in the `i32` range; division by zero fails.
pub open spec fn apply_op(op: Op, lv: Val, rv: Val) -> Result<Val, Seq<char>> {
    match (lv, rv) {
        (Val::Number(a), Val::Number(b)) => match op {
            Op::Add => match a.checked_add(b) {
                Some(c) => Ok(Val::Number(c)),
                None => Err(msg_overflow()),
            },
            Op::Sub => match a.checked_sub(b) {
                Some(c) => Ok(Val::Number(c)),
                None => Err(msg_overflow()),
            },
            Op::Mul => match a.checked_mul(b) {
                Some(c) => Ok(Val::Number(c)),
                None => Err(msg_overflow()),
            },
            Op::Div => if b == 0 {
                Err(msg_div_by_zero())
            } else {
                match a.checked_div(b) {
                    Some(c) => Ok(Val::Number(c)),
                    None => Err(msg_overflow()),
                }
            },
        },
        _ => Err(msg_non_numeric()),
    }
}

/// Structural size of a model expression, for termination measures.
pub open spec fn gsz_expr(e: GExpr) -> nat
    decreases e,
{
    match e {
        GExpr::Number(_) => 1,
        GExpr::Operation { lhs, rhs, op } => 1 + gsz_expr(*lhs) + gsz_expr(*rhs),
        GExpr::FuncCall { callee, args } => 2 + gsz_exprs(args),
        GExpr::BindingUsage(_) => 2,
        GExpr::Block(stmts) => 2 + gsz_stmts(stmts),
    }
}

/// Size of a list of model expressions, strictly above each element's size.
pub open spec fn gsz_exprs(s: Seq<GExpr>) -> nat
    decreases s,
{
    if s.len() == 0 {
        0
    } else {
        1 + gsz_expr(s[0]) + gsz_exprs(s.drop_first())
    }
}

/// Structural size of a model statement.
pub open spec fn gsz_stmt(st: GStmt) -> nat
    decreases st,
{
    match st {
        GStmt::BindingDef { name, value } => 2 + gsz_expr(value),
        GStmt::Expr(e) => 1 + gsz_expr(e),
        GStmt::FuncDef { name, params, body } => 1,
    }
}

/// Size of a list of model statements, strictly above each element's size.
pub open spec fn gsz_stmts(s: Seq<GStmt>) -> nat
    decreases s,
{
    if s.len() == 0 {
        0
    } else {
        1 + gsz_stmt(s[0]) + gsz_stmts(s.drop_first())
    }
}

/// Binds parameter names to argument values, left to right, in the
/// innermost frame.
pub open spec fn bind_params(env: Seq<GFrame>, names: Seq<Seq<char>>, vals: Seq<Val>) -> Seq<GFrame>
    recommends
        names.len() == vals.len(),
    decreases names.len(),
{
    if names.len() == 0 {
        env
    } else {
        bind_params(
            store_binding_env(env, names[0], vals[0]),
            names.drop_first(),
            vals.drop_first(),
        )
    }
}

/// What evaluating an expression yields, in the given environment.
/// Expressions never change the environment they are given.
pub open spec fn sp_eval_expr(e: GExpr, env: Seq<GFrame>, depth: nat) -> Result<Val, Seq<char>>
    decreases depth, gsz_expr(e), 0int,
{
    match e {
        GExpr::Number(n) => Ok(Val::Number(n)),
        GExpr::Operation { lhs, rhs, op } => match sp_eval_expr(*lhs, env, depth) {
            Err(m) => Err(m),
            Ok(lv) => match sp_eval_expr(*rhs, env, depth) {
                Err(m) => Err(m),
                Ok(rv) => apply_op(op, lv, rv),
            },
        },
        GExpr::FuncCall { callee, args } => sp_eval_call(callee, args, env, depth),
        GExpr::BindingUsage(n) => match lookup_binding(env, n) {
            Some(v) => Ok(v),
            None => match lookup_func(env, n) {
                Some(f) => if f.params.len() == 0 {
                    sp_eval_call(n, Seq::empty(), env, depth)
                } else {
                    Err(msg_undefined_binding(n))
                },
                None => Err(msg_undefined_binding(n)),
            },
        },
        GExpr::Block(stmts) => if stmts.len() == 0 {
            Ok(Val::Unit)
        } else {
            match sp_eval_stmts(stmts, env.push(empty_frame()), depth) {
                Ok((_, v)) => Ok(v),
                Err(m) => Err(m),
            }
        },
    }
}

/// What calling a function yields: the callee is resolved in the caller's
/// environment, the argument count must equal the parameter count, every
/// argument is evaluated in one fresh child frame before any parameter is
/// bound, and the body then runs with the parameters bound in that frame.
pub open spec fn sp_eval_call(
    callee: Seq<char>,
    args: Seq<GExpr>,
    env: Seq<GFrame>,
    depth: nat,
) -> Result<Val, Seq<char>>
    decreases depth, gsz_exprs(args), 1int,
{
    match lookup_func(env, callee) {
        None => Err(msg_undefined_func(callee)),
        Some(f) => if f.params.len() != args.len() {
            Err(msg_arity(f.params.len(), args.len()))
        } else {
            let child = env.push(empty_frame());
            match sp_eval_args(args, child, depth) {
                Err(m) => Err(m),
                Ok(vals) => if depth == 0 {
                    Err(msg_depth())
                } else {
                    match sp_eval_stmt(f.body, bind_params(child, f.params, vals), (depth - 1) as nat) {
                        Ok((_, v)) => Ok(v),
                        Err(m) => Err(m),
                    }
                },
            }
        },
    }
}

/// The values of a list of argument expressions, evaluated left to right,
/// stopping at the first failure.
pub open spec fn sp_eval_args(args: Seq<GExpr>, env: Seq<GFrame>, depth: nat) -> Result<
    Seq<Val>,
    Seq<char>,
>
    decreases depth, gsz_exprs(args), 0int,
{
    if args.len() == 0 {
        Ok(Seq::empty())
    } else {
        match sp_eval_expr(args[0], env, depth) {
            Err(m) => Err(m),
            Ok(v) => match sp_eval_args(args.drop_first(), env, depth) {
                Err(m) => Err(m),
                Ok(rest) => Ok(seq![v] + rest),
            },
        }
    }
}

/// What evaluating a statement yields: the updated environment and a value.
/// A definition writes into the innermost frame and yields the unit value; a
/// bare expression leaves the environment unchanged.
pub open spec fn sp_eval_stmt(st: GStmt, env: Seq<GFrame>, depth: nat) -> Result<
    (Seq<GFrame>, Val),
    Seq<char>,
>
    decreases depth, gsz_stmt(st), 0int,
{
    match st {
        GStmt::BindingDef { name, value } => match sp_eval_expr(value, env, depth) {
            Err(m) => Err(m),
            Ok(v) => Ok((store_binding_env(env, name, v), Val::Unit)),
        },
        GStmt::Expr(e) => match sp_eval_expr(e, env, depth) {
            Ok(v) => Ok((env, v)),
            Err(m) => Err(m),
        },
        GStmt::FuncDef { name, params, body } => Ok(
            (store_func_env(env, name, GFun { params, body: *body }), Val::Unit),
        ),
    }
}

/// Evaluates statements in order, threading the environment through; the
/// last statement's value is the result, and an empty list yields unit.
pub open spec fn sp_eval_stmts(sts: Seq<GStmt>, env: Seq<GFrame>, depth: nat) -> Result<
    (Seq<GFrame>, Val),
    Seq<char>,
>
    decreases depth, gsz_stmts(sts), 0int,
{
    if sts.len() == 0 {
        Ok((env, Val::Unit))
    } else {
        match sp_eval_stmt(sts[0], env, depth) {
            Err(m) => Err(m),
            Ok((env2, v)) => if sts.len() == 1 {
                Ok((env2, v))
            } else {
                sp_eval_stmts(sts.drop_first(), env2, depth)
            },
        }
    }
}

/// The bound on nested function calls that the executable evaluator runs
/// with.  Exceeding it fails gracefully instead of exhausting the call
/// stack.
pub const EVAL_DEPTH_LIMIT: u64 = 64;

/// Argument lists whose members each evaluate to a value evaluate to the
/// list of those values.
pub proof fn lemma_eval_args_ok(args: Seq<GExpr>, env: Seq<GFrame>, depth: nat, vals: Seq<Val>)
    requires
        vals.len() == args.len(),
        forall|k: int| 0 <= k < args.len() ==> sp_eval_expr(args[k], env, depth) == Ok::<
            Val,
            Seq<char>,
        >(vals[k]),
    ensures
        sp_eval_args(args, env, depth) == Ok::<Seq<Val>, Seq<char>>(vals),
    decreases args.len(),
{
    if args.len() > 0 {
        lemma_eval_args_ok(args.drop_first(), env, depth, vals.drop_first());
        assert(vals =~= seq![vals[0]] + vals.drop_first());
    } else {
        assert(vals =~= Seq::<Val>::empty());
    }
}

/// An argument list fails with the message of its first failing member.
pub proof fn lemma_eval_args_err(
    args: Seq<GExpr>,
    env: Seq<GFrame>,
    depth: nat,
    i: int,
    m: Seq<char>,
)
    requires
        0 <= i < args.len(),
        forall|k: int| 0 <= k < i ==> sp_eval_expr(args[k], env, depth) is Ok,
        sp_eval_expr(args[i], env, depth) == Err::<Val, Seq<char>>(m),
    ensures
        sp_eval_args(args, env, depth) == Err::<Seq<Val>, Seq<char>>(m),
    decreases args.len(),
{
    if i > 0 {
        lemma_eval_args_err(args.drop_first(), env, depth, i - 1, m);
    }
}

/// How an executable evaluation result is held to its model: values agree,
/// and a failure carries exactly the modelled message.
pub open spec fn eval_matches(r: Result<Val, String>, m: Result<Val, Seq<char>>) -> bool {
    match m {
        Ok(v) => r matches Ok(rv) && rv == v,
        Err(msg) => r matches Err(e) && e@ == msg,
    }
}

} // verus!
