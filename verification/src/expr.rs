//! Expressions: numbers, binary operations, binding usages, function calls
//! and blocks.
use vstd::prelude::*;

pub mod binding_usage;
pub mod block;
pub mod func_call;

use crate::expr::binding_usage::BindingUsage;
use crate::expr::block::Block;
use crate::expr::func_call::FuncCall;
use crate::ast::sz_expr;
use crate::ast::view_expr;
use crate::env::Env;
use crate::semantics::apply_op;
use crate::semantics::eval_matches;
use crate::semantics::sp_eval_expr;
use crate::semantics::EVAL_DEPTH_LIMIT;
use crate::val::Val;
use crate::ast::GExpr;
use crate::grammar::digits_val;
use crate::grammar::sp_block;
use crate::grammar::sp_expr;
use crate::grammar::sp_non_op;
use crate::grammar::sp_operation;
use crate::grammar::lemma_digits_val_prefix_le;
use crate::grammar::sp_number;
use crate::grammar::sp_op;
use crate::utils::extract_digits;
use crate::utils::extract_whitespace;
use crate::utils::sp_extract_ident;
use crate::utils::sp_extract_digits;
use crate::utils::is_digit_char;
use crate::utils::lemma_prefix_len;
use crate::utils::tag;
use crate::utils::CharPred;
use vstd::string::StrSliceExecFns;
use vstd::string::StringExecFns;

verus! {

/// An integer literal.
#[derive(PartialEq, Eq, Structural, Clone, Copy, Debug)]
pub struct Number(pub i32);

impl Number {
    /// Parses a number: one or more digits whose value fits in an `i32`.
    /// A literal beyond `i32::MAX` is rejected rather than wrapped or
    /// truncated, so this parser never overflows.
    pub fn new(s: &str) -> (r: Result<(&str, Number), String>)
        ensures
            match sp_number(s@) {
                Ok((rem, v)) => r matches Ok(t) && t.0@ == rem && t.1.0 == v,
                Err(m) => r matches Err(e) && e@ == m,
            },
            sp_number(s@) matches Ok(t) ==> t.0.len() < s@.len(),
    {
        proof {
            lemma_prefix_len(CharPred::Digit, s@);
        }
        let (rest, digits) = match extract_digits(s) {
            Ok(t) => t,
            Err(e) => {
                return Err(e);
            },
        };
        proof {
            assert forall|k: int| 0 <= k < digits@.len() implies is_digit_char(digits@[k]) by {
                assert(digits@[k] == s@[k]);
            }
        }
        let dl = digits.unicode_len();
        let mut i: usize = 0;
        let mut acc: u64 = 0;
        while i < dl
            invariant
                i <= dl,
                dl == digits@.len(),
                sp_extract_digits(s@) matches Ok(t) && t.0 == rest@ && t.1 == digits@,
                forall|k: int| 0 <= k < dl ==> is_digit_char(digits@[k]),
                acc == digits_val(digits@.take(i as int)),
                acc <= i32::MAX,
            decreases dl - i,
        {
            let c = digits.get_char(i);
            let d = (c as u32) - 48;
            let next: u64 = acc * 10 + (d as u64);
            proof {
                assert(digits@.take(i + 1).drop_last() =~= digits@.take(i as int));
                assert(digits@.take(i + 1).last() == digits@[i as int]);
            }
            if next > 2147483647u64 {
                proof {
                    assert(next as int == digits_val(digits@.take(i + 1)));
                    lemma_digits_val_prefix_le(digits@, i + 1);
                    assert(digits_val(digits@) > i32::MAX);
                }
                return Err(String::from_str("number literal out of range"));
            }
            acc = next;
            i = i + 1;
        }
        proof {
            assert(digits@.take(dl as int) =~= digits@);
        }
        Ok((rest, Number(acc as i32)))
    }
}

/// One of the four binary operators.
#[derive(PartialEq, Eq, Structural, Debug, Clone, Copy)]
pub enum Op {
    Add,
    Sub,
    Mul,
    Div,
}

impl Op {
    /// Parses one operator character.  The four alternatives are tried in
    /// order and the failure of the last one, `/`, is the failure reported.
    pub fn new(s: &str) -> (r: Result<(&str, Op), String>)
        ensures
            match sp_op(s@) {
                Ok((rem, v)) => r matches Ok(t) && t.0@ == rem && t.1 == v,
                Err(m) => r matches Err(e) && e@ == m,
            },
            sp_op(s@) matches Ok(t) ==> t.0.len() < s@.len(),
    {
        proof {
            reveal_strlit("+");
            reveal_strlit("-");
            reveal_strlit("*");
            reveal_strlit("/");
        }
        match tag("+", s) {
            Ok(rest) => Ok((rest, Op::Add)),
            Err(_) => match tag("-", s) {
                Ok(rest) => Ok((rest, Op::Sub)),
                Err(_) => match tag("*", s) {
                    Ok(rest) => Ok((rest, Op::Mul)),
                    Err(_) => match tag("/", s) {
                        Ok(rest) => Ok((rest, Op::Div)),
                        Err(e) => Err(e),
                    },
                },
            },
        }
    }
}

/// An expression tree.  Each node exclusively owns its children; an
/// `Operation` holds one operator between two non-operation operands.
#[derive(Debug, PartialEq)]
pub enum Expr {
    Number(Number),
    Operation { lhs: Box<Expr>, rhs: Box<Expr>, op: Op },
    FuncCall(FuncCall),
    BindingUsage(BindingUsage),
    Block(Block),
}

impl Expr {
    /// Parses an expression: an operation if one can be parsed, otherwise a
    /// non-operation.
    pub fn new(s: &str) -> (r: Result<(&str, Expr), String>)
        ensures
            match sp_expr(s@) {
                Ok((rem, g)) => r matches Ok(t) && t.0@ == rem && view_expr(t.1) == g,
                Err(m) => r matches Err(e) && e@ == m,
            },
            sp_expr(s@) matches Ok(t) ==> t.0.len() < s@.len(),
        decreases s@.len(), 4int,
    {
        match Self::new_operation(s) {
            Ok(t) => Ok(t),
            Err(_) => Self::new_non_operation(s),
        }
    }

    /// Parses one of the non-operation forms: a number, a function call, a
    /// binding usage or a block, tried in that order.  The failure reported
    /// is the block's.
    fn new_non_operation(s: &str) -> (r: Result<(&str, Expr), String>)
        ensures
            match sp_non_op(s@) {
                Ok((rem, g)) => r matches Ok(t) && t.0@ == rem && view_expr(t.1) == g,
                Err(m) => r matches Err(e) && e@ == m,
            },
            sp_non_op(s@) matches Ok(t) ==> t.0.len() < s@.len(),
        decreases s@.len(), 2int,
    {
        match Self::new_number(s) {
            Ok(t) => Ok(t),
            Err(_) => match FuncCall::new(s) {
                Ok((rest, func_call)) => Ok((rest, Expr::FuncCall(func_call))),
                Err(_) => match Self::new_binding_usage(s) {
                    Ok(t) => Ok(t),
                    Err(_) => Self::new_block(s),
                },
            },
        }
    }

    /// Parses an operation: a non-operation operand, an operator and a
    /// second non-operation operand, with optional whitespace around the
    /// operator.
    pub fn new_operation(s: &str) -> (r: Result<(&str, Expr), String>)
        ensures
            match sp_operation(s@) {
                Ok((rem, g)) => r matches Ok(t) && t.0@ == rem && view_expr(t.1) == g,
                Err(m) => r matches Err(e) && e@ == m,
            },
            sp_operation(s@) matches Ok(t) ==> t.0.len() < s@.len(),
        decreases s@.len(), 3int,
    {
        let (s1, lhs) = match Self::new_non_operation(s) {
            Ok(t) => t,
            Err(e) => {
                return Err(e);
            },
        };
        let (s2, _) = extract_whitespace(s1);
        proof {
            lemma_prefix_len(CharPred::SpaceNewline, s1@);
        }
        let (s3, op) = match Op::new(s2) {
            Ok(t) => t,
            Err(e) => {
                return Err(e);
            },
        };
        let (s4, _) = extract_whitespace(s3);
        proof {
            lemma_prefix_len(CharPred::SpaceNewline, s3@);
        }
        let (s5, rhs) = match Self::new_non_operation(s4) {
            Ok(t) => t,
            Err(e) => {
                return Err(e);
            },
        };
        Ok((s5, Expr::Operation { lhs: Box::new(lhs), rhs: Box::new(rhs), op }))
    }

    /// Parses a number as an expression.
    pub fn new_number(s: &str) -> (r: Result<(&str, Expr), String>)
        ensures
            match sp_number(s@) {
                Ok((rem, v)) => r matches Ok(t) && t.0@ == rem && view_expr(t.1)
                    == GExpr::Number(v),
                Err(m) => r matches Err(e) && e@ == m,
            },
            sp_number(s@) matches Ok(t) ==> t.0.len() < s@.len(),
    {
        match Number::new(s) {
            Ok((rest, number)) => Ok((rest, Expr::Number(number))),
            Err(e) => Err(e),
        }
    }

    /// Parses a block as an expression.
    pub fn new_block(s: &str) -> (r: Result<(&str, Expr), String>)
        ensures
            match sp_block(s@) {
                Ok((rem, g)) => r matches Ok(t) && t.0@ == rem && view_expr(t.1)
                    == GExpr::Block(g),
                Err(m) => r matches Err(e) && e@ == m,
            },
            sp_block(s@) matches Ok(t) ==> t.0.len() < s@.len(),
        decreases s@.len(), 1int,
    {
        match Block::new(s) {
            Ok((rest, block)) => Ok((rest, Expr::Block(block))),
            Err(e) => Err(e),
        }
    }

    /// Parses a binding usage as an expression.
    pub fn new_binding_usage(s: &str) -> (r: Result<(&str, Expr), String>)
        ensures
            match sp_extract_ident(s@) {
                Ok((rem, id)) => r matches Ok(t) && t.0@ == rem && view_expr(t.1)
                    == GExpr::BindingUsage(id),
                Err(m) => r matches Err(e) && e@ == m,
            },
            sp_extract_ident(s@) matches Ok(t) ==> t.0.len() < s@.len(),
    {
        match BindingUsage::new(s) {
            Ok((rest, binding_usage)) => Ok((rest, Expr::BindingUsage(binding_usage))),
            Err(e) => Err(e),
        }
    }
}

/// Applies one operator to two values, as the model does: non-numeric
/// operands, division by zero and results outside the `i32` range fail with
/// a message; verified code never panics on them.
fn apply_op_exec(op: Op, lv: Val, rv: Val) -> (r: Result<Val, String>)
    ensures
        eval_matches(r, apply_op(op, lv, rv)),
{
    match (lv, rv) {
        (Val::Number(a), Val::Number(b)) => match op {
            Op::Add => match a.checked_add(b) {
                Some(c) => Ok(Val::Number(c)),
                None => Err(String::from_str("numeric overflow")),
            },
            Op::Sub => match a.checked_sub(b) {
                Some(c) => Ok(Val::Number(c)),
                None => Err(String::from_str("numeric overflow")),
            },
            Op::Mul => match a.checked_mul(b) {
                Some(c) => Ok(Val::Number(c)),
                None => Err(String::from_str("numeric overflow")),
            },
            Op::Div => if b == 0 {
                Err(String::from_str("division by zero"))
            } else {
                match a.checked_div(b) {
                    Some(c) => Ok(Val::Number(c)),
                    None => Err(String::from_str("numeric overflow")),
                }
            },
        },
        _ => Err(String::from_str("cannot evaluate operation whose operands are not numbers")),
    }
}

impl Expr {
    /// Evaluates this expression with an explicit bound on nested calls.
    pub(crate) fn eval_at(&self, env: &Env, depth: u64) -> (r: Result<Val, String>)
        ensures
            eval_matches(r, sp_eval_expr(view_expr(*self), env@, depth as nat)),
        decreases depth, sz_expr(*self), 0int,
    {
        match self {
            Expr::Number(n) => Ok(Val::Number(n.0)),
            Expr::Operation { lhs, rhs, op } => {
                let lv = match (**lhs).eval_at(env, depth) {
                    Ok(v) => v,
                    Err(e) => {
                        return Err(e);
                    },
                };
                let rv = match (**rhs).eval_at(env, depth) {
                    Ok(v) => v,
                    Err(e) => {
                        return Err(e);
                    },
                };
                apply_op_exec(*op, lv, rv)
            },
            Expr::FuncCall(fc) => fc.eval_at(env, depth),
            Expr::BindingUsage(bu) => bu.eval_at(env, depth),
            Expr::Block(b) => b.eval_at(env, depth),
        }
    }

    /// Evaluates this expression in the given environment.  The result is
    /// exactly what the evaluation model yields, at the default call-depth
    /// bound.
    pub fn eval(&self, env: &Env) -> (r: Result<Val, String>)
        ensures
            eval_matches(r, sp_eval_expr(view_expr(*self), env@, EVAL_DEPTH_LIMIT as nat)),
    {
        self.eval_at(env, EVAL_DEPTH_LIMIT)
    }
}

impl Clone for Expr {
    /// A deep copy whose model is that of the original.
    fn clone(&self) -> (res: Self)
        ensures
            view_expr(res) == view_expr(*self),
        decreases *self,
    {
        match self {
            Expr::Number(n) => Expr::Number(*n),
            Expr::Operation { lhs, rhs, op } => Expr::Operation {
                lhs: Box::new((**lhs).clone()),
                rhs: Box::new((**rhs).clone()),
                op: *op,
            },
            Expr::FuncCall(fc) => Expr::FuncCall(fc.clone()),
            Expr::BindingUsage(bu) => Expr::BindingUsage(bu.clone()),
            Expr::Block(b) => Expr::Block(b.clone()),
        }
    }
}

} // verus!
