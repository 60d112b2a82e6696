//! The mathematical model of the syntax tree.
//!
//! `GExpr` and `GStmt` mirror the executable tree with names as `Seq<char>`
//! and child lists as `Seq`; contracts of the parsers and evaluators speak of
//! these.  `view_expr` and friends map an executable tree to its model, and
//! the `sz_*` functions give a structural measure used by the evaluator's
//! termination arguments.
use vstd::prelude::*;

use crate::binding_def::BindingDef;
use crate::expr::binding_usage::BindingUsage;
use crate::expr::block::Block;
use crate::expr::func_call::FuncCall;
use crate::expr::{Expr, Number, Op};
use crate::func_def::FuncDef;
use crate::stmt::Stmt;

verus! {

broadcast use vstd::std_specs::vec::group_vec_axioms;

/// Model of an expression.
pub enum GExpr {
    Number(i32),
    Operation { lhs: Box<GExpr>, rhs: Box<GExpr>, op: Op },
    FuncCall { callee: Seq<char>, args: Seq<GExpr> },
    BindingUsage(Seq<char>),
    Block(Seq<GStmt>),
}

/// Model of a statement.
pub enum GStmt {
    BindingDef { name: Seq<char>, value: GExpr },
    Expr(GExpr),
    FuncDef { name: Seq<char>, params: Seq<Seq<char>>, body: Box<GStmt> },
}

/// The views of a list of parameter names.
pub open spec fn names_view(s: Seq<String>) -> Seq<Seq<char>> {
    s.map_values(|x: String| x@)
}

/// Model of an executable expression.
pub open spec fn view_expr(e: Expr) -> GExpr
    decreases e,
{
    match e {
        Expr::Number(n) => GExpr::Number(n.0),
        Expr::Operation { lhs, rhs, op } => GExpr::Operation {
            lhs: Box::new(view_expr(*lhs)),
            rhs: Box::new(view_expr(*rhs)),
            op: op,
        },
        Expr::FuncCall(fc) => GExpr::FuncCall { callee: fc.callee@, args: view_exprs(fc.params@) },
        Expr::BindingUsage(bu) => GExpr::BindingUsage(bu.name@),
        Expr::Block(b) => GExpr::Block(view_stmts(b.stmts@)),
    }
}

/// Models of a list of expressions, elementwise.
pub open spec fn view_exprs(s: Seq<Expr>) -> Seq<GExpr>
    decreases s,
{
    if s.len() == 0 {
        Seq::empty()
    } else {
        seq![view_expr(s[0])] + view_exprs(s.drop_first())
    }
}

/// Model of an executable statement.
pub open spec fn view_stmt(st: Stmt) -> GStmt
    decreases st,
{
    match st {
        Stmt::BindingDef(bd) => GStmt::BindingDef { name: bd.name@, value: view_expr(bd.val) },
        Stmt::Expr(e) => GStmt::Expr(view_expr(e)),
        Stmt::FuncDef(fd) => GStmt::FuncDef {
            name: fd.name@,
            params: names_view(fd.params@),
            body: Box::new(view_stmt(*fd.body)),
        },
    }
}

/// Models of a list of statements, elementwise.
pub open spec fn view_stmts(s: Seq<Stmt>) -> Seq<GStmt>
    decreases s,
{
    if s.len() == 0 {
        Seq::empty()
    } else {
        seq![view_stmt(s[0])] + view_stmts(s.drop_first())
    }
}

/// `view_exprs` maps elementwise.
pub broadcast proof fn lemma_view_exprs(s: Seq<Expr>)
    ensures
        (#[trigger] view_exprs(s)).len() == s.len(),
        forall|i: int| 0 <= i < s.len() ==> view_exprs(s)[i] == view_expr(s[i]),
    decreases s.len(),
{
    if s.len() != 0 {
        lemma_view_exprs(s.drop_first());
    }
}

/// `view_stmts` maps elementwise.
pub broadcast proof fn lemma_view_stmts(s: Seq<Stmt>)
    ensures
        (#[trigger] view_stmts(s)).len() == s.len(),
        forall|i: int| 0 <= i < s.len() ==> view_stmts(s)[i] == view_stmt(s[i]),
    decreases s.len(),
{
    if s.len() != 0 {
        lemma_view_stmts(s.drop_first());
    }
}

/// Structural size of an expression; every proper part is strictly smaller.
pub open spec fn sz_expr(e: Expr) -> nat
    decreases e,
{
    match e {
        Expr::Number(_) => 1,
        Expr::Operation { lhs, rhs, op } => 1 + sz_expr(*lhs) + sz_expr(*rhs),
        Expr::FuncCall(fc) => 2 + sz_exprs(fc.params@),
        Expr::BindingUsage(_) => 2,
        Expr::Block(b) => 2 + sz_stmts(b.stmts@),
    }
}

/// Size of a list of expressions, strictly larger than each element's size.
pub open spec fn sz_exprs(s: Seq<Expr>) -> nat
    decreases s,
{
    if s.len() == 0 {
        0
    } else {
        1 + sz_expr(s[0]) + sz_exprs(s.drop_first())
    }
}

/// Structural size of a statement.
pub open spec fn sz_stmt(st: Stmt) -> nat
    decreases st,
{
    match st {
        Stmt::BindingDef(bd) => 2 + sz_expr(bd.val),
        Stmt::Expr(e) => 1 + sz_expr(e),
        Stmt::FuncDef(_) => 1,
    }
}

/// Size of a list of statements, strictly larger than each element's size.
pub open spec fn sz_stmts(s: Seq<Stmt>) -> nat
    decreases s,
{
    if s.len() == 0 {
        0
    } else {
        1 + sz_stmt(s[0]) + sz_stmts(s.drop_first())
    }
}

/// Each element of a list of expressions is strictly smaller than the list.
pub proof fn lemma_sz_exprs_elem(s: Seq<Expr>, i: int)
    requires
        0 <= i < s.len(),
    ensures
        sz_expr(s[i]) < sz_exprs(s),
    decreases s.len(),
{
    if i > 0 {
        lemma_sz_exprs_elem(s.drop_first(), i - 1);
    }
}

/// Each element of a list of statements is strictly smaller than the list.
pub proof fn lemma_sz_stmts_elem(s: Seq<Stmt>, i: int)
    requires
        0 <= i < s.len(),
    ensures
        sz_stmt(s[i]) < sz_stmts(s),
    decreases s.len(),
{
    if i > 0 {
        lemma_sz_stmts_elem(s.drop_first(), i - 1);
    }
}

} // verus!
