//! The grammar as a mathematical model: one spec function per production,
//! over views of the input.
//!
//! Each production takes the remaining input and returns either the new
//! remaining input with the parsed model node, or the failure message.
//! Alternatives are ordered; the first success wins and sibling failures are
//! discarded.  Repetitions are greedy and stop at the first failure.
//!
//! Every production that succeeds consumes at least one character.  The
//! definitions below branch on that where the termination measure needs it;
//! the executable parsers prove that those branches are the ones taken.
use vstd::prelude::*;

use crate::ast::{GExpr, GStmt};
use crate::expr::Op;
use crate::utils::msg_expected;
use crate::utils::prefix_len;
use crate::utils::sp_extract_digits;
use crate::utils::sp_extract_ident;
use crate::utils::sp_extract_ws;
use crate::utils::sp_extract_ws1;
use crate::utils::sp_tag;
use crate::utils::CharPred;

verus! {

broadcast use crate::utils::lemma_prefix_len;

/// The value of one digit character.
pub open spec fn digit_val_char(c: char) -> nat {
    (c as u32 - 48) as nat
}

/// The value of a digit string read in base ten.
pub open spec fn digits_val(d: Seq<char>) -> nat
    decreases d.len(),
{
    if d.len() == 0 {
        0
    } else {
        digits_val(d.drop_last()) * 10 + digit_val_char(d.last())
    }
}

/// The value of a digit string bounds the value of each of its prefixes.
pub proof fn lemma_digits_val_prefix_le(d: Seq<char>, i: int)
    requires
        0 <= i <= d.len(),
    ensures
        digits_val(d.take(i)) <= digits_val(d),
    decreases d.len() - i,
{
    if i < d.len() {
        assert(d.take(i + 1).drop_last() =~= d.take(i));
        assert(d.take(i + 1).last() == d[i]);
        assert(digits_val(d.take(i)) * 10 >= digits_val(d.take(i)));
        lemma_digits_val_prefix_le(d, i + 1);
    } else {
        assert(d.take(i) =~= d);
    }
}

/// `number := digit+`, with the value required to fit in an `i32`.
/// A literal beyond `i32::MAX` is rejected rather than wrapped.
pub open spec fn sp_number(s: Seq<char>) -> Result<(Seq<char>, i32), Seq<char>> {
    match sp_extract_digits(s) {
        Err(m) => Err(m),
        Ok((r, d)) => if digits_val(d) <= i32::MAX {
            Ok((r, digits_val(d) as i32))
        } else {
            Err("number literal out of range"@)
        },
    }
}

/// `op := "+" | "-" | "*" | "/"`, tried in that order; the failure of the
/// last alternative is the one reported.
pub open spec fn sp_op(s: Seq<char>) -> Result<(Seq<char>, Op), Seq<char>> {
    match sp_tag("+"@, s) {
        Ok(r) => Ok((r, Op::Add)),
        Err(_) => match sp_tag("-"@, s) {
            Ok(r) => Ok((r, Op::Sub)),
            Err(_) => match sp_tag("*"@, s) {
                Ok(r) => Ok((r, Op::Mul)),
                Err(_) => match sp_tag("/"@, s) {
                    Ok(r) => Ok((r, Op::Div)),
                    Err(m) => Err(m),
                },
            },
        },
    }
}

/// Zero or more identifiers separated by optional whitespace, greedy.
pub open spec fn sp_ident_seq(s: Seq<char>) -> (Seq<char>, Seq<Seq<char>>)
    decreases s.len(),
{
    match sp_extract_ident(s) {
        Err(_) => (s, Seq::empty()),
        Ok((r0, id)) => {
            let r1 = sp_extract_ws(r0).0;
            if r1.len() < s.len() {
                let (r2, rest) = sp_ident_seq(r1);
                (r2, seq![id] + rest)
            } else {
                // never reached: an identifier consumes at least one character
                (s, Seq::empty())
            }
        },
    }
}

/// `stmt := func_def | binding_def | expr`.
pub open spec fn sp_stmt(s: Seq<char>) -> Result<(Seq<char>, GStmt), Seq<char>>
    decreases s.len(), 5int,
{
    match sp_func_def(s) {
        Ok(t) => Ok(t),
        Err(_) => match sp_binding_def(s) {
            Ok(t) => Ok(t),
            Err(_) => match sp_expr(s) {
                Ok((r, e)) => Ok((r, GStmt::Expr(e))),
                Err(m) => Err(m),
            },
        },
    }
}

/// `func_def := "fn" WS+ ident WS* (ident WS*)* "=>" WS* stmt`.
pub open spec fn sp_func_def(s: Seq<char>) -> Result<(Seq<char>, GStmt), Seq<char>>
    decreases s.len(), 0int,
{
    match sp_tag("fn"@, s) {
        Err(m) => Err(m),
        Ok(r0) => match sp_extract_ws1(r0) {
            Err(m) => Err(m),
            Ok((r1, _)) => match sp_extract_ident(r1) {
                Err(m) => Err(m),
                Ok((r2, name)) => {
                    let r3 = sp_extract_ws(r2).0;
                    let (r4, params) = sp_ident_seq(r3);
                    match sp_tag("=>"@, r4) {
                        Err(m) => Err(m),
                        Ok(r5) => {
                            let r6 = sp_extract_ws(r5).0;
                            if r6.len() < s.len() {
                                match sp_stmt(r6) {
                                    Ok((r7, body)) => Ok(
                                        (
                                            r7,
                                            GStmt::FuncDef {
                                                name,
                                                params,
                                                body: Box::new(body),
                                            },
                                        ),
                                    ),
                                    Err(m) => Err(m),
                                }
                            } else {
                                // never reached: `fn` and the whitespace after it
                                // consume at least three characters
                                Err(msg_expected("=>"@))
                            }
                        },
                    }
                },
            },
        },
    }
}

/// `binding_def := "let" WS+ ident WS* "=" WS* expr`.
pub open spec fn sp_binding_def(s: Seq<char>) -> Result<(Seq<char>, GStmt), Seq<char>>
    decreases s.len(), 0int,
{
    match sp_tag("let"@, s) {
        Err(m) => Err(m),
        Ok(r0) => match sp_extract_ws1(r0) {
            Err(m) => Err(m),
            Ok((r1, _)) => match sp_extract_ident(r1) {
                Err(m) => Err(m),
                Ok((r2, name)) => {
                    let r3 = sp_extract_ws(r2).0;
                    match sp_tag("="@, r3) {
                        Err(m) => Err(m),
                        Ok(r4) => {
                            let r5 = sp_extract_ws(r4).0;
                            match sp_expr(r5) {
                                Ok((r6, value)) => Ok((r6, GStmt::BindingDef { name, value })),
                                Err(m) => Err(m),
                            }
                        },
                    }
                },
            },
        },
    }
}

/// `expr := operation | non_operation`.
pub open spec fn sp_expr(s: Seq<char>) -> Result<(Seq<char>, GExpr), Seq<char>>
    decreases s.len(), 3int,
{
    match sp_operation(s) {
        Ok(t) => Ok(t),
        Err(_) => sp_non_op(s),
    }
}

/// `operation := non_operation WS* op WS* non_operation`: exactly one infix
/// level, each operand a non-operation.
pub open spec fn sp_operation(s: Seq<char>) -> Result<(Seq<char>, GExpr), Seq<char>>
    decreases s.len(), 2int,
{
    match sp_non_op(s) {
        Err(m) => Err(m),
        Ok((r0, lhs)) => {
            let r1 = sp_extract_ws(r0).0;
            match sp_op(r1) {
                Err(m) => Err(m),
                Ok((r2, op)) => {
                    let r3 = sp_extract_ws(r2).0;
                    if r3.len() <= s.len() {
                        match sp_non_op(r3) {
                            Err(m) => Err(m),
                            Ok((r4, rhs)) => Ok(
                                (
                                    r4,
                                    GExpr::Operation {
                                        lhs: Box::new(lhs),
                                        rhs: Box::new(rhs),
                                        op,
                                    },
                                ),
                            ),
                        }
                    } else {
                        // never reached: parsing only shrinks the input
                        Err(msg_expected("/"@))
                    }
                },
            }
        },
    }
}

/// `non_operation := number | func_call | binding_usage | block`, tried in
/// that order; the failure of the last alternative is the one reported.
pub open spec fn sp_non_op(s: Seq<char>) -> Result<(Seq<char>, GExpr), Seq<char>>
    decreases s.len(), 1int,
{
    match sp_number(s) {
        Ok((r, n)) => Ok((r, GExpr::Number(n))),
        Err(_) => match sp_func_call(s) {
            Ok(t) => Ok(t),
            Err(_) => match sp_extract_ident(s) {
                Ok((r, id)) => Ok((r, GExpr::BindingUsage(id))),
                Err(_) => match sp_block(s) {
                    Ok((r, b)) => Ok((r, GExpr::Block(b))),
                    Err(m) => Err(m),
                },
            },
        },
    }
}

/// `func_call := ident " "+ expr (" "* expr)*`, with at least one space
/// after the callee and at least one argument; a bare name is a binding
/// usage, not a call.  The spaces around arguments never include newlines:
/// a newline ends the statement instead of continuing the argument list.
pub open spec fn sp_func_call(s: Seq<char>) -> Result<(Seq<char>, GExpr), Seq<char>>
    decreases s.len(), 0int,
{
    match sp_extract_ident(s) {
        Err(m) => Err(m),
        Ok((r0, callee)) => {
            if prefix_len(CharPred::Space, r0) == 0 {
                Err("expected whitespace"@)
            } else {
                let r1 = r0.skip(prefix_len(CharPred::Space, r0) as int);
                if r1.len() < s.len() {
                    let (r2, args) = sp_expr_seq(r1);
                    if args.len() == 0 {
                        Err("expected a sequence with more than one itme"@)
                    } else {
                        Ok((r2, GExpr::FuncCall { callee, args }))
                    }
                } else {
                    // never reached: the identifier and the space consume at
                    // least two characters
                    Err("expected a sequence with more than one itme"@)
                }
            }
        },
    }
}

/// Zero or more expressions separated by spaces, greedy.
pub open spec fn sp_expr_seq(s: Seq<char>) -> (Seq<char>, Seq<GExpr>)
    decreases s.len(), 4int,
{
    match sp_expr(s) {
        Err(_) => (s, Seq::empty()),
        Ok((r0, e)) => {
            let r1 = r0.skip(prefix_len(CharPred::Space, r0) as int);
            if r1.len() < s.len() {
                let (r2, rest) = sp_expr_seq(r1);
                (r2, seq![e] + rest)
            } else {
                // never reached: an expression consumes at least one character
                (s, Seq::empty())
            }
        },
    }
}

/// `block := "{" WS* (stmt WS*)* WS* "}"`, statements consumed greedily
/// until one fails to parse, then the closing brace is required.
pub open spec fn sp_block(s: Seq<char>) -> Result<(Seq<char>, Seq<GStmt>), Seq<char>>
    decreases s.len(), 0int,
{
    match sp_tag("{"@, s) {
        Err(m) => Err(m),
        Ok(r0) => {
            let r1 = sp_extract_ws(r0).0;
            if r1.len() < s.len() {
                let (r2, stmts) = sp_stmt_seq(r1);
                let r3 = sp_extract_ws(r2).0;
                match sp_tag("}"@, r3) {
                    Ok(r4) => Ok((r4, stmts)),
                    Err(m) => Err(m),
                }
            } else {
                // never reached: the opening brace consumes one character
                Err(msg_expected("}"@))
            }
        },
    }
}

/// Zero or more statements separated by optional whitespace, greedy.
pub open spec fn sp_stmt_seq(s: Seq<char>) -> (Seq<char>, Seq<GStmt>)
    decreases s.len(), 6int,
{
    match sp_stmt(s) {
        Err(_) => (s, Seq::empty()),
        Ok((r0, st)) => {
            let r1 = sp_extract_ws(r0).0;
            if r1.len() < s.len() {
                let (r2, rest) = sp_stmt_seq(r1);
                (r2, seq![st] + rest)
            } else {
                // never reached: a statement consumes at least one character
                (s, Seq::empty())
            }
        },
    }
}

} // verus!
