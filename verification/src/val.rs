//! Runtime values produced by evaluation.
use vstd::prelude::*;

verus! {

/// The result of evaluating an expression or a statement: either an integer,
/// or the unit value produced by definitions and by empty blocks.
#[derive(Debug, PartialEq, Eq, Structural, Clone, Copy)]
pub enum Val {
    Number(i32),
    Unit,
}

} // verus!
