//! Comparison and logical operators.
use crate::operand::Operand;
use vstd::prelude::*;

verus! {

/// A comparison (on scalar projections) or a logical operator (on boolean
/// projections); `Not` ignores its right operand.
#[derive(Clone, Copy, Debug, PartialEq, Eq, Structural)]
pub enum BoolOperator {
    Equal,
    NotEqual,
    GreaterThan,
    GreaterThanOrEqual,
    LessThan,
    LessThanOrEqual,
    And,
    Or,
    Xor,
    Not,
}

/// A boolean operation: operator, left operand, right operand.
pub type BoolOperation = (BoolOperator, Operand, Operand);

} // verus!
