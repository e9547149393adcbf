//! Picking one element of a series.
use crate::operand::Operand;
use vstd::prelude::*;

verus! {

/// Which element to pick: the first, the last, or the one at the position
/// that an operand computes, cut to the series' bounds. Picking from an empty
/// series gives zero.
pub enum IndexOperator {
    Last,
    First,
    Operand(Operand),
}

/// An index operation: the selector and the series operand.
pub type IndexOperation = (IndexOperator, Operand);

} // verus!
