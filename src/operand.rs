//! Operands: how an operation refers to its inputs.
use crate::terminal_type::TerminalType;
use vstd::prelude::*;

verus! {

/// An input of an operation: the operation at a position of the program, a
/// literal value, or absence (which evaluates to zero).
pub enum Operand {
    Pointer(usize),
    Terminal(TerminalType),
    Absent,
}

impl Operand {
    /// Whether a pointer operand points below `n`.
    pub open spec fn points_below(self, n: int) -> bool {
        match self {
            Operand::Pointer(p) => p < n,
            _ => true,
        }
    }
}

} // verus!
