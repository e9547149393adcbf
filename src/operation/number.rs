//! Arithmetic operators.
use crate::num::{divide_units, modulo_units, sat, times_units, Num};
use vstd::prelude::*;

verus! {

/// A binary arithmetic operator; the trigonometric ones ignore their right operand.
#[derive(Clone, Copy, Debug, PartialEq, Eq, Structural)]
pub enum NumOperator {
    Add,
    Subtract,
    Multiply,
    Divide,
    Modulo,
    Min,
    Max,
    Cos,
    Sin,
    Tan,
    Pow,
    Log,
}

impl NumOperator {
    /// Whether the operator is computed exactly on fixed-point numbers. The others
    /// (cosine, sine, tangent, power, logarithm) are real functions that the
    /// environment supplies.
    pub open spec fn is_exact(self) -> bool {
        match self {
            NumOperator::Cos | NumOperator::Sin | NumOperator::Tan | NumOperator::Pow
            | NumOperator::Log => false,
            _ => true,
        }
    }

    /// What an exact operator gives on `a` and `b`.
    pub open spec fn apply(self, a: Num, b: Num) -> Num
        recommends
            self.is_exact(),
    {
        let x = a.units as int;
        let y = b.units as int;
        Num {
            units: (match self {
                NumOperator::Add => sat(x + y),
                NumOperator::Subtract => sat(x - y),
                NumOperator::Multiply => times_units(x, y),
                NumOperator::Divide => divide_units(x, y),
                NumOperator::Modulo => modulo_units(x, y),
                NumOperator::Min => if x <= y { x } else { y },
                NumOperator::Max => if x >= y { x } else { y },
                _ => 0,
            }) as i64,
        }
    }

    /// Whether the operator is computed exactly on fixed-point numbers.
    pub fn exact(&self) -> (r: bool)
        ensures
            r == self.is_exact(),
    {
        match self {
            NumOperator::Cos | NumOperator::Sin | NumOperator::Tan | NumOperator::Pow
            | NumOperator::Log => false,
            _ => true,
        }
    }

    /// Applies an exact operator.
    pub fn func(&self, a: Num, b: Num) -> (r: Num)
        requires
            self.is_exact(),
        ensures
            r == self.apply(a, b),
    {
        match self {
            NumOperator::Add => a.plus(b),
            NumOperator::Subtract => a.minus(b),
            NumOperator::Multiply => a.times(b),
            NumOperator::Divide => a.divide(b),
            NumOperator::Modulo => a.modulo(b),
            NumOperator::Min => a.min(b),
            NumOperator::Max => a.max(b),
            _ => Num::zero(),
        }
    }
}

/// An arithmetic operation: operator, left operand, right operand.
pub type NumOperation = (NumOperator, crate::operand::Operand, crate::operand::Operand);

} // verus!
