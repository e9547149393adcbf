//! Values: the result of evaluating an operation, a scalar or a series, with
//! the coercions that let every operator take either.
use crate::num::{index_units, sat, Num, SCALE};
use vstd::prelude::*;

verus! {

/// The mathematical model of a value.
pub enum ValueModel {
    Scalar(Num),
    Series(Seq<Num>),
}

/// The number that a count stands for: `n` whole units, saturated.
pub open spec fn count_num(n: nat) -> Num {
    Num { units: sat(n * SCALE) as i64 }
}

impl ValueModel {
    /// A scalar is itself; a series is its length.
    pub open spec fn as_scalar(self) -> Num {
        match self {
            ValueModel::Scalar(n) => n,
            ValueModel::Series(s) => count_num(s.len()),
        }
    }

    /// A scalar is true when positive; a series when not empty.
    pub open spec fn as_bool(self) -> bool {
        match self {
            ValueModel::Scalar(n) => n.units > 0,
            ValueModel::Series(s) => s.len() > 0,
        }
    }

    /// A scalar is the series of itself alone; a series is itself.
    pub open spec fn as_series(self) -> Seq<Num> {
        match self {
            ValueModel::Scalar(n) => seq![n],
            ValueModel::Series(s) => s,
        }
    }

    /// The whole part of the scalar projection, as an index.
    pub open spec fn as_index(self) -> nat {
        index_units(self.as_scalar().units as int)
    }
}

/// A value: a scalar number or a series of numbers.
#[derive(Clone, Debug)]
pub enum TerminalType {
    Number(Num),
    NumberList(Vec<Num>),
}

impl View for TerminalType {
    type V = ValueModel;

    open spec fn view(&self) -> ValueModel {
        match self {
            TerminalType::Number(n) => ValueModel::Scalar(*n),
            TerminalType::NumberList(s) => ValueModel::Series(s@),
        }
    }
}

/// A copy of a series.
pub fn copy_list(list: &Vec<Num>) -> (r: Vec<Num>)
    ensures
        r@ == list@,
{
    let mut r: Vec<Num> = Vec::with_capacity(list.len());
    let mut i: usize = 0;
    while i < list.len()
        invariant
            i <= list.len(),
            r@ == list@.subrange(0, i as int),
        decreases list.len() - i,
    {
        r.push(list[i]);
        i = i + 1;
        assert(r@ =~= list@.subrange(0, i as int));
    }
    assert(r@ =~= list@);
    r
}

impl TerminalType {
    /// The scalar projection: a number is itself, a series its length.
    pub fn to_f32(&self) -> (r: Num)
        ensures
            r == self@.as_scalar(),
    {
        match self {
            TerminalType::Number(n) => *n,
            TerminalType::NumberList(n) => Num::from_usize(n.len()),
        }
    }

    /// The boolean projection: a number is true when positive, a series when not empty.
    pub fn to_bool(&self) -> (r: bool)
        ensures
            r == self@.as_bool(),
    {
        match self {
            TerminalType::Number(n) => n.units > 0,
            TerminalType::NumberList(n) => n.len() > 0,
        }
    }

    /// The series projection: a number becomes a series of one.
    pub fn to_list(&self) -> (r: Vec<Num>)
        ensures
            r@ == self@.as_series(),
    {
        match self {
            TerminalType::Number(n) => {
                let r = vec![*n];
                assert(r@ =~= seq![*n]);
                r
            },
            TerminalType::NumberList(n) => copy_list(n),
        }
    }

    /// The whole part of the scalar projection, as an index.
    pub fn to_usize(&self) -> (r: usize)
        ensures
            r == self@.as_index(),
    {
        self.to_f32().to_index()
    }

    /// An equal value.
    pub fn duplicate(&self) -> (r: TerminalType)
        ensures
            r@ == self@,
    {
        match self {
            TerminalType::Number(n) => TerminalType::Number(*n),
            TerminalType::NumberList(n) => TerminalType::NumberList(copy_list(n)),
        }
    }
}

/// Two values are equal when their scalar projections are.
impl PartialEq for TerminalType {
    fn eq(&self, other: &TerminalType) -> (r: bool) {
        self.to_f32().units == other.to_f32().units
    }
}

impl vstd::std_specs::cmp::PartialEqSpecImpl for TerminalType {
    open spec fn obeys_eq_spec() -> bool {
        true
    }

    open spec fn eq_spec(&self, other: &TerminalType) -> bool {
        self@.as_scalar() == other@.as_scalar()
    }
}

/// The order of two numbers of units.
pub open spec fn order_of(a: i64, b: i64) -> core::cmp::Ordering {
    if a < b {
        core::cmp::Ordering::Less
    } else if a == b {
        core::cmp::Ordering::Equal
    } else {
        core::cmp::Ordering::Greater
    }
}

/// Values are ordered by their scalar projections.
impl PartialOrd for TerminalType {
    fn partial_cmp(&self, other: &TerminalType) -> (r: Option<core::cmp::Ordering>) {
        let a = self.to_f32().units;
        let b = other.to_f32().units;
        if a < b {
            Some(core::cmp::Ordering::Less)
        } else if a == b {
            Some(core::cmp::Ordering::Equal)
        } else {
            Some(core::cmp::Ordering::Greater)
        }
    }
}

impl vstd::std_specs::cmp::PartialOrdSpecImpl for TerminalType {
    open spec fn obeys_partial_cmp_spec() -> bool {
        true
    }

    open spec fn partial_cmp_spec(&self, other: &TerminalType) -> Option<core::cmp::Ordering> {
        Some(order_of(self@.as_scalar().units, other@.as_scalar().units))
    }
}

} // verus!
