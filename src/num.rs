//! Fixed-point decimal numbers: the scalars of the engine.
//!
//! A `Num` holds a count of millionths in an `i64`. Every operation is total:
//! results that leave the `i64` range saturate at its ends, which stand for
//! the infinities of IEEE arithmetic.
use vstd::prelude::*;

verus! {

/// Units per whole number.
pub const SCALE: i64 = 1_000_000;

/// The greatest value of `i64`, as an `int`.
pub open spec fn max_units() -> int {
    i64::MAX as int
}

/// The least value of `i64`, as an `int`.
pub open spec fn min_units() -> int {
    i64::MIN as int
}

/// Clamps `x` into the range of `i64`.
pub open spec fn sat(x: int) -> int {
    if x > max_units() {
        max_units()
    } else if x < min_units() {
        min_units()
    } else {
        x
    }
}

/// The absolute value of `x`.
pub open spec fn abs(x: int) -> nat {
    if x < 0 {
        (-x) as nat
    } else {
        x as nat
    }
}

/// Division rounded toward zero, as Rust's `/` on signed integers.
pub open spec fn tdiv(x: int, y: int) -> int
    recommends
        y != 0,
{
    let q = (abs(x) / abs(y)) as int;
    if (x < 0) != (y < 0) {
        -q
    } else {
        q
    }
}

/// Remainder with the sign of the dividend, as Rust's `%` on signed integers.
pub open spec fn trem(x: int, y: int) -> int
    recommends
        y != 0,
{
    x - y * tdiv(x, y)
}

/// The units of a product: the exact product, scaled back and rounded toward zero.
pub open spec fn times_units(a: int, b: int) -> int {
    sat(tdiv(a * b, SCALE as int))
}

/// The units of a quotient. A zero divisor gives the end of the range that the
/// dividend's sign points to, or zero for a zero dividend.
pub open spec fn divide_units(a: int, b: int) -> int {
    if b == 0 {
        if a > 0 {
            max_units()
        } else if a < 0 {
            min_units()
        } else {
            0
        }
    } else {
        sat(tdiv(a * SCALE, b))
    }
}

/// The units of a remainder, with the sign of the dividend; zero for a zero divisor.
pub open spec fn modulo_units(a: int, b: int) -> int {
    if b == 0 {
        0
    } else {
        trem(a, b)
    }
}

/// The whole part of a number of `units`, as an index: negative numbers give
/// zero, and a whole part beyond `usize` gives its greatest value.
pub open spec fn index_units(a: int) -> nat {
    if a <= 0 {
        0
    } else if a / SCALE as int > usize::MAX {
        usize::MAX as nat
    } else {
        (a / SCALE as int) as nat
    }
}

/// A fixed-point decimal number: `units` millionths.
#[derive(Clone, Copy, Debug, PartialEq, Eq, Structural)]
pub struct Num {
    pub units: i64,
}

/// Bounds a product by the bounds of its factors.
pub proof fn lemma_mul_bound(a: int, b: int, ba: int, bb: int)
    requires
        -ba <= a <= ba,
        -bb <= b <= bb,
    ensures
        -(ba * bb) <= a * b <= ba * bb,
{
    assert(-(ba * bb) <= a * b <= ba * bb) by (nonlinear_arith)
        requires
            -ba <= a <= ba,
            -bb <= b <= bb,
    ;
}

/// Divides with rounding toward zero.
pub(crate) fn trunc_div(x: i128, y: i128) -> (r: i128)
    requires
        y != 0,
        x > i128::MIN,
        y > i128::MIN,
    ensures
        r == tdiv(x as int, y as int),
{
    let ax: u128 = if x < 0 { (-x) as u128 } else { x as u128 };
    let ay: u128 = if y < 0 { (-y) as u128 } else { y as u128 };
    let q: u128 = ax / ay;
    assert(q <= ax) by (nonlinear_arith)
        requires q == ax / ay, ay >= 1;
    if (x < 0) != (y < 0) {
        -(q as i128)
    } else {
        q as i128
    }
}

/// Saturates an `i128` into the range of `i64`.
pub(crate) fn saturate(x: i128) -> (r: i64)
    ensures
        r == sat(x as int),
{
    if x > i64::MAX as i128 {
        i64::MAX
    } else if x < i64::MIN as i128 {
        i64::MIN
    } else {
        x as i64
    }
}

impl Num {
    /// The number that `units` millionths make.
    pub fn from_units(units: i64) -> (r: Num)
        ensures
            r.units == units,
    {
        Num { units }
    }

    /// The whole number `n`, saturated.
    pub fn from_int(n: i64) -> (r: Num)
        ensures
            r.units == sat(n * SCALE),
    {
        proof {
            lemma_mul_bound(n as int, SCALE as int, 0x8000_0000_0000_0000, SCALE as int);
        }
        Num { units: saturate(n as i128 * SCALE as i128) }
    }

    /// The whole number `n`, saturated: how a count becomes a number.
    pub fn from_usize(n: usize) -> (r: Num)
        ensures
            r.units == sat(n * SCALE),
    {
        proof {
            lemma_mul_bound(n as int, SCALE as int, 0x1_0000_0000_0000_0000, SCALE as int);
        }
        Num { units: saturate(n as i128 * SCALE as i128) }
    }

    /// The sum, saturated.
    pub fn plus(self, other: Num) -> (r: Num)
        ensures
            r.units == sat(self.units + other.units),
    {
        Num { units: saturate(self.units as i128 + other.units as i128) }
    }

    /// The difference, saturated.
    pub fn minus(self, other: Num) -> (r: Num)
        ensures
            r.units == sat(self.units - other.units),
    {
        Num { units: saturate(self.units as i128 - other.units as i128) }
    }

    /// The product, rounded toward zero and saturated.
    pub fn times(self, other: Num) -> (r: Num)
        ensures
            r.units == times_units(self.units as int, other.units as int),
    {
        proof {
            lemma_mul_bound(
                self.units as int,
                other.units as int,
                0x8000_0000_0000_0000,
                0x8000_0000_0000_0000,
            );
        }
        let p: i128 = self.units as i128 * other.units as i128;
        Num { units: saturate(trunc_div(p, SCALE as i128)) }
    }

    /// The quotient, rounded toward zero and saturated (see `divide_units`).
    pub fn divide(self, other: Num) -> (r: Num)
        ensures
            r.units == divide_units(self.units as int, other.units as int),
    {
        if other.units == 0 {
            if self.units > 0 {
                Num { units: i64::MAX }
            } else if self.units < 0 {
                Num { units: i64::MIN }
            } else {
                Num { units: 0 }
            }
        } else {
            proof {
                lemma_mul_bound(
                    self.units as int,
                    SCALE as int,
                    0x8000_0000_0000_0000,
                    SCALE as int,
                );
            }
            let p: i128 = self.units as i128 * SCALE as i128;
            Num { units: saturate(trunc_div(p, other.units as i128)) }
        }
    }

    /// The remainder, with the sign of the dividend; zero for a zero divisor.
    pub fn modulo(self, other: Num) -> (r: Num)
        ensures
            r.units == modulo_units(self.units as int, other.units as int),
    {
        if other.units == 0 {
            Num { units: 0 }
        } else {
            let q: i128 = trunc_div(self.units as i128, other.units as i128);
            let ghost a = self.units as int;
            let ghost b = other.units as int;
            proof {
                let aq: int = (abs(a) / abs(b)) as int;
                assert(aq * abs(b) <= abs(a)) by (nonlinear_arith)
                    requires aq == abs(a) / abs(b), abs(b) > 0;
                assert(abs(a) - aq * abs(b) < abs(b)) by (nonlinear_arith)
                    requires aq == abs(a) / abs(b), abs(b) > 0;
                assert(abs(a) <= 0x8000_0000_0000_0000);
                assert(q * b == b * tdiv(a, b)) by (nonlinear_arith)
                    requires q == tdiv(a, b);
                assert(abs(trem(a, b)) < abs(b)) by (nonlinear_arith)
                    requires
                        aq * abs(b) <= abs(a),
                        abs(a) - aq * abs(b) < abs(b),
                        q == tdiv(a, b),
                        tdiv(a, b) == (if (a < 0) != (b < 0) { -aq } else { aq }),
                        trem(a, b) == a - b * tdiv(a, b),
                        abs(a) == (if a < 0 { -a } else { a }),
                        abs(b) == (if b < 0 { -b } else { b }),
                ;
                lemma_mul_bound(q as int, b, 0x8000_0000_0000_0000, 0x8000_0000_0000_0000);
            }
            let r: i128 = self.units as i128 - q * other.units as i128;
            Num { units: r as i64 }
        }
    }

    /// The lesser of the two.
    pub fn min(self, other: Num) -> (r: Num)
        ensures
            r.units == if self.units <= other.units { self.units } else { other.units },
    {
        if self.units <= other.units {
            self
        } else {
            other
        }
    }

    /// The greater of the two.
    pub fn max(self, other: Num) -> (r: Num)
        ensures
            r.units == if self.units >= other.units { self.units } else { other.units },
    {
        if self.units >= other.units {
            self
        } else {
            other
        }
    }

    /// The whole part as an index; negative numbers give zero.
    pub fn to_index(self) -> (r: usize)
        ensures
            r == index_units(self.units as int),
    {
        if self.units <= 0 {
            0
        } else {
            let whole: u64 = (self.units / SCALE) as u64;
            if whole as u128 > usize::MAX as u128 {
                usize::MAX
            } else {
                whole as usize
            }
        }
    }

    /// Zero.
    pub fn zero() -> (r: Num)
        ensures
            r.units == 0,
    {
        Num { units: 0 }
    }
}

} // verus!
