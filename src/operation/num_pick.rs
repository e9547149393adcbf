//! Reductions of a series to one number.
use crate::num::{abs, sat, tdiv, Num};
use crate::operand::Operand;
use crate::rank::{rank_positions, sort_positions};
use crate::terminal_type::count_num;
use vstd::prelude::*;

verus! {

/// A reduction of a series to one number.
#[derive(Clone, Copy, Debug, PartialEq, Eq, Structural)]
pub enum NumPickOperator {
    Average,
    Sum,
    Max,
    Min,
    Med,
    Std,
    Length,
}

/// A reduction: the operator and the operand whose series it reduces.
pub type NumPickOperation = (NumPickOperator, Operand);

/// The exact sum of the units of `s`.
pub open spec fn sum_units(s: Seq<Num>) -> int
    decreases s.len(),
{
    if s.len() == 0 {
        0
    } else {
        sum_units(s.drop_last()) + s.last().units
    }
}

/// The greatest units of a non-empty `s`.
pub open spec fn max_units_of(s: Seq<Num>) -> int
    decreases s.len(),
{
    if s.len() <= 1 {
        s[0].units as int
    } else {
        let m = max_units_of(s.drop_last());
        if s.last().units > m {
            s.last().units as int
        } else {
            m
        }
    }
}

/// The least units of a non-empty `s`.
pub open spec fn min_units_of(s: Seq<Num>) -> int
    decreases s.len(),
{
    if s.len() <= 1 {
        s[0].units as int
    } else {
        let m = min_units_of(s.drop_last());
        if s.last().units < m {
            s.last().units as int
        } else {
            m
        }
    }
}

/// The mean of `s` in units, rounded toward zero; zero for an empty `s`.
pub open spec fn mean_units(s: Seq<Num>) -> int {
    if s.len() == 0 {
        0
    } else {
        tdiv(sum_units(s), s.len() as int)
    }
}

/// The sum of the squared distances of the units of `s` from `m`.
pub open spec fn sq_dev_sum(s: Seq<Num>, m: int) -> int
    decreases s.len(),
{
    if s.len() == 0 {
        0
    } else {
        sq_dev_sum(s.drop_last(), m) + (s.last().units - m) * (s.last().units - m)
    }
}

/// `r` is the integer square root of `x`.
pub open spec fn is_isqrt(r: int, x: int) -> bool {
    0 <= r && r * r <= x < (r + 1) * (r + 1)
}

/// The integer square root of `x`: the greatest `r` with `r * r <= x`.
pub open spec fn isqrt(x: int) -> int {
    choose|r: int| is_isqrt(r, x)
}

/// The population standard deviation in units, rounded down: the integer
/// square root of the mean squared distance from the mean (itself rounded
/// toward zero).
pub open spec fn std_units(s: Seq<Num>) -> int {
    if s.len() == 0 {
        0
    } else {
        isqrt(sq_dev_sum(s, sat(mean_units(s))) / s.len() as int)
    }
}

/// The median in units: the middle of the sorted series for an odd length;
/// for an even length `n`, the mean of the sorted elements at `n / 2` and
/// `n / 2 + 1` (the last element where that is past the end), rounded toward
/// zero; zero for an empty series.
pub open spec fn median_units(s: Seq<Num>) -> int {
    let n = s.len() as int;
    let order = rank_positions(s);
    if n == 0 {
        0
    } else if n % 2 == 1 {
        s[order[n / 2]].units as int
    } else {
        let upper = if n / 2 + 1 < n { n / 2 + 1 } else { n - 1 };
        tdiv(s[order[n / 2]].units + s[order[upper]].units, 2)
    }
}

/// What reducing `s` by `operator` gives. Every reduction of an empty series
/// is zero.
pub open spec fn pick_spec(operator: NumPickOperator, s: Seq<Num>) -> Num {
    match operator {
        NumPickOperator::Average => Num { units: sat(mean_units(s)) as i64 },
        NumPickOperator::Sum => Num { units: sat(sum_units(s)) as i64 },
        NumPickOperator::Max => Num { units: if s.len() == 0 { 0 } else { max_units_of(s) } as i64 },
        NumPickOperator::Min => Num { units: if s.len() == 0 { 0 } else { min_units_of(s) } as i64 },
        NumPickOperator::Med => Num { units: median_units(s) as i64 },
        NumPickOperator::Std => Num { units: sat(std_units(s)) as i64 },
        NumPickOperator::Length => count_num(s.len()),
    }
}

/// The exact sum of the units of `list`.
fn sum_of(list: &Vec<Num>) -> (r: i128)
    ensures
        r == sum_units(list@),
        r > i128::MIN,
{
    let mut acc: i128 = 0;
    let mut i: usize = 0;
    while i < list.len()
        invariant
            i <= list.len(),
            acc == sum_units(list@.subrange(0, i as int)),
            -(i * 0x8000_0000_0000_0000) <= acc <= i * 0x8000_0000_0000_0000,
        decreases list.len() - i,
    {
        assert(list@.subrange(0, i + 1).drop_last() =~= list@.subrange(0, i as int));
        assert((i + 1) * 0x8000_0000_0000_0000 == i * 0x8000_0000_0000_0000 + 0x8000_0000_0000_0000) by (nonlinear_arith);
        assert(i * 0x8000_0000_0000_0000 <= 0xffff_ffff_ffff_ffff * 0x8000_0000_0000_0000) by (nonlinear_arith)
            requires 0 <= i as int <= 0xffff_ffff_ffff_ffff;
        acc = acc + list[i].units as i128;
        i = i + 1;
    }
    assert(list@.subrange(0, i as int) =~= list@);
    assert(i * 0x8000_0000_0000_0000 <= 0xffff_ffff_ffff_ffff * 0x8000_0000_0000_0000) by (nonlinear_arith)
        requires 0 <= i as int <= 0xffff_ffff_ffff_ffff;
    acc
}

/// The greatest element of `list`, or zero when it is empty.
fn max_of(list: &Vec<Num>) -> (r: Num)
    ensures
        r.units == if list@.len() == 0 { 0 } else { max_units_of(list@) },
{
    if list.len() == 0 {
        return Num::zero();
    }
    let mut best = list[0];
    let mut i: usize = 1;
    assert(list@.subrange(0, 1).len() == 1);
    while i < list.len()
        invariant
            1 <= i <= list.len(),
            best.units == max_units_of(list@.subrange(0, i as int)),
        decreases list.len() - i,
    {
        assert(list@.subrange(0, i + 1).drop_last() =~= list@.subrange(0, i as int));
        best = best.max(list[i]);
        i = i + 1;
    }
    assert(list@.subrange(0, i as int) =~= list@);
    best
}

/// The least element of `list`, or zero when it is empty.
fn min_of(list: &Vec<Num>) -> (r: Num)
    ensures
        r.units == if list@.len() == 0 { 0 } else { min_units_of(list@) },
{
    if list.len() == 0 {
        return Num::zero();
    }
    let mut best = list[0];
    let mut i: usize = 1;
    assert(list@.subrange(0, 1).len() == 1);
    while i < list.len()
        invariant
            1 <= i <= list.len(),
            best.units == min_units_of(list@.subrange(0, i as int)),
        decreases list.len() - i,
    {
        assert(list@.subrange(0, i + 1).drop_last() =~= list@.subrange(0, i as int));
        best = best.min(list[i]);
        i = i + 1;
    }
    assert(list@.subrange(0, i as int) =~= list@);
    best
}

/// The median (see `median_units`).
fn median_of(list: &Vec<Num>) -> (r: Num)
    ensures
        r.units == median_units(list@),
{
    let n = list.len();
    if n == 0 {
        return Num::zero();
    }
    let order = sort_positions(list);
    assert(order@[(n / 2) as int] as int == rank_positions(list@)[(n / 2) as int]);
    if n % 2 == 1 {
        list[order[n / 2]]
    } else {
        let upper = if n / 2 + 1 < n { n / 2 + 1 } else { n - 1 };
        let a = list[order[n / 2]].units as i128;
        let b = list[order[upper]].units as i128;
        assert(order@[upper as int] as int == rank_positions(list@)[upper as int]);
        let m = crate::num::trunc_div(a + b, 2);
        proof {
            let x = (a + b) as int;
            if x >= 0 {
                assert(abs(x) / 2 <= 0x7fff_ffff_ffff_ffff);
            } else {
                assert(abs(x) / 2 <= 0x8000_0000_0000_0000);
            }
        }
        Num::from_units(m as i64)
    }
}

/// Two integer square roots of one number are equal.
pub proof fn lemma_isqrt_unique(r1: int, r2: int, x: int)
    requires
        is_isqrt(r1, x),
        is_isqrt(r2, x),
    ensures
        r1 == r2,
{
    if r1 < r2 {
        assert((r1 + 1) * (r1 + 1) <= r2 * r2) by (nonlinear_arith)
            requires 0 <= r1 + 1 <= r2;
    } else if r2 < r1 {
        assert((r2 + 1) * (r2 + 1) <= r1 * r1) by (nonlinear_arith)
            requires 0 <= r2 + 1 <= r1;
    }
}

/// The integer square root of `x`.
fn isqrt_of(x: u128) -> (r: u128)
    ensures
        r == isqrt(x as int),
        r < 0x1_0000_0000_0000_0000,
{
    let mut lo: u128 = 0;
    let mut hi: u128 = 0x1_0000_0000_0000_0000;
    assert(hi * hi > x) by (nonlinear_arith)
        requires hi == 0x1_0000_0000_0000_0000u128, x <= 0xffff_ffff_ffff_ffff_ffff_ffff_ffff_ffffu128;
    while hi - lo > 1
        invariant
            lo < hi <= 0x1_0000_0000_0000_0000,
            lo * lo <= x,
            x < hi * hi,
        decreases hi - lo,
    {
        let mid: u128 = lo + (hi - lo) / 2;
        assert(mid * mid <= 0xffff_ffff_ffff_fffe_0000_0000_0000_0001) by (nonlinear_arith)
            requires mid <= 0xffff_ffff_ffff_ffffu128;
        if mid * mid <= x {
            lo = mid;
        } else {
            hi = mid;
        }
    }
    proof {
        assert(is_isqrt(lo as int, x as int));
        lemma_isqrt_unique(lo as int, isqrt(x as int), x as int);
    }
    lo
}

/// The sum of the squared distances of the units of `s` from `m`, divided by
/// the length of `s` and rounded down.
fn mean_sq_dev(list: &Vec<Num>, m: i64) -> (r: u128)
    requires
        list@.len() > 0,
    ensures
        r == sq_dev_sum(list@, m as int) / list@.len() as int,
{
    let n = list.len() as u128;
    let ghost big: int = 0xffff_ffff_ffff_fffe_0000_0000_0000_0001;
    let mut q: u128 = 0;
    let mut rem: u128 = 0;
    let mut i: usize = 0;
    while i < list.len()
        invariant
            n == list@.len(),
            n > 0,
            big == 0xffff_ffff_ffff_ffff * 0xffff_ffff_ffff_ffff,
            i <= list.len(),
            sq_dev_sum(list@.subrange(0, i as int), m as int) == q * n + rem,
            sq_dev_sum(list@.subrange(0, i as int), m as int) <= i * big,
            rem < n,
        decreases list.len() - i,
    {
        assert(list@.subrange(0, i + 1).drop_last() =~= list@.subrange(0, i as int));
        let ghost before = sq_dev_sum(list@.subrange(0, i as int), m as int);
        let u = list[i].units;
        let d: i128 = u as i128 - m as i128;
        let ad: u128 = if d < 0 { (-d) as u128 } else { d as u128 };
        assert(ad * ad == d * d) by (nonlinear_arith)
            requires ad == (if d < 0 { -(d as int) } else { d as int });
        assert(ad * ad <= big) by (nonlinear_arith)
            requires ad <= 0xffff_ffff_ffff_ffff, big == 0xffff_ffff_ffff_ffff * 0xffff_ffff_ffff_ffff;
        let sq: u128 = ad * ad;
        let a: u128 = sq / n;
        let b: u128 = sq % n;
        assert(a * n + b == sq && b < n) by (nonlinear_arith)
            requires a == sq / n, b == sq % n, n > 0;
        assert(sq_dev_sum(list@.subrange(0, i + 1), m as int) == before + sq);
        assert((q + a) * n == q * n + a * n) by (nonlinear_arith);
        assert((i + 1) * big == i * big + big) by (nonlinear_arith);
        assert((i + 1) * big <= n * big) by (nonlinear_arith)
            requires i + 1 <= n, big >= 0;
        assert(q + a <= big) by (nonlinear_arith)
            requires
                (q + a) * n <= before + sq,
                before + sq <= (i + 1) * big,
                (i + 1) * big <= n * big,
                n > 0,
        {
            assert((q + a) * n <= n * big);
        }
        let ghost q0 = q;
        let ghost rem0 = rem;
        q = q + a;
        rem = rem + b;
        if rem >= n {
            q = q + 1;
            rem = rem - n;
        }
        assert(q * n + rem == q0 * n + rem0 + a * n + b) by (nonlinear_arith)
            requires
                (q == q0 + a && rem == rem0 + b) || (q == q0 + a + 1 && rem == rem0 + b - n);
        assert((i + 1) * big == i * big + big) by (nonlinear_arith);
        i = i + 1;
    }
    assert(list@.subrange(0, i as int) =~= list@);
    assert(q == (q * n + rem) / n as int) by (nonlinear_arith)
        requires rem < n, n > 0, rem >= 0, q >= 0;
    q
}

/// Reduces `list` by `operator` (see `pick_spec`).
pub fn get_function_by_num_pick_operator(operator: &NumPickOperator, list: Vec<Num>) -> (r: Num)
    ensures
        r == pick_spec(*operator, list@),
{
    match operator {
        NumPickOperator::Average => {
            if list.len() == 0 {
                Num::zero()
            } else {
                let total = sum_of(&list);
                Num::from_units(crate::num::saturate(crate::num::trunc_div(total, list.len() as i128)))
            }
        },
        NumPickOperator::Sum => Num::from_units(crate::num::saturate(sum_of(&list))),
        NumPickOperator::Max => max_of(&list),
        NumPickOperator::Min => min_of(&list),
        NumPickOperator::Med => median_of(&list),
        NumPickOperator::Std => {
            if list.len() == 0 {
                Num::zero()
            } else {
                let total = sum_of(&list);
                let mean = crate::num::saturate(crate::num::trunc_div(total, list.len() as i128));
                let root = isqrt_of(mean_sq_dev(&list, mean));
                Num::from_units(crate::num::saturate(root as i128))
            }
        },
        NumPickOperator::Length => Num::from_usize(list.len()),
    }
}

} // verus!
