//! A time-indexed sample store: samples taken at a fixed interval from a start
//! timestamp, read at the nearest sample or interpolated between two.
use crate::num::{abs, sat, tdiv, Num, SCALE};
use crate::terminal_type::count_num;
use vstd::prelude::*;

verus! {

/// One sample: the high and the low of an interval.
#[derive(Clone, Copy, Debug, PartialEq, Eq, Structural)]
pub struct Ticker {
    pub high: Num,
    pub low: Num,
}

/// Samples at `ticker_size` apart from `start_timestamp`, in order.
pub struct TickerStore {
    pub tickers: Vec<Ticker>,
    pub ticker_size: u64,
    pub start_timestamp: u64,
}

/// The straight line from `a` to `b`, at `f / n` of the way, rounded toward `a`.
pub open spec fn lerp_units(a: int, b: int, f: int, n: int) -> int {
    a + tdiv((b - a) * f, n)
}

/// The straight line from sample `a` to sample `b`, at `f / n` of the way.
pub open spec fn lerp_ticker(a: Ticker, b: Ticker, f: int, n: int) -> Ticker {
    Ticker {
        high: Num { units: lerp_units(a.high.units as int, b.high.units as int, f, n) as i64 },
        low: Num { units: lerp_units(a.low.units as int, b.low.units as int, f, n) as i64 },
    }
}

/// The point at `f / n` of the way from `a` to `b`, for `0 <= f < n`.
fn lerp_num(a: Num, b: Num, f: u64, n: u64) -> (r: Num)
    requires
        f < n,
    ensures
        r.units == lerp_units(a.units as int, b.units as int, f as int, n as int),
        a.units <= b.units ==> a.units <= r.units <= b.units,
        b.units <= a.units ==> b.units <= r.units <= a.units,
{
    let d: i128 = b.units as i128 - a.units as i128;
    let ad: u128 = if d < 0 { (-d) as u128 } else { d as u128 };
    assert(ad * f <= 0xffff_ffff_ffff_fffe_0000_0000_0000_0001) by (nonlinear_arith)
        requires ad <= 0xffff_ffff_ffff_ffff, f <= 0xffff_ffff_ffff_ffff;
    let p: u128 = ad * f as u128;
    let q: u128 = p / n as u128;
    assert(q <= ad) by (nonlinear_arith)
        requires q as int == p as int / n as int, p == ad * f, f < n, n > 0;
    proof {
        let x = (d as int) * (f as int);
        assert(abs(x) == ad * f) by (nonlinear_arith)
            requires ad == abs(d as int), f >= 0, x == (d as int) * (f as int);
        if d < 0 && f > 0 {
            assert(x < 0) by (nonlinear_arith)
                requires d < 0, f > 0, x == (d as int) * (f as int);
        }
        if d >= 0 {
            assert(x >= 0) by (nonlinear_arith)
                requires d >= 0, f >= 0, x == (d as int) * (f as int);
        }
        if f == 0 {
            assert(x == 0);
        }
    }
    let r: i128 = if d < 0 { a.units as i128 - q as i128 } else { a.units as i128 + q as i128 };
    Num::from_units(r as i64)
}

impl Ticker {
    /// The sample at `f / n` of the way from `self` to `other`, field by field.
    pub fn lerp(self, other: Ticker, f: u64, n: u64) -> (r: Ticker)
        requires
            f < n,
        ensures
            r == lerp_ticker(self, other, f as int, n as int),
    {
        Ticker { high: lerp_num(self.high, other.high, f, n), low: lerp_num(self.low, other.low, f, n) }
    }
}

impl TickerStore {
    /// The timestamp of the last sample.
    pub open spec fn last_timestamp(&self) -> int {
        self.start_timestamp + self.ticker_size * (self.tickers@.len() - 1)
    }

    /// The sample nearest below `timestamp`: the first before the start, the
    /// last at or after the last sample's timestamp.
    pub open spec fn nearest_index(&self, timestamp: u64) -> int {
        if timestamp < self.start_timestamp {
            0
        } else if timestamp >= self.last_timestamp() {
            self.tickers@.len() - 1
        } else {
            (timestamp - self.start_timestamp) / (self.ticker_size as int)
        }
    }

    /// The interpolated sample at `timestamp`: zero before the start, the last
    /// sample at or after its timestamp, and in between the straight line
    /// between the two samples around it.
    pub open spec fn interpolated(&self, timestamp: u64) -> Ticker {
        let n = self.ticker_size as int;
        let offset = timestamp - self.start_timestamp;
        if timestamp < self.start_timestamp {
            Ticker { high: Num { units: 0 }, low: Num { units: 0 } }
        } else if timestamp >= self.last_timestamp() {
            self.tickers@.last()
        } else {
            lerp_ticker(self.tickers@[offset / n], self.tickers@[offset / n + 1], offset % n, n)
        }
    }

    /// Between the start and the last sample's timestamp the interval is not zero.
    proof fn lemma_interval_positive(&self, timestamp: u64)
        requires
            self.start_timestamp <= timestamp < self.last_timestamp(),
        ensures
            self.ticker_size > 0,
    {
        if self.ticker_size == 0 {
            assert(self.ticker_size as int * (self.tickers@.len() - 1) == 0);
        }
    }

    /// An empty store of samples `ticker_size` apart from `start_timestamp`.
    pub fn new(ticker_size: u64, start_timestamp: u64) -> (r: TickerStore)
        ensures
            r.tickers@.len() == 0,
            r.ticker_size == ticker_size,
            r.start_timestamp == start_timestamp,
    {
        TickerStore { tickers: Vec::new(), ticker_size, start_timestamp }
    }

    /// Appends a sample.
    pub fn add_ticker(&mut self, ticker: Ticker)
        ensures
            final(self).tickers@ == old(self).tickers@.push(ticker),
            final(self).ticker_size == old(self).ticker_size,
            final(self).start_timestamp == old(self).start_timestamp,
    {
        self.tickers.push(ticker);
    }

    /// The number of samples.
    pub fn get_ticker_count(&self) -> (r: usize)
        ensures
            r == self.tickers@.len(),
    {
        self.tickers.len()
    }

    /// Whether `timestamp` is at or after the last sample's timestamp.
    fn at_or_after_last(&self, timestamp: u64) -> (r: bool)
        requires
            self.tickers@.len() > 0,
        ensures
            r == (timestamp >= self.last_timestamp()),
    {
        let size: u128 = self.ticker_size as u128;
        let count: u128 = (self.tickers.len() - 1) as u128;
        assert(size * count <= 0xffff_ffff_ffff_fffe_0000_0000_0000_0001) by (nonlinear_arith)
            requires size <= 0xffff_ffff_ffff_ffff, count <= 0xffff_ffff_ffff_ffff;
        let span: u128 = size * count;
        timestamp as u128 >= self.start_timestamp as u128 + span
    }

    /// The index of the sample nearest below `timestamp` (see `nearest_index`).
    pub fn timestamp_to_index(&self, timestamp: u64) -> (r: usize)
        requires
            self.tickers@.len() > 0,
        ensures
            r == self.nearest_index(timestamp),
            r < self.tickers@.len(),
    {
        if timestamp < self.start_timestamp {
            0
        } else if self.at_or_after_last(timestamp) {
            self.tickers.len() - 1
        } else {
            proof {
                self.lemma_interval_positive(timestamp);
            }
            let off: u64 = timestamp - self.start_timestamp;
            let k: u64 = off / self.ticker_size;
            proof {
                let n = self.ticker_size as int;
                let m = self.tickers@.len() - 1;
                assert(off < n * m);
                assert(k < m) by (nonlinear_arith)
                    requires off < n * m, n > 0, off >= 0, k == off as int / n;
                assert(k == self.nearest_index(timestamp));
            }
            assert(k < self.tickers.len());
            let r = k as usize;
            assert(r == k);
            r
        }
    }

    /// The sample nearest below `timestamp`.
    pub fn get_ticker(&self, timestamp: u64) -> (r: Ticker)
        requires
            self.tickers@.len() > 0,
        ensures
            r == self.tickers@[self.nearest_index(timestamp)],
    {
        let index = self.timestamp_to_index(timestamp);
        self.tickers[index]
    }

    /// The position of `timestamp` counted in samples, as a number: zero
    /// before the start, the last index at or after the last sample's
    /// timestamp, and in between the distance from the start in intervals,
    /// rounded down to a millionth.
    pub fn timestamp_to_float_index(&self, timestamp: u64) -> (r: Num)
        requires
            self.tickers@.len() > 0,
        ensures
            timestamp < self.start_timestamp ==> r.units == 0,
            timestamp >= self.start_timestamp && timestamp >= self.last_timestamp() ==> r == count_num(
                (self.tickers@.len() - 1) as nat,
            ),
            self.start_timestamp <= timestamp < self.last_timestamp() ==> r.units == sat(
                (timestamp - self.start_timestamp) * SCALE / (self.ticker_size as int),
            ),
    {
        if timestamp < self.start_timestamp {
            Num::zero()
        } else if self.at_or_after_last(timestamp) {
            Num::from_usize(self.tickers.len() - 1)
        } else {
            proof {
                self.lemma_interval_positive(timestamp);
            }
            let off: u128 = (timestamp - self.start_timestamp) as u128;
            assert(off * 1_000_000 <= 0xffff_ffff_ffff_ffff * 1_000_000) by (nonlinear_arith)
                requires off <= 0xffff_ffff_ffff_ffff;
            let units: u128 = off * SCALE as u128 / self.ticker_size as u128;
            assert(units <= off * 1_000_000) by (nonlinear_arith)
                requires units as int == (off * 1_000_000) as int / (self.ticker_size as int), self.ticker_size >= 1;
            let clamped: i64 = if units > i64::MAX as u128 { i64::MAX } else { units as i64 };
            Num::from_units(clamped)
        }
    }

    /// The interpolated sample at `timestamp` (see `interpolated`).
    pub fn get_ticker_lerp(&self, timestamp: u64) -> (r: Ticker)
        requires
            self.tickers@.len() > 0,
        ensures
            r == self.interpolated(timestamp),
    {
        if timestamp < self.start_timestamp {
            Ticker { high: Num::zero(), low: Num::zero() }
        } else if self.at_or_after_last(timestamp) {
            self.tickers[self.tickers.len() - 1]
        } else {
            proof {
                self.lemma_interval_positive(timestamp);
            }
            let off: u64 = timestamp - self.start_timestamp;
            let n: u64 = self.ticker_size;
            let k: u64 = off / n;
            let f: u64 = off % n;
            proof {
                let m = self.tickers@.len() - 1;
                assert(off < n * m);
                assert(k < m) by (nonlinear_arith)
                    requires off < n * m, n > 0, off >= 0, k == off as int / n as int;
            }
            assert(k < self.tickers.len());
            let ki = k as usize;
            assert(ki == k);
            assert(f < n) by (nonlinear_arith)
                requires f == off as int % n as int, n > 0;
            self.tickers[ki].lerp(self.tickers[ki + 1], f, n)
        }
    }
}

/// Interpolation stays between its endpoints and moves toward the second:
/// from `a` toward `b` at `f / n` of the way, the result lies between them,
/// short of `b` unless it starts there, and past `a` once the distance covered,
/// `(b - a) * f / n`, reaches one unit; at the midpoint it is `a` plus half
/// the distance, rounded toward `a`.
pub proof fn lemma_lerp_between(a: int, b: int, f: int, n: int)
    requires
        0 <= f < n,
    ensures
        a <= b ==> a <= lerp_units(a, b, f, n) <= b,
        b <= a ==> b <= lerp_units(a, b, f, n) <= a,
        a < b ==> lerp_units(a, b, f, n) < b,
        b < a ==> b < lerp_units(a, b, f, n),
        a < b && (b - a) * f >= n ==> a < lerp_units(a, b, f, n),
        b < a && (a - b) * f >= n ==> lerp_units(a, b, f, n) < a,
        2 * f == n ==> lerp_units(a, b, f, n) == a + tdiv(b - a, 2),
{
    let d = b - a;
    let ad = abs(d) as int;
    assert(abs(d * f) == ad * f) by (nonlinear_arith)
        requires ad == abs(d), f >= 0;
    let q = (ad * f) / n;
    assert(0 <= q <= ad) by (nonlinear_arith)
        requires q == (ad * f) / n, 0 <= f < n, ad >= 0;
    if ad > 0 {
        assert(q < ad) by (nonlinear_arith)
            requires q == (ad * f) / n, 0 <= f < n, ad > 0;
        if ad * f >= n {
            assert(q >= 1) by (nonlinear_arith)
                requires q == (ad * f) / n, ad * f >= n, n > 0;
        }
    }
    if d < 0 && f > 0 {
        assert(d * f < 0) by (nonlinear_arith)
            requires d < 0, f > 0;
    }
    if d >= 0 {
        assert(d * f >= 0) by (nonlinear_arith)
            requires d >= 0, f >= 0;
    }
    if 2 * f == n {
        assert(q == ad / 2) by (nonlinear_arith)
            requires q == (ad * f) / n, 2 * f == n, f > 0, ad >= 0;
        assert(abs(d) / 2 == ad / 2);
    }
}

/// Interpolation in a store stays between the two samples around the
/// timestamp (see `lemma_lerp_between` for the high and the low alike).
pub proof fn lemma_interpolation_between(store: &TickerStore, timestamp: u64)
    requires
        store.tickers@.len() > 0,
        store.start_timestamp <= timestamp < store.last_timestamp(),
    ensures
        ({
            let n = store.ticker_size as int;
            let offset = timestamp - store.start_timestamp;
            let a = store.tickers@[offset / n].high.units as int;
            let b = store.tickers@[offset / n + 1].high.units as int;
            let r = store.interpolated(timestamp).high.units as int;
            &&& n > 0
            &&& r == lerp_units(a, b, offset % n, n)
            &&& a <= b ==> a <= r <= b
            &&& b <= a ==> b <= r <= a
            &&& a < b && (b - a) * (offset % n) >= n ==> a < r < b
            &&& 2 * (offset % n) == n ==> r == a + tdiv(b - a, 2)
        }),
{
    store.lemma_interval_positive(timestamp);
    let n = store.ticker_size as int;
    let offset = timestamp - store.start_timestamp;
    let m = store.tickers@.len() - 1;
    assert(offset < n * m);
    assert(offset / n < m) by (nonlinear_arith)
        requires offset < n * m, n > 0, offset >= 0;
    assert(0 <= offset % n < n) by (nonlinear_arith)
        requires n > 0;
    let a = store.tickers@[offset / n].high.units as int;
    let b = store.tickers@[offset / n + 1].high.units as int;
    lemma_lerp_between(a, b, offset % n, n);
}

} // verus!
