//! Market-data queries and the series they return.
use crate::num::{times_units, Num, SCALE};
use crate::terminal_type::count_num;
use crate::operand::Operand;
use vstd::prelude::*;

verus! {

/// Which series of a market to read.
#[derive(Clone, Copy, Debug, PartialEq, Eq, Structural)]
pub enum MarketDataOperator {
    Volume,
    TradeCount,
    Open,
    High,
    Low,
    Close,
}

/// A market-data operation: the series, then operands for the market index,
/// the start timestamp and the duration. An absent market index takes the
/// evaluation context's value when there is one.
pub type MarketDataOperation = (MarketDataOperator, Operand, Operand, Operand);

/// Bids and asks of a market.
pub struct OrderBook {
    pub bid_price: Vec<Num>,
    pub bid_volume: Vec<Num>,
    pub ask_price: Vec<Num>,
    pub ask_volume: Vec<Num>,
}

/// The series of one market over a stretch of time.
pub struct MarketData {
    pub open: Vec<Num>,
    pub high: Vec<Num>,
    pub low: Vec<Num>,
    pub close: Vec<Num>,
    pub volume: Vec<Num>,
    pub trade_count: Vec<Num>,
}

/// The model of `MarketData`.
pub struct MarketDataModel {
    pub open: Seq<Num>,
    pub high: Seq<Num>,
    pub low: Seq<Num>,
    pub close: Seq<Num>,
    pub volume: Seq<Num>,
    pub trade_count: Seq<Num>,
}

impl View for MarketData {
    type V = MarketDataModel;

    open spec fn view(&self) -> MarketDataModel {
        MarketDataModel {
            open: self.open@,
            high: self.high@,
            low: self.low@,
            close: self.close@,
            volume: self.volume@,
            trade_count: self.trade_count@,
        }
    }
}

impl MarketDataModel {
    /// The series that `operator` names.
    pub open spec fn select(self, operator: MarketDataOperator) -> Seq<Num> {
        match operator {
            MarketDataOperator::Open => self.open,
            MarketDataOperator::High => self.high,
            MarketDataOperator::Low => self.low,
            MarketDataOperator::Close => self.close,
            MarketDataOperator::Volume => self.volume,
            MarketDataOperator::TradeCount => self.trade_count,
        }
    }
}

impl MarketData {
    /// Takes the series that `operator` names.
    pub fn take(self, operator: MarketDataOperator) -> (r: Vec<Num>)
        ensures
            r@ == self@.select(operator),
    {
        match operator {
            MarketDataOperator::Open => self.open,
            MarketDataOperator::High => self.high,
            MarketDataOperator::Low => self.low,
            MarketDataOperator::Close => self.close,
            MarketDataOperator::Volume => self.volume,
            MarketDataOperator::TradeCount => self.trade_count,
        }
    }
}

/// The series `1, 2, 3, 4, 5`, each multiplied by `factor`.
pub open spec fn ramp(factor: Num) -> Seq<Num> {
    Seq::new(5, |i: int| Num { units: times_units((i + 1) * SCALE, factor.units as int) as i64 })
}

/// The placeholder data of `get_market_data` for `market_index`: open and low
/// scaled by the index, high by the whole part of `1 / (index + 1)`.
pub open spec fn placeholder_market_data(market_index: nat) -> MarketDataModel {
    let by_index = count_num(market_index);
    MarketDataModel {
        open: ramp(by_index),
        high: ramp(if market_index == 0 { count_num(1) } else { count_num(0) }),
        low: ramp(by_index),
        close: ramp(count_num(1)),
        volume: ramp(count_num(1)),
        trade_count: Seq::empty(),
    }
}

/// `1, 2, 3, 4, 5`, each multiplied by `factor`.
fn ramp_times(factor: Num) -> (r: Vec<Num>)
    ensures
        r@ == ramp(factor),
{
    let mut r: Vec<Num> = Vec::new();
    let mut k: i64 = 1;
    while k <= 5
        invariant
            1 <= k <= 6,
            r@ == ramp(factor).subrange(0, k - 1),
        decreases 6 - k,
    {
        r.push(Num::from_int(k).times(factor));
        assert(r@ =~= ramp(factor).subrange(0, k as int));
        k = k + 1;
    }
    assert(r@ =~= ramp(factor));
    r
}

/// Placeholder data that depends on the market index alone: open and low are
/// `1..=5` times the index, high is `1..=5` times the whole part of
/// `1 / (index + 1)`, close and volume are `1..=5`, and there is no trade count.
pub fn get_market_data(market_index: usize, timestamp_start: Num, duration: Num) -> (r: MarketData)
    ensures
        r@ == placeholder_market_data(market_index as nat),
{
    let by_index = Num::from_usize(market_index);
    let high_factor = if market_index == 0 { Num::from_usize(1) } else { Num::from_usize(0) };
    MarketData {
        open: ramp_times(by_index),
        high: ramp_times(high_factor),
        low: ramp_times(by_index),
        close: ramp_times(Num::from_usize(1)),
        volume: ramp_times(Num::from_usize(1)),
        trade_count: Vec::new(),
    }
}

} // verus!
