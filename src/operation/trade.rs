//! Trade actions and the records they leave.
use crate::num::Num;
use crate::operand::Operand;
use vstd::prelude::*;

verus! {

/// Leverage of a futures trade; `X1` for ordinary trading.
#[derive(Clone, Copy, Debug, PartialEq, Eq, Structural)]
pub enum TradeLeverage {
    X1,
    X2,
    X5,
}

impl TradeLeverage {
    /// The leverage's name.
    pub fn name(&self) -> (r: &'static str)
        ensures
            r@ == match self {
                TradeLeverage::X1 => "X1"@,
                TradeLeverage::X2 => "X2"@,
                TradeLeverage::X5 => "X5"@,
            },
    {
        match self {
            TradeLeverage::X1 => "X1",
            TradeLeverage::X2 => "X2",
            TradeLeverage::X5 => "X5",
        }
    }
}

/// What a trade does.
#[derive(Clone, Copy, Debug, PartialEq, Eq, Structural)]
pub enum TradeOperator {
    Buy,
    Sell,
    Nothing,
}

impl TradeOperator {
    /// The action's name.
    pub fn name(&self) -> (r: &'static str)
        ensures
            r@ == match self {
                TradeOperator::Buy => "Buy"@,
                TradeOperator::Sell => "Sell"@,
                TradeOperator::Nothing => "Nothing"@,
            },
    {
        match self {
            TradeOperator::Buy => "Buy",
            TradeOperator::Sell => "Sell",
            TradeOperator::Nothing => "Nothing",
        }
    }
}

/// A trade operation: action, market index operand, price operand, amount
/// operand, and the leverage, if any.
pub type TradeOperation = (TradeOperator, Operand, Operand, Operand, Option<TradeLeverage>);

/// The record that a trade operation leaves in the trade log.
#[derive(Clone, Copy, Debug, PartialEq, Eq, Structural)]
pub struct Trade {
    pub operator: TradeOperator,
    pub index: usize,
    pub price: Num,
    pub amount: Num,
    pub leverage: Option<TradeLeverage>,
}

/// The trade log: records in the order their operations ran.
pub type TradeList = Vec<Trade>;

} // verus!
