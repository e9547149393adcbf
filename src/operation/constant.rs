//! Named constants, fixed or read from the environment.
use crate::operand::Operand;
use vstd::prelude::*;

verus! {

/// A named constant. `PortfolioValue`, `MarketPrice` and
/// `SelectedMarketPortfolioValue` are read from the environment, the last two
/// for the market whose index the operand gives; the numeric ones are fixed;
/// the rest have no source and are zero.
#[derive(Clone, Copy, Debug, PartialEq, Eq, Structural)]
pub enum ConstantOperator {
    PortfolioValue,
    MarketPrice,
    SelectedMarketIndex,
    SelectedMarketPortfolioRelativeValue,
    SelectedMarketPortfolioValue,
    BtcMarketIndex,
    EthMarketIndex,
    CurrentTimestampMs,
    SelectedMarketListingTimestampMs,
    Zero,
    One,
    Two,
    Three,
    Four,
    Five,
    PI,
    GoldenRatio,
    EulerNumber,
    Six,
    Seven,
    Eight,
    Nine,
    Ten,
}

/// A constant operation: the constant and the operand that selects a market.
pub type ConstantOperation = (ConstantOperator, Operand);

} // verus!
