//! Operations: the nodes of a program.
pub mod boolean;
pub mod constant;
pub mod index;
pub mod market_data;
pub mod num_pick;
pub mod number;
pub mod trade;
pub mod semantics;
pub mod evaluate;
pub mod laws;

use crate::operand::Operand;
use crate::terminal_type::TerminalType;
use boolean::BoolOperation;
use constant::ConstantOperation;
use index::IndexOperation;
use market_data::MarketDataOperation;
use num_pick::NumPickOperation;
use number::NumOperation;
use trade::TradeOperation;
use vstd::prelude::*;

verus! {

/// A branch: condition, operand taken when it holds, operand taken otherwise.
pub type BranchOperation = (Operand, Operand, Operand);

/// A ranking: the scoring operand. The candidates come from the environment;
/// the operand is evaluated once for each, in order, with the candidate as the
/// context, and the candidates are returned in ascending order of the scalar
/// values, equal values keeping their order.
pub type MarketSortOperation = (Operand,);

/// A node of a program.
pub enum Operation {
    Branch(BranchOperation),
    Bool(BoolOperation),
    Trade(TradeOperation),
    MarketData(MarketDataOperation),
    /// Collapses a series into one number.
    NumPick(NumPickOperation),
    Number(NumOperation),
    Constant(ConstantOperation),
    Index(IndexOperation),
    Identity(Operand),
    MarketSort(MarketSortOperation),
}

/// The evaluation context: the current candidate while ranking, if any.
pub type Context = Option<TerminalType>;

/// A program: operations addressed by position.
pub type OperationList = Vec<Operation>;

} // verus!
