//! An expression engine for trading-strategy logic: a flat, index-addressed
//! program of operations evaluated by one recursive interpreter, with a
//! time-indexed sample store beside it.
//!
//! Numbers are fixed-point decimals (`Num`, millionths in an `i64`). The
//! interpreter is proved to follow the spec-level evaluator in
//! `operation::semantics`; the general facts about it are in
//! `operation::laws`.

pub mod environment;
pub mod num;
pub mod operand;
pub mod operation;
pub mod rank;
pub mod terminal_type;
pub mod ticker_store;

pub use environment::{Env, RealFunctions, TableEnv};
pub use num::Num;
pub use operand::Operand;
pub use operation::boolean::BoolOperator;
pub use operation::constant::ConstantOperator;
pub use operation::evaluate::{evaluate_program, find_malformed, ProgramError};
pub use operation::index::IndexOperator;
pub use operation::market_data::{get_market_data, MarketData, MarketDataOperator, OrderBook};
pub use operation::num_pick::{get_function_by_num_pick_operator, NumPickOperator};
pub use operation::number::NumOperator;
pub use operation::trade::{Trade, TradeLeverage, TradeList, TradeOperator};
pub use operation::{Context, Operation, OperationList};
pub use terminal_type::TerminalType;
pub use ticker_store::{Ticker, TickerStore};
