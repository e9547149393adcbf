//! The environment: what the engine asks of the outside world.
use crate::num::Num;
use crate::operation::market_data::{
    get_market_data, placeholder_market_data, MarketData, MarketDataModel,
};
use crate::terminal_type::copy_list;
use crate::operation::number::NumOperator;
use vstd::prelude::*;

verus! {

/// Market prices, market series and portfolio values, and the real functions
/// that fixed-point numbers cannot compute. Every query is a pure function of
/// its arguments, which the `spec` functions name. Implementations are written
/// in verified code; `TableEnv` is one.
pub trait Env {
    /// The candidate market indices for ranking.
    spec fn market_index_list_spec(&self) -> Seq<Num>;

    /// The price of market `index`.
    spec fn market_price_spec(&self, index: usize) -> Num;

    /// The portfolio value held in market `index`.
    spec fn market_portfolio_value_spec(&self, index: usize) -> Num;

    /// The value of the whole portfolio.
    spec fn overall_portfolio_value_spec(&self) -> Num;

    /// The series of market `index` from `timestamp_start` over `duration`.
    spec fn market_data_spec(&self, index: usize, timestamp_start: Num, duration: Num) -> MarketDataModel;

    /// Cosine, sine, tangent, power or logarithm of `a` (and `b`).
    spec fn real_function_spec(&self, operator: NumOperator, a: Num, b: Num) -> Num;

    fn get_market_index_list(&self) -> (r: Vec<Num>)
        ensures
            r@ == self.market_index_list_spec(),
    ;

    fn get_market_price(&self, index: usize) -> (r: Num)
        ensures
            r == self.market_price_spec(index),
    ;

    fn get_market_portfolio_value(&self, index: usize) -> (r: Num)
        ensures
            r == self.market_portfolio_value_spec(index),
    ;

    fn get_overall_portfolio_value(&self) -> (r: Num)
        ensures
            r == self.overall_portfolio_value_spec(),
    ;

    fn get_market_data(&self, market_index: usize, timestamp_start: Num, duration: Num) -> (r: MarketData)
        ensures
            r@ == self.market_data_spec(market_index, timestamp_start, duration),
    ;

    fn real_function(&self, operator: NumOperator, a: Num, b: Num) -> (r: Num)
        requires
            !operator.is_exact(),
        ensures
            r == self.real_function_spec(operator, a, b),
    ;
}

/// `f` can be called on every argument and gives one result for each.
pub open spec fn is_total_function<F: Fn(NumOperator, Num, Num) -> Num>(f: F) -> bool {
    &&& forall|o: NumOperator, a: Num, b: Num| #[trigger] f.requires((o, a, b))
    &&& forall|o: NumOperator, a: Num, b: Num, x: Num, y: Num|
        #[trigger] f.ensures((o, a, b), x) && #[trigger] f.ensures((o, a, b), y) ==> x == y
}

/// Cosine, sine, tangent, power and logarithm, given by a function that is
/// defined everywhere and gives one result for each argument.
pub struct RealFunctions<F: Fn(NumOperator, Num, Num) -> Num> {
    f: F,
}

impl<F: Fn(NumOperator, Num, Num) -> Num> RealFunctions<F> {
    #[verifier::type_invariant]
    spec fn total(self) -> bool {
        is_total_function(self.f)
    }

    /// The result of the function on `operator`, `a` and `b`.
    pub closed spec fn apply_spec(&self, operator: NumOperator, a: Num, b: Num) -> Num {
        choose|x: Num| self.f.ensures((operator, a, b), x)
    }

    /// Takes the real functions from `f`.
    pub fn new(f: F) -> (r: RealFunctions<F>)
        requires
            is_total_function(f),
    {
        RealFunctions { f }
    }

    /// Applies the function.
    pub fn apply(&self, operator: NumOperator, a: Num, b: Num) -> (r: Num)
        ensures
            r == self.apply_spec(operator, a, b),
    {
        proof {
            use_type_invariant(self);
        }
        (self.f)(operator, a, b)
    }
}

/// An environment read from tables: candidate indices, and per market index
/// its price, portfolio value and series. Markets past the end of a table have
/// price and value zero and empty series; the series do not depend on the
/// start or the duration asked for. Cosine, sine, tangent, power and logarithm
/// come from `real_functions`.
pub struct TableEnv<F: Fn(NumOperator, Num, Num) -> Num> {
    pub market_index_list: Vec<Num>,
    pub market_prices: Vec<Num>,
    pub market_portfolio_values: Vec<Num>,
    pub overall_portfolio_value: Num,
    pub market_data: Vec<MarketData>,
    pub real_functions: RealFunctions<F>,
}

/// Market data with no series.
pub open spec fn empty_market_data() -> MarketDataModel {
    MarketDataModel {
        open: Seq::empty(),
        high: Seq::empty(),
        low: Seq::empty(),
        close: Seq::empty(),
        volume: Seq::empty(),
        trade_count: Seq::empty(),
    }
}

/// The entry of `table` at `index`, or zero past its end.
pub open spec fn entry(table: Seq<Num>, index: usize) -> Num {
    if index < table.len() {
        table[index as int]
    } else {
        Num { units: 0 }
    }
}

/// The entry of `table` at `index`, or zero past its end.
fn entry_of(table: &Vec<Num>, index: usize) -> (r: Num)
    ensures
        r == entry(table@, index),
{
    if index < table.len() {
        table[index]
    } else {
        Num::zero()
    }
}

impl MarketData {
    /// A copy with the same series.
    pub fn duplicate(&self) -> (r: MarketData)
        ensures
            r@ == self@,
    {
        MarketData {
            open: copy_list(&self.open),
            high: copy_list(&self.high),
            low: copy_list(&self.low),
            close: copy_list(&self.close),
            volume: copy_list(&self.volume),
            trade_count: copy_list(&self.trade_count),
        }
    }
}

/// The whole numbers `1, 2, 3`.
pub open spec fn one_two_three() -> Seq<Num> {
    seq![Num { units: 1_000_000 }, Num { units: 2_000_000 }, Num { units: 3_000_000 }]
}

impl<F: Fn(NumOperator, Num, Num) -> Num> TableEnv<F> {
    /// Placeholder data for testing: candidates `1, 2, 3`; markets 0, 1 and 2
    /// priced and valued `1`, `2` and `3`; a portfolio worth `1`; for each of
    /// the first `markets` markets the series of `get_market_data`; and the
    /// real functions given.
    pub fn placeholder(markets: usize, real_functions: RealFunctions<F>) -> (r: TableEnv<F>)
        ensures
            r.real_functions == real_functions,
            r.market_index_list@ == one_two_three(),
            r.market_prices@ == one_two_three(),
            r.market_portfolio_values@ == one_two_three(),
            r.overall_portfolio_value == (Num { units: 1_000_000 }),
            r.market_data@.len() == markets,
            forall|i: int| 0 <= i < markets ==> #[trigger] r.market_data@[i]@ == placeholder_market_data(i as nat),
    {
        let mut market_data: Vec<MarketData> = Vec::new();
        let mut i: usize = 0;
        while i < markets
            invariant
                i <= markets,
                market_data@.len() == i,
                forall|j: int| 0 <= j < i ==> #[trigger] market_data@[j]@ == placeholder_market_data(j as nat),
            decreases markets - i,
        {
            market_data.push(get_market_data(i, Num::zero(), Num::zero()));
            i = i + 1;
        }
        let values = vec![Num::from_units(1_000_000), Num::from_units(2_000_000), Num::from_units(3_000_000)];
        assert(values@ =~= one_two_three());
        TableEnv {
            market_index_list: copy_list(&values),
            market_prices: copy_list(&values),
            market_portfolio_values: values,
            overall_portfolio_value: Num::from_units(1_000_000),
            market_data,
            real_functions,
        }
    }
}

impl<F: Fn(NumOperator, Num, Num) -> Num> Env for TableEnv<F> {
    open spec fn market_index_list_spec(&self) -> Seq<Num> {
        self.market_index_list@
    }

    open spec fn market_price_spec(&self, index: usize) -> Num {
        entry(self.market_prices@, index)
    }

    open spec fn market_portfolio_value_spec(&self, index: usize) -> Num {
        entry(self.market_portfolio_values@, index)
    }

    open spec fn overall_portfolio_value_spec(&self) -> Num {
        self.overall_portfolio_value
    }

    open spec fn market_data_spec(&self, index: usize, timestamp_start: Num, duration: Num) -> MarketDataModel {
        if index < self.market_data@.len() {
            self.market_data@[index as int]@
        } else {
            empty_market_data()
        }
    }

    open spec fn real_function_spec(&self, operator: NumOperator, a: Num, b: Num) -> Num {
        self.real_functions.apply_spec(operator, a, b)
    }

    fn get_market_index_list(&self) -> (r: Vec<Num>) {
        copy_list(&self.market_index_list)
    }

    fn get_market_price(&self, index: usize) -> (r: Num) {
        entry_of(&self.market_prices, index)
    }

    fn get_market_portfolio_value(&self, index: usize) -> (r: Num) {
        entry_of(&self.market_portfolio_values, index)
    }

    fn get_overall_portfolio_value(&self) -> (r: Num) {
        self.overall_portfolio_value
    }

    fn get_market_data(&self, market_index: usize, timestamp_start: Num, duration: Num) -> (r: MarketData) {
        if market_index < self.market_data.len() {
            self.market_data[market_index].duplicate()
        } else {
            MarketData {
                open: Vec::new(),
                high: Vec::new(),
                low: Vec::new(),
                close: Vec::new(),
                volume: Vec::new(),
                trade_count: Vec::new(),
            }
        }
    }

    fn real_function(&self, operator: NumOperator, a: Num, b: Num) -> (r: Num) {
        self.real_functions.apply(operator, a, b)
    }
}

} // verus!
