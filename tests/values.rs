use gpstrat::{
    get_market_data, Num, TerminalType, Trade, TradeLeverage, TradeOperator,
};

fn num(x: f64) -> Num {
    Num::from_units((x * 1_000_000.0).round() as i64)
}

#[test]
fn test_partial_eq() {
    let trade1 = Trade { operator: TradeOperator::Buy, index: 1, price: num(1.0), amount: num(1.0), leverage: None };
    let trade2 = Trade { operator: TradeOperator::Buy, index: 1, price: num(1.0), amount: num(1.0), leverage: None };
    assert_eq!(trade1, trade2);

    let trade3 = Trade { operator: TradeOperator::Sell, index: 1, price: num(1.0), amount: num(1.0), leverage: None };

    assert_ne!(trade1, trade3);
    assert_eq!(trade1, trade1);
}

#[test]
fn names_of_actions_and_leverages() {
    assert_eq!(TradeOperator::Buy.name(), "Buy");
    assert_eq!(TradeOperator::Sell.name(), "Sell");
    assert_eq!(TradeOperator::Nothing.name(), "Nothing");
    assert_eq!(TradeLeverage::X1.name(), "X1");
    assert_eq!(TradeLeverage::X5.name(), "X5");
}

#[test]
fn coercions_of_scalars_and_series() {
    let scalar = TerminalType::Number(num(4.5));
    assert_eq!(scalar.to_list(), vec![num(4.5)]);
    assert_eq!(scalar.to_f32(), num(4.5));
    assert!(scalar.to_bool());
    assert_eq!(scalar.to_usize(), 4);
    let one = TerminalType::NumberList(vec![num(4.5)]);
    assert_eq!(one.to_f32(), num(1.0));
    let unit = TerminalType::NumberList(vec![num(1.0)]);
    assert_eq!(unit.to_f32(), num(1.0));
    let empty = TerminalType::NumberList(vec![]);
    assert!(!empty.to_bool());
    assert_eq!(empty.to_f32(), num(0.0));
    assert!(!TerminalType::Number(num(-2.0)).to_bool());
    assert_eq!(TerminalType::Number(num(-2.0)).to_usize(), 0);
    assert_eq!(TerminalType::NumberList(vec![num(9.0), num(9.0)]), TerminalType::Number(num(2.0)));
}

#[test]
fn fixed_point_arithmetic() {
    assert_eq!(num(1.5).plus(num(2.25)), num(3.75));
    assert_eq!(num(1.5).minus(num(2.25)), num(-0.75));
    assert_eq!(num(1.5).times(num(-2.0)), num(-3.0));
    assert_eq!(num(3.0).divide(num(2.0)), num(1.5));
    assert_eq!(Num::from_units(i64::MAX).plus(num(1.0)), Num::from_units(i64::MAX));
    assert_eq!(Num::from_units(i64::MIN).minus(num(1.0)), Num::from_units(i64::MIN));
    assert_eq!(Num::from_int(7), num(7.0));
    assert_eq!(Num::from_usize(3), num(3.0));
    assert_eq!(num(7.9).to_index(), 7);
}

#[test]
fn placeholder_market_data() {
    let data = get_market_data(2, num(0.0), num(0.0));
    assert_eq!(data.open, vec![num(2.0), num(4.0), num(6.0), num(8.0), num(10.0)]);
    assert_eq!(data.low, data.open);
    assert_eq!(data.high, vec![num(0.0); 5]);
    assert_eq!(data.close, vec![num(1.0), num(2.0), num(3.0), num(4.0), num(5.0)]);
    assert!(data.trade_count.is_empty());
    let first = get_market_data(0, num(0.0), num(0.0));
    assert_eq!(first.high, vec![num(1.0), num(2.0), num(3.0), num(4.0), num(5.0)]);
    assert_eq!(first.open, vec![num(0.0); 5]);
}

#[test]
fn values_order_by_scalar_projection() {
    let one = TerminalType::Number(num(1.0));
    let pair = TerminalType::NumberList(vec![num(-5.0), num(-6.0)]);
    assert!(one < pair);
    assert!(pair > one);
    assert!(TerminalType::Number(num(2.0)) <= pair);
    assert!(TerminalType::Number(num(-1.0)) < TerminalType::Number(num(0.5)));
}
