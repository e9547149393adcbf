use gpstrat::{
    evaluate_program, find_malformed, get_market_data, BoolOperator, ConstantOperator, Context,
    Env, IndexOperator, RealFunctions, TableEnv, MarketData, MarketDataOperator, Num, NumOperator, NumPickOperator, Operand,
    Operation, OperationList, ProgramError, TerminalType, Trade, TradeLeverage, TradeList, TradeOperator,
};

fn num(x: f64) -> Num {
    Num::from_units((x * 1_000_000.0).round() as i64)
}

fn as_f64(n: Num) -> f64 {
    n.units as f64 / 1_000_000.0
}

/// The real functions of `f64`.
fn real_function(operator: NumOperator, a: Num, b: Num) -> Num {
    let (a, b) = (as_f64(a), as_f64(b));
    num(match operator {
        NumOperator::Cos => a.cos(),
        NumOperator::Sin => a.sin(),
        NumOperator::Tan => a.tan(),
        NumOperator::Pow => a.powf(b),
        _ => a.log(b),
    })
}

type Real = fn(NumOperator, Num, Num) -> Num;

fn reals() -> RealFunctions<Real> {
    RealFunctions::new(real_function as Real)
}

fn number(x: f64) -> TerminalType {
    TerminalType::Number(num(x))
}

fn list(xs: &[f64]) -> TerminalType {
    TerminalType::NumberList(xs.iter().map(|x| num(*x)).collect())
}

fn literal(x: f64) -> Operand {
    Operand::Terminal(number(x))
}

fn by_index() -> Vec<Num> {
    vec![num(1.0), num(2.0), num(3.0)]
}

/// Candidates 1 to 3, prices and values 1, 2, 3 for markets 0 to 2, and the
/// placeholder series.
fn default_env() -> TableEnv<Real> {
    TableEnv::placeholder(11, reals())
}

/// Ten markets; only market 6 has a high above zero.
fn sort_env() -> TableEnv<Real> {
    TableEnv {
        market_index_list: (1..=10).map(|i| num(i as f64)).collect(),
        market_prices: by_index(),
        market_portfolio_values: by_index(),
        overall_portfolio_value: num(1.0),
        market_data: (0..=10)
            .map(|i| MarketData {
                close: vec![],
                high: vec![if i == 6 { num(1000.0) } else { num(0.0) }],
                low: vec![],
                open: vec![],
                trade_count: vec![],
                volume: vec![],
            })
            .collect(),
        real_functions: reals(),
    }
}

/// Markets 0 to 3, with the placeholder series.
fn four_market_env() -> TableEnv<Real> {
    let mut env = TableEnv::placeholder(11, reals());
    env.market_index_list = vec![num(0.0), num(1.0), num(2.0), num(3.0)];
    env
}

fn eval_last(operation_list: &OperationList, trade_list: &mut TradeList, env: &impl Env) -> TerminalType {
    let context: Context = None;
    operation_list[operation_list.len() - 1].evaluate(operation_list, trade_list, &context, env)
}

fn add_constants(env: &impl Env) -> TerminalType {
    let context = None;
    let mut operation_list = OperationList::new();
    let mut trade_list = TradeList::new();
    let operation = Operation::Number((NumOperator::Add, Operand::Pointer(0), Operand::Pointer(1)));
    operation_list.push(Operation::Constant((ConstantOperator::One, Operand::Absent)));
    operation_list.push(Operation::Constant((ConstantOperator::Two, Operand::Absent)));
    operation.evaluate(&operation_list, &mut trade_list, &context, env)
}

#[test]
fn test_evaluate_operation() {
    assert_eq!(add_constants(&default_env()), number(3.0));
}

#[test]
fn mod_test_evaluate_operation() {
    assert_eq!(add_constants(&four_market_env()), number(3.0));
}

fn add_literals(env: &impl Env) -> TerminalType {
    let context = None;
    let operation_list = OperationList::new();
    let mut trade_list = TradeList::new();
    let operation = Operation::Number((NumOperator::Add, literal(1.0), literal(2.0)));
    operation.evaluate(&operation_list, &mut trade_list, &context, env)
}

#[test]
fn test_evaluate_operation_number_constants() {
    assert_eq!(add_literals(&default_env()), number(3.0));
}

#[test]
fn mod_test_evaluate_operation_number_constants() {
    assert_eq!(add_literals(&four_market_env()), number(3.0));
}

fn equal_literals(env: &impl Env) -> TerminalType {
    let context = None;
    let operation_list = OperationList::new();
    let mut trade_list = TradeList::new();
    let operation = Operation::Bool((BoolOperator::Equal, literal(1.0), literal(2.0)));
    operation.evaluate(&operation_list, &mut trade_list, &context, env)
}

#[test]
fn test_bool_operation() {
    assert_eq!(equal_literals(&default_env()), number(0.0));
}

#[test]
fn mod_test_bool_operation() {
    assert_eq!(equal_literals(&four_market_env()), number(0.0));
}

fn branch_twice(env: &impl Env) -> (TerminalType, TerminalType) {
    let context = None;
    let mut operation_list = OperationList::new();
    let mut operation_list_2 = OperationList::new();
    let mut trade_list = TradeList::new();
    let operation = Operation::Branch((Operand::Pointer(0), literal(1.0), literal(2.0)));
    operation_list.push(Operation::Bool((BoolOperator::Equal, literal(1.0), literal(2.0))));
    operation_list_2.push(Operation::Bool((BoolOperator::LessThan, literal(1.0), literal(2.0))));
    let first = operation.evaluate(&operation_list, &mut trade_list, &context, env);
    let second = operation.evaluate(&operation_list_2, &mut trade_list, &context, env);
    (first, second)
}

#[test]
fn test_branch_operation() {
    let (first, second) = branch_twice(&default_env());
    assert_eq!(first, number(2.0));
    assert_eq!(second, number(1.0));
}

#[test]
fn mod_test_branch_operation() {
    let (first, second) = branch_twice(&four_market_env());
    assert_eq!(first, number(2.0));
    assert_eq!(second, number(1.0));
}

fn max_of_literal(env: &impl Env) -> TerminalType {
    let context = None;
    let operation_list = OperationList::new();
    let mut trade_list = TradeList::new();
    let operation = Operation::NumPick((NumPickOperator::Max, Operand::Terminal(list(&[1.0, 2.0, 3.0]))));
    operation.evaluate(&operation_list, &mut trade_list, &context, env)
}

#[test]
fn test_num_pick_operation() {
    assert_eq!(max_of_literal(&default_env()), number(3.0));
}

#[test]
fn mod_test_num_pick_operation() {
    assert_eq!(max_of_literal(&four_market_env()), number(3.0));
}

fn pick_then_branch(env: &impl Env) -> TerminalType {
    let mut trade_list = TradeList::new();
    let operation_list = vec![
        Operation::NumPick((NumPickOperator::Max, Operand::Terminal(list(&[1.0, 2.0, 3.0])))),
        Operation::Bool((BoolOperator::GreaterThan, Operand::Pointer(0), literal(2.0))),
        Operation::Branch((Operand::Pointer(1), literal(1.0), literal(2.0))),
    ];
    eval_last(&operation_list, &mut trade_list, env)
}

#[test]
fn test_num_pic_with_branch_operation() {
    assert_eq!(pick_then_branch(&default_env()), number(1.0));
}

#[test]
fn mod_test_num_pic_with_branch_operation() {
    assert_eq!(pick_then_branch(&four_market_env()), number(1.0));
}

fn trade_program(leverage: Option<TradeLeverage>) -> OperationList {
    vec![
        Operation::Trade((TradeOperator::Buy, literal(1.0), literal(2.0), literal(3.0), leverage)),
        Operation::Trade((TradeOperator::Sell, literal(1.0), literal(2.0), literal(3.0), leverage)),
        Operation::MarketData((MarketDataOperator::High, literal(1.0), literal(1.0), literal(1.0))),
        Operation::NumPick((NumPickOperator::Average, Operand::Pointer(2))),
        Operation::NumPick((NumPickOperator::Max, Operand::Pointer(2))),
        Operation::Bool((BoolOperator::LessThan, Operand::Pointer(4), Operand::Pointer(3))),
        Operation::Branch((Operand::Pointer(5), Operand::Pointer(0), Operand::Pointer(1))),
    ]
}

#[test]
fn test_trade_operation() {
    let mut trade_list = TradeList::new();
    let operation_list = trade_program(None);
    eval_last(&operation_list, &mut trade_list, &default_env());
    assert_eq!(trade_list.len(), 1);
    assert_eq!(trade_list[0].operator, TradeOperator::Sell);
}

#[test]
fn mod_test_trade_operation() {
    let mut trade_list = TradeList::new();
    let operation_list = trade_program(Some(TradeLeverage::X1));
    eval_last(&operation_list, &mut trade_list, &four_market_env());
    assert_eq!(trade_list.len(), 1);
    assert_eq!(trade_list[0].operator, TradeOperator::Sell);
}

#[test]
fn trade_record_holds_evaluated_operands() {
    let mut trade_list = TradeList::new();
    let operation_list = trade_program(Some(TradeLeverage::X2));
    let r = eval_last(&operation_list, &mut trade_list, &default_env());
    assert_eq!(r, number(1.0));
    assert_eq!(
        trade_list[0],
        Trade {
            operator: TradeOperator::Sell,
            index: 1,
            price: num(2.0),
            amount: num(3.0),
            leverage: Some(TradeLeverage::X2),
        }
    );
}

fn several_bools(env: &impl Env) -> TerminalType {
    let mut trade_list = TradeList::new();
    let operation_list = vec![
        Operation::Bool((BoolOperator::LessThan, literal(1.0), literal(2.0))),
        Operation::Bool((BoolOperator::Equal, literal(1.0), literal(1.0))),
        Operation::MarketData((MarketDataOperator::High, literal(1.0), literal(1.0), literal(1.0))),
        Operation::NumPick((NumPickOperator::Length, Operand::Pointer(2))),
        Operation::Bool((BoolOperator::GreaterThan, Operand::Pointer(3), literal(1.0))),
        Operation::Bool((BoolOperator::And, Operand::Pointer(0), Operand::Pointer(1))),
        Operation::Bool((BoolOperator::Or, literal(0.0), Operand::Pointer(5))),
        Operation::Identity(literal(1.0)),
        Operation::Identity(literal(2.0)),
        Operation::Branch((Operand::Pointer(6), Operand::Pointer(7), Operand::Pointer(8))),
    ];
    eval_last(&operation_list, &mut trade_list, env)
}

#[test]
fn test_multiple_bool_operation() {
    assert_eq!(several_bools(&default_env()), number(1.0));
}

#[test]
fn mod_test_multiple_bool_operation() {
    assert_eq!(several_bools(&four_market_env()), number(1.0));
}

#[test]
fn test_market_sort() {
    let mut trade_list = TradeList::new();
    let operation_list = vec![
        Operation::Constant((ConstantOperator::Zero, Operand::Absent)),
        Operation::MarketData((
            MarketDataOperator::High,
            Operand::Absent,
            Operand::Pointer(0),
            Operand::Pointer(0),
        )),
        Operation::NumPick((NumPickOperator::Max, Operand::Pointer(1))),
        Operation::MarketSort((Operand::Pointer(2),)),
        Operation::Index((IndexOperator::Last, Operand::Pointer(3))),
    ];
    let market_index = eval_last(&operation_list, &mut trade_list, &sort_env());
    assert_eq!(market_index, number(6.0));
}

#[test]
fn mod_test_market_sort() {
    let mut trade_list = TradeList::new();
    let operation_list = vec![
        Operation::Constant((ConstantOperator::Zero, Operand::Absent)),
        Operation::MarketData((
            MarketDataOperator::High,
            Operand::Absent,
            Operand::Pointer(0),
            Operand::Pointer(0),
        )),
        Operation::NumPick((NumPickOperator::Max, Operand::Pointer(0))),
        Operation::Number((NumOperator::Log, Operand::Pointer(1), Operand::Absent)),
        Operation::MarketSort((Operand::Pointer(2),)),
        Operation::Index((IndexOperator::Operand(Operand::Pointer(0)), Operand::Pointer(4))),
    ];
    let market_index = eval_last(&operation_list, &mut trade_list, &four_market_env());
    assert_eq!(market_index, number(0.0));

    let operation_list_2 = vec![
        Operation::Constant((ConstantOperator::Zero, Operand::Absent)),
        Operation::MarketData((
            MarketDataOperator::High,
            Operand::Absent,
            Operand::Pointer(0),
            Operand::Pointer(0),
        )),
        Operation::NumPick((NumPickOperator::Med, Operand::Pointer(1))),
        Operation::Number((NumOperator::Tan, Operand::Pointer(2), literal(2.0))),
        Operation::Constant((ConstantOperator::BtcMarketIndex, Operand::Absent)),
        Operation::MarketData((
            MarketDataOperator::High,
            Operand::Pointer(4),
            Operand::Pointer(0),
            Operand::Pointer(0),
        )),
        Operation::Number((NumOperator::Subtract, Operand::Pointer(3), Operand::Pointer(5))),
        Operation::MarketSort((Operand::Pointer(6),)),
    ];
    let ranked = eval_last(&operation_list_2, &mut trade_list, &four_market_env());
    println!("{:?}", ranked);
}

#[test]
fn ranking_sorts_ascending_and_keeps_ties_in_order() {
    // Keys: market 0 has high 1..=5 (max 5), the others 0; ties keep their order.
    let mut trade_list = TradeList::new();
    let operation_list = vec![
        Operation::MarketData((MarketDataOperator::High, Operand::Absent, literal(0.0), literal(0.0))),
        Operation::NumPick((NumPickOperator::Max, Operand::Pointer(0))),
        Operation::MarketSort((Operand::Pointer(1),)),
    ];
    let ranked = eval_last(&operation_list, &mut trade_list, &four_market_env());
    match ranked {
        TerminalType::NumberList(v) => assert_eq!(v, vec![num(1.0), num(2.0), num(3.0), num(0.0)]),
        _ => panic!("ranking gives a series"),
    }
}

#[test]
fn branch_records_only_the_chosen_trade() {
    let mut trade_list = TradeList::new();
    let operation_list = vec![
        Operation::Trade((TradeOperator::Buy, literal(4.0), literal(1.0), literal(1.0), None)),
        Operation::Trade((TradeOperator::Sell, literal(5.0), literal(1.0), literal(1.0), None)),
        Operation::Branch((literal(1.0), Operand::Pointer(0), Operand::Pointer(1))),
    ];
    eval_last(&operation_list, &mut trade_list, &default_env());
    assert_eq!(trade_list.len(), 1);
    assert_eq!(trade_list[0].operator, TradeOperator::Buy);
    assert_eq!(trade_list[0].index, 4);
}

#[test]
fn absent_branch_condition_takes_the_right_operand() {
    let mut trade_list = TradeList::new();
    let operation_list = vec![Operation::Branch((Operand::Absent, literal(1.0), literal(2.0)))];
    assert_eq!(eval_last(&operation_list, &mut trade_list, &default_env()), number(2.0));
}

#[test]
fn context_sets_the_market_of_an_absent_index() {
    let mut trade_list = TradeList::new();
    let operation_list: OperationList = vec![];
    let query = Operation::MarketData((MarketDataOperator::Open, Operand::Absent, literal(0.0), literal(0.0)));
    let context: Context = Some(number(2.0));
    let r = query.evaluate(&operation_list, &mut trade_list, &context, &default_env());
    assert_eq!(r, list(&[2.0, 4.0, 6.0, 8.0, 10.0]));
    match r {
        TerminalType::NumberList(v) => assert_eq!(v, vec![num(2.0), num(4.0), num(6.0), num(8.0), num(10.0)]),
        _ => panic!("market data is a series"),
    }
    // A present index wins over the context.
    let query = Operation::MarketData((MarketDataOperator::Open, literal(1.0), literal(0.0), literal(0.0)));
    match query.evaluate(&operation_list, &mut trade_list, &context, &default_env()) {
        TerminalType::NumberList(v) => assert_eq!(v, vec![num(1.0), num(2.0), num(3.0), num(4.0), num(5.0)]),
        _ => panic!("market data is a series"),
    }
}

fn index_with(selector: f64) -> TerminalType {
    let mut trade_list = TradeList::new();
    let operation_list: OperationList = vec![];
    let series = Operand::Terminal(list(&[10.0, 11.0, 12.0, 13.0, 14.0]));
    let op = Operation::Index((IndexOperator::Operand(literal(selector)), series));
    op.evaluate(&operation_list, &mut trade_list, &None, &default_env())
}

#[test]
fn index_is_clamped_into_the_series() {
    assert_eq!(index_with(10.0), number(14.0));
    assert_eq!(index_with(-3.0), number(10.0));
    assert_eq!(index_with(2.7), number(12.0));
}

#[test]
fn index_first_last_and_empty() {
    let mut trade_list = TradeList::new();
    let operation_list: OperationList = vec![];
    let series = || Operand::Terminal(list(&[10.0, 11.0, 12.0]));
    let first = Operation::Index((IndexOperator::First, series()));
    let last = Operation::Index((IndexOperator::Last, series()));
    let empty = Operation::Index((IndexOperator::Last, Operand::Terminal(list(&[]))));
    assert_eq!(first.evaluate(&operation_list, &mut trade_list, &None, &default_env()), number(10.0));
    assert_eq!(last.evaluate(&operation_list, &mut trade_list, &None, &default_env()), number(12.0));
    assert_eq!(empty.evaluate(&operation_list, &mut trade_list, &None, &default_env()), number(0.0));
}

fn arithmetic(operator: NumOperator, a: f64, b: f64) -> TerminalType {
    let mut trade_list = TradeList::new();
    let operation_list: OperationList = vec![];
    let op = Operation::Number((operator, literal(a), literal(b)));
    op.evaluate(&operation_list, &mut trade_list, &None, &default_env())
}

#[test]
fn arithmetic_operators() {
    assert_eq!(arithmetic(NumOperator::Subtract, 1.0, 2.5), number(-1.5));
    assert_eq!(arithmetic(NumOperator::Multiply, 1.5, -2.0), number(-3.0));
    assert_eq!(arithmetic(NumOperator::Divide, 1.0, 4.0), number(0.25));
    assert_eq!(arithmetic(NumOperator::Divide, -1.0, 3.0), TerminalType::Number(Num::from_units(-333_333)));
    assert_eq!(arithmetic(NumOperator::Modulo, 7.5, 2.0), number(1.5));
    assert_eq!(arithmetic(NumOperator::Modulo, -7.5, 2.0), number(-1.5));
    assert_eq!(arithmetic(NumOperator::Min, 1.0, -2.0), number(-2.0));
    assert_eq!(arithmetic(NumOperator::Max, 1.0, -2.0), number(1.0));
    assert_eq!(arithmetic(NumOperator::Cos, 0.0, 5.0), number(1.0));
    assert_eq!(arithmetic(NumOperator::Pow, 2.0, 3.0), number(8.0));
    assert_eq!(arithmetic(NumOperator::Log, 8.0, 2.0), number(3.0));
}

#[test]
fn division_by_zero_saturates() {
    assert_eq!(arithmetic(NumOperator::Divide, 1.0, 0.0), TerminalType::Number(Num::from_units(i64::MAX)));
    assert_eq!(arithmetic(NumOperator::Divide, -1.0, 0.0), TerminalType::Number(Num::from_units(i64::MIN)));
    assert_eq!(arithmetic(NumOperator::Divide, 0.0, 0.0), number(0.0));
    assert_eq!(arithmetic(NumOperator::Modulo, 3.0, 0.0), number(0.0));
}

fn compare(operator: BoolOperator, a: TerminalType, b: TerminalType) -> TerminalType {
    let mut trade_list = TradeList::new();
    let operation_list: OperationList = vec![];
    let op = Operation::Bool((operator, Operand::Terminal(a), Operand::Terminal(b)));
    op.evaluate(&operation_list, &mut trade_list, &None, &default_env())
}

#[test]
fn series_compare_by_length() {
    assert_eq!(compare(BoolOperator::Equal, list(&[7.0, 8.0]), number(2.0)), number(1.0));
    assert_eq!(compare(BoolOperator::GreaterThan, list(&[7.0, 8.0, 9.0]), list(&[100.0])), number(1.0));
    assert_eq!(compare(BoolOperator::And, list(&[]), number(1.0)), number(0.0));
    assert_eq!(compare(BoolOperator::Xor, list(&[1.0]), number(-1.0)), number(1.0));
    assert_eq!(compare(BoolOperator::Not, number(0.0), number(0.0)), number(1.0));
    assert_eq!(compare(BoolOperator::LessThanOrEqual, number(2.0), number(2.0)), number(1.0));
    assert_eq!(compare(BoolOperator::NotEqual, number(2.0), number(2.0)), number(0.0));
}

fn constant(operator: ConstantOperator, operand: Operand) -> TerminalType {
    let mut trade_list = TradeList::new();
    let operation_list: OperationList = vec![];
    let op = Operation::Constant((operator, operand));
    op.evaluate(&operation_list, &mut trade_list, &None, &default_env())
}

#[test]
fn constants_fixed_and_from_the_environment() {
    assert_eq!(constant(ConstantOperator::PI, Operand::Absent), TerminalType::Number(Num::from_units(3_141_593)));
    assert_eq!(constant(ConstantOperator::Ten, Operand::Absent), number(10.0));
    assert_eq!(constant(ConstantOperator::MarketPrice, literal(2.0)), number(3.0));
    assert_eq!(constant(ConstantOperator::MarketPrice, Operand::Absent), number(1.0));
    assert_eq!(constant(ConstantOperator::SelectedMarketPortfolioValue, literal(1.0)), number(2.0));
    assert_eq!(constant(ConstantOperator::PortfolioValue, Operand::Absent), number(1.0));
    assert_eq!(constant(ConstantOperator::BtcMarketIndex, Operand::Absent), number(0.0));
}

#[test]
fn programs_that_point_forward_are_refused() {
    let mut trade_list = TradeList::new();
    let forward = vec![
        Operation::Identity(literal(1.0)),
        Operation::Identity(Operand::Pointer(1)),
        Operation::Identity(Operand::Pointer(0)),
    ];
    assert_eq!(find_malformed(&forward), Some(1));
    match evaluate_program(&forward, &mut trade_list, &default_env()) {
        Err(e) => assert_eq!(e, ProgramError::BadPointer(1)),
        Ok(_) => panic!("a forward pointer is refused"),
    }
    let empty: OperationList = vec![];
    match evaluate_program(&empty, &mut trade_list, &default_env()) {
        Err(e) => assert_eq!(e, ProgramError::Empty),
        Ok(_) => panic!("an empty program is refused"),
    }
    assert!(trade_list.is_empty());
}

#[test]
fn evaluate_program_runs_the_last_operation() {
    let mut trade_list = TradeList::new();
    let program = trade_program(None);
    assert_eq!(find_malformed(&program), None);
    match evaluate_program(&program, &mut trade_list, &default_env()) {
        Ok(v) => assert_eq!(v, number(1.0)),
        Err(_) => panic!("the program is well formed"),
    }
    assert_eq!(trade_list.len(), 1);
    assert_eq!(trade_list[0].operator, TradeOperator::Sell);
}

#[test]
fn a_self_reference_is_refused() {
    let mut trade_list = TradeList::new();
    let cyclic = vec![Operation::Identity(Operand::Pointer(0))];
    match evaluate_program(&cyclic, &mut trade_list, &default_env()) {
        Err(e) => assert_eq!(e, ProgramError::BadPointer(0)),
        Ok(_) => panic!("a self reference is refused"),
    }
    let nested = vec![
        Operation::Identity(literal(1.0)),
        Operation::Index((IndexOperator::Operand(Operand::Pointer(2)), Operand::Pointer(0))),
        Operation::Identity(Operand::Pointer(1)),
    ];
    assert_eq!(find_malformed(&nested), Some(1));
}

#[test]
fn placeholder_environment() {
    let env = default_env();
    assert_eq!(env.get_market_index_list(), vec![num(1.0), num(2.0), num(3.0)]);
    assert_eq!(env.get_market_price(2), num(3.0));
    assert_eq!(env.get_market_price(7), num(0.0));
    assert_eq!(env.get_market_portfolio_value(0), num(1.0));
    assert_eq!(env.get_overall_portfolio_value(), num(1.0));
    assert_eq!(env.get_market_data(3, num(0.0), num(9.0)).open, get_market_data(3, num(0.0), num(0.0)).open);
    assert!(env.get_market_data(11, num(0.0), num(0.0)).close.is_empty());
}
