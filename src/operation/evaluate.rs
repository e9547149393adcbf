//! The interpreter.
use crate::environment::Env;
use crate::num::Num;
use crate::operand::Operand;
use crate::operation::boolean::BoolOperator;
use crate::operation::constant::ConstantOperator;
use crate::operation::index::IndexOperator;
use crate::operation::market_data::MarketDataOperator;
use crate::operation::num_pick::NumPickOperator;
use crate::operation::number::NumOperator;
use crate::operation::trade::{TradeLeverage, TradeOperator};
use crate::operation::num_pick::get_function_by_num_pick_operator;
use crate::operation::semantics::{
    bool_spec, constant_num, context_model, element, eval_operand, eval_operation, eval_scores,
    ranked, refs_below, truth, well_formed,
};
use crate::operation::trade::{Trade, TradeList};
use crate::operation::{Context, Operation, OperationList};
use crate::rank::sort_positions;
use crate::terminal_type::{TerminalType, ValueModel};
use vstd::prelude::*;

verus! {

/// A truth value as a scalar value.
fn truth_value(b: bool) -> (r: TerminalType)
    ensures
        r@ == truth(b),
{
    if b {
        TerminalType::Number(Num::from_units(1_000_000))
    } else {
        TerminalType::Number(Num::zero())
    }
}

/// The value of a constant that needs no environment.
fn constant_value(c: &ConstantOperator) -> (r: Num)
    ensures
        r == constant_num(*c),
{
    Num::from_units(
        match c {
            ConstantOperator::One => 1_000_000,
            ConstantOperator::Two => 2_000_000,
            ConstantOperator::Three => 3_000_000,
            ConstantOperator::Four => 4_000_000,
            ConstantOperator::Five => 5_000_000,
            ConstantOperator::Six => 6_000_000,
            ConstantOperator::Seven => 7_000_000,
            ConstantOperator::Eight => 8_000_000,
            ConstantOperator::Nine => 9_000_000,
            ConstantOperator::Ten => 10_000_000,
            ConstantOperator::PI => 3_141_593,
            ConstantOperator::GoldenRatio => 1_618_034,
            ConstantOperator::EulerNumber => 2_718_282,
            _ => 0,
        },
    )
}

/// Applies a boolean operator to two values.
fn apply_bool(op: &BoolOperator, l: &TerminalType, r: &TerminalType) -> (b: bool)
    ensures
        b == bool_spec(*op, l@, r@),
{
    let a = l.to_f32().units;
    let c = r.to_f32().units;
    match op {
        BoolOperator::Equal => a == c,
        BoolOperator::NotEqual => a != c,
        BoolOperator::GreaterThan => a > c,
        BoolOperator::GreaterThanOrEqual => a >= c,
        BoolOperator::LessThan => a < c,
        BoolOperator::LessThanOrEqual => a <= c,
        BoolOperator::And => l.to_bool() && r.to_bool(),
        BoolOperator::Or => l.to_bool() || r.to_bool(),
        BoolOperator::Xor => l.to_bool() != r.to_bool(),
        BoolOperator::Not => !l.to_bool(),
    }
}

/// The element of `list` at `i` as a scalar value; zero for an empty list.
fn element_value(list: &Vec<Num>, i: usize) -> (r: TerminalType)
    requires
        list@.len() == 0 || i < list@.len(),
    ensures
        r@ == element(list@, i as int),
{
    if list.len() == 0 {
        TerminalType::Number(Num::zero())
    } else {
        TerminalType::Number(list[i])
    }
}

/// Evaluates `operand` below position `bound`.
fn eval_operand_below<E: Env>(
    operand: &Operand,
    prog: &OperationList,
    bound: usize,
    trade_list: &mut TradeList,
    context: &Context,
    env: &E,
) -> (r: TerminalType)
    requires
        well_formed(prog@),
        operand.points_below(bound as int),
        bound <= prog@.len(),
    ensures
        r@ == eval_operand(prog@, *operand, bound as nat, context_model(*context), *env).0,
        final(trade_list)@ == old(trade_list)@ + eval_operand(
            prog@,
            *operand,
            bound as nat,
            context_model(*context),
            *env,
        ).1,
    decreases bound, 0nat, 0nat,
{
    match operand {
        Operand::Pointer(p) => {
            let node = &prog[*p];
            assert(refs_below(prog@[*p as int], *p as int));
            eval_operation_below(node, prog, *p, trade_list, context, env)
        },
        Operand::Terminal(t) => {
            assert(trade_list@ =~= trade_list@ + Seq::<Trade>::empty());
            t.duplicate()
        },
        Operand::Absent => {
            assert(trade_list@ =~= trade_list@ + Seq::<Trade>::empty());
            TerminalType::Number(Num::zero())
        },
    }
}

/// The keys of `candidates` under the scoring operand (see `eval_scores`).
fn eval_scores_below<E: Env>(
    operand: &Operand,
    prog: &OperationList,
    bound: usize,
    candidates: &Vec<Num>,
    trade_list: &mut TradeList,
    env: &E,
) -> (r: Vec<Num>)
    requires
        well_formed(prog@),
        operand.points_below(bound as int),
        bound <= prog@.len(),
    ensures
        r@ == eval_scores(prog@, *operand, bound as nat, candidates@, *env).0,
        final(trade_list)@ == old(trade_list)@ + eval_scores(
            prog@,
            *operand,
            bound as nat,
            candidates@,
            *env,
        ).1,
    decreases bound, 1nat, 0nat,
{
    let mut keys: Vec<Num> = Vec::new();
    let mut i: usize = 0;
    let ghost start = trade_list@;
    assert(candidates@.subrange(0, 0).len() == 0);
    assert(start =~= start + Seq::<Trade>::empty());
    while i < candidates.len()
        invariant
            well_formed(prog@),
            operand.points_below(bound as int),
            bound <= prog@.len(),
            i <= candidates@.len(),
            keys@ == eval_scores(prog@, *operand, bound as nat, candidates@.subrange(0, i as int), *env).0,
            trade_list@ == start + eval_scores(
                prog@,
                *operand,
                bound as nat,
                candidates@.subrange(0, i as int),
                *env,
            ).1,
        decreases candidates@.len() - i,
    {
        let ctx: Context = Some(TerminalType::Number(candidates[i]));
        let v = eval_operand_below(operand, prog, bound, trade_list, &ctx, env);
        keys.push(v.to_f32());
        proof {
            let sub = candidates@.subrange(0, i + 1);
            assert(sub.drop_last() =~= candidates@.subrange(0, i as int));
            assert(sub.last() == candidates@[i as int]);
            assert(context_model(ctx) == Some(ValueModel::Scalar(candidates@[i as int])));
            let prev = eval_scores(prog@, *operand, bound as nat, candidates@.subrange(0, i as int), *env);
            let step = eval_operand(prog@, *operand, bound as nat, context_model(ctx), *env);
            assert(trade_list@ =~= start + (prev.1 + step.1));
        }
        i = i + 1;
    }
    assert(candidates@.subrange(0, i as int) =~= candidates@);
    keys
}

/// Ranks the candidate markets by the scoring operand.
fn eval_market_sort<E: Env>(
    operand: &Operand,
    prog: &OperationList,
    bound: usize,
    trade_list: &mut TradeList,
    context: &Context,
    env: &E,
) -> (r: TerminalType)
    requires
        well_formed(prog@),
        refs_below(Operation::MarketSort((*operand,)), bound as int),
        bound <= prog@.len(),
    ensures
        r@ == eval_operation(
            prog@,
            Operation::MarketSort((*operand,)),
            bound as nat,
            context_model(*context),
            *env,
        ).0,
        final(trade_list)@ == old(trade_list)@ + eval_operation(
            prog@,
            Operation::MarketSort((*operand,)),
            bound as nat,
            context_model(*context),
            *env,
        ).1,
    decreases bound, 1nat, 2nat,
{
    let candidates = env.get_market_index_list();
    let keys = eval_scores_below(operand, prog, bound, &candidates, trade_list, env);
    let order = sort_positions(&keys);
    let mut sorted: Vec<Num> = Vec::new();
    let mut k: usize = 0;
    let ghost want = ranked(candidates@, keys@);
    proof {
        assert(keys@.len() == candidates@.len()) by {
            crate::operation::laws::lemma_scores_len(prog@, *operand, bound as nat, candidates@, *env);
        }
    }
    while k < order.len()
        invariant
            order@.len() == keys@.len(),
            keys@.len() == candidates@.len(),
            want == ranked(candidates@, keys@),
            crate::rank::rank_positions(keys@).len() == keys@.len(),
            forall|j: int| 0 <= j < order@.len() ==> #[trigger] order@[j] as int == crate::rank::rank_positions(keys@)[j],
            forall|j: int| 0 <= j < order@.len() ==> #[trigger] order@[j] < keys@.len(),
            k <= order@.len(),
            sorted@ == want.subrange(0, k as int),
        decreases order@.len() - k,
    {
        sorted.push(candidates[order[k]]);
        assert(sorted@ =~= want.subrange(0, k + 1));
        k = k + 1;
    }
    assert(sorted@ =~= want);
    TerminalType::NumberList(sorted)
}

/// Picks an element of a series.
fn eval_index<E: Env>(
    operator: &IndexOperator,
    operand_right: &Operand,
    prog: &OperationList,
    bound: usize,
    trade_list: &mut TradeList,
    context: &Context,
    env: &E,
) -> (r: TerminalType)
    requires
        well_formed(prog@),
        refs_below(Operation::Index((*operator, *operand_right)), bound as int),
        bound <= prog@.len(),
    ensures
        r@ == eval_operation(
            prog@,
            Operation::Index((*operator, *operand_right)),
            bound as nat,
            context_model(*context),
            *env,
        ).0,
        final(trade_list)@ == old(trade_list)@ + eval_operation(
            prog@,
            Operation::Index((*operator, *operand_right)),
            bound as nat,
            context_model(*context),
            *env,
        ).1,
    decreases bound, 1nat, 2nat,
{
    let ghost t0 = trade_list@;
    let list = eval_operand_below(operand_right, prog, bound, trade_list, context, env).to_list();
    match operator {
        IndexOperator::First => element_value(&list, 0),
        IndexOperator::Last => {
            let last = if list.len() == 0 { 0 } else { list.len() - 1 };
            element_value(&list, last)
        },
        IndexOperator::Operand(operand) => {
            let selected = eval_operand_below(operand, prog, bound, trade_list, context, env);
            let selected = selected.to_usize();
            let index = if list.len() == 0 {
                0
            } else if selected > list.len() - 1 {
                list.len() - 1
            } else {
                selected
            };
            proof {
                let e1 = eval_operand(prog@, *operand_right, bound as nat, context_model(*context), *env);
                let e2 = eval_operand(prog@, *operand, bound as nat, context_model(*context), *env);
                assert(trade_list@ =~= t0 + (e1.1 + e2.1));
            }
            element_value(&list, index)
        },
    }
}

/// Evaluates a constant.
fn eval_constant<E: Env>(
    operator: &ConstantOperator,
    operand: &Operand,
    prog: &OperationList,
    bound: usize,
    trade_list: &mut TradeList,
    context: &Context,
    env: &E,
) -> (r: TerminalType)
    requires
        well_formed(prog@),
        refs_below(Operation::Constant((*operator, *operand)), bound as int),
        bound <= prog@.len(),
    ensures
        r@ == eval_operation(
            prog@,
            Operation::Constant((*operator, *operand)),
            bound as nat,
            context_model(*context),
            *env,
        ).0,
        final(trade_list)@ == old(trade_list)@ + eval_operation(
            prog@,
            Operation::Constant((*operator, *operand)),
            bound as nat,
            context_model(*context),
            *env,
        ).1,
    decreases bound, 1nat, 2nat,
{
    match operator {
        ConstantOperator::MarketPrice => {
            let market_index = eval_operand_below(operand, prog, bound, trade_list, context, env);
            TerminalType::Number(env.get_market_price(market_index.to_usize()))
        },
        ConstantOperator::SelectedMarketPortfolioValue => {
            let market_index = eval_operand_below(operand, prog, bound, trade_list, context, env);
            TerminalType::Number(env.get_market_portfolio_value(market_index.to_usize()))
        },
        ConstantOperator::PortfolioValue => {
            assert(trade_list@ =~= trade_list@ + Seq::<Trade>::empty());
            TerminalType::Number(env.get_overall_portfolio_value())
        },
        _ => {
            assert(trade_list@ =~= trade_list@ + Seq::<Trade>::empty());
            TerminalType::Number(constant_value(operator))
        },
    }
}

/// Applies an arithmetic operator.
fn eval_number<E: Env>(
    operator: &NumOperator,
    operand_left: &Operand,
    operand_right: &Operand,
    prog: &OperationList,
    bound: usize,
    trade_list: &mut TradeList,
    context: &Context,
    env: &E,
) -> (r: TerminalType)
    requires
        well_formed(prog@),
        refs_below(Operation::Number((*operator, *operand_left, *operand_right)), bound as int),
        bound <= prog@.len(),
    ensures
        r@ == eval_operation(
            prog@,
            Operation::Number((*operator, *operand_left, *operand_right)),
            bound as nat,
            context_model(*context),
            *env,
        ).0,
        final(trade_list)@ == old(trade_list)@ + eval_operation(
            prog@,
            Operation::Number((*operator, *operand_left, *operand_right)),
            bound as nat,
            context_model(*context),
            *env,
        ).1,
    decreases bound, 1nat, 2nat,
{
    let ghost t0 = trade_list@;
    let left = eval_operand_below(operand_left, prog, bound, trade_list, context, env);
    let right = eval_operand_below(operand_right, prog, bound, trade_list, context, env);
    proof {
        let e1 = eval_operand(prog@, *operand_left, bound as nat, context_model(*context), *env);
        let e2 = eval_operand(prog@, *operand_right, bound as nat, context_model(*context), *env);
        assert(trade_list@ =~= t0 + (e1.1 + e2.1));
    }
    let a = left.to_f32();
    let b = right.to_f32();
    if operator.exact() {
        TerminalType::Number(operator.func(a, b))
    } else {
        TerminalType::Number(env.real_function(*operator, a, b))
    }
}

/// Records a trade.
fn eval_trade<E: Env>(
    operator: &TradeOperator,
    market_index: &Operand,
    market_price: &Operand,
    market_amount: &Operand,
    leverage: &Option<TradeLeverage>,
    prog: &OperationList,
    bound: usize,
    trade_list: &mut TradeList,
    context: &Context,
    env: &E,
) -> (r: TerminalType)
    requires
        well_formed(prog@),
        refs_below(Operation::Trade((*operator, *market_index, *market_price, *market_amount, *leverage)), bound as int),
        bound <= prog@.len(),
    ensures
        r@ == eval_operation(
            prog@,
            Operation::Trade((*operator, *market_index, *market_price, *market_amount, *leverage)),
            bound as nat,
            context_model(*context),
            *env,
        ).0,
        final(trade_list)@ == old(trade_list)@ + eval_operation(
            prog@,
            Operation::Trade((*operator, *market_index, *market_price, *market_amount, *leverage)),
            bound as nat,
            context_model(*context),
            *env,
        ).1,
    decreases bound, 1nat, 2nat,
{
    let ghost t0 = trade_list@;
    let index = eval_operand_below(market_index, prog, bound, trade_list, context, env).to_usize();
    let price = eval_operand_below(market_price, prog, bound, trade_list, context, env).to_f32();
    let amount = eval_operand_below(market_amount, prog, bound, trade_list, context, env).to_f32();
    let record = Trade { operator: *operator, index, price, amount, leverage: *leverage };
    trade_list.push(record);
    proof {
        let c = context_model(*context);
        let e1 = eval_operand(prog@, *market_index, bound as nat, c, *env);
        let e2 = eval_operand(prog@, *market_price, bound as nat, c, *env);
        let e3 = eval_operand(prog@, *market_amount, bound as nat, c, *env);
        assert(trade_list@ =~= t0 + (e1.1 + e2.1 + e3.1 + seq![record]));
    }
    truth_value(true)
}

/// Applies a boolean operator.
fn eval_bool<E: Env>(
    operator: &BoolOperator,
    operand_left: &Operand,
    operand_right: &Operand,
    prog: &OperationList,
    bound: usize,
    trade_list: &mut TradeList,
    context: &Context,
    env: &E,
) -> (r: TerminalType)
    requires
        well_formed(prog@),
        refs_below(Operation::Bool((*operator, *operand_left, *operand_right)), bound as int),
        bound <= prog@.len(),
    ensures
        r@ == eval_operation(
            prog@,
            Operation::Bool((*operator, *operand_left, *operand_right)),
            bound as nat,
            context_model(*context),
            *env,
        ).0,
        final(trade_list)@ == old(trade_list)@ + eval_operation(
            prog@,
            Operation::Bool((*operator, *operand_left, *operand_right)),
            bound as nat,
            context_model(*context),
            *env,
        ).1,
    decreases bound, 1nat, 2nat,
{
    let ghost t0 = trade_list@;
    let left = eval_operand_below(operand_left, prog, bound, trade_list, context, env);
    let right = eval_operand_below(operand_right, prog, bound, trade_list, context, env);
    proof {
        let e1 = eval_operand(prog@, *operand_left, bound as nat, context_model(*context), *env);
        let e2 = eval_operand(prog@, *operand_right, bound as nat, context_model(*context), *env);
        assert(trade_list@ =~= t0 + (e1.1 + e2.1));
    }
    truth_value(apply_bool(operator, &left, &right))
}

/// Evaluates a branch.
fn eval_branch<E: Env>(
    condition: &Operand,
    operand_left: &Operand,
    operand_right: &Operand,
    prog: &OperationList,
    bound: usize,
    trade_list: &mut TradeList,
    context: &Context,
    env: &E,
) -> (r: TerminalType)
    requires
        well_formed(prog@),
        refs_below(Operation::Branch((*condition, *operand_left, *operand_right)), bound as int),
        bound <= prog@.len(),
    ensures
        r@ == eval_operation(
            prog@,
            Operation::Branch((*condition, *operand_left, *operand_right)),
            bound as nat,
            context_model(*context),
            *env,
        ).0,
        final(trade_list)@ == old(trade_list)@ + eval_operation(
            prog@,
            Operation::Branch((*condition, *operand_left, *operand_right)),
            bound as nat,
            context_model(*context),
            *env,
        ).1,
    decreases bound, 1nat, 2nat,
{
    let ghost t0 = trade_list@;
    let value = eval_operand_below(condition, prog, bound, trade_list, context, env);
    let r = value.evaluate_branch_below(operand_left, operand_right, prog, bound, trade_list, context, env);
    proof {
        let c = context_model(*context);
        let e1 = eval_operand(prog@, *condition, bound as nat, c, *env);
        let chosen = if value@.as_bool() { *operand_left } else { *operand_right };
        let e2 = eval_operand(prog@, chosen, bound as nat, c, *env);
        assert(trade_list@ =~= t0 + (e1.1 + e2.1));
    }
    r
}

/// Reads a market series.
fn eval_market_data<E: Env>(
    operator: &MarketDataOperator,
    market_index: &Operand,
    timestamp_start: &Operand,
    duration: &Operand,
    prog: &OperationList,
    bound: usize,
    trade_list: &mut TradeList,
    context: &Context,
    env: &E,
) -> (r: TerminalType)
    requires
        well_formed(prog@),
        refs_below(Operation::MarketData((*operator, *market_index, *timestamp_start, *duration)), bound as int),
        bound <= prog@.len(),
    ensures
        r@ == eval_operation(
            prog@,
            Operation::MarketData((*operator, *market_index, *timestamp_start, *duration)),
            bound as nat,
            context_model(*context),
            *env,
        ).0,
        final(trade_list)@ == old(trade_list)@ + eval_operation(
            prog@,
            Operation::MarketData((*operator, *market_index, *timestamp_start, *duration)),
            bound as nat,
            context_model(*context),
            *env,
        ).1,
    decreases bound, 1nat, 2nat,
{
    let ghost t0 = trade_list@;
    let index_value = match (market_index, context) {
        (Operand::Absent, Some(c)) => {
            assert(trade_list@ =~= trade_list@ + Seq::<Trade>::empty());
            c.duplicate()
        },
        _ => eval_operand_below(market_index, prog, bound, trade_list, context, env),
    };
    let ghost t1 = trade_list@;
    let start = eval_operand_below(timestamp_start, prog, bound, trade_list, context, env);
    let span = eval_operand_below(duration, prog, bound, trade_list, context, env);
    proof {
        let c = context_model(*context);
        let e2 = eval_operand(prog@, *timestamp_start, bound as nat, c, *env);
        let e3 = eval_operand(prog@, *duration, bound as nat, c, *env);
        assert(trade_list@ =~= t0 + (t1.subrange(t0.len() as int, t1.len() as int) + e2.1 + e3.1));
    }
    let data = env.get_market_data(index_value.to_usize(), start.to_f32(), span.to_f32());
    TerminalType::NumberList(data.take(*operator))
}

/// Reduces a series.
fn eval_num_pick<E: Env>(
    operator: &NumPickOperator,
    operand: &Operand,
    prog: &OperationList,
    bound: usize,
    trade_list: &mut TradeList,
    context: &Context,
    env: &E,
) -> (r: TerminalType)
    requires
        well_formed(prog@),
        refs_below(Operation::NumPick((*operator, *operand)), bound as int),
        bound <= prog@.len(),
    ensures
        r@ == eval_operation(
            prog@,
            Operation::NumPick((*operator, *operand)),
            bound as nat,
            context_model(*context),
            *env,
        ).0,
        final(trade_list)@ == old(trade_list)@ + eval_operation(
            prog@,
            Operation::NumPick((*operator, *operand)),
            bound as nat,
            context_model(*context),
            *env,
        ).1,
    decreases bound, 1nat, 2nat,
{
    let list = eval_operand_below(operand, prog, bound, trade_list, context, env).to_list();
    TerminalType::Number(get_function_by_num_pick_operator(operator, list))
}

/// Evaluates `op`, whose operands point below `bound`.
fn eval_operation_below<E: Env>(
    op: &Operation,
    prog: &OperationList,
    bound: usize,
    trade_list: &mut TradeList,
    context: &Context,
    env: &E,
) -> (r: TerminalType)
    requires
        well_formed(prog@),
        refs_below(*op, bound as int),
        bound <= prog@.len(),
    ensures
        r@ == eval_operation(prog@, *op, bound as nat, context_model(*context), *env).0,
        final(trade_list)@ == old(trade_list)@ + eval_operation(
            prog@,
            *op,
            bound as nat,
            context_model(*context),
            *env,
        ).1,
    decreases bound, 2nat, 0nat,
{
    match op {
        Operation::MarketSort((operand,)) => {
            eval_market_sort(operand, prog, bound, trade_list, context, env)
        },
        Operation::Identity(operand) => {
            eval_operand_below(operand, prog, bound, trade_list, context, env)
        },
        Operation::Index((operator, operand)) => {
            eval_index(operator, operand, prog, bound, trade_list, context, env)
        },
        Operation::Constant((operator, operand)) => {
            eval_constant(operator, operand, prog, bound, trade_list, context, env)
        },
        Operation::Number((operator, l, r)) => {
            eval_number(operator, l, r, prog, bound, trade_list, context, env)
        },
        Operation::Trade((operator, i, p, a, leverage)) => {
            eval_trade(operator, i, p, a, leverage, prog, bound, trade_list, context, env)
        },
        Operation::Bool((operator, l, r)) => {
            eval_bool(operator, l, r, prog, bound, trade_list, context, env)
        },
        Operation::Branch((c, l, r)) => eval_branch(c, l, r, prog, bound, trade_list, context, env),
        Operation::MarketData((operator, i, s, d)) => {
            eval_market_data(operator, i, s, d, prog, bound, trade_list, context, env)
        },
        Operation::NumPick((operator, operand)) => {
            eval_num_pick(operator, operand, prog, bound, trade_list, context, env)
        },
    }
}

impl TerminalType {
    /// Evaluates the left operand when this value is true, the right one
    /// otherwise; the other is not evaluated.
    fn evaluate_branch_below<E: Env>(
        &self,
        operand_left: &Operand,
        operand_right: &Operand,
        prog: &OperationList,
        bound: usize,
        trade_list: &mut TradeList,
        context: &Context,
        env: &E,
    ) -> (r: TerminalType)
        requires
            well_formed(prog@),
            operand_left.points_below(bound as int),
            operand_right.points_below(bound as int),
            bound <= prog@.len(),
        ensures
            ({
                let chosen = if self@.as_bool() { *operand_left } else { *operand_right };
                let e = eval_operand(prog@, chosen, bound as nat, context_model(*context), *env);
                r@ == e.0 && final(trade_list)@ == old(trade_list)@ + e.1
            }),
        decreases bound, 1nat, 1nat,
    {
        if self.to_bool() {
            eval_operand_below(operand_left, prog, bound, trade_list, context, env)
        } else {
            eval_operand_below(operand_right, prog, bound, trade_list, context, env)
        }
    }
}

impl Operation {
    /// Evaluates this operation against `operation_list` under `context`,
    /// appending the trades it makes to `trade_list`.
    pub fn evaluate<E: Env>(
        &self,
        operation_list: &OperationList,
        trade_list: &mut TradeList,
        context: &Context,
        env: &E,
    ) -> (r: TerminalType)
        requires
            well_formed(operation_list@),
            refs_below(*self, operation_list@.len() as int),
        ensures
            r@ == eval_operation(
                operation_list@,
                *self,
                operation_list@.len(),
                context_model(*context),
                *env,
            ).0,
            final(trade_list)@ == old(trade_list)@ + eval_operation(
                operation_list@,
                *self,
                operation_list@.len(),
                context_model(*context),
                *env,
            ).1,
    {
        eval_operation_below(self, operation_list, operation_list.len(), trade_list, context, env)
    }
}

impl Operand {
    /// Evaluates this operand against `operation_list` under `context`,
    /// appending the trades it makes to `trade_list`.
    pub fn evaluate<E: Env>(
        &self,
        operation_list: &OperationList,
        trade_list: &mut TradeList,
        context: &Context,
        env: &E,
    ) -> (r: TerminalType)
        requires
            well_formed(operation_list@),
            self.points_below(operation_list@.len() as int),
        ensures
            r@ == eval_operand(
                operation_list@,
                *self,
                operation_list@.len(),
                context_model(*context),
                *env,
            ).0,
            final(trade_list)@ == old(trade_list)@ + eval_operand(
                operation_list@,
                *self,
                operation_list@.len(),
                context_model(*context),
                *env,
            ).1,
    {
        eval_operand_below(self, operation_list, operation_list.len(), trade_list, context, env)
    }
}

impl TerminalType {
    /// Evaluates `operand_left` when this value is true and `operand_right`
    /// otherwise; the other operand is not evaluated.
    pub fn evaluate_branch_terminal<E: Env>(
        &self,
        operand_left: &Operand,
        operand_right: &Operand,
        operation_list: &OperationList,
        trade_list: &mut TradeList,
        context: &Context,
        env: &E,
    ) -> (r: TerminalType)
        requires
            well_formed(operation_list@),
            operand_left.points_below(operation_list@.len() as int),
            operand_right.points_below(operation_list@.len() as int),
        ensures
            ({
                let chosen = if self@.as_bool() { *operand_left } else { *operand_right };
                let e = eval_operand(
                    operation_list@,
                    chosen,
                    operation_list@.len(),
                    context_model(*context),
                    *env,
                );
                r@ == e.0 && final(trade_list)@ == old(trade_list)@ + e.1
            }),
    {
        self.evaluate_branch_below(
            operand_left,
            operand_right,
            operation_list,
            operation_list.len(),
            trade_list,
            context,
            env,
        )
    }
}

/// Why a program cannot run.
#[derive(Clone, Copy, Debug, PartialEq, Eq, Structural)]
pub enum ProgramError {
    /// The program has no operation.
    Empty,
    /// The operation at this position points at or past its own position.
    BadPointer(usize),
}

/// Whether `operand` points below `n`.
fn operand_below(operand: &Operand, n: usize) -> (r: bool)
    ensures
        r == operand.points_below(n as int),
{
    match operand {
        Operand::Pointer(p) => *p < n,
        _ => true,
    }
}

/// Whether every operand of `op` points below `n`.
fn operation_below(op: &Operation, n: usize) -> (r: bool)
    ensures
        r == refs_below(*op, n as int),
{
    match op {
        Operation::Branch((c, l, r)) => {
            operand_below(c, n) && operand_below(l, n) && operand_below(r, n)
        },
        Operation::Bool((_, l, r)) => operand_below(l, n) && operand_below(r, n),
        Operation::Trade((_, i, p, a, _)) => {
            operand_below(i, n) && operand_below(p, n) && operand_below(a, n)
        },
        Operation::MarketData((_, i, s, d)) => {
            operand_below(i, n) && operand_below(s, n) && operand_below(d, n)
        },
        Operation::NumPick((_, o)) => operand_below(o, n),
        Operation::Number((_, l, r)) => operand_below(l, n) && operand_below(r, n),
        Operation::Constant((_, o)) => operand_below(o, n),
        Operation::Index((sel, o)) => operand_below(o, n) && match sel {
            IndexOperator::Operand(s) => operand_below(s, n),
            _ => true,
        },
        Operation::Identity(o) => operand_below(o, n),
        Operation::MarketSort((o,)) => operand_below(o, n),
    }
}

/// The first position whose operation points at or past itself, if any.
pub fn find_malformed(operation_list: &OperationList) -> (r: Option<usize>)
    ensures
        r is None <==> well_formed(operation_list@),
        r matches Some(i) ==> i < operation_list@.len() && !refs_below(operation_list@[i as int], i as int)
            && forall|j: int| 0 <= j < i ==> #[trigger] refs_below(operation_list@[j], j),
{
    let mut i: usize = 0;
    while i < operation_list.len()
        invariant
            i <= operation_list@.len(),
            forall|j: int| 0 <= j < i ==> #[trigger] refs_below(operation_list@[j], j),
        decreases operation_list@.len() - i,
    {
        if !operation_below(&operation_list[i], i) {
            return Some(i);
        }
        i = i + 1;
    }
    None
}

/// Runs a program: evaluates its last operation with no context. A program
/// that is empty, or whose operations do not each point only before their own
/// position, is refused before anything runs.
pub fn evaluate_program<E: Env>(
    operation_list: &OperationList,
    trade_list: &mut TradeList,
    env: &E,
) -> (r: Result<TerminalType, ProgramError>)
    ensures
        operation_list@.len() == 0 ==> r matches Err(ProgramError::Empty),
        operation_list@.len() > 0 && !well_formed(operation_list@) ==> (r matches Err(
            ProgramError::BadPointer(i),
        ) && i < operation_list@.len() && !refs_below(operation_list@[i as int], i as int)
            && forall|j: int| 0 <= j < i ==> #[trigger] refs_below(operation_list@[j], j)),
        r is Err ==> final(trade_list)@ == old(trade_list)@,
        operation_list@.len() > 0 && well_formed(operation_list@) ==> (r matches Ok(v) && {
            let e = eval_operation(
                operation_list@,
                operation_list@.last(),
                (operation_list@.len() - 1) as nat,
                None,
                *env,
            );
            v@ == e.0 && final(trade_list)@ == old(trade_list)@ + e.1
        }),
{
    if operation_list.len() == 0 {
        return Err(ProgramError::Empty);
    }
    match find_malformed(operation_list) {
        Some(i) => Err(ProgramError::BadPointer(i)),
        None => {
            let last = operation_list.len() - 1;
            assert(refs_below(operation_list@[last as int], last as int));
            let context: Context = None;
            Ok(eval_operation_below(&operation_list[last], operation_list, last, trade_list, &context, env))
        },
    }
}

} // verus!
