//! What evaluating a program means: a spec-level interpreter that the
//! executable one is proved to follow.
use crate::environment::Env;
use crate::num::{Num, SCALE};
use crate::operand::Operand;
use crate::operation::boolean::BoolOperator;
use crate::operation::constant::ConstantOperator;
use crate::operation::index::IndexOperator;
use crate::operation::num_pick::pick_spec;
use crate::operation::trade::Trade;
use crate::operation::Operation;
use crate::rank::rank_positions;
use crate::terminal_type::{TerminalType, ValueModel};
use vstd::prelude::*;

verus! {

/// Every operand of `op` points below `n`.
pub open spec fn refs_below(op: Operation, n: int) -> bool {
    match op {
        Operation::Branch((c, l, r)) => c.points_below(n) && l.points_below(n) && r.points_below(n),
        Operation::Bool((_, l, r)) => l.points_below(n) && r.points_below(n),
        Operation::Trade((_, i, p, a, _)) => i.points_below(n) && p.points_below(n) && a.points_below(n),
        Operation::MarketData((_, i, s, d)) => i.points_below(n) && s.points_below(n) && d.points_below(n),
        Operation::NumPick((_, o)) => o.points_below(n),
        Operation::Number((_, l, r)) => l.points_below(n) && r.points_below(n),
        Operation::Constant((_, o)) => o.points_below(n),
        Operation::Index((sel, o)) => o.points_below(n) && match sel {
            IndexOperator::Operand(s) => s.points_below(n),
            _ => true,
        },
        Operation::Identity(o) => o.points_below(n),
        Operation::MarketSort((o,)) => o.points_below(n),
    }
}

/// A program is well formed when each operation points only to positions
/// before its own: no pointer is out of bounds, and none closes a cycle.
pub open spec fn well_formed(prog: Seq<Operation>) -> bool {
    forall|i: int| 0 <= i < prog.len() ==> #[trigger] refs_below(prog[i], i)
}

/// The model of an evaluation context.
pub open spec fn context_model(context: Option<TerminalType>) -> Option<ValueModel> {
    match context {
        Some(t) => Some(t@),
        None => None,
    }
}

/// The scalar `0`.
pub open spec fn zero_value() -> ValueModel {
    ValueModel::Scalar(Num { units: 0 })
}

/// A truth value as a scalar: `1` or `0`.
pub open spec fn truth(b: bool) -> ValueModel {
    ValueModel::Scalar(Num { units: if b { SCALE } else { 0 } })
}

/// The fixed value of a constant; those read from the environment, and those
/// with no source, are zero here.
pub open spec fn constant_num(c: ConstantOperator) -> Num {
    Num {
        units: match c {
            ConstantOperator::One => 1_000_000,
            ConstantOperator::Two => 2_000_000,
            ConstantOperator::Three => 3_000_000,
            ConstantOperator::Four => 4_000_000,
            ConstantOperator::Five => 5_000_000,
            ConstantOperator::Six => 6_000_000,
            ConstantOperator::Seven => 7_000_000,
            ConstantOperator::Eight => 8_000_000,
            ConstantOperator::Nine => 9_000_000,
            ConstantOperator::Ten => 10_000_000,
            ConstantOperator::PI => 3_141_593,
            ConstantOperator::GoldenRatio => 1_618_034,
            ConstantOperator::EulerNumber => 2_718_282,
            _ => 0,
        },
    }
}

/// What a boolean operator gives: comparisons on scalar projections, logic on
/// boolean projections.
pub open spec fn bool_spec(op: BoolOperator, l: ValueModel, r: ValueModel) -> bool {
    let a = l.as_scalar().units;
    let b = r.as_scalar().units;
    match op {
        BoolOperator::Equal => a == b,
        BoolOperator::NotEqual => a != b,
        BoolOperator::GreaterThan => a > b,
        BoolOperator::GreaterThanOrEqual => a >= b,
        BoolOperator::LessThan => a < b,
        BoolOperator::LessThanOrEqual => a <= b,
        BoolOperator::And => l.as_bool() && r.as_bool(),
        BoolOperator::Or => l.as_bool() || r.as_bool(),
        BoolOperator::Xor => l.as_bool() != r.as_bool(),
        BoolOperator::Not => !l.as_bool(),
    }
}

/// The element of `list` at `i` as a scalar; zero for an empty list.
pub open spec fn element(list: Seq<Num>, i: int) -> ValueModel {
    if list.len() == 0 {
        zero_value()
    } else {
        ValueModel::Scalar(list[i])
    }
}

/// `i`, clamped to the last position of a list of length `len`.
pub open spec fn clamp_index(i: int, len: int) -> int {
    if i > len - 1 {
        len - 1
    } else {
        i
    }
}

/// The candidates in ascending order of their keys; equal keys keep their order.
pub open spec fn ranked(candidates: Seq<Num>, keys: Seq<Num>) -> Seq<Num> {
    rank_positions(keys).map_values(|p: int| candidates[p])
}

/// Evaluating an operand, below position `bound`, under `ctx`: its value and
/// the trades it records.
pub open spec fn eval_operand<E: Env>(
    prog: Seq<Operation>,
    operand: Operand,
    bound: nat,
    ctx: Option<ValueModel>,
    env: E,
) -> (ValueModel, Seq<Trade>)
    decreases bound, 0nat, 0nat,
{
    match operand {
        Operand::Pointer(p) => {
            if p < bound && p < prog.len() {
                eval_operation(prog, prog[p as int], p as nat, ctx, env)
            } else {
                (zero_value(), Seq::empty())
            }
        },
        Operand::Terminal(t) => (t@, Seq::empty()),
        Operand::Absent => (zero_value(), Seq::empty()),
    }
}

/// The keys of `candidates`: the scoring operand's scalar value with each
/// candidate as the context, in order, and the trades recorded meanwhile.
pub open spec fn eval_scores<E: Env>(
    prog: Seq<Operation>,
    operand: Operand,
    bound: nat,
    candidates: Seq<Num>,
    env: E,
) -> (Seq<Num>, Seq<Trade>)
    decreases bound, 1nat, candidates.len(),
{
    if candidates.len() == 0 {
        (Seq::empty(), Seq::empty())
    } else {
        let (keys, t1) = eval_scores(prog, operand, bound, candidates.drop_last(), env);
        let (v, t2) = eval_operand(
            prog,
            operand,
            bound,
            Some(ValueModel::Scalar(candidates.last())),
            env,
        );
        (keys.push(v.as_scalar()), t1 + t2)
    }
}

/// Evaluating an operation whose operands point below `bound`, under `ctx`:
/// its value and the trades it records, in order.
pub open spec fn eval_operation<E: Env>(
    prog: Seq<Operation>,
    op: Operation,
    bound: nat,
    ctx: Option<ValueModel>,
    env: E,
) -> (ValueModel, Seq<Trade>)
    decreases bound, 2nat, 0nat,
{
    match op {
        Operation::MarketSort((o,)) => {
            let candidates = env.market_index_list_spec();
            let (keys, t) = eval_scores(prog, o, bound, candidates, env);
            (ValueModel::Series(ranked(candidates, keys)), t)
        },
        Operation::Identity(o) => eval_operand(prog, o, bound, ctx, env),
        Operation::Index((sel, o)) => {
            let (lv, t1) = eval_operand(prog, o, bound, ctx, env);
            let list = lv.as_series();
            match sel {
                IndexOperator::First => (element(list, 0), t1),
                IndexOperator::Last => (element(list, list.len() - 1), t1),
                IndexOperator::Operand(s) => {
                    let (sv, t2) = eval_operand(prog, s, bound, ctx, env);
                    (element(list, clamp_index(sv.as_index() as int, list.len() as int)), t1 + t2)
                },
            }
        },
        Operation::Constant((c, o)) => match c {
            ConstantOperator::MarketPrice => {
                let (v, t) = eval_operand(prog, o, bound, ctx, env);
                (ValueModel::Scalar(env.market_price_spec(v.as_index() as usize)), t)
            },
            ConstantOperator::SelectedMarketPortfolioValue => {
                let (v, t) = eval_operand(prog, o, bound, ctx, env);
                (ValueModel::Scalar(env.market_portfolio_value_spec(v.as_index() as usize)), t)
            },
            ConstantOperator::PortfolioValue => (
                ValueModel::Scalar(env.overall_portfolio_value_spec()),
                Seq::empty(),
            ),
            _ => (ValueModel::Scalar(constant_num(c)), Seq::empty()),
        },
        Operation::Number((f, l, r)) => {
            let (lv, t1) = eval_operand(prog, l, bound, ctx, env);
            let (rv, t2) = eval_operand(prog, r, bound, ctx, env);
            let a = lv.as_scalar();
            let b = rv.as_scalar();
            (
                ValueModel::Scalar(
                    if f.is_exact() {
                        f.apply(a, b)
                    } else {
                        env.real_function_spec(f, a, b)
                    },
                ),
                t1 + t2,
            )
        },
        Operation::Trade((action, i, p, a, leverage)) => {
            let (iv, t1) = eval_operand(prog, i, bound, ctx, env);
            let (pv, t2) = eval_operand(prog, p, bound, ctx, env);
            let (av, t3) = eval_operand(prog, a, bound, ctx, env);
            let record = Trade {
                operator: action,
                index: iv.as_index() as usize,
                price: pv.as_scalar(),
                amount: av.as_scalar(),
                leverage,
            };
            (truth(true), t1 + t2 + t3 + seq![record])
        },
        Operation::Bool((b, l, r)) => {
            let (lv, t1) = eval_operand(prog, l, bound, ctx, env);
            let (rv, t2) = eval_operand(prog, r, bound, ctx, env);
            (truth(bool_spec(b, lv, rv)), t1 + t2)
        },
        Operation::Branch((c, l, r)) => {
            let (cv, t1) = eval_operand(prog, c, bound, ctx, env);
            if cv.as_bool() {
                let (v, t2) = eval_operand(prog, l, bound, ctx, env);
                (v, t1 + t2)
            } else {
                let (v, t2) = eval_operand(prog, r, bound, ctx, env);
                (v, t1 + t2)
            }
        },
        Operation::MarketData((m, i, s, d)) => {
            let (iv, t1) = match (i, ctx) {
                (Operand::Absent, Some(c)) => (c, Seq::empty()),
                _ => eval_operand(prog, i, bound, ctx, env),
            };
            let (sv, t2) = eval_operand(prog, s, bound, ctx, env);
            let (dv, t3) = eval_operand(prog, d, bound, ctx, env);
            let data = env.market_data_spec(iv.as_index() as usize, sv.as_scalar(), dv.as_scalar());
            (ValueModel::Series(data.select(m)), t1 + t2 + t3)
        },
        Operation::NumPick((k, o)) => {
            let (v, t) = eval_operand(prog, o, bound, ctx, env);
            (ValueModel::Scalar(pick_spec(k, v.as_series())), t)
        },
    }
}

} // verus!
