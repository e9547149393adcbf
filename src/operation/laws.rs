//! Facts about evaluation.
use crate::environment::Env;
use crate::num::{Num, SCALE};
use crate::operand::Operand;
use crate::operation::index::IndexOperator;
use crate::operation::market_data::MarketDataOperator;
use crate::operation::semantics::{clamp_index, eval_operand, eval_operation, eval_scores};
use crate::operation::Operation;
use crate::terminal_type::ValueModel;
use vstd::prelude::*;

verus! {

/// Ranking computes one key per candidate.
pub proof fn lemma_scores_len<E: Env>(
    prog: Seq<Operation>,
    operand: Operand,
    bound: nat,
    candidates: Seq<Num>,
    env: E,
)
    ensures
        eval_scores(prog, operand, bound, candidates, env).0.len() == candidates.len(),
    decreases candidates.len(),
{
    if candidates.len() > 0 {
        lemma_scores_len(prog, operand, bound, candidates.drop_last(), env);
    }
}

/// Coercion round trip: a scalar seen as a series is the series of itself
/// alone, and a series of one element seen as a scalar is its length, one;
/// so the element comes back exactly when it is one.
pub proof fn lemma_coercion_round_trip(n: Num)
    ensures
        ValueModel::Scalar(n).as_series() == seq![n],
        ValueModel::Series(seq![n]).as_scalar().units == SCALE,
        n.units == SCALE ==> ValueModel::Series(seq![n]).as_scalar() == n,
{
}

/// Branch short-circuit: a branch records the trades of its condition and of
/// the operand it chooses, and none of the other operand.
pub proof fn lemma_branch_short_circuit<E: Env>(
    prog: Seq<Operation>,
    condition: Operand,
    left: Operand,
    right: Operand,
    bound: nat,
    ctx: Option<ValueModel>,
    env: E,
)
    ensures
        ({
            let (cv, t1) = eval_operand(prog, condition, bound, ctx, env);
            let chosen = if cv.as_bool() { left } else { right };
            let (v, t2) = eval_operand(prog, chosen, bound, ctx, env);
            eval_operation(prog, Operation::Branch((condition, left, right)), bound, ctx, env) == (v, t1 + t2)
        }),
{
}

/// Context override: a market-data query whose market index is absent, run
/// under a context, reads the market that the context names.
pub proof fn lemma_context_override<E: Env>(
    prog: Seq<Operation>,
    operator: MarketDataOperator,
    start: Operand,
    duration: Operand,
    bound: nat,
    context: ValueModel,
    env: E,
)
    ensures
        ({
            let ctx = Some(context);
            let s = eval_operand(prog, start, bound, ctx, env).0.as_scalar();
            let d = eval_operand(prog, duration, bound, ctx, env).0.as_scalar();
            eval_operation(
                prog,
                Operation::MarketData((operator, Operand::Absent, start, duration)),
                bound,
                ctx,
                env,
            ).0 == ValueModel::Series(env.market_data_spec(context.as_index() as usize, s, d).select(operator))
        }),
{
}

/// Ranking evaluates the scoring operand once per candidate, with that
/// candidate as the context; its scalar value is the candidate's key.
pub proof fn lemma_ranking_context<E: Env>(
    prog: Seq<Operation>,
    operand: Operand,
    bound: nat,
    candidates: Seq<Num>,
    env: E,
)
    ensures
        forall|i: int| 0 <= i < candidates.len() ==> #[trigger] eval_scores(prog, operand, bound, candidates, env).0[i]
            == eval_operand(prog, operand, bound, Some(ValueModel::Scalar(candidates[i])), env).0.as_scalar(),
    decreases candidates.len(),
{
    if candidates.len() > 0 {
        let rest = candidates.drop_last();
        lemma_ranking_context(prog, operand, bound, rest, env);
        lemma_scores_len(prog, operand, bound, rest, env);
        assert forall|i: int| 0 <= i < candidates.len() implies #[trigger] eval_scores(prog, operand, bound, candidates, env).0[i]
            == eval_operand(prog, operand, bound, Some(ValueModel::Scalar(candidates[i])), env).0.as_scalar() by {
            if i < rest.len() {
                assert(rest[i] == candidates[i]);
            }
        }
    }
}

/// Index clamping: an index computed by an operand is cut to the series'
/// bounds; a selector at or below zero picks the first element, one past the
/// end the last.
pub proof fn lemma_index_clamping<E: Env>(
    prog: Seq<Operation>,
    selector: Operand,
    series: Operand,
    bound: nat,
    ctx: Option<ValueModel>,
    env: E,
)
    ensures
        ({
            let list = eval_operand(prog, series, bound, ctx, env).0.as_series();
            let sv = eval_operand(prog, selector, bound, ctx, env).0;
            let r = eval_operation(
                prog,
                Operation::Index((IndexOperator::Operand(selector), series)),
                bound,
                ctx,
                env,
            ).0;
            &&& list.len() > 0 ==> r == ValueModel::Scalar(list[clamp_index(sv.as_index() as int, list.len() as int)])
            &&& 0 <= clamp_index(sv.as_index() as int, list.len() as int) < list.len() || list.len() == 0
            &&& list.len() > 0 && sv.as_scalar().units <= 0 ==> r == ValueModel::Scalar(list[0])
            &&& list.len() > 0 && sv.as_index() >= list.len() ==> r == ValueModel::Scalar(list.last())
        }),
{
}

} // verus!
