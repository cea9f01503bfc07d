//! The pipeline assembler, which chains the three categories into one
//! production line, and the price matcher, which searches for the pipeline
//! whose total price comes closest to a target price without exceeding it.

use crate::machines::{
    capacity_sum, caps_of, lemma_count_bounds, lemma_stage_price_floor, lemma_sum_prices_linear,
    spec_clamped, spec_count, spec_max_machine_price, spec_stage_capacity, spec_stage_price,
    stage_matches, sum_caps, sum_prices, total_price, Assembly, Machine, MachineTag,
    QualityChecking, Soldering,
};
use vstd::prelude::*;

verus! {

/// The largest capacity goal the assembler accepts. Machine counts and total
/// prices for goals up to this limit fit in `usize` on every supported
/// architecture.
pub const GOAL_LIMIT: usize = 0x10_0000;

/// How a pipeline's downstream stages pick their capacity goal.
pub enum MatchTactic {
    /// Downstream stages target the capacity the assembly stage actually
    /// delivers, overshoot included.
    AllowOvershoot,
    /// Downstream stages target the originally requested capacity, even if
    /// assembly overshoots it.
    Exact,
}

/// One fully allocated production line: the machines of its three stages, in
/// the fixed order assembly, soldering, quality checking.
#[derive(Debug, PartialEq, Eq)]
pub struct Pipeline {
    pub assembly: Vec<Machine<Assembly>>,
    pub soldering: Vec<Machine<Soldering>>,
    pub qcheck: Vec<Machine<QualityChecking>>,
}

impl Pipeline {
    /// Every machine of every stage lies within its category's range.
    pub open spec fn wf(self) -> bool {
        &&& forall|i: int| 0 <= i < self.assembly@.len() ==> (#[trigger] self.assembly@[i]).wf()
        &&& forall|i: int| 0 <= i < self.soldering@.len() ==> (#[trigger] self.soldering@[i]).wf()
        &&& forall|i: int| 0 <= i < self.qcheck@.len() ==> (#[trigger] self.qcheck@[i]).wf()
    }

    /// A pipeline with no machines at all.
    pub open spec fn is_empty(self) -> bool {
        self.assembly@.len() == 0 && self.soldering@.len() == 0 && self.qcheck@.len() == 0
    }

    /// The empty pipeline, which the price matcher returns when no
    /// configuration fits under the target price.
    pub fn empty() -> (p: Pipeline)
        ensures
            p.is_empty(),
            p.wf(),
            spec_pipeline_price(p) == 0,
    {
        Pipeline { assembly: Vec::new(), soldering: Vec::new(), qcheck: Vec::new() }
    }
}

/// The capacity goal handed to the soldering and quality-checking matchers.
pub open spec fn spec_downstream_goal(goal: int, tactic: MatchTactic) -> int {
    match tactic {
        MatchTactic::AllowOvershoot => spec_stage_capacity::<Assembly>(goal),
        MatchTactic::Exact => goal,
    }
}

/// The total price of the pipeline assembled for `goal` under `tactic`.
pub open spec fn spec_total_price(goal: int, tactic: MatchTactic) -> int {
    spec_stage_price::<Assembly>(goal) + spec_stage_price::<Soldering>(
        spec_downstream_goal(goal, tactic),
    ) + spec_stage_price::<QualityChecking>(spec_downstream_goal(goal, tactic))
}

/// The sum of every machine's price across all three stages.
pub open spec fn spec_pipeline_price(p: Pipeline) -> int {
    sum_prices::<Assembly>(p.assembly@) + sum_prices::<Soldering>(p.soldering@)
        + sum_prices::<QualityChecking>(p.qcheck@)
}

/// The pipeline is exactly what the assembler builds for `goal` under
/// `tactic`: each stage is the capacity matcher's output for its goal.
pub open spec fn pipeline_for_goal(p: Pipeline, goal: int, tactic: MatchTactic) -> bool {
    &&& stage_matches::<Assembly>(p.assembly@, goal)
    &&& stage_matches::<Soldering>(p.soldering@, spec_downstream_goal(goal, tactic))
    &&& stage_matches::<QualityChecking>(p.qcheck@, spec_downstream_goal(goal, tactic))
}

/// The price of the cheapest pipeline the assembler can build: one machine
/// per stage, each at its category minimum.
pub open spec fn spec_min_pipeline_price() -> int {
    Assembly::spec_cost_baseline() + Soldering::spec_cost_baseline()
        + QualityChecking::spec_cost_baseline()
}

/// Every assembled pipeline costs at least `spec_min_pipeline_price`.
pub proof fn lemma_price_floor(goal: int, tactic: MatchTactic)
    requires
        0 <= goal,
    ensures
        spec_total_price(goal, tactic) >= spec_min_pipeline_price(),
{
    lemma_stage_price_floor::<Assembly>(goal);
    let dg = spec_downstream_goal(goal, tactic);
    assert(dg >= 0);
    lemma_stage_price_floor::<Soldering>(dg);
    lemma_stage_price_floor::<QualityChecking>(dg);
}

/// For goals below every category minimum, each stage is a single machine at
/// its minimum capacity, so the pipeline costs exactly the three baselines.
pub proof fn lemma_small_goal_price(goal: int)
    requires
        1 <= goal <= 8,
    ensures
        spec_total_price(goal, MatchTactic::Exact) == spec_min_pipeline_price(),
{
    assert(spec_clamped::<Assembly>(goal) == 10);
    assert(spec_count::<Assembly>(goal) == 1);
    assert(spec_stage_capacity::<Assembly>(goal) == 10);
    assert(spec_stage_price::<Assembly>(goal) == 5000);
    assert(spec_clamped::<Soldering>(goal) == 20);
    assert(spec_count::<Soldering>(goal) == 1);
    assert(spec_stage_capacity::<Soldering>(goal) == 20);
    assert(spec_stage_price::<Soldering>(goal) == 2000);
    assert(spec_clamped::<QualityChecking>(goal) == 8);
    assert(spec_count::<QualityChecking>(goal) == 1);
    assert(spec_stage_capacity::<QualityChecking>(goal) == 8);
    assert(spec_stage_price::<QualityChecking>(goal) == 8000);
}

/// Under `AllowOvershoot` the downstream stages' total capacities cover the
/// assembly stage's actual total capacity; under `Exact` the downstream
/// stages target the raw goal, whatever assembly overshoots.
pub proof fn lemma_overshoot_covers(goal: int)
    requires
        0 <= goal,
    ensures
        spec_stage_capacity::<Soldering>(
            spec_downstream_goal(goal, MatchTactic::AllowOvershoot),
        ) >= spec_stage_capacity::<Assembly>(goal),
        spec_stage_capacity::<QualityChecking>(
            spec_downstream_goal(goal, MatchTactic::AllowOvershoot),
        ) >= spec_stage_capacity::<Assembly>(goal),
        spec_downstream_goal(goal, MatchTactic::Exact) == goal,
{
    lemma_stage_price_floor::<Assembly>(goal);
    let dg = spec_downstream_goal(goal, MatchTactic::AllowOvershoot);
    lemma_stage_price_floor::<Soldering>(dg);
    lemma_stage_price_floor::<QualityChecking>(dg);
}

/// Assembles a pipeline for the capacity goal: the assembly stage is matched
/// to `goal`, the downstream stages to the goal the tactic picks, and the
/// total price is the sum of every machine's price.
pub fn match_capacity(goal: usize, tactic: MatchTactic) -> (r: (Pipeline, usize))
    requires
        goal <= GOAL_LIMIT,
    ensures
        r.0.wf(),
        pipeline_for_goal(r.0, goal as int, tactic),
        r.1 as int == spec_pipeline_price(r.0),
        r.1 as int == spec_total_price(goal as int, tactic),
        sum_caps(caps_of::<Assembly>(r.0.assembly@)) == spec_stage_capacity::<Assembly>(
            goal as int,
        ),
        sum_caps(caps_of::<Soldering>(r.0.soldering@)) == spec_stage_capacity::<Soldering>(
            spec_downstream_goal(goal as int, tactic),
        ),
        sum_caps(caps_of::<QualityChecking>(r.0.qcheck@)) == spec_stage_capacity::<
            QualityChecking,
        >(spec_downstream_goal(goal as int, tactic)),
        tactic is AllowOvershoot ==> sum_caps(caps_of::<Soldering>(r.0.soldering@)) >= sum_caps(
            caps_of::<Assembly>(r.0.assembly@),
        ) && sum_caps(caps_of::<QualityChecking>(r.0.qcheck@)) >= sum_caps(
            caps_of::<Assembly>(r.0.assembly@),
        ),
{
    proof {
        lemma_overshoot_covers(goal as int);
        lemma_count_bounds::<Assembly>(goal as int);
        lemma_stage_price_floor::<Assembly>(goal as int);
    }
    let assembly = Machine::<Assembly>::match_capacity(goal);
    proof {
        let ca = spec_count::<Assembly>(goal as int);
        assert(spec_clamped::<Assembly>(goal as int) <= 0x10_0000);
        assert(ca * 15 == ca * Assembly::spec_capacity_max());
        assert(ca * 15 <= 0x10_0000 + 14);
        assert(1 <= ca <= 69906 && ca * 10 <= 699060) by (nonlinear_arith)
            requires
                ca * 15 <= 0x10_0000 + 14,
                1 <= ca,
        ;
        assert(ca * Assembly::spec_capacity_min() <= 699060);
    }
    let downstream_goal: usize = match tactic {
        MatchTactic::AllowOvershoot => capacity_sum::<Assembly>(&assembly),
        MatchTactic::Exact => goal,
    };
    assert(downstream_goal <= GOAL_LIMIT);
    proof {
        lemma_count_bounds::<Soldering>(downstream_goal as int);
        lemma_count_bounds::<QualityChecking>(downstream_goal as int);
        let cs = spec_count::<Soldering>(downstream_goal as int);
        let cq = spec_count::<QualityChecking>(downstream_goal as int);
        assert(cs * 30 == cs * Soldering::spec_capacity_max());
        assert(cs * 30 <= 0x10_0000 + 29);
        assert(cs <= 34953) by (nonlinear_arith)
            requires
                cs * 30 <= 0x10_0000 + 29,
        ;
        assert(cq * 10 == cq * QualityChecking::spec_capacity_max());
        assert(cq * 10 <= 0x10_0000 + 9);
        assert(cq <= 104858) by (nonlinear_arith)
            requires
                cq * 10 <= 0x10_0000 + 9,
        ;
    }
    let soldering = Machine::<Soldering>::match_capacity(downstream_goal);
    let qcheck = Machine::<QualityChecking>::match_capacity(downstream_goal);
    proof {
        lemma_sum_prices_linear::<Assembly>(assembly@);
        lemma_sum_prices_linear::<Soldering>(soldering@);
        lemma_sum_prices_linear::<QualityChecking>(qcheck@);
        assert(spec_max_machine_price::<Assembly>() == 6000);
        assert(spec_max_machine_price::<Soldering>() == 2500);
        assert(spec_max_machine_price::<QualityChecking>() == 12000);
        vstd::arithmetic::mul::lemma_mul_inequality(
            spec_count::<Assembly>(goal as int),
            69906,
            6000,
        );
        vstd::arithmetic::mul::lemma_mul_inequality(
            spec_count::<Soldering>(downstream_goal as int),
            34953,
            2500,
        );
        vstd::arithmetic::mul::lemma_mul_inequality(
            spec_count::<QualityChecking>(downstream_goal as int),
            104858,
            12000,
        );
    }
    let assembly_price = total_price::<Assembly>(&assembly);
    let soldering_price = total_price::<Soldering>(&soldering);
    let qcheck_price = total_price::<QualityChecking>(&qcheck);
    let price = assembly_price + soldering_price + qcheck_price;
    (Pipeline { assembly, soldering, qcheck }, price)
}

/// A rough price per unit of capacity, used to seed the price search.
pub const PRICE_PER_CAPACITY_ESTIMATE: usize = 1725;

/// Searches over capacity goals for the pipeline whose total price comes
/// closest to `goal` from below, and returns it with its price. When no
/// pipeline fits under the target — exactly when the target is below the
/// cheapest possible pipeline — the empty pipeline at price 0 is returned.
#[verifier::loop_isolation(false)]
#[verifier::rlimit(100)]
pub fn match_price(goal: usize) -> (r: (Pipeline, usize))
    ensures
        r.1 <= goal,
        r.0.wf(),
        r.1 as int == spec_pipeline_price(r.0),
        (r.0.is_empty() && r.1 == 0) <==> (goal as int) < spec_min_pipeline_price(),
        (goal as int) >= spec_min_pipeline_price() ==> r.1 as int >= spec_min_pipeline_price(),
        r.1 != 0 ==> exists|g: int|
            1 <= g <= GOAL_LIMIT && #[trigger] pipeline_for_goal(r.0, g, MatchTactic::Exact)
                && r.1 as int == spec_total_price(g, MatchTactic::Exact),
        r.1 != 0 ==> r.1 == goal || exists|g: int|
            1 <= g <= GOAL_LIMIT && #[trigger] pipeline_for_goal(r.0, g, MatchTactic::Exact)
                && r.1 as int == spec_total_price(g, MatchTactic::Exact) && (g + 1 >= GOAL_LIMIT
                || spec_total_price(g + 1, MatchTactic::Exact) > goal),
{
    let mut higher_bound: usize = GOAL_LIMIT;
    let mut lower_bound: usize = 1;
    let mut guess: usize = goal / PRICE_PER_CAPACITY_ESTIMATE;
    if guess < 1 {
        guess = 1;
    }
    if guess > GOAL_LIMIT {
        guess = GOAL_LIMIT;
    }
    let mut best_pipe = Pipeline::empty();
    let mut best_price: usize = 0;
    let ghost mut best_goal: int = 0;
    let first = match_capacity(guess, MatchTactic::Exact);
    proof {
        lemma_price_floor(guess as int, MatchTactic::Exact);
        lemma_count_bounds::<Assembly>(guess as int);
    }
    if first.1 == goal {
        proof {
            assert(pipeline_for_goal(first.0, guess as int, MatchTactic::Exact));
        }
        return first;
    }
    if first.1 > goal {
        higher_bound = guess;
    } else {
        lower_bound = guess;
        best_pipe = first.0;
        best_price = first.1;
        proof {
            best_goal = guess as int;
        }
    }
    while higher_bound - lower_bound >= 2
        invariant
            1 <= lower_bound <= higher_bound <= GOAL_LIMIT,
            best_pipe.wf(),
            best_price as int == spec_pipeline_price(best_pipe),
            higher_bound == GOAL_LIMIT || spec_total_price(higher_bound as int, MatchTactic::Exact)
                > goal,
            best_goal == 0 ==> best_price == 0 && best_pipe.is_empty() && lower_bound == 1,
            best_goal != 0 ==> best_goal == lower_bound && 1 <= best_goal <= GOAL_LIMIT
                && pipeline_for_goal(best_pipe, best_goal, MatchTactic::Exact)
                && best_price as int == spec_total_price(best_goal, MatchTactic::Exact)
                && best_price < goal,
        decreases higher_bound - lower_bound,
    {
        let mid = (higher_bound + lower_bound) / 2;
        let cand = match_capacity(mid, MatchTactic::Exact);
        proof {
            lemma_price_floor(mid as int, MatchTactic::Exact);
            lemma_count_bounds::<Assembly>(mid as int);
        }
        if cand.1 == goal {
            proof {
                assert(pipeline_for_goal(cand.0, mid as int, MatchTactic::Exact));
            }
            return cand;
        }
        if cand.1 > goal {
            higher_bound = mid;
        } else {
            lower_bound = mid;
            best_pipe = cand.0;
            best_price = cand.1;
            proof {
                best_goal = mid as int;
            }
        }
    }
    proof {
        if best_goal == 0 {
            lemma_small_goal_price(higher_bound as int);
        } else {
            lemma_price_floor(best_goal, MatchTactic::Exact);
        }
    }
    let result = (best_pipe, best_price);
    proof {
        if best_goal != 0 {
            if best_goal + 1 < GOAL_LIMIT {
                // the bounds ended adjacent, and the upper bound overprices
                assert(higher_bound as int == best_goal + 1);
                assert(spec_total_price(best_goal + 1, MatchTactic::Exact) > goal);
            }
            assert(exists|g: int|
                1 <= g <= GOAL_LIMIT && #[trigger] pipeline_for_goal(
                    result.0,
                    g,
                    MatchTactic::Exact,
                ) && result.1 as int == spec_total_price(g, MatchTactic::Exact)) by {
                assert(pipeline_for_goal(result.0, best_goal, MatchTactic::Exact));
            }
            assert(exists|g: int|
                1 <= g <= GOAL_LIMIT && #[trigger] pipeline_for_goal(
                    result.0,
                    g,
                    MatchTactic::Exact,
                ) && result.1 as int == spec_total_price(g, MatchTactic::Exact) && (g + 1
                    >= GOAL_LIMIT || spec_total_price(g + 1, MatchTactic::Exact) > goal)) by {
                assert(pipeline_for_goal(result.0, best_goal, MatchTactic::Exact));
            }
        }
    }
    result
}

} // verus!
