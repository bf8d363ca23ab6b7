//! The decisions of one cycle of the rules strategy, between its calls
//! to the exchange and to the research provider.

use crate::rules::candidate::ResearchCandidate;
use crate::rules::config::ResearchConfig;
use crate::rules::decision::{
    fallback_decision, research_decision, Decision, DecisionEngine, DecisionModel,
    DeterministicInput, TradeIntent, VetoReason,
};
use crate::rules::execution::ExecutionOutcome;
use crate::rules::research::{
    is_research_stale, research_error_code, research_error_code_text, research_stale,
    ResearchError, ResearchResponse,
};
use crate::error::Error;
use crate::rules::risk::{buy_checked_at, GuardModel, RiskGuard};
use crate::text::push_text;
use crate::types::{Position, Side};
use vstd::prelude::*;
use vstd::string::StringExecFns;

verus! {

/// The tallies of one cycle.
#[derive(Clone, Copy, Debug, PartialEq, Eq, Structural)]
pub struct CycleCounters {
    pub approved: usize,
    pub vetoed: usize,
    pub llm_calls: usize,
    pub llm_failures: usize,
}

/// One more, held to what a `usize` can count.
pub open spec fn bump(n: usize) -> usize {
    if n == usize::MAX {
        n
    } else {
        (n + 1) as usize
    }
}

fn bumped(n: usize) -> (r: usize)
    ensures
        r == bump(n),
{
    if n == usize::MAX {
        n
    } else {
        n + 1
    }
}

impl CycleCounters {
    /// Counters at zero.
    pub fn new() -> (c: CycleCounters)
        ensures
            c == (CycleCounters { approved: 0, vetoed: 0, llm_calls: 0, llm_failures: 0 }),
    {
        CycleCounters { approved: 0, vetoed: 0, llm_calls: 0, llm_failures: 0 }
    }

    /// Counts an approved trade.
    pub fn count_approved(&mut self)
        ensures
            *final(self) == (CycleCounters { approved: bump(old(self).approved), ..*old(self) }),
    {
        self.approved = bumped(self.approved);
    }

    /// Counts a vetoed candidate.
    pub fn count_vetoed(&mut self)
        ensures
            *final(self) == (CycleCounters { vetoed: bump(old(self).vetoed), ..*old(self) }),
    {
        self.vetoed = bumped(self.vetoed);
    }

    /// Counts a call to the research provider.
    pub fn count_llm_call(&mut self)
        ensures
            *final(self) == (CycleCounters { llm_calls: bump(old(self).llm_calls), ..*old(self) }),
    {
        self.llm_calls = bumped(self.llm_calls);
    }

    /// Counts research that failed or came back stale.
    pub fn count_llm_failure(&mut self)
        ensures
            *final(self) == (CycleCounters {
                llm_failures: bump(old(self).llm_failures),
                ..*old(self)
            }),
    {
        self.llm_failures = bumped(self.llm_failures);
    }

    /// Counts the outcome of an execution: a failure counts as a veto.
    pub fn count_outcome(&mut self, outcome: ExecutionOutcome)
        ensures
            *final(self) == (if outcome == ExecutionOutcome::Failed {
                CycleCounters { vetoed: bump(old(self).vetoed), ..*old(self) }
            } else {
                *old(self)
            }),
    {
        match outcome {
            ExecutionOutcome::Failed => {
                self.vetoed = bumped(self.vetoed);
            },
            _ => {},
        }
    }
}

/// A candidate is worth research when its rules are complex enough, its
/// best edge reaches the minimum, and either its open interest or its
/// volume of the day reaches the minimum depth.
pub open spec fn research_worthy(c: ResearchCandidate, r: ResearchConfig) -> bool {
    &&& c.complexity_score_ppm >= r.complexity_threshold_ppm
    &&& c.deterministic.best_edge_micro_cents >= 1_000_000 * r.min_edge_for_research_cents
    &&& !(c.market.open_interest < r.market_liquidity_min_depth && c.market.volume_24h
        < r.market_liquidity_min_depth)
}

/// Whether `candidate` is worth research.
pub fn worth_research(candidate: &ResearchCandidate, research: &ResearchConfig) -> (r: bool)
    ensures
        r == research_worthy(*candidate, *research),
{
    if candidate.complexity_score_ppm < research.complexity_threshold_ppm {
        return false;
    }
    if (candidate.deterministic.best_edge_micro_cents as i128) < 1_000_000
        * research.min_edge_for_research_cents as i128 {
        return false;
    }
    if candidate.market.open_interest < research.market_liquidity_min_depth
        && candidate.market.volume_24h < research.market_liquidity_min_depth {
        return false;
    }
    true
}

/// The signal that the decision engine is given for `candidate`: its
/// better side, with the price and the probability of that side.
pub fn deterministic_input(candidate: &ResearchCandidate) -> (input: DeterministicInput)
    ensures
        input.ticker@ == candidate.market.ticker@,
        input.target_side == candidate.deterministic.best_side,
        input.target_price_cents == candidate.deterministic.best_price_cents,
        input.p_det_target_ppm == (if candidate.deterministic.best_side == Side::Yes {
            candidate.deterministic.p_det_yes_ppm
        } else {
            candidate.deterministic.p_det_no_ppm
        }),
        input.best_edge_micro_cents == candidate.deterministic.best_edge_micro_cents,
{
    let d = &candidate.deterministic;
    DeterministicInput {
        ticker: candidate.market.ticker.clone(),
        target_side: d.best_side,
        target_price_cents: d.best_price_cents,
        p_det_target_ppm: match d.best_side {
            Side::Yes => d.p_det_yes_ppm,
            Side::No => d.p_det_no_ppm,
        },
        best_edge_micro_cents: d.best_edge_micro_cents,
    }
}

/// The decision where research is missing for the reason `code`: a veto
/// if research is required, and the deterministic decision otherwise.
pub open spec fn unresearched_decision(
    engine: DecisionEngine,
    input: DeterministicInput,
    llm_required: bool,
    veto_text: Seq<char>,
    code: Seq<char>,
) -> DecisionModel {
    if llm_required {
        DecisionModel::Veto { ticker: input.ticker@, reason: veto_text }
    } else {
        fallback_decision(
            engine@,
            input.ticker@,
            input.target_side,
            input.target_price_cents as int,
            input.p_det_target_ppm as int,
            code,
        )
    }
}

fn unresearched(
    engine: &DecisionEngine,
    input: &DeterministicInput,
    llm_required: bool,
    veto_text: String,
    code: &str,
) -> (d: Decision)
    ensures
        d@ == unresearched_decision(*engine, *input, llm_required, veto_text@, code@),
{
    if llm_required {
        Decision::Veto(VetoReason { ticker: input.ticker.clone(), reason: veto_text })
    } else {
        engine.evaluate_deterministic(input, code)
    }
}

/// The decision when the budget has no call left for the market.
pub fn decide_without_budget(engine: &DecisionEngine, input: &DeterministicInput, llm_required: bool) -> (d:
    Decision)
    ensures
        d@ == unresearched_decision(
            *engine,
            *input,
            llm_required,
            "LLM budget exhausted and llm_required_for_complex_markets=true"@,
            "budget_exhausted"@,
        ),
{
    unresearched(
        engine,
        input,
        llm_required,
        String::from_str("LLM budget exhausted and llm_required_for_complex_markets=true"),
        "budget_exhausted",
    )
}

/// The decision once research has come back, and whether the research
/// counts as failed. A stale answer and an error both count as failed and
/// leave the market to the fallback; a fresh answer goes to the decision
/// engine.
pub open spec fn researched_decision(
    engine: DecisionEngine,
    input: DeterministicInput,
    result: Result<ResearchResponse, ResearchError>,
    now_ms: i64,
    staleness_budget_ms: i64,
    llm_required: bool,
) -> (DecisionModel, bool) {
    match result {
        Ok(response) => {
            if research_stale(now_ms as int, response.as_of_ts_ms as int, staleness_budget_ms as int) {
                (
                    unresearched_decision(
                        engine,
                        input,
                        llm_required,
                        "stale_research_response"@,
                        "stale_research_response"@,
                    ),
                    true,
                )
            } else {
                (
                    research_decision(
                        engine@,
                        input.ticker@,
                        input.target_side,
                        input.target_price_cents as int,
                        input.p_det_target_ppm as int,
                        response.risk_of_misresolution,
                        response.confidence_ppm as int,
                        response.uncertainty_ppm as int,
                    ),
                    false,
                )
            }
        },
        Err(e) => (
            unresearched_decision(
                engine,
                input,
                llm_required,
                research_error_code_text(e) + " and llm_required_for_complex_markets=true"@,
                research_error_code_text(e),
            ),
            true,
        ),
    }
}

/// The decision once research has come back, and whether the research
/// counts as failed.
pub fn decide_after_research(
    engine: &DecisionEngine,
    input: &DeterministicInput,
    result: &Result<ResearchResponse, ResearchError>,
    now_ms: i64,
    staleness_budget_ms: i64,
    llm_required: bool,
) -> (r: (Decision, bool))
    ensures
        (r.0@, r.1) == researched_decision(
            *engine,
            *input,
            *result,
            now_ms,
            staleness_budget_ms,
            llm_required,
        ),
{
    match result {
        Ok(response) => {
            if is_research_stale(now_ms, response.as_of_ts_ms, staleness_budget_ms) {
                (
                    unresearched(
                        engine,
                        input,
                        llm_required,
                        String::from_str("stale_research_response"),
                        "stale_research_response",
                    ),
                    true,
                )
            } else {
                (engine.evaluate_with_research(input, response), false)
            }
        },
        Err(e) => {
            let code = research_error_code(e);
            let mut veto_text = String::from_str(code);
            push_text(&mut veto_text, " and llm_required_for_complex_markets=true");
            (unresearched(engine, input, llm_required, veto_text, code), true)
        },
    }
}

/// The balance to reckon with after an order was placed: the balance
/// less the cost of the order, held to the range of the counter.
pub open spec fn balance_after_order(balance: int, price_cents: int, count: int) -> int {
    crate::fees::clamp_i64(balance - crate::fees::clamp_i64(price_cents * count))
}

/// The balance to reckon with after an order was placed.
pub fn reduce_balance(balance_cents: i64, price_cents: i64, count: i64) -> (r: i64)
    ensures
        r == balance_after_order(balance_cents as int, price_cents as int, count as int),
{
    assert(-0x4000_0000_0000_0000_0000_0000_0000_0000 <= price_cents * count
        <= 0x4000_0000_0000_0000_0000_0000_0000_0000) by (nonlinear_arith)
        requires
            -0x8000_0000_0000_0000 <= price_cents <= 0x7fff_ffff_ffff_ffff,
            -0x8000_0000_0000_0000 <= count <= 0x7fff_ffff_ffff_ffff,
    ;
    let product: i128 = price_cents as i128 * count as i128;
    let cost: i128 = if product > i64::MAX as i128 {
        i64::MAX as i128
    } else if product < i64::MIN as i128 {
        i64::MIN as i128
    } else {
        product
    };
    let left: i128 = balance_cents as i128 - cost;
    if left > i64::MAX as i128 {
        i64::MAX
    } else if left < i64::MIN as i128 {
        i64::MIN
    } else {
        left as i64
    }
}

/// What the risk check of an approved trade comes to when the clock read
/// `now`: in shadow mode nothing will be placed, so the guard is not
/// asked and stays as it is; otherwise the guard decides.
pub open spec fn cleared_at(
    before: GuardModel,
    shadow_mode: bool,
    intent: TradeIntent,
    positions: Seq<Position>,
    balance: i64,
    now: u64,
    after: GuardModel,
    r: Result<(), Error>,
) -> bool {
    if shadow_mode {
        r is Ok && after == before
    } else {
        buy_checked_at(
            before,
            intent.ticker@,
            intent.price_cents as int,
            intent.size_contracts as int,
            positions,
            balance,
            now,
            after,
            r,
        )
    }
}

/// Puts an approved trade before the risk guard at time `now_ms`.
pub fn clear_for_execution_at(
    guard: &mut RiskGuard,
    shadow_mode: bool,
    intent: &TradeIntent,
    positions: &[Position],
    balance_cents: i64,
    now_ms: u64,
) -> (r: Result<(), Error>)
    ensures
        cleared_at(
            old(guard)@,
            shadow_mode,
            *intent,
            positions@,
            balance_cents,
            now_ms,
            final(guard)@,
            r,
        ),
{
    if shadow_mode {
        return Ok(());
    }
    guard.check_buy_at(
        intent.ticker.as_str(),
        intent.price_cents,
        intent.size_contracts,
        positions,
        balance_cents,
        now_ms,
    )
}

/// Puts an approved trade before the risk guard at the present moment of
/// the guard's clock.
pub fn clear_for_execution(
    guard: &mut RiskGuard,
    shadow_mode: bool,
    intent: &TradeIntent,
    positions: &[Position],
    balance_cents: i64,
) -> (r: Result<(), Error>)
    ensures
        exists|now: u64|
            cleared_at(
                old(guard)@,
                shadow_mode,
                *intent,
                positions@,
                balance_cents,
                now,
                final(guard)@,
                r,
            ),
{
    let now = guard.now_ms();
    let r = clear_for_execution_at(guard, shadow_mode, intent, positions, balance_cents, now);
    assert(cleared_at(
        old(guard)@,
        shadow_mode,
        *intent,
        positions@,
        balance_cents,
        now,
        guard@,
        r,
    ));
    r
}


} // verus!
