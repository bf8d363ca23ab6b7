//! Decisions of the arbitrage loop around evaluation and execution: when
//! the balance is refreshed, when it is too old to trade on, whether an
//! opportunity is new, and what an outcome does to the risk manager.

use crate::arb::exec::ExecutionOutcome;
use crate::arb::opportunity::{ArbLeg, ArbOpportunity};
use crate::arb::risk::{
    after_execution, failure_threshold, failures_after, ArbRiskManager, RiskModel,
};
use crate::error::Error;
use crate::text::{push_text, same_text};
use vstd::prelude::*;
use vstd::string::StringExecFns;

verus! {

/// Seconds between two refreshes of the balance.
pub const BALANCE_REFRESH_SECS: u64 = 30;

/// Seconds after which a balance is too old to trade on.
pub const BALANCE_STALE_SECS: u64 = 120;

/// Seconds between two heartbeats.
pub const HEARTBEAT_SECS: u64 = 30;

/// At least `secs` seconds have passed between `since_ms` and `now_ms`.
pub open spec fn elapsed_at_least(since_ms: u64, now_ms: u64, secs: u64) -> bool {
    now_ms >= since_ms && now_ms - since_ms >= secs * 1000
}

/// A refresh of the balance is due: the last one lies at least thirty
/// seconds back.
pub fn balance_refresh_due(last_refresh_ms: u64, now_ms: u64) -> (due: bool)
    ensures
        due == elapsed_at_least(last_refresh_ms, now_ms, 30),
{
    now_ms >= last_refresh_ms && now_ms - last_refresh_ms >= BALANCE_REFRESH_SECS * 1000
}

/// A heartbeat is due: the last one lies at least thirty seconds back.
pub fn heartbeat_due(last_heartbeat_ms: u64, now_ms: u64) -> (due: bool)
    ensures
        due == elapsed_at_least(last_heartbeat_ms, now_ms, 30),
{
    now_ms >= last_heartbeat_ms && now_ms - last_heartbeat_ms >= HEARTBEAT_SECS * 1000
}

/// The balance is too old to trade on: the last good reading lies more
/// than two minutes back. Without any reading there is nothing to be
/// stale.
pub fn balance_is_stale(last_ok_ms: Option<u64>, now_ms: u64) -> (stale: bool)
    ensures
        stale == (last_ok_ms matches Some(t) && now_ms >= t && now_ms - t > 120_000),
{
    match last_ok_ms {
        Some(t) => now_ms >= t && now_ms - t > BALANCE_STALE_SECS * 1000,
        None => false,
    }
}

/// Two legs are the same order.
pub open spec fn same_leg(a: ArbLeg, b: ArbLeg) -> bool {
    a.ticker@ == b.ticker@ && a.price_cents == b.price_cents && a.side == b.side
}

/// Two opportunities are the same trade: the same event, direction,
/// quantity and net edge, and the same legs in the same order.
pub open spec fn same_trade(a: ArbOpportunity, b: ArbOpportunity) -> bool {
    &&& a.group_event_ticker@ == b.group_event_ticker@
    &&& a.direction == b.direction
    &&& a.qty == b.qty
    &&& a.net_edge_cents == b.net_edge_cents
    &&& a.legs@.len() == b.legs@.len()
    &&& forall|i: int| 0 <= i < a.legs@.len() ==> same_leg(#[trigger] a.legs@[i], b.legs@[i])
}

/// Whether two opportunities are the same trade.
pub fn same_opportunity(a: &ArbOpportunity, b: &ArbOpportunity) -> (same: bool)
    ensures
        same == same_trade(*a, *b),
{
    if !same_text(a.group_event_ticker.as_str(), b.group_event_ticker.as_str()) || a.direction
        != b.direction || a.qty != b.qty || a.net_edge_cents != b.net_edge_cents || a.legs.len()
        != b.legs.len() {
        return false;
    }
    let mut i: usize = 0;
    while i < a.legs.len()
        invariant
            i <= a.legs.len(),
            a.legs.len() == b.legs.len(),
            forall|k: int| 0 <= k < i ==> same_leg(#[trigger] a.legs@[k], b.legs@[k]),
        decreases a.legs.len() - i,
    {
        let x = &a.legs[i];
        let y = &b.legs[i];
        if !same_text(x.ticker.as_str(), y.ticker.as_str()) || x.price_cents != y.price_cents
            || x.side != y.side {
            assert(!same_leg(a.legs@[i as int], b.legs@[i as int]));
            return false;
        }
        i += 1;
    }
    true
}

/// Whether `opp` is new: none of the opportunities of the previous scan
/// is the same trade.
pub fn is_new_opportunity(opp: &ArbOpportunity, previous: &Vec<ArbOpportunity>) -> (fresh: bool)
    ensures
        fresh == !(exists|i: int|
            0 <= i < previous@.len() && same_trade(*opp, #[trigger] previous@[i])),
{
    let mut i: usize = 0;
    while i < previous.len()
        invariant
            i <= previous.len(),
            forall|k: int| 0 <= k < i ==> !same_trade(*opp, #[trigger] previous@[k]),
        decreases previous.len() - i,
    {
        if same_opportunity(opp, &previous[i]) {
            return false;
        }
        i += 1;
    }
    true
}

/// What an outcome calls for: whether the exposure of the trade is
/// recorded, and whether it counts as a critical failure or clears the
/// count. Exposure is recorded where it may persist: after a complete
/// fill and after a partial fill that could not be unwound.
pub open spec fn outcome_effect(outcome: ExecutionOutcome) -> (bool, bool) {
    match outcome {
        ExecutionOutcome::CompleteFill => (true, false),
        ExecutionOutcome::PartialFillUnwindFailed => (true, true),
        ExecutionOutcome::PartialFillUnwound => (false, false),
        ExecutionOutcome::NoFill => (false, false),
        ExecutionOutcome::Rejected => (false, false),
        ExecutionOutcome::Failed => (false, true),
    }
}

/// The risk state after an outcome has been applied to it.
pub open spec fn after_outcome(m: RiskModel, opp: ArbOpportunity, outcome: ExecutionOutcome, recorded: bool) -> RiskModel {
    let exposed = if outcome_effect(outcome).0 && recorded {
        after_execution(m, opp@)
    } else {
        m
    };
    if outcome_effect(outcome).1 {
        RiskModel {
            critical_failures: failures_after(m.critical_failures),
            kill_switch: m.kill_switch || failures_after(m.critical_failures)
                >= failure_threshold(m.config),
            ..exposed
        }
    } else {
        RiskModel { critical_failures: 0, ..exposed }
    }
}

/// Applies the outcome of an execution to the risk manager. The error,
/// if any, says that the kill switch has engaged.
pub fn apply_outcome(risk: &mut ArbRiskManager, opp: &ArbOpportunity, outcome: ExecutionOutcome) -> (r:
    Result<(), Error>)
    requires
        old(risk).wf(),
    ensures
        final(risk).wf(),
        final(risk)@ == after_outcome(old(risk)@, *opp, outcome, old(risk).can_record(opp@)),
        r is Err ==> final(risk)@.kill_switch,
        r is Err <==> outcome_effect(outcome).1 && failures_after(old(risk)@.critical_failures)
            >= failure_threshold(old(risk)@.config),
{
    let records = match outcome {
        ExecutionOutcome::CompleteFill => true,
        ExecutionOutcome::PartialFillUnwindFailed => true,
        _ => false,
    };
    if records && risk.recordable(opp) {
        risk.record_execution(opp);
    }
    match outcome {
        ExecutionOutcome::PartialFillUnwindFailed => {
            let mut reason = opp.group_event_ticker.clone();
            push_text(&mut reason, " partial-fill unwind failure");
            risk.record_critical_failure(reason.as_str())
        },
        ExecutionOutcome::Failed => {
            let mut reason = opp.group_event_ticker.clone();
            push_text(&mut reason, " execution failed");
            risk.record_critical_failure(reason.as_str())
        },
        _ => {
            risk.clear_critical_failures();
            Ok(())
        },
    }
}

} // verus!
