//! The last step of the rules strategy: whether an approved trade is
//! placed at all, and as what order.

use crate::rules::decision::{TradeIntent, TradeModel};
use crate::text::{push_text, texts};
use crate::types::{IntentModel, OrderIntent};
use vstd::prelude::*;
use vstd::string::StringExecFns;

verus! {

/// How the execution of a trade ended.
#[derive(Clone, Copy, Debug, PartialEq, Eq, Structural)]
pub enum ExecutionOutcome {
    /// Shadow mode: the trade was logged and nothing was placed.
    ShadowSkipped,
    /// Live trading is switched off: nothing was placed.
    LiveDisabled,
    Placed,
    Failed,
}

/// What to do with an approved trade.
#[derive(Debug)]
pub enum ExecutionStep {
    /// Place nothing; this is the outcome.
    Skip(ExecutionOutcome),
    /// Place this order.
    Place(OrderIntent),
}

/// The mode switches of the strategy.
#[derive(Clone, Copy, Debug, PartialEq, Eq, Structural)]
pub struct ExecutionEngine {
    pub shadow_mode: bool,
    pub live_enable: bool,
}

/// The texts joined with `separator` between them.
pub open spec fn joined(parts: Seq<Seq<char>>, separator: Seq<char>) -> Seq<char>
    decreases parts.len(),
{
    if parts.len() == 0 {
        Seq::empty()
    } else if parts.len() == 1 {
        parts[0]
    } else {
        joined(parts.drop_last(), separator) + separator + parts.last()
    }
}

/// The texts joined with `separator` between them.
pub fn join(parts: &Vec<String>, separator: &str) -> (s: String)
    ensures
        s@ == joined(texts(parts@), separator@),
{
    let mut s = String::new();
    let mut i: usize = 0;
    assert(texts(parts@).take(0) =~= Seq::<Seq<char>>::empty());
    while i < parts.len()
        invariant
            i <= parts.len(),
            s@ == joined(texts(parts@).take(i as int), separator@),
        decreases parts.len() - i,
    {
        proof {
            let next = texts(parts@).take(i + 1);
            assert(next.drop_last() =~= texts(parts@).take(i as int));
            assert(next.last() == parts@[i as int]@);
        }
        if i > 0 {
            push_text(&mut s, separator);
            push_text(&mut s, parts[i].as_str());
        } else {
            push_text(&mut s, parts[i].as_str());
            assert(Seq::<char>::empty() + parts@[0]@ =~= parts@[0]@);
        }
        i += 1;
    }
    assert(texts(parts@).take(parts@.len() as int) =~= texts(parts@));
    s
}

/// The order that places an approved trade: the same market, side, action,
/// price and size, with the reasons joined into one text.
pub open spec fn order_of(t: TradeModel) -> IntentModel {
    IntentModel {
        ticker: t.ticker,
        side: t.side,
        action: t.action,
        price_cents: t.price_cents,
        count: t.size_contracts,
        reason: joined(t.reasons, "; "@),
        estimated_fee_cents: 0,
        confidence_ppm: t.confidence_ppm,
    }
}

impl ExecutionEngine {
    /// An engine in the given mode.
    pub fn new(shadow_mode: bool, live_enable: bool) -> (e: ExecutionEngine)
        ensures
            e.shadow_mode == shadow_mode,
            e.live_enable == live_enable,
    {
        ExecutionEngine { shadow_mode, live_enable }
    }

    /// What to do with an approved trade: nothing in shadow mode, nothing
    /// while live trading is switched off, and otherwise place its order.
    pub fn execute(&self, intent: TradeIntent) -> (step: ExecutionStep)
        ensures
            match step {
                ExecutionStep::Skip(outcome) => if self.shadow_mode {
                    outcome == ExecutionOutcome::ShadowSkipped
                } else {
                    !self.live_enable && outcome == ExecutionOutcome::LiveDisabled
                },
                ExecutionStep::Place(order) => !self.shadow_mode && self.live_enable && order@
                    == order_of(intent@),
            },
    {
        if self.shadow_mode {
            return ExecutionStep::Skip(ExecutionOutcome::ShadowSkipped);
        }
        if !self.live_enable {
            return ExecutionStep::Skip(ExecutionOutcome::LiveDisabled);
        }
        let reason = join(&intent.reasons, "; ");
        ExecutionStep::Place(
            OrderIntent {
                ticker: intent.ticker,
                side: intent.side,
                action: intent.action,
                price_cents: intent.price_cents,
                count: intent.size_contracts,
                reason,
                estimated_fee_cents: 0,
                confidence_ppm: intent.confidence_ppm,
            },
        )
    }

    /// The outcome of a placement: placed when the exchange took the
    /// order, failed when it did not.
    pub fn outcome_of(accepted: bool) -> (outcome: ExecutionOutcome)
        ensures
            outcome == (if accepted {
                ExecutionOutcome::Placed
            } else {
                ExecutionOutcome::Failed
            }),
    {
        if accepted {
            ExecutionOutcome::Placed
        } else {
            ExecutionOutcome::Failed
        }
    }
}

} // verus!
