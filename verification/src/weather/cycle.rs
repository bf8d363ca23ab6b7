//! The plan of one strategy tick of the forecast strategy: evaluate,
//! then let the risk manager filter.

use crate::arb::quotes::QuoteBook;
use crate::types::{intent_models, MarketInfo, OrderIntent, Position};
use crate::weather::engine::{
    intent_valid, listed_intents, listed_rejections, rejection_models, Moment, RejectedSignal,
    StrategyEngine,
};
use crate::weather::risk::{filtered, ManagerModel, RiskManager};
use crate::weather::signal::ForecastCache;
use vstd::prelude::*;

verus! {

/// What a tick decided.
#[derive(Debug)]
pub struct CyclePlan {
    /// Every intent that the engine produced.
    pub generated: Vec<OrderIntent>,
    /// The intents that passed the risk manager, in order.
    pub approved: Vec<OrderIntent>,
    /// The markets that the engine passed over.
    pub rejected: Vec<RejectedSignal>,
}

/// The tallies of a tick.
#[derive(Clone, Copy, Debug, PartialEq, Eq, Structural)]
pub struct CycleSummary {
    pub generated: usize,
    pub approved: usize,
    pub risk_rejected: usize,
    pub orders_placed: usize,
    pub orders_failed: usize,
}

impl CyclePlan {
    /// The tallies of the plan before any order has gone out.
    pub fn summary(&self) -> (s: CycleSummary)
        ensures
            s.generated == self.generated@.len(),
            s.approved == self.approved@.len(),
            s.risk_rejected == (if self.generated@.len() >= self.approved@.len() {
                self.generated@.len() - self.approved@.len()
            } else {
                0
            }),
            s.orders_placed == 0,
            s.orders_failed == 0,
    {
        let generated = self.generated.len();
        let approved = self.approved.len();
        CycleSummary {
            generated,
            approved,
            risk_rejected: if generated >= approved {
                generated - approved
            } else {
                0
            },
            orders_placed: 0,
            orders_failed: 0,
        }
    }
}

impl CycleSummary {
    /// Counts an order that the exchange took or refused.
    pub fn count_order(&mut self, placed: bool)
        ensures
            *final(self) == (if placed {
                CycleSummary {
                    orders_placed: if old(self).orders_placed == usize::MAX {
                        usize::MAX
                    } else {
                        (old(self).orders_placed + 1) as usize
                    },
                    ..*old(self)
                }
            } else {
                CycleSummary {
                    orders_failed: if old(self).orders_failed == usize::MAX {
                        usize::MAX
                    } else {
                        (old(self).orders_failed + 1) as usize
                    },
                    ..*old(self)
                }
            }),
    {
        if placed {
            if self.orders_placed < usize::MAX {
                self.orders_placed = self.orders_placed + 1;
            }
        } else {
            if self.orders_failed < usize::MAX {
                self.orders_failed = self.orders_failed + 1;
            }
        }
    }
}

/// The state of the risk manager once it has seen the balance of the
/// tick.
pub open spec fn with_session_balance(m: ManagerModel, balance: i64) -> ManagerModel {
    ManagerModel {
        session_start_balance: if m.session_start_balance is None {
            Some(balance)
        } else {
            m.session_start_balance
        },
        ..m
    }
}

/// Plans one tick at the given moment: the risk manager learns the
/// balance, the engine evaluates every market, and the risk manager keeps
/// the intents that pass.
pub fn plan_cycle(
    engine: &StrategyEngine,
    risk: &mut RiskManager,
    markets: &[MarketInfo],
    prices: &QuoteBook,
    forecasts: &ForecastCache,
    positions: &[Position],
    balance_cents: i64,
    now: Moment,
) -> (plan: CyclePlan)
    ensures
        final(risk)@ == with_session_balance(old(risk)@, balance_cents),
        intent_models(plan.generated@) == listed_intents(
            engine.context(prices, forecasts, positions@, now),
            markets@,
        ),
        rejection_models(plan.rejected@) == listed_rejections(
            engine.context(prices, forecasts, positions@, now),
            markets@,
        ),
        intent_models(plan.approved@) == filtered(
            final(risk)@,
            intent_models(plan.generated@),
            positions@,
            balance_cents as int,
            now.mono_ms,
        ).0,
        forall|i: int|
            0 <= i < plan.generated@.len() ==> intent_valid((#[trigger] plan.generated@[i])@),
{
    risk.set_session_balance(balance_cents);
    let result = engine.evaluate_with_diagnostics(markets, prices, forecasts, positions, now);
    let mut copies: Vec<OrderIntent> = Vec::new();
    let mut i: usize = 0;
    while i < result.intents.len()
        invariant
            i <= result.intents.len(),
            copies@.len() == i,
            forall|k: int| 0 <= k < i ==> (#[trigger] copies@[k])@ == result.intents@[k]@,
        decreases result.intents.len() - i,
    {
        copies.push(result.intents[i].duplicate());
        i += 1;
    }
    assert(intent_models(copies@) =~= intent_models(result.intents@));
    let approved = risk.filter_intents_at(copies, positions, balance_cents, now.mono_ms);
    CyclePlan { generated: result.intents, approved, rejected: result.rejected }
}

} // verus!
