//! Risk manager of the arbitrage strategy: balance and drawdown guards, a
//! sticky kill switch, rolling rate limits, and per-event and total exposure
//! caps.

use crate::arb::config::ArbRiskConfig;
use crate::arb::opportunity::{ArbOpportunity, LegModel, OpportunityModel};
use crate::clock::{expired, is_expired, lemma_pruned_len, pruned, MonoClock};
use crate::error::Error;
use crate::text::{decimal, push_decimal, push_text};
use crate::types::valid_order_price;
use std::collections::VecDeque;
use vstd::hash_map::StringHashMap;
use vstd::prelude::*;
use vstd::string::StringExecFns;

verus! {

/// Why the risk manager refused.
#[derive(Clone, Copy, Debug, PartialEq, Eq, Structural)]
pub enum RiskViolation {
    KillSwitchEngaged,
    InvalidQuantity,
    NoLegs,
    InvalidLegPrice { price: i128 },
    BalanceUninitialized,
    BalanceBelowMinimum { balance: i128, minimum: i128 },
    DrawdownBreached { drawdown: i128, maximum: i128 },
    NegativeDebit,
    ProjectedBalanceBelowMinimum { balance: i128, debit: i128, projected: i128, minimum: i128 },
    TooManyAttempts,
    OrderRateLimit { current: i128, adding: i128, maximum: i128 },
    EventExposure { current: i128, trade_risk: i128, maximum: i128 },
    TotalExposure { current: i128, trade_risk: i128, maximum: i128 },
    CriticalFailures { threshold: i128 },
}

/// The human reason that goes with a violation.
pub open spec fn violation_text(v: RiskViolation) -> Seq<char> {
    match v {
        RiskViolation::KillSwitchEngaged => "Kill switch engaged; refusing new orders"@,
        RiskViolation::InvalidQuantity => "Invalid quantity; must be positive"@,
        RiskViolation::NoLegs => "Invalid opportunity with zero legs"@,
        RiskViolation::InvalidLegPrice { price } => "Invalid leg price; must be from 1 to 99 cents: "@
            + decimal(price as int),
        RiskViolation::BalanceUninitialized => "Account balance has not been initialized; refusing live execution"@,
        RiskViolation::BalanceBelowMinimum { balance, minimum } => "Balance below minimum: "@
            + decimal(balance as int) + " < "@ + decimal(minimum as int),
        RiskViolation::DrawdownBreached { drawdown, maximum } => "Daily drawdown limit breached: "@
            + decimal(drawdown as int) + " > "@ + decimal(maximum as int),
        RiskViolation::NegativeDebit => "Estimated entry debit cannot be negative"@,
        RiskViolation::ProjectedBalanceBelowMinimum { balance, debit, projected, minimum } =>
            "Projected balance below minimum after trade: "@ + decimal(balance as int) + " - "@
                + decimal(debit as int) + " = "@ + decimal(projected as int) + " < "@ + decimal(
                minimum as int,
            ),
        RiskViolation::TooManyAttempts => "Too many attempts per minute"@,
        RiskViolation::OrderRateLimit { current, adding, maximum } => "Order rate limit: "@
            + decimal(current as int) + " + "@ + decimal(adding as int) + " > "@ + decimal(
            maximum as int,
        ) + " orders/min"@,
        RiskViolation::EventExposure { current, trade_risk, maximum } => "Event exposure limit: "@
            + decimal(current as int) + " + "@ + decimal(trade_risk as int) + " > "@ + decimal(
            maximum as int,
        ),
        RiskViolation::TotalExposure { current, trade_risk, maximum } => "Total exposure limit: "@
            + decimal(current as int) + " + "@ + decimal(trade_risk as int) + " > "@ + decimal(
            maximum as int,
        ),
        RiskViolation::CriticalFailures { threshold } => "Kill switch engaged after "@ + decimal(
            threshold as int,
        ) + " consecutive critical failures"@,
    }
}

impl RiskViolation {
    /// The human reason, as text.
    pub fn message(&self) -> (s: String)
        ensures
            s@ == violation_text(*self),
    {
        match *self {
            RiskViolation::KillSwitchEngaged => String::from_str(
                "Kill switch engaged; refusing new orders",
            ),
            RiskViolation::InvalidQuantity => String::from_str("Invalid quantity; must be positive"),
            RiskViolation::NoLegs => String::from_str("Invalid opportunity with zero legs"),
            RiskViolation::InvalidLegPrice { price } => {
                let mut s = String::from_str("Invalid leg price; must be from 1 to 99 cents: ");
                push_decimal(&mut s, price);
                s
            },
            RiskViolation::BalanceUninitialized => String::from_str(
                "Account balance has not been initialized; refusing live execution",
            ),
            RiskViolation::BalanceBelowMinimum { balance, minimum } => {
                let mut s = String::from_str("Balance below minimum: ");
                push_decimal(&mut s, balance);
                push_text(&mut s, " < ");
                push_decimal(&mut s, minimum);
                s
            },
            RiskViolation::DrawdownBreached { drawdown, maximum } => {
                let mut s = String::from_str("Daily drawdown limit breached: ");
                push_decimal(&mut s, drawdown);
                push_text(&mut s, " > ");
                push_decimal(&mut s, maximum);
                s
            },
            RiskViolation::NegativeDebit => String::from_str(
                "Estimated entry debit cannot be negative",
            ),
            RiskViolation::ProjectedBalanceBelowMinimum { balance, debit, projected, minimum } => {
                let mut s = String::from_str("Projected balance below minimum after trade: ");
                push_decimal(&mut s, balance);
                push_text(&mut s, " - ");
                push_decimal(&mut s, debit);
                push_text(&mut s, " = ");
                push_decimal(&mut s, projected);
                push_text(&mut s, " < ");
                push_decimal(&mut s, minimum);
                s
            },
            RiskViolation::TooManyAttempts => String::from_str("Too many attempts per minute"),
            RiskViolation::OrderRateLimit { current, adding, maximum } => {
                let mut s = String::from_str("Order rate limit: ");
                push_decimal(&mut s, current);
                push_text(&mut s, " + ");
                push_decimal(&mut s, adding);
                push_text(&mut s, " > ");
                push_decimal(&mut s, maximum);
                push_text(&mut s, " orders/min");
                s
            },
            RiskViolation::EventExposure { current, trade_risk, maximum } => {
                let mut s = String::from_str("Event exposure limit: ");
                push_decimal(&mut s, current);
                push_text(&mut s, " + ");
                push_decimal(&mut s, trade_risk);
                push_text(&mut s, " > ");
                push_decimal(&mut s, maximum);
                s
            },
            RiskViolation::TotalExposure { current, trade_risk, maximum } => {
                let mut s = String::from_str("Total exposure limit: ");
                push_decimal(&mut s, current);
                push_text(&mut s, " + ");
                push_decimal(&mut s, trade_risk);
                push_text(&mut s, " > ");
                push_decimal(&mut s, maximum);
                s
            },
            RiskViolation::CriticalFailures { threshold } => {
                let mut s = String::from_str("Kill switch engaged after ");
                push_decimal(&mut s, threshold);
                push_text(&mut s, " consecutive critical failures");
                s
            },
        }
    }

    /// The violation as an error of the crate.
    pub fn into_error(self) -> (e: Error)
        ensures
            refusal(e, self),
    {
        Error::RiskViolation(self.message())
    }
}

/// `e` is the risk error that carries the reason of `v`.
pub open spec fn refusal(e: Error, v: RiskViolation) -> bool {
    e matches Error::RiskViolation(m) && m@ == violation_text(v)
}

/// The state of the risk manager as a mathematical value.
pub struct RiskModel {
    pub config: ArbRiskConfig,
    /// Exposure recorded per event, in cents.
    pub event_exposure: Map<Seq<char>, i64>,
    /// Exposure recorded over all events, in cents.
    pub total_exposure: int,
    /// Stamps of the approved attempts of each group, oldest first.
    pub attempts: Map<Seq<char>, Seq<u64>>,
    /// Stamps of every order approved, one per leg, oldest first.
    pub orders: Seq<u64>,
    pub starting_balance: Option<i64>,
    pub latest_balance: Option<i64>,
    pub critical_failures: int,
    pub kill_switch: bool,
}

/// What holds of every state the manager can reach.
pub open spec fn risk_invariant(m: RiskModel) -> bool {
    &&& m.orders.len() <= m.config.max_orders_per_minute
    &&& forall|g: Seq<char>| #[trigger]
        m.attempts.contains_key(g) ==> m.attempts[g].len() <= m.config.max_attempts_per_group_per_min
    &&& 0 <= m.total_exposure <= i64::MAX
    &&& forall|g: Seq<char>| #[trigger]
        m.event_exposure.contains_key(g) ==> 0 <= m.event_exposure[g] <= m.total_exposure
    &&& 0 <= m.critical_failures <= u32::MAX
    &&& (m.latest_balance is None ==> m.starting_balance is None)
}

/// The balance guard: a snapshot must exist, stand at or above the
/// minimum, and show a drawdown from the starting balance within the
/// daily limit.
pub open spec fn balance_violation(m: RiskModel) -> Option<RiskViolation> {
    match m.latest_balance {
        None => Some(RiskViolation::BalanceUninitialized),
        Some(balance) => {
            if balance < m.config.min_balance_cents {
                Some(
                    RiskViolation::BalanceBelowMinimum {
                        balance: balance as i128,
                        minimum: m.config.min_balance_cents as i128,
                    },
                )
            } else {
                match m.starting_balance {
                    Some(start) => {
                        if drawdown(start as int, balance as int)
                            > m.config.max_daily_loss_cents {
                            Some(
                                RiskViolation::DrawdownBreached {
                                    drawdown: drawdown(start as int, balance as int) as i128,
                                    maximum: m.config.max_daily_loss_cents as i128,
                                },
                            )
                        } else {
                            None
                        }
                    },
                    None => None,
                }
            }
        },
    }
}

/// Loss from the starting balance, never negative.
pub open spec fn drawdown(start: int, balance: int) -> int {
    if start - balance > 0 {
        start - balance
    } else {
        0
    }
}

/// The state after a balance snapshot: the first snapshot also fixes the
/// starting balance, and a breach of the balance guard engages the kill
/// switch.
pub open spec fn after_balance(m: RiskModel, balance: i64) -> RiskModel {
    let seen = RiskModel {
        starting_balance: if m.starting_balance is None {
            Some(balance)
        } else {
            m.starting_balance
        },
        latest_balance: Some(balance),
        ..m
    };
    RiskModel { kill_switch: m.kill_switch || balance_violation(seen) is Some, ..seen }
}

/// The number of failures at which the kill switch engages: at least one.
pub open spec fn failure_threshold(config: ArbRiskConfig) -> int {
    if config.kill_switch_disconnect_count < 1 {
        1
    } else {
        config.kill_switch_disconnect_count as int
    }
}

/// The failure count after one more failure, held to `u32`.
pub open spec fn failures_after(count: int) -> int {
    if count >= u32::MAX {
        u32::MAX as int
    } else {
        count + 1
    }
}

/// Exposure that a trade of `qty` sets adds: the full payout per set.
pub open spec fn trade_risk(qty: int) -> int {
    100 * qty
}

/// The stamps of a group's attempts, empty when the group is unknown.
pub open spec fn attempts_of(m: RiskModel, group: Seq<char>) -> Seq<u64> {
    if m.attempts.contains_key(group) {
        m.attempts[group]
    } else {
        Seq::empty()
    }
}

/// The exposure recorded for an event, zero when the event is unknown.
pub open spec fn exposure_of(m: RiskModel, event: Seq<char>) -> int {
    if m.event_exposure.contains_key(event) {
        m.event_exposure[event] as int
    } else {
        0
    }
}

/// The price of the first leg whose price cannot stand on an order, if
/// there is such a leg.
pub open spec fn first_bad_price(legs: Seq<LegModel>) -> Option<int>
    decreases legs.len(),
{
    if legs.len() == 0 {
        None
    } else if !valid_order_price(legs[0].price_cents) {
        Some(legs[0].price_cents)
    } else {
        first_bad_price(legs.drop_first())
    }
}

/// There is a first bad price exactly when some leg has a price outside
/// 1 to 99 cents.
pub proof fn lemma_first_bad_price(legs: Seq<LegModel>)
    ensures
        first_bad_price(legs) is None <==> forall|i: int|
            0 <= i < legs.len() ==> valid_order_price((#[trigger] legs[i]).price_cents),
        first_bad_price(legs) matches Some(p) ==> !valid_order_price(p),
    decreases legs.len(),
{
    if legs.len() > 0 {
        let rest = legs.drop_first();
        lemma_first_bad_price(rest);
        if valid_order_price(legs[0].price_cents) {
            if first_bad_price(rest) is None {
                assert forall|i: int| 0 <= i < legs.len() implies valid_order_price(
                    (#[trigger] legs[i]).price_cents,
                ) by {
                    if i > 0 {
                        assert(legs[i] == rest[i - 1]);
                    }
                }
            } else {
                let j = choose|j: int| 0 <= j < rest.len() && !valid_order_price(
                    (#[trigger] rest[j]).price_cents,
                );
                assert(legs[j + 1] == rest[j]);
            }
        }
    }
}

/// The checks that look at no rolling window: kill switch, sanity of
/// quantity, legs and leg prices, balance guard, and the balance that
/// would be left after the trade.
pub open spec fn static_violation(m: RiskModel, opp: OpportunityModel, debit: int) -> Option<
    RiskViolation,
> {
    if m.kill_switch {
        Some(RiskViolation::KillSwitchEngaged)
    } else if opp.qty <= 0 {
        Some(RiskViolation::InvalidQuantity)
    } else if opp.legs.len() == 0 {
        Some(RiskViolation::NoLegs)
    } else if first_bad_price(opp.legs) is Some {
        Some(RiskViolation::InvalidLegPrice { price: first_bad_price(opp.legs)->0 as i128 })
    } else if balance_violation(m) is Some {
        balance_violation(m)
    } else if debit < 0 {
        Some(RiskViolation::NegativeDebit)
    } else if debit > 0 && m.latest_balance->0 - debit < m.config.min_balance_cents {
        Some(
            RiskViolation::ProjectedBalanceBelowMinimum {
                balance: m.latest_balance->0 as i128,
                debit: debit as i128,
                projected: (m.latest_balance->0 - debit) as i128,
                minimum: m.config.min_balance_cents as i128,
            },
        )
    } else {
        None
    }
}

/// The verdict of the pre-trade check at time `now`: the first check that
/// fails, in order, or `None` when the trade may go ahead.
pub open spec fn check_violation(m: RiskModel, opp: OpportunityModel, debit: int, now: u64) -> Option<
    RiskViolation,
> {
    let group = opp.group_event_ticker;
    let attempts = pruned(attempts_of(m, group), now);
    let orders = pruned(m.orders, now);
    if static_violation(m, opp, debit) is Some {
        static_violation(m, opp, debit)
    } else if attempts.len() >= m.config.max_attempts_per_group_per_min {
        Some(RiskViolation::TooManyAttempts)
    } else if orders.len() + opp.legs.len() > m.config.max_orders_per_minute {
        Some(
            RiskViolation::OrderRateLimit {
                current: orders.len() as i128,
                adding: opp.legs.len() as i128,
                maximum: m.config.max_orders_per_minute as i128,
            },
        )
    } else if exposure_of(m, group) + trade_risk(opp.qty) > m.config.max_exposure_per_event_cents {
        Some(
            RiskViolation::EventExposure {
                current: exposure_of(m, group) as i128,
                trade_risk: trade_risk(opp.qty) as i128,
                maximum: m.config.max_exposure_per_event_cents as i128,
            },
        )
    } else if m.total_exposure + trade_risk(opp.qty) > m.config.max_total_exposure_cents {
        Some(
            RiskViolation::TotalExposure {
                current: m.total_exposure as i128,
                trade_risk: trade_risk(opp.qty) as i128,
                maximum: m.config.max_total_exposure_cents as i128,
            },
        )
    } else {
        None
    }
}

/// `count` copies of `stamp`.
pub open spec fn repeated(stamp: u64, count: nat) -> Seq<u64> {
    Seq::new(count, |i: int| stamp)
}

/// The state after the pre-trade check at time `now`. A refusal by a static
/// check changes nothing. Otherwise the windows that were looked at are
/// pruned, and an approval stamps one attempt for the group and one order
/// per leg.
pub open spec fn after_check(m: RiskModel, opp: OpportunityModel, debit: int, now: u64) -> RiskModel {
    let group = opp.group_event_ticker;
    let attempts = pruned(attempts_of(m, group), now);
    let orders = pruned(m.orders, now);
    if static_violation(m, opp, debit) is Some {
        m
    } else if attempts.len() >= m.config.max_attempts_per_group_per_min {
        RiskModel { attempts: m.attempts.insert(group, attempts), ..m }
    } else if check_violation(m, opp, debit, now) is Some {
        RiskModel { attempts: m.attempts.insert(group, attempts), orders: orders, ..m }
    } else {
        RiskModel {
            attempts: m.attempts.insert(group, attempts.push(now)),
            orders: orders + repeated(now, opp.legs.len()),
            ..m
        }
    }
}

/// The state after an execution is recorded: the trade's risk is added to
/// its event and to the total.
pub open spec fn after_execution(m: RiskModel, opp: OpportunityModel) -> RiskModel {
    RiskModel {
        event_exposure: m.event_exposure.insert(
            opp.group_event_ticker,
            (exposure_of(m, opp.group_event_ticker) + trade_risk(opp.qty)) as i64,
        ),
        total_exposure: m.total_exposure + trade_risk(opp.qty),
        ..m
    }
}

/// The number of stamps in `orders` that lie within the window at `now`.
pub open spec fn orders_in_window(orders: Seq<u64>, now: u64) -> nat
    decreases orders.len(),
{
    if orders.len() == 0 {
        0
    } else {
        orders_in_window(orders.drop_last(), now) + if expired(orders.last(), now) {
            0nat
        } else {
            1nat
        }
    }
}

/// A window holds no more fresh stamps than it holds stamps.
pub proof fn lemma_window_bounded(orders: Seq<u64>, now: u64)
    ensures
        orders_in_window(orders, now) <= orders.len(),
    decreases orders.len(),
{
    if orders.len() > 0 {
        lemma_window_bounded(orders.drop_last(), now);
    }
}

/// In every state the manager can reach, and at every moment, the orders
/// approved within the last minute number at most `max_orders_per_minute`.
pub proof fn lemma_order_rate_bounded(m: RiskModel, now: u64)
    requires
        risk_invariant(m),
    ensures
        orders_in_window(m.orders, now) <= m.config.max_orders_per_minute,
{
    lemma_window_bounded(m.orders, now);
}

/// A trade with a leg priced outside 1 to 99 cents is refused, and the
/// refusal records neither an attempt nor an order.
pub proof fn lemma_bad_leg_price_refused(m: RiskModel, opp: OpportunityModel, debit: int, now: u64)
    requires
        exists|i: int| 0 <= i < opp.legs.len() && !valid_order_price((#[trigger] opp.legs[i]).price_cents),
    ensures
        check_violation(m, opp, debit, now) is Some,
        after_check(m, opp, debit, now) == m,
        first_bad_price(opp.legs) is Some,
        !valid_order_price(first_bad_price(opp.legs)->0),
        !m.kill_switch && opp.qty > 0 ==> check_violation(m, opp, debit, now) == Some(
            RiskViolation::InvalidLegPrice { price: first_bad_price(opp.legs)->0 as i128 },
        ),
{
    lemma_first_bad_price(opp.legs);
}

/// Once the kill switch is engaged every check is refused, whatever the
/// trade and the time, and the state stays as it is.
pub proof fn lemma_kill_switch_rejects(m: RiskModel, opp: OpportunityModel, debit: int, now: u64)
    requires
        m.kill_switch,
    ensures
        check_violation(m, opp, debit, now) == Some(RiskViolation::KillSwitchEngaged),
        after_check(m, opp, debit, now) == m,
{
}

/// The kill switch is sticky: no balance snapshot, check, failure or
/// recorded execution releases it.
pub proof fn lemma_kill_switch_sticky(
    m: RiskModel,
    opp: OpportunityModel,
    debit: int,
    now: u64,
    balance: i64,
)
    requires
        m.kill_switch,
    ensures
        after_balance(m, balance).kill_switch,
        after_check(m, opp, debit, now).kill_switch,
        after_execution(m, opp).kill_switch,
{
}

/// Enforces exposure limits and rate limits before an order goes out.
pub struct ArbRiskManager {
    config: ArbRiskConfig,
    event_exposure: StringHashMap<i64>,
    total_exposure: i64,
    attempt_history: StringHashMap<VecDeque<u64>>,
    order_history: VecDeque<u64>,
    starting_balance_cents: Option<i64>,
    latest_balance_cents: Option<i64>,
    consecutive_critical_failures: u32,
    kill_switch_engaged: bool,
    clock: MonoClock,
}

impl View for ArbRiskManager {
    type V = RiskModel;

    closed spec fn view(&self) -> RiskModel {
        RiskModel {
            config: self.config,
            event_exposure: self.event_exposure@,
            total_exposure: self.total_exposure as int,
            attempts: self.attempt_history@.map_values(|d: VecDeque<u64>| d@),
            orders: self.order_history@,
            starting_balance: self.starting_balance_cents,
            latest_balance: self.latest_balance_cents,
            critical_failures: self.consecutive_critical_failures as int,
            kill_switch: self.kill_switch_engaged,
        }
    }
}

/// Drops expired stamps from the front of `history`.
fn prune_window(history: &mut VecDeque<u64>, now: u64)
    ensures
        final(history)@ == pruned(old(history)@, now),
{
    while history.len() > 0 && is_expired(history[0], now)
        invariant
            pruned(history@, now) == pruned(old(history)@, now),
        decreases history.len(),
    {
        let ghost before = history@;
        let _ = history.pop_front();
        assert(history@ =~= before.drop_first());
    }
}

/// A copy of `window`.
fn copy_window(window: &VecDeque<u64>) -> (copy: VecDeque<u64>)
    ensures
        copy@ == window@,
{
    let mut copy: VecDeque<u64> = VecDeque::new();
    let mut i: usize = 0;
    while i < window.len()
        invariant
            i <= window.len(),
            copy@ == window@.take(i as int),
        decreases window.len() - i,
    {
        copy.push_back(window[i]);
        assert(window@.take(i + 1) =~= window@.take(i as int).push(window@[i as int]));
        i += 1;
    }
    assert(window@.take(window@.len() as int) =~= window@);
    copy
}

/// What `check` promises when the clock read `now`.
pub open spec fn checked_at(
    before: RiskModel,
    opp: OpportunityModel,
    debit: int,
    now: u64,
    after: RiskModel,
    result: Result<(), Error>,
) -> bool {
    &&& after == after_check(before, opp, debit, now)
    &&& match result {
        Ok(()) => check_violation(before, opp, debit, now) is None,
        Err(e) => check_violation(before, opp, debit, now) is Some && refusal(
            e,
            check_violation(before, opp, debit, now)->0,
        ),
    }
}

/// The price of the first leg of `opp` whose price cannot stand on an
/// order.
pub fn bad_leg_price(opp: &ArbOpportunity) -> (r: Option<i64>)
    ensures
        match r {
            Some(p) => first_bad_price(opp@.legs) == Some(p as int),
            None => first_bad_price(opp@.legs) is None,
        },
{
    let ghost legs = opp@.legs;
    let mut i: usize = 0;
    assert(legs.skip(0) =~= legs);
    while i < opp.legs.len()
        invariant
            i <= opp.legs.len(),
            legs == opp@.legs,
            legs.len() == opp.legs@.len(),
            first_bad_price(legs) == first_bad_price(legs.skip(i as int)),
        decreases opp.legs.len() - i,
    {
        let price = opp.legs[i].price_cents;
        proof {
            let rest = legs.skip(i as int);
            assert(rest[0] == legs[i as int]);
            assert(legs[i as int] == opp.legs@[i as int]@);
            assert(rest.drop_first() =~= legs.skip(i + 1));
        }
        if price < 1 || price > 99 {
            return Some(price);
        }
        i += 1;
    }
    None
}

impl ArbRiskManager {
    /// The invariant of the manager's state.
    pub open spec fn wf(&self) -> bool {
        risk_invariant(self@)
    }

    /// A manager with no history, no balance snapshot and the kill switch
    /// released.
    pub fn new(config: ArbRiskConfig) -> (r: ArbRiskManager)
        ensures
            r.wf(),
            r@ == (RiskModel {
                config: config,
                event_exposure: Map::empty(),
                total_exposure: 0,
                attempts: Map::empty(),
                orders: Seq::empty(),
                starting_balance: None,
                latest_balance: None,
                critical_failures: 0,
                kill_switch: false,
            }),
    {
        let r = ArbRiskManager {
            config,
            event_exposure: StringHashMap::new(),
            total_exposure: 0,
            attempt_history: StringHashMap::new(),
            order_history: VecDeque::new(),
            starting_balance_cents: None,
            latest_balance_cents: None,
            consecutive_critical_failures: 0,
            kill_switch_engaged: false,
            clock: MonoClock::start(),
        };
        assert(r.attempt_history@.map_values(|d: VecDeque<u64>| d@) =~= Map::<
            Seq<char>,
            Seq<u64>,
        >::empty());
        r
    }

    fn check_balance_limits(&self) -> (r: Result<(), RiskViolation>)
        ensures
            match r {
                Ok(()) => balance_violation(self@) is None,
                Err(v) => balance_violation(self@) == Some(v),
            },
    {
        match self.latest_balance_cents {
            None => Err(RiskViolation::BalanceUninitialized),
            Some(balance) => {
                if balance < self.config.min_balance_cents {
                    return Err(
                        RiskViolation::BalanceBelowMinimum {
                            balance: balance as i128,
                            minimum: self.config.min_balance_cents as i128,
                        },
                    );
                }
                match self.starting_balance_cents {
                    Some(start) => {
                        let loss: i128 = start as i128 - balance as i128;
                        let drop: i128 = if loss > 0 {
                            loss
                        } else {
                            0
                        };
                        if drop > self.config.max_daily_loss_cents as i128 {
                            Err(
                                RiskViolation::DrawdownBreached {
                                    drawdown: drop,
                                    maximum: self.config.max_daily_loss_cents as i128,
                                },
                            )
                        } else {
                            Ok(())
                        }
                    },
                    None => Ok(()),
                }
            },
        }
    }

    /// Takes a balance snapshot. The first one fixes the starting balance.
    /// A snapshot that breaches the balance guard engages the kill switch
    /// and is refused.
    pub fn update_balance(&mut self, balance_cents: i64) -> (r: Result<(), Error>)
        requires
            old(self).wf(),
        ensures
            final(self).wf(),
            final(self)@ == after_balance(old(self)@, balance_cents),
            match r {
                Ok(()) => balance_violation(final(self)@) is None,
                Err(e) => balance_violation(final(self)@) is Some && refusal(
                    e,
                    balance_violation(final(self)@)->0,
                ) && final(self)@.kill_switch,
            },
    {
        if self.starting_balance_cents.is_none() {
            self.starting_balance_cents = Some(balance_cents);
        }
        self.latest_balance_cents = Some(balance_cents);
        match self.check_balance_limits() {
            Ok(()) => Ok(()),
            Err(v) => {
                self.kill_switch_engaged = true;
                Err(v.into_error())
            },
        }
    }

    /// Counts one more critical failure. On reaching the threshold the kill
    /// switch engages and the call is refused.
    pub fn record_critical_failure(&mut self, reason: &str) -> (r: Result<(), Error>)
        requires
            old(self).wf(),
        ensures
            final(self).wf(),
            final(self)@ == (RiskModel {
                critical_failures: failures_after(old(self)@.critical_failures),
                kill_switch: old(self)@.kill_switch || failures_after(old(self)@.critical_failures)
                    >= failure_threshold(old(self)@.config),
                ..old(self)@
            }),
            r is Ok <==> failures_after(old(self)@.critical_failures) < failure_threshold(
                old(self)@.config,
            ),
            r matches Err(e) ==> refusal(
                e,
                RiskViolation::CriticalFailures {
                    threshold: failure_threshold(old(self)@.config) as i128,
                },
            ),
    {
        if self.consecutive_critical_failures < u32::MAX {
            self.consecutive_critical_failures = self.consecutive_critical_failures + 1;
        }
        let threshold: u32 = if self.config.kill_switch_disconnect_count < 1 {
            1
        } else {
            self.config.kill_switch_disconnect_count
        };
        if self.consecutive_critical_failures >= threshold {
            self.kill_switch_engaged = true;
            return Err(RiskViolation::CriticalFailures { threshold: threshold as i128 }.into_error());
        }
        Ok(())
    }

    /// Forgets the failures counted so far. The kill switch stays as it is.
    pub fn clear_critical_failures(&mut self)
        requires
            old(self).wf(),
        ensures
            final(self).wf(),
            final(self)@ == (RiskModel { critical_failures: 0, ..old(self)@ }),
    {
        self.consecutive_critical_failures = 0;
    }

    /// Whether the kill switch is engaged.
    pub fn kill_switch_engaged(&self) -> (engaged: bool)
        ensures
            engaged == self@.kill_switch,
    {
        self.kill_switch_engaged
    }

    /// Milliseconds on the manager's own clock, for callers that stamp
    /// checks themselves.
    pub fn now_ms(&self) -> u64 {
        self.clock.now_ms()
    }

    /// The pre-trade check at the present moment of the manager's clock.
    ///
    /// `estimated_entry_debit_cents` is a conservative estimate of the cash
    /// spent on entry.
    pub fn check(&mut self, opp: &ArbOpportunity, estimated_entry_debit_cents: i64) -> (r: Result<
        (),
        Error,
    >)
        requires
            old(self).wf(),
        ensures
            final(self).wf(),
            exists|now: u64|
                checked_at(
                    old(self)@,
                    opp@,
                    estimated_entry_debit_cents as int,
                    now,
                    final(self)@,
                    r,
                ),
    {
        let now = self.clock.now_ms();
        let r = self.check_at(opp, estimated_entry_debit_cents, now);
        assert(checked_at(old(self)@, opp@, estimated_entry_debit_cents as int, now, self@, r));
        r
    }

    /// The pre-trade check at time `now_ms`. The checks run in a fixed
    /// order and the first that fails gives the refusal.
    pub fn check_at(
        &mut self,
        opp: &ArbOpportunity,
        estimated_entry_debit_cents: i64,
        now_ms: u64,
    ) -> (r: Result<(), Error>)
        requires
            old(self).wf(),
        ensures
            final(self).wf(),
            checked_at(
                old(self)@,
                opp@,
                estimated_entry_debit_cents as int,
                now_ms,
                final(self)@,
                r,
            ),
            r is Ok ==> final(self)@.orders.len() <= final(self)@.config.max_orders_per_minute,
    {
        let debit = estimated_entry_debit_cents;
        if self.kill_switch_engaged {
            return Err(RiskViolation::KillSwitchEngaged.into_error());
        }
        if opp.qty <= 0 {
            return Err(RiskViolation::InvalidQuantity.into_error());
        }
        if opp.legs.len() == 0 {
            return Err(RiskViolation::NoLegs.into_error());
        }
        match bad_leg_price(opp) {
            Some(price) => {
                return Err(RiskViolation::InvalidLegPrice { price: price as i128 }.into_error());
            },
            None => {},
        }
        match self.check_balance_limits() {
            Ok(()) => {},
            Err(v) => {
                return Err(v.into_error());
            },
        }
        let balance: i64 = match self.latest_balance_cents {
            Some(b) => b,
            None => {
                return Err(RiskViolation::BalanceUninitialized.into_error());
            },
        };
        if debit < 0 {
            return Err(RiskViolation::NegativeDebit.into_error());
        }
        if debit > 0 {
            let projected: i128 = balance as i128 - debit as i128;
            if projected < self.config.min_balance_cents as i128 {
                return Err(
                    RiskViolation::ProjectedBalanceBelowMinimum {
                        balance: balance as i128,
                        debit: debit as i128,
                        projected,
                        minimum: self.config.min_balance_cents as i128,
                    }.into_error(),
                );
            }
        }
        assert(static_violation(old(self)@, opp@, debit as int) is None);

        let ghost group = opp@.group_event_ticker;
        let mut history: VecDeque<u64> = match self.attempt_history.get(
            opp.group_event_ticker.as_str(),
        ) {
            Some(h) => copy_window(h),
            None => VecDeque::new(),
        };
        assert(history@ == attempts_of(old(self)@, group));
        prune_window(&mut history, now_ms);
        proof {
            lemma_pruned_len(attempts_of(old(self)@, group), now_ms);
            lemma_pruned_len(old(self)@.orders, now_ms);
        }
        if history.len() >= self.config.max_attempts_per_group_per_min as usize {
            self.attempt_history.insert(opp.group_event_ticker.clone(), history);
            proof {
                self.lemma_attempts_inserted(old(self), group, history@);
            }
            return Err(RiskViolation::TooManyAttempts.into_error());
        }
        prune_window(&mut self.order_history, now_ms);
        let current_orders: usize = self.order_history.len();
        let legs: usize = opp.legs.len();
        if current_orders as u128 + legs as u128 > self.config.max_orders_per_minute as u128 {
            self.attempt_history.insert(opp.group_event_ticker.clone(), history);
            proof {
                self.lemma_attempts_inserted(old(self), group, history@);
            }
            return Err(
                RiskViolation::OrderRateLimit {
                    current: current_orders as i128,
                    adding: legs as i128,
                    maximum: self.config.max_orders_per_minute as i128,
                }.into_error(),
            );
        }
        let current_event: i64 = match self.event_exposure.get(opp.group_event_ticker.as_str()) {
            Some(e) => *e,
            None => 0,
        };
        let risk: i128 = 100 * (opp.qty as i128);
        if current_event as i128 + risk > self.config.max_exposure_per_event_cents as i128 {
            self.attempt_history.insert(opp.group_event_ticker.clone(), history);
            proof {
                self.lemma_attempts_inserted(old(self), group, history@);
            }
            return Err(
                RiskViolation::EventExposure {
                    current: current_event as i128,
                    trade_risk: risk,
                    maximum: self.config.max_exposure_per_event_cents as i128,
                }.into_error(),
            );
        }
        if self.total_exposure as i128 + risk > self.config.max_total_exposure_cents as i128 {
            self.attempt_history.insert(opp.group_event_ticker.clone(), history);
            proof {
                self.lemma_attempts_inserted(old(self), group, history@);
            }
            return Err(
                RiskViolation::TotalExposure {
                    current: self.total_exposure as i128,
                    trade_risk: risk,
                    maximum: self.config.max_total_exposure_cents as i128,
                }.into_error(),
            );
        }
        history.push_back(now_ms);
        self.attempt_history.insert(opp.group_event_ticker.clone(), history);
        proof {
            self.lemma_attempts_inserted(old(self), group, history@);
        }
        let ghost pruned_orders = self.order_history@;
        let mut i: usize = 0;
        while i < legs
            invariant
                i <= legs,
                self.order_history@ == pruned_orders + repeated(now_ms, i as nat),
                self.config == old(self).config,
                self.event_exposure == old(self).event_exposure,
                self.total_exposure == old(self).total_exposure,
                self.starting_balance_cents == old(self).starting_balance_cents,
                self.latest_balance_cents == old(self).latest_balance_cents,
                self.consecutive_critical_failures == old(self).consecutive_critical_failures,
                self.kill_switch_engaged == old(self).kill_switch_engaged,
                self.attempt_history@.map_values(|d: VecDeque<u64>| d@) == old(
                    self,
                ).attempt_history@.map_values(|d: VecDeque<u64>| d@).insert(group, history@),
            decreases legs - i,
        {
            self.order_history.push_back(now_ms);
            assert(self.order_history@ =~= pruned_orders + repeated(now_ms, (i + 1) as nat));
            i += 1;
        }
        Ok(())
    }

    proof fn lemma_attempts_inserted(&self, before: &ArbRiskManager, group: Seq<char>, window: Seq<u64>)
        requires
            exists|d: VecDeque<u64>|
                d@ == window && self.attempt_history@ == #[trigger] before.attempt_history@.insert(
                    group,
                    d,
                ),
        ensures
            self.attempt_history@.map_values(|d: VecDeque<u64>| d@)
                == before.attempt_history@.map_values(|d: VecDeque<u64>| d@).insert(group, window),
    {
        assert(self.attempt_history@.map_values(|d: VecDeque<u64>| d@)
            =~= before.attempt_history@.map_values(|d: VecDeque<u64>| d@).insert(group, window));
    }

    /// Whether `record_execution` can take `opp`: the quantity is positive
    /// and the exposure it adds fits the counters.
    pub open spec fn can_record(&self, opp: OpportunityModel) -> bool {
        &&& opp.qty > 0
        &&& self@.total_exposure + trade_risk(opp.qty) <= i64::MAX
    }

    /// Whether `record_execution` can take `opp`.
    pub fn recordable(&self, opp: &ArbOpportunity) -> (ok: bool)
        ensures
            ok == self.can_record(opp@),
    {
        opp.qty > 0 && self.total_exposure as i128 + 100 * (opp.qty as i128) <= i64::MAX as i128
    }

    /// Records an execution: its risk is added to its event and to the
    /// total.
    pub fn record_execution(&mut self, opp: &ArbOpportunity)
        requires
            old(self).wf(),
            old(self).can_record(opp@),
        ensures
            final(self).wf(),
            final(self)@ == after_execution(old(self)@, opp@),
    {
        let current: i64 = match self.event_exposure.get(opp.group_event_ticker.as_str()) {
            Some(e) => *e,
            None => 0,
        };
        let risk: i64 = 100 * opp.qty;
        self.event_exposure.insert(opp.group_event_ticker.clone(), current + risk);
        self.total_exposure = self.total_exposure + risk;
    }

    /// Forgets all recorded exposure, as after a reconciliation of
    /// positions.
    pub fn reset_exposure(&mut self)
        requires
            old(self).wf(),
        ensures
            final(self).wf(),
            final(self)@ == (RiskModel {
                event_exposure: Map::empty(),
                total_exposure: 0,
                ..old(self)@
            }),
    {
        self.event_exposure.clear();
        self.total_exposure = 0;
    }
}

} // verus!
