//! Risk manager of the forecast strategy: position, exposure and
//! concentration limits, a drawdown breaker and an order throttle.

use crate::clock::MonoClock;
use crate::config::RiskConfig;
use crate::error::Error;
use crate::positions::{
    exposure_in, exposure_size, has_long_position, holds_long, magnitude, sum_exposure,
    ticker_exposure, total_exposure,
};
use crate::text::{before_char, decimal, prefix_before, push_decimal, push_text, to_uppercase, uppercase};
use crate::types::{intent_models, valid_order_price, Action, IntentModel, OrderIntent, Position};
use std::collections::VecDeque;
use vstd::prelude::*;
use vstd::string::StringExecFns;

verus! {

/// Why an order is refused.
pub enum OrderViolation {
    InvalidQuantity,
    InvalidPrice,
    SellWithoutPosition { ticker: Seq<char> },
    Drawdown { loss: int, max: int, start: int, now: int },
    InsufficientBalance { balance: int, cost: int, min: int },
    Throttle { recent: int, max: int },
    TotalExposure { current: int, cost: int, max: int },
    PositionLimit { ticker: Seq<char>, current: int, cost: int, max: int },
    CityConcentration { city: Seq<char>, exposure: int, max: int },
}

/// The human reason that goes with a refusal.
pub open spec fn order_violation_text(v: OrderViolation) -> Seq<char> {
    match v {
        OrderViolation::InvalidQuantity => "Invalid quantity; must be positive"@,
        OrderViolation::InvalidPrice => "Invalid price; must be in [1,99]"@,
        OrderViolation::SellWithoutPosition { ticker } => "Sell rejected for "@ + ticker
            + ": no position found"@,
        OrderViolation::Drawdown { loss, max, start, now } => "Drawdown circuit-breaker: loss="@
            + decimal(loss) + "¢ exceeds max="@ + decimal(max) + "¢ (start="@ + decimal(start)
            + "¢, now="@ + decimal(now) + "¢)"@,
        OrderViolation::InsufficientBalance { balance, cost, min } => "Insufficient balance: "@
            + decimal(balance) + "¢ - "@ + decimal(cost) + "¢ < min "@ + decimal(min) + "¢"@,
        OrderViolation::Throttle { recent, max } => "Order throttle: "@ + decimal(recent)
            + " orders in last 60s >= max "@ + decimal(max),
        OrderViolation::TotalExposure { current, cost, max } =>
            "Total exposure limit exceeded: current="@ + decimal(current) + "¢ + order="@
                + decimal(cost) + "¢ > max="@ + decimal(max) + "¢"@,
        OrderViolation::PositionLimit { ticker, current, cost, max } =>
            "Position limit exceeded for "@ + ticker + ": current="@ + decimal(current)
                + "¢ + order="@ + decimal(cost) + "¢ = "@ + decimal(current + cost) + "¢ > max="@
                + decimal(max) + "¢"@,
        OrderViolation::CityConcentration { city, exposure, max } =>
            "City concentration limit for '"@ + city + "': exposure="@ + decimal(exposure)
                + "¢ > max="@ + decimal(max) + "¢"@,
    }
}

/// The state of the risk manager as a mathematical value.
pub struct ManagerModel {
    pub config: RiskConfig,
    pub session_start_balance: Option<i64>,
    /// Stamps of the orders placed, oldest first.
    pub orders: Seq<u64>,
}

/// The stamp lies more than a minute before `now`.
pub open spec fn outdated(stamp: u64, now: u64) -> bool {
    now - stamp > 60_000
}

/// The stamps that lie within the last minute.
pub open spec fn recent_count(orders: Seq<u64>, now: u64) -> int
    decreases orders.len(),
{
    if orders.len() == 0 {
        0
    } else {
        recent_count(orders.drop_last(), now) + if outdated(orders.last(), now) {
            0int
        } else {
            1int
        }
    }
}

/// What is left of the stamps once outdated ones are dropped from the
/// front.
pub open spec fn without_outdated(orders: Seq<u64>, now: u64) -> Seq<u64>
    decreases orders.len(),
{
    if orders.len() > 0 && outdated(orders[0], now) {
        without_outdated(orders.drop_first(), now)
    } else {
        orders
    }
}

/// The prefix by which markets of one city are told: what stands before
/// the first dash of the ticker, in upper case.
pub open spec fn city_prefix(ticker: Seq<char>) -> Seq<char> {
    uppercase(before_char(ticker, '-'))
}

/// The exposure in the markets of the city with prefix `city`.
pub open spec fn city_exposure(positions: Seq<Position>, city: Seq<char>) -> int
    decreases positions.len(),
{
    if positions.len() == 0 {
        0
    } else {
        city_exposure(positions.drop_last(), city) + if city_prefix(positions.last().ticker@)
            == city {
            magnitude(positions.last().market_exposure as int)
        } else {
            0
        }
    }
}

/// What the order costs: price times count.
pub open spec fn order_cost(intent: IntentModel) -> int {
    intent.price_cents * intent.count
}

/// The first check of a purchase that fails, if any, in this order:
/// drawdown, balance left after the trade, order throttle, total
/// exposure, position limit, city concentration. The throttle counts the
/// orders placed within the last minute and the `pending` ones: those
/// approved in the same tick and not yet placed.
pub open spec fn buy_violation(
    m: ManagerModel,
    intent: IntentModel,
    positions: Seq<Position>,
    balance: int,
    now: u64,
    pending: int,
) -> Option<OrderViolation> {
    let cost = order_cost(intent);
    let current = ticker_exposure(positions, intent.ticker);
    let city = city_prefix(intent.ticker);
    if m.session_start_balance is Some && m.session_start_balance->0 - balance
        > m.config.max_daily_loss_cents {
        Some(
            OrderViolation::Drawdown {
                loss: m.session_start_balance->0 - balance,
                max: m.config.max_daily_loss_cents as int,
                start: m.session_start_balance->0 as int,
                now: balance,
            },
        )
    } else if balance - cost < m.config.min_balance_cents {
        Some(
            OrderViolation::InsufficientBalance {
                balance: balance,
                cost: cost,
                min: m.config.min_balance_cents as int,
            },
        )
    } else if recent_count(m.orders, now) + pending >= m.config.max_orders_per_minute {
        Some(
            OrderViolation::Throttle {
                recent: recent_count(m.orders, now) + pending,
                max: m.config.max_orders_per_minute as int,
            },
        )
    } else if total_exposure(positions) + cost > m.config.max_total_exposure_cents {
        Some(
            OrderViolation::TotalExposure {
                current: total_exposure(positions),
                cost: cost,
                max: m.config.max_total_exposure_cents as int,
            },
        )
    } else if current + cost > m.config.max_position_cents {
        Some(
            OrderViolation::PositionLimit {
                ticker: intent.ticker,
                current: current,
                cost: cost,
                max: m.config.max_position_cents as int,
            },
        )
    } else if city_exposure(positions, city) + cost > m.config.max_city_exposure_cents {
        Some(
            OrderViolation::CityConcentration {
                city: city,
                exposure: city_exposure(positions, city) + cost,
                max: m.config.max_city_exposure_cents as int,
            },
        )
    } else {
        None
    }
}

/// The verdict on an order while `pending` orders approved before it
/// wait to be placed: the first check that fails, or `None` when the
/// order may go out. Every order must ask for at least one contract at a
/// price from 1 to 99 cents. A sale needs a long position in its market
/// and nothing else; a purchase goes through the checks of
/// `buy_violation`.
pub open spec fn order_violation_after(
    m: ManagerModel,
    intent: IntentModel,
    positions: Seq<Position>,
    balance: int,
    now: u64,
    pending: int,
) -> Option<OrderViolation> {
    if intent.count <= 0 {
        Some(OrderViolation::InvalidQuantity)
    } else if !valid_order_price(intent.price_cents) {
        Some(OrderViolation::InvalidPrice)
    } else if intent.action == Action::Sell {
        if holds_long(positions, intent.ticker) {
            None
        } else {
            Some(OrderViolation::SellWithoutPosition { ticker: intent.ticker })
        }
    } else {
        buy_violation(m, intent, positions, balance, now, pending)
    }
}

/// The verdict on an order with no other order pending.
pub open spec fn order_violation(
    m: ManagerModel,
    intent: IntentModel,
    positions: Seq<Position>,
    balance: int,
    now: u64,
) -> Option<OrderViolation> {
    order_violation_after(m, intent, positions, balance, now, 0)
}

/// `r` is the answer to an order whose verdict is `verdict`.
pub open spec fn answers(r: Result<(), Error>, verdict: Option<OrderViolation>) -> bool {
    match r {
        Ok(()) => verdict is None,
        Err(e) => verdict is Some && (e matches Error::RiskViolation(m) && m@
            == order_violation_text(verdict->0)),
    }
}

/// The intents that pass, in order, and what the purchases among them
/// cost: each intent is checked against the balance less the cost of the
/// purchases approved before it, and with every intent approved before it
/// counted as an order of this minute.
pub open spec fn filtered(
    m: ManagerModel,
    intents: Seq<IntentModel>,
    positions: Seq<Position>,
    balance: int,
    now: u64,
) -> (Seq<IntentModel>, int)
    decreases intents.len(),
{
    if intents.len() == 0 {
        (Seq::empty(), 0)
    } else {
        let (kept, spent) = filtered(m, intents.drop_last(), positions, balance, now);
        let last = intents.last();
        if order_violation_after(m, last, positions, balance - spent, now, kept.len() as int)
            is None {
            (
                kept.push(last),
                spent + if last.action == Action::Buy {
                    order_cost(last)
                } else {
                    0
                },
            )
        } else {
            (kept, spent)
        }
    }
}

/// The purchases that one tick approves stay within the order throttle:
/// with the orders placed in the last minute and the intents approved
/// before it, each approved purchase is within `max_orders_per_minute`.
pub proof fn lemma_filtered_within_throttle(
    m: ManagerModel,
    intents: Seq<IntentModel>,
    positions: Seq<Position>,
    balance: int,
    now: u64,
)
    ensures
        forall|i: int|
            0 <= i < filtered(m, intents, positions, balance, now).0.len() && (#[trigger] filtered(
                m,
                intents,
                positions,
                balance,
                now,
            ).0[i]).action == Action::Buy ==> recent_count(m.orders, now) + i
                < m.config.max_orders_per_minute,
    decreases intents.len(),
{
    if intents.len() > 0 {
        lemma_filtered_within_throttle(m, intents.drop_last(), positions, balance, now);
    }
}

/// A sale in a market without a long position is refused.
pub proof fn lemma_sell_needs_position(
    m: ManagerModel,
    intent: IntentModel,
    positions: Seq<Position>,
    balance: int,
    now: u64,
)
    requires
        intent.action == Action::Sell,
        !holds_long(positions, intent.ticker),
    ensures
        order_violation(m, intent, positions, balance, now) is Some,
{
}

/// An order that passes has a price from 1 to 99 cents and asks for at
/// least one contract.
pub proof fn lemma_passed_order_valid(
    m: ManagerModel,
    intent: IntentModel,
    positions: Seq<Position>,
    balance: int,
    now: u64,
)
    requires
        order_violation(m, intent, positions, balance, now) is None,
    ensures
        valid_order_price(intent.price_cents),
        intent.count >= 1,
{
}

/// Validates order intents before they go out.
pub struct RiskManager {
    pub config: RiskConfig,
    session_start_balance: Option<i64>,
    order_timestamps: VecDeque<u64>,
    clock: MonoClock,
}

impl View for RiskManager {
    type V = ManagerModel;

    closed spec fn view(&self) -> ManagerModel {
        ManagerModel {
            config: self.config,
            session_start_balance: self.session_start_balance,
            orders: self.order_timestamps@,
        }
    }
}

/// The prefix by which markets of one city are told.
pub fn extract_city_prefix(ticker: &str) -> (prefix: String)
    ensures
        prefix@ == city_prefix(ticker@),
{
    let head = prefix_before(ticker, '-');
    to_uppercase(head.as_str())
}

fn refusal(message: String) -> (r: Result<(), Error>)
    ensures
        r matches Err(e) && (e matches Error::RiskViolation(m) && m@ == message@),
{
    Err(Error::RiskViolation(message))
}

impl RiskManager {
    /// A manager with no orders on record and no session balance.
    pub fn new(config: RiskConfig) -> (r: RiskManager)
        ensures
            r@ == (ManagerModel { config, session_start_balance: None, orders: Seq::empty() }),
    {
        RiskManager {
            config,
            session_start_balance: None,
            order_timestamps: VecDeque::new(),
            clock: MonoClock::start(),
        }
    }

    /// A manager with the default limits but for the position limit.
    pub fn from_max_position(max_position_cents: i64) -> (r: RiskManager)
        ensures
            r@ == (ManagerModel {
                config: RiskConfig { max_position_cents, ..crate::config::risk_defaults() },
                session_start_balance: None,
                orders: Seq::empty(),
            }),
    {
        let defaults = RiskConfig::default();
        Self::new(
            RiskConfig {
                max_position_cents,
                max_total_exposure_cents: defaults.max_total_exposure_cents,
                max_city_exposure_cents: defaults.max_city_exposure_cents,
                max_daily_loss_cents: defaults.max_daily_loss_cents,
                max_orders_per_minute: defaults.max_orders_per_minute,
                min_balance_cents: defaults.min_balance_cents,
            },
        )
    }

    /// Fixes the balance that drawdown is measured from. Only the first
    /// call has an effect.
    pub fn set_session_balance(&mut self, balance: i64)
        ensures
            final(self)@ == (ManagerModel {
                session_start_balance: if old(self)@.session_start_balance is None {
                    Some(balance)
                } else {
                    old(self)@.session_start_balance
                },
                ..old(self)@
            }),
    {
        if self.session_start_balance.is_none() {
            self.session_start_balance = Some(balance);
        }
    }

    /// Milliseconds on the manager's own clock.
    pub fn now_ms(&self) -> u64 {
        self.clock.now_ms()
    }

    /// Records that an order was placed now.
    pub fn record_order(&mut self)
        ensures
            exists|now: u64|
                final(self)@ == (ManagerModel {
                    orders: #[trigger] without_outdated(old(self)@.orders.push(now), now),
                    ..old(self)@
                }),
    {
        let now = self.clock.now_ms();
        self.record_order_at(now);
    }

    /// Records that an order was placed at `now_ms`, and drops the stamps
    /// that have become outdated from the front.
    pub fn record_order_at(&mut self, now_ms: u64)
        ensures
            final(self)@ == (ManagerModel {
                orders: without_outdated(old(self)@.orders.push(now_ms), now_ms),
                ..old(self)@
            }),
    {
        self.order_timestamps.push_back(now_ms);
        let ghost pushed = self.order_timestamps@;
        while self.order_timestamps.len() > 0 && now_ms as i128 - self.order_timestamps[0] as i128
            > 60_000
            invariant
                self.config == old(self).config,
                self.session_start_balance == old(self).session_start_balance,
                without_outdated(self.order_timestamps@, now_ms) == without_outdated(pushed, now_ms),
            decreases self.order_timestamps.len(),
        {
            let ghost before = self.order_timestamps@;
            let _ = self.order_timestamps.pop_front();
            assert(self.order_timestamps@ =~= before.drop_first());
        }
    }

    fn recent_orders(&self, now_ms: u64) -> (count: usize)
        ensures
            count == recent_count(self@.orders, now_ms),
    {
        let mut count: usize = 0;
        let mut i: usize = 0;
        while i < self.order_timestamps.len()
            invariant
                i <= self.order_timestamps.len(),
                count == recent_count(self.order_timestamps@.take(i as int), now_ms),
                count <= i,
            decreases self.order_timestamps.len() - i,
        {
            proof {
                let next = self.order_timestamps@.take(i + 1);
                assert(next.drop_last() =~= self.order_timestamps@.take(i as int));
                assert(next.last() == self.order_timestamps@[i as int]);
            }
            if !(now_ms as i128 - self.order_timestamps[i] as i128 > 60_000) {
                count += 1;
            }
            i += 1;
        }
        assert(self.order_timestamps@.take(self.order_timestamps@.len() as int)
            =~= self.order_timestamps@);
        count
    }

    fn sum_city_exposure(positions: &[Position], city: &String) -> (sum: i128)
        ensures
            sum == city_exposure(positions@, city@),
            0 <= sum,
    {
        let mut sum: i128 = 0;
        let mut i: usize = 0;
        while i < positions.len()
            invariant
                i <= positions.len(),
                sum == city_exposure(positions@.take(i as int), city@),
                0 <= sum <= i * 0x8000_0000_0000_0000,
            decreases positions.len() - i,
        {
            proof {
                let next = positions@.take(i + 1);
                assert(next.drop_last() =~= positions@.take(i as int));
                assert(next.last() == positions@[i as int]);
            }
            let prefix = extract_city_prefix(positions[i].ticker.as_str());
            if prefix == *city {
                sum = sum + exposure_size(positions[i].market_exposure);
            }
            i += 1;
        }
        assert(positions@.take(positions@.len() as int) =~= positions@);
        sum
    }

    fn check_buy(
        &self,
        intent: &OrderIntent,
        positions: &[Position],
        balance: i128,
        now_ms: u64,
        pending: usize,
    ) -> (r: Result<(), Error>)
        requires
            valid_order_price(intent.price_cents as int),
            intent.count > 0,
            -0x2000_0000_0000_0000_0000_0000 <= balance <= 0x2000_0000_0000_0000_0000_0000,
        ensures
            answers(
                r,
                buy_violation(self@, intent@, positions@, balance as int, now_ms, pending as int),
            ),
    {
        assert(0 < intent.price_cents * intent.count <= 99 * 0x7fff_ffff_ffff_ffff)
            by (nonlinear_arith)
            requires
                1 <= intent.price_cents <= 99,
                0 < intent.count <= 0x7fff_ffff_ffff_ffff,
        ;
        let cost: i128 = intent.price_cents as i128 * intent.count as i128;
        match self.session_start_balance {
            Some(start) => {
                let loss: i128 = start as i128 - balance;
                if loss > self.config.max_daily_loss_cents as i128 {
                    let mut m = String::from_str("Drawdown circuit-breaker: loss=");
                    push_decimal(&mut m, loss);
                    push_text(&mut m, "¢ exceeds max=");
                    push_decimal(&mut m, self.config.max_daily_loss_cents as i128);
                    push_text(&mut m, "¢ (start=");
                    push_decimal(&mut m, start as i128);
                    push_text(&mut m, "¢, now=");
                    push_decimal(&mut m, balance);
                    push_text(&mut m, "¢)");
                    return refusal(m);
                }
            },
            None => {},
        }
        if balance - cost < self.config.min_balance_cents as i128 {
            let mut m = String::from_str("Insufficient balance: ");
            push_decimal(&mut m, balance);
            push_text(&mut m, "¢ - ");
            push_decimal(&mut m, cost);
            push_text(&mut m, "¢ < min ");
            push_decimal(&mut m, self.config.min_balance_cents as i128);
            push_text(&mut m, "¢");
            return refusal(m);
        }
        let recent: u128 = self.recent_orders(now_ms) as u128 + pending as u128;
        if recent >= self.config.max_orders_per_minute as u128 {
            let mut m = String::from_str("Order throttle: ");
            push_decimal(&mut m, recent as i128);
            push_text(&mut m, " orders in last 60s >= max ");
            push_decimal(&mut m, self.config.max_orders_per_minute as i128);
            return refusal(m);
        }
        let total: i128 = sum_exposure(positions);
        if total > self.config.max_total_exposure_cents as i128 - cost {
            let mut m = String::from_str("Total exposure limit exceeded: current=");
            push_decimal(&mut m, total);
            push_text(&mut m, "¢ + order=");
            push_decimal(&mut m, cost);
            push_text(&mut m, "¢ > max=");
            push_decimal(&mut m, self.config.max_total_exposure_cents as i128);
            push_text(&mut m, "¢");
            return refusal(m);
        }
        let current: i128 = exposure_in(positions, intent.ticker.as_str());
        if current + cost > self.config.max_position_cents as i128 {
            let mut m = String::from_str("Position limit exceeded for ");
            push_text(&mut m, intent.ticker.as_str());
            push_text(&mut m, ": current=");
            push_decimal(&mut m, current);
            push_text(&mut m, "¢ + order=");
            push_decimal(&mut m, cost);
            push_text(&mut m, "¢ = ");
            push_decimal(&mut m, current + cost);
            push_text(&mut m, "¢ > max=");
            push_decimal(&mut m, self.config.max_position_cents as i128);
            push_text(&mut m, "¢");
            return refusal(m);
        }
        let city = extract_city_prefix(intent.ticker.as_str());
        let in_city: i128 = Self::sum_city_exposure(positions, &city);
        if in_city > self.config.max_city_exposure_cents as i128 - cost {
            assert(in_city + cost <= total + cost) by {
                lemma_city_within_total(positions@, city@);
            }
            let mut m = String::from_str("City concentration limit for '");
            push_text(&mut m, city.as_str());
            push_text(&mut m, "': exposure=");
            push_decimal(&mut m, in_city + cost);
            push_text(&mut m, "¢ > max=");
            push_decimal(&mut m, self.config.max_city_exposure_cents as i128);
            push_text(&mut m, "¢");
            return refusal(m);
        }
        Ok(())
    }

    fn check_order_with(
        &self,
        intent: &OrderIntent,
        positions: &[Position],
        balance: i128,
        now_ms: u64,
        pending: usize,
    ) -> (r: Result<(), Error>)
        requires
            -0x2000_0000_0000_0000_0000_0000 <= balance <= 0x2000_0000_0000_0000_0000_0000,
        ensures
            answers(
                r,
                order_violation_after(
                    self@,
                    intent@,
                    positions@,
                    balance as int,
                    now_ms,
                    pending as int,
                ),
            ),
    {
        if intent.count <= 0 {
            return refusal(String::from_str("Invalid quantity; must be positive"));
        }
        if intent.price_cents < 1 || intent.price_cents > 99 {
            return refusal(String::from_str("Invalid price; must be in [1,99]"));
        }
        match intent.action {
            Action::Sell => {
                if has_long_position(positions, intent.ticker.as_str()) {
                    Ok(())
                } else {
                    let mut m = String::from_str("Sell rejected for ");
                    push_text(&mut m, intent.ticker.as_str());
                    push_text(&mut m, ": no position found");
                    refusal(m)
                }
            },
            Action::Buy => self.check_buy(intent, positions, balance, now_ms, pending),
        }
    }

    /// Checks an order at the present moment of the manager's clock.
    pub fn check_order(&self, intent: &OrderIntent, positions: &[Position], balance_cents: i64) -> (r:
        Result<(), Error>)
        ensures
            exists|now: u64|
                answers(
                    r,
                    #[trigger] order_violation(
                        self@,
                        intent@,
                        positions@,
                        balance_cents as int,
                        now,
                    ),
                ),
    {
        let now = self.clock.now_ms();
        self.check_order_at(intent, positions, balance_cents, now)
    }

    /// Checks an order at time `now_ms`.
    pub fn check_order_at(
        &self,
        intent: &OrderIntent,
        positions: &[Position],
        balance_cents: i64,
        now_ms: u64,
    ) -> (r: Result<(), Error>)
        ensures
            answers(r, order_violation(self@, intent@, positions@, balance_cents as int, now_ms)),
    {
        self.check_order_with(intent, positions, balance_cents as i128, now_ms, 0)
    }

    /// Keeps the intents that pass the checks at the present moment of
    /// the manager's clock.
    pub fn filter_intents(&self, intents: Vec<OrderIntent>, positions: &[Position], balance_cents: i64) -> (approved:
        Vec<OrderIntent>)
        ensures
            exists|now: u64|
                intent_models(approved@) == (#[trigger] filtered(
                    self@,
                    intent_models(intents@),
                    positions@,
                    balance_cents as int,
                    now,
                )).0,
    {
        let now = self.clock.now_ms();
        self.filter_intents_at(intents, positions, balance_cents, now)
    }

    /// Keeps the intents that pass the checks at time `now_ms`, in order.
    /// Each is checked against the balance less the cost of the purchases
    /// approved before it, and with every intent approved before it
    /// counted against the order throttle.
    pub fn filter_intents_at(
        &self,
        intents: Vec<OrderIntent>,
        positions: &[Position],
        balance_cents: i64,
        now_ms: u64,
    ) -> (approved: Vec<OrderIntent>)
        ensures
            intent_models(approved@) == filtered(
                self@,
                intent_models(intents@),
                positions@,
                balance_cents as int,
                now_ms,
            ).0,
    {
        let mut approved: Vec<OrderIntent> = Vec::new();
        let mut spent: i128 = 0;
        let mut i: usize = 0;
        let ghost models = intent_models(intents@);
        assert(intent_models(approved@) =~= Seq::<IntentModel>::empty());
        while i < intents.len()
            invariant
                i <= intents.len(),
                models == intent_models(intents@),
                (intent_models(approved@), spent as int) == filtered(
                    self@,
                    models.take(i as int),
                    positions@,
                    balance_cents as int,
                    now_ms,
                ),
                0 <= spent,
                spent == 0 || spent <= balance_cents - self.config.min_balance_cents,
            decreases intents.len() - i,
        {
            proof {
                let next = models.take(i + 1);
                assert(next.drop_last() =~= models.take(i as int));
                assert(next.last() == intents@[i as int]@);
            }
            let intent = &intents[i];
            let adjusted: i128 = balance_cents as i128 - spent;
            match self.check_order_with(intent, positions, adjusted, now_ms, approved.len()) {
                Ok(()) => {
                    match intent.action {
                        Action::Buy => {
                            assert(0 < intent.price_cents * intent.count <= 99
                                * 0x7fff_ffff_ffff_ffff) by (nonlinear_arith)
                                requires
                                    1 <= intent.price_cents <= 99,
                                    0 < intent.count <= 0x7fff_ffff_ffff_ffff,
                            ;
                            spent = spent + intent.price_cents as i128 * intent.count as i128;
                        },
                        Action::Sell => {},
                    }
                    let ghost before = intent_models(approved@);
                    let copy = intent.duplicate();
                    let ghost model = copy@;
                    approved.push(copy);
                    assert(intent_models(approved@) =~= before.push(model));
                },
                Err(_) => {},
            }
            i += 1;
        }
        assert(models.take(intents@.len() as int) =~= models);
        approved
    }
}

/// The exposure in one city never exceeds the exposure of the whole
/// portfolio.
pub proof fn lemma_city_within_total(positions: Seq<Position>, city: Seq<char>)
    ensures
        0 <= city_exposure(positions, city) <= total_exposure(positions),
    decreases positions.len(),
{
    if positions.len() > 0 {
        lemma_city_within_total(positions.drop_last(), city);
    }
}

} // verus!
