//! Risk guard of the rules strategy: sanity of the order, drawdown,
//! balance, order throttle, exposure and position limits.

use crate::clock::MonoClock;
use crate::error::Error;
use crate::positions::{exposure_in, sum_exposure, ticker_exposure, total_exposure};
use crate::rules::config::RiskConfig;
use crate::text::{decimal, push_decimal, push_text};
use crate::types::{valid_order_price, Position};
use crate::weather::risk::{outdated, without_outdated};
use std::collections::VecDeque;
use vstd::prelude::*;
use vstd::string::StringExecFns;

verus! {

/// Why a purchase is refused.
pub enum BuyViolation {
    InvalidCount,
    InvalidPrice,
    Drawdown { drawdown: int, max: int },
    MinBalance { balance: int, cost: int, min: int },
    Throttle { recent: int, max: int },
    TotalExposure { current: int, cost: int, max: int },
    OrderTooLarge { cost: int, max: int },
    PositionLimit { ticker: Seq<char>, current: int, cost: int, max: int },
}

/// The human reason that goes with a refusal.
pub open spec fn buy_violation_text(v: BuyViolation) -> Seq<char> {
    match v {
        BuyViolation::InvalidCount => "count must be positive"@,
        BuyViolation::InvalidPrice => "price must be in [1,99]"@,
        BuyViolation::Drawdown { drawdown, max } => "drawdown exceeded: "@ + decimal(drawdown)
            + " > "@ + decimal(max),
        BuyViolation::MinBalance { balance, cost, min } => "min balance breached: "@ + decimal(
            balance,
        ) + " - "@ + decimal(cost) + " < "@ + decimal(min),
        BuyViolation::Throttle { recent, max } => "order throttle exceeded: "@ + decimal(recent)
            + " >= "@ + decimal(max),
        BuyViolation::TotalExposure { current, cost, max } => "total exposure exceeded: "@
            + decimal(current) + " + "@ + decimal(cost) + " > "@ + decimal(max),
        BuyViolation::OrderTooLarge { cost, max } => "order exceeds max_position_cents: "@
            + decimal(cost) + " > "@ + decimal(max),
        BuyViolation::PositionLimit { ticker, current, cost, max } =>
            "position limit exceeded for "@ + ticker + ": "@ + decimal(current) + " + "@
                + decimal(cost) + " > "@ + decimal(max),
    }
}

/// The state of the guard as a mathematical value.
pub struct GuardModel {
    pub config: RiskConfig,
    pub session_start_balance: Option<i64>,
    /// Stamps of the orders placed, oldest first.
    pub orders: Seq<u64>,
}

/// The balance that drawdown is measured from: the one fixed earlier, or
/// else the balance at hand.
pub open spec fn start_balance(m: GuardModel, balance: i64) -> i64 {
    match m.session_start_balance {
        Some(s) => s,
        None => balance,
    }
}

/// Loss from the start of the session, never negative.
pub open spec fn session_drawdown(start: int, balance: int) -> int {
    if start - balance > 0 {
        start - balance
    } else {
        0
    }
}

/// The checks that come before the throttle, in order: the count is
/// positive, the price is valid, the drawdown is within the daily limit,
/// and the balance left after the trade reaches the minimum.
pub open spec fn early_violation(m: GuardModel, price_cents: int, count: int, balance: i64) -> Option<
    BuyViolation,
> {
    let cost = price_cents * count;
    let drawdown = session_drawdown(start_balance(m, balance) as int, balance as int);
    if count <= 0 {
        Some(BuyViolation::InvalidCount)
    } else if !valid_order_price(price_cents) {
        Some(BuyViolation::InvalidPrice)
    } else if drawdown > m.config.max_daily_loss_cents {
        Some(BuyViolation::Drawdown { drawdown, max: m.config.max_daily_loss_cents as int })
    } else if balance - cost < m.config.min_balance_cents {
        Some(
            BuyViolation::MinBalance {
                balance: balance as int,
                cost,
                min: m.config.min_balance_cents as int,
            },
        )
    } else {
        None
    }
}

/// The verdict on a purchase at `now`: the first check that fails, or
/// `None`. After the early checks come the order throttle, the total
/// exposure, the size of the order against the position limit, and the
/// position limit itself.
pub open spec fn buy_verdict(
    m: GuardModel,
    ticker: Seq<char>,
    price_cents: int,
    count: int,
    positions: Seq<Position>,
    balance: i64,
    now: u64,
) -> Option<BuyViolation> {
    let cost = price_cents * count;
    let recent = without_outdated(m.orders, now).len();
    let current = ticker_exposure(positions, ticker);
    if early_violation(m, price_cents, count, balance) is Some {
        early_violation(m, price_cents, count, balance)
    } else if recent >= m.config.max_orders_per_minute {
        Some(BuyViolation::Throttle { recent: recent as int, max: m.config.max_orders_per_minute as int })
    } else if total_exposure(positions) + cost > m.config.max_total_exposure_cents {
        Some(
            BuyViolation::TotalExposure {
                current: total_exposure(positions),
                cost,
                max: m.config.max_total_exposure_cents as int,
            },
        )
    } else if cost > m.config.max_position_cents {
        Some(BuyViolation::OrderTooLarge { cost, max: m.config.max_position_cents as int })
    } else if current + cost > m.config.max_position_cents {
        Some(
            BuyViolation::PositionLimit {
                ticker,
                current,
                cost,
                max: m.config.max_position_cents as int,
            },
        )
    } else {
        None
    }
}

/// The state after a check: the first balance seen is fixed as the
/// start of the session, and a check that reaches the throttle drops the
/// outdated stamps.
pub open spec fn after_buy_check(m: GuardModel, price_cents: int, count: int, balance: i64, now: u64) -> GuardModel {
    let started = GuardModel { session_start_balance: Some(start_balance(m, balance)), ..m };
    if early_violation(m, price_cents, count, balance) is Some {
        started
    } else {
        GuardModel { orders: without_outdated(m.orders, now), ..started }
    }
}

/// What `check_buy` promises when the clock read `now`.
pub open spec fn buy_checked_at(
    before: GuardModel,
    ticker: Seq<char>,
    price_cents: int,
    count: int,
    positions: Seq<Position>,
    balance: i64,
    now: u64,
    after: GuardModel,
    r: Result<(), Error>,
) -> bool {
    &&& after == after_buy_check(before, price_cents, count, balance, now)
    &&& match r {
        Ok(()) => buy_verdict(before, ticker, price_cents, count, positions, balance, now) is None,
        Err(e) => buy_verdict(before, ticker, price_cents, count, positions, balance, now) is Some
            && (e matches Error::RiskViolation(m) && m@ == buy_violation_text(
            buy_verdict(before, ticker, price_cents, count, positions, balance, now)->0,
        )),
    }
}

/// A purchase that passes has a price from 1 to 99 cents and at least
/// one contract, and leaves fewer orders in the last minute than the
/// throttle allows.
pub proof fn lemma_passed_buy_sound(
    m: GuardModel,
    ticker: Seq<char>,
    price_cents: int,
    count: int,
    positions: Seq<Position>,
    balance: i64,
    now: u64,
)
    requires
        buy_verdict(m, ticker, price_cents, count, positions, balance, now) is None,
    ensures
        valid_order_price(price_cents),
        count >= 1,
        without_outdated(m.orders, now).len() < m.config.max_orders_per_minute,
        price_cents * count <= m.config.max_position_cents,
{
}

/// Gates every purchase of the rules strategy.
pub struct RiskGuard {
    config: RiskConfig,
    session_start_balance: Option<i64>,
    order_timestamps: VecDeque<u64>,
    clock: MonoClock,
}

impl View for RiskGuard {
    type V = GuardModel;

    closed spec fn view(&self) -> GuardModel {
        GuardModel {
            config: self.config,
            session_start_balance: self.session_start_balance,
            orders: self.order_timestamps@,
        }
    }
}

fn refuse(message: String) -> (r: Result<(), Error>)
    ensures
        r matches Err(e) && (e matches Error::RiskViolation(m) && m@ == message@),
{
    Err(Error::RiskViolation(message))
}

fn labelled_pair(label: &str, a: i128, middle: &str, b: i128) -> (m: String)
    ensures
        m@ == label@ + decimal(a as int) + middle@ + decimal(b as int),
{
    let mut m = String::from_str(label);
    push_decimal(&mut m, a);
    push_text(&mut m, middle);
    push_decimal(&mut m, b);
    m
}

impl RiskGuard {
    /// A guard with no orders on record and no session balance.
    pub fn new(config: RiskConfig) -> (g: RiskGuard)
        ensures
            g@ == (GuardModel { config, session_start_balance: None, orders: Seq::empty() }),
    {
        RiskGuard {
            config,
            session_start_balance: None,
            order_timestamps: VecDeque::new(),
            clock: MonoClock::start(),
        }
    }

    fn prune_orders(&mut self, now_ms: u64)
        ensures
            final(self)@ == (GuardModel {
                orders: without_outdated(old(self)@.orders, now_ms),
                ..old(self)@
            }),
    {
        while self.order_timestamps.len() > 0 && now_ms as i128 - self.order_timestamps[0] as i128
            > 60_000
            invariant
                self.config == old(self).config,
                self.session_start_balance == old(self).session_start_balance,
                without_outdated(self.order_timestamps@, now_ms) == without_outdated(
                    old(self).order_timestamps@,
                    now_ms,
                ),
            decreases self.order_timestamps.len(),
        {
            let ghost before = self.order_timestamps@;
            let _ = self.order_timestamps.pop_front();
            assert(self.order_timestamps@ =~= before.drop_first());
        }
    }

    /// Milliseconds on the guard's own clock.
    pub fn now_ms(&self) -> u64 {
        self.clock.now_ms()
    }

    /// Records that an order was placed now.
    pub fn record_order(&mut self)
        ensures
            exists|now: u64|
                final(self)@ == (GuardModel {
                    orders: (#[trigger] without_outdated(old(self)@.orders, now)).push(now),
                    ..old(self)@
                }),
    {
        let now = self.clock.now_ms();
        self.record_order_at(now);
    }

    /// Records that an order was placed at `now_ms`: outdated stamps are
    /// dropped from the front and the new stamp is added.
    pub fn record_order_at(&mut self, now_ms: u64)
        ensures
            final(self)@ == (GuardModel {
                orders: without_outdated(old(self)@.orders, now_ms).push(now_ms),
                ..old(self)@
            }),
    {
        self.prune_orders(now_ms);
        self.order_timestamps.push_back(now_ms);
    }

    /// Checks a purchase at the present moment of the guard's clock.
    pub fn check_buy(
        &mut self,
        ticker: &str,
        price_cents: i64,
        count: i64,
        positions: &[Position],
        balance_cents: i64,
    ) -> (r: Result<(), Error>)
        ensures
            exists|now: u64|
                buy_checked_at(
                    old(self)@,
                    ticker@,
                    price_cents as int,
                    count as int,
                    positions@,
                    balance_cents,
                    now,
                    final(self)@,
                    r,
                ),
    {
        let now = self.clock.now_ms();
        let r = self.check_buy_at(ticker, price_cents, count, positions, balance_cents, now);
        assert(buy_checked_at(
            old(self)@,
            ticker@,
            price_cents as int,
            count as int,
            positions@,
            balance_cents,
            now,
            self@,
            r,
        ));
        r
    }

    /// Checks a purchase at time `now_ms`. The checks run in a fixed order
    /// and the first that fails gives the refusal.
    pub fn check_buy_at(
        &mut self,
        ticker: &str,
        price_cents: i64,
        count: i64,
        positions: &[Position],
        balance_cents: i64,
        now_ms: u64,
    ) -> (r: Result<(), Error>)
        ensures
            buy_checked_at(
                old(self)@,
                ticker@,
                price_cents as int,
                count as int,
                positions@,
                balance_cents,
                now_ms,
                final(self)@,
                r,
            ),
    {
        let start: i64 = match self.session_start_balance {
            Some(s) => s,
            None => {
                self.session_start_balance = Some(balance_cents);
                balance_cents
            },
        };
        if count <= 0 {
            return refuse(String::from_str("count must be positive"));
        }
        if price_cents < 1 || price_cents > 99 {
            return refuse(String::from_str("price must be in [1,99]"));
        }
        assert(0 < price_cents * count <= 99 * 0x7fff_ffff_ffff_ffff) by (nonlinear_arith)
            requires
                1 <= price_cents <= 99,
                0 < count <= 0x7fff_ffff_ffff_ffff,
        ;
        let cost: i128 = price_cents as i128 * count as i128;
        let loss: i128 = start as i128 - balance_cents as i128;
        let drawdown: i128 = if loss > 0 {
            loss
        } else {
            0
        };
        if drawdown > self.config.max_daily_loss_cents as i128 {
            return refuse(
                labelled_pair(
                    "drawdown exceeded: ",
                    drawdown,
                    " > ",
                    self.config.max_daily_loss_cents as i128,
                ),
            );
        }
        if balance_cents as i128 - cost < self.config.min_balance_cents as i128 {
            let mut m = labelled_pair("min balance breached: ", balance_cents as i128, " - ", cost);
            push_text(&mut m, " < ");
            push_decimal(&mut m, self.config.min_balance_cents as i128);
            return refuse(m);
        }
        self.prune_orders(now_ms);
        let recent: usize = self.order_timestamps.len();
        if recent as u128 >= self.config.max_orders_per_minute as u128 {
            return refuse(
                labelled_pair(
                    "order throttle exceeded: ",
                    recent as i128,
                    " >= ",
                    self.config.max_orders_per_minute as i128,
                ),
            );
        }
        let total: i128 = sum_exposure(positions);
        if total > self.config.max_total_exposure_cents as i128 - cost {
            let mut m = labelled_pair("total exposure exceeded: ", total, " + ", cost);
            push_text(&mut m, " > ");
            push_decimal(&mut m, self.config.max_total_exposure_cents as i128);
            return refuse(m);
        }
        if cost > self.config.max_position_cents as i128 {
            return refuse(
                labelled_pair(
                    "order exceeds max_position_cents: ",
                    cost,
                    " > ",
                    self.config.max_position_cents as i128,
                ),
            );
        }
        let current: i128 = exposure_in(positions, ticker);
        if current + cost > self.config.max_position_cents as i128 {
            let mut m = String::from_str("position limit exceeded for ");
            push_text(&mut m, ticker);
            push_text(&mut m, ": ");
            push_decimal(&mut m, current);
            push_text(&mut m, " + ");
            push_decimal(&mut m, cost);
            push_text(&mut m, " > ");
            push_decimal(&mut m, self.config.max_position_cents as i128);
            return refuse(m);
        }
        Ok(())
    }
}

} // verus!
