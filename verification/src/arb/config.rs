//! Settings of the arbitrage strategy, each with its default.

use vstd::prelude::*;
use vstd::string::StringExecFns;

verus! {

/// Thresholds of the arbitrage evaluator.
#[derive(Clone, Copy, Debug, PartialEq, Eq, Structural)]
pub struct ArbConfig {
    pub min_profit_cents: i64,
    pub slippage_buffer_cents: i64,
    pub ev_mode_enabled: bool,
    pub guaranteed_arb_only: bool,
    pub strict_binary_only: bool,
    pub tie_buffer_cents: i64,
    pub min_leg_size: i64,
    pub default_qty: i64,
}

/// Cadences and staleness budgets.
#[derive(Clone, Copy, Debug, PartialEq, Eq, Structural)]
pub struct ArbTimingConfig {
    pub universe_refresh_secs: u64,
    pub eval_interval_ms: u64,
    pub quote_stale_secs: u64,
    pub price_stale_secs: u64,
}

/// Limits enforced by the risk manager.
#[derive(Clone, Copy, Debug, PartialEq, Eq, Structural)]
pub struct ArbRiskConfig {
    pub max_exposure_per_event_cents: i64,
    pub max_total_exposure_cents: i64,
    pub max_attempts_per_group_per_min: u32,
    pub max_unwind_loss_cents: i64,
    pub kill_switch_disconnect_count: u32,
    pub max_orders_per_minute: u32,
    pub min_balance_cents: i64,
    pub max_daily_loss_cents: i64,
}

/// How orders are placed and how a partial fill is handled.
#[derive(Clone, Debug)]
pub struct ExecutionConfig {
    pub time_in_force: String,
    pub unwind_policy: String,
}

/// The default of a switch that is on unless it is switched off.
pub fn default_true() -> (v: bool)
    ensures
        v,
{
    true
}

/// The default profit that a trade must show per contract, in cents.
pub fn default_min_profit() -> (v: i64)
    ensures
        v == 1,
{
    1
}

/// The default allowance for slippage per leg, in cents.
pub fn default_slippage() -> (v: i64)
    ensures
        v == 1,
{
    1
}

/// The default extra profit asked of a group in which a tie is possible, in
/// cents.
pub fn default_tie_buffer() -> (v: i64)
    ensures
        v == 5,
{
    5
}

/// The default smallest size of a leg.
pub fn default_min_leg_size() -> (v: i64)
    ensures
        v == 5,
{
    5
}

/// The default number of sets per trade.
pub fn default_qty() -> (v: i64)
    ensures
        v == 10,
{
    10
}

/// The default pause between discoveries of the groups, in seconds.
pub fn default_universe_refresh() -> (v: u64)
    ensures
        v == 900,
{
    900
}

/// The default pause between evaluations, in milliseconds.
pub fn default_eval_interval() -> (v: u64)
    ensures
        v == 1000,
{
    1000
}

/// The default age from which a quote is stale, in seconds.
pub fn default_quote_stale() -> (v: u64)
    ensures
        v == 120,
{
    120
}

/// The default age from which a price is stale, in seconds.
pub fn default_price_stale() -> (v: u64)
    ensures
        v == 300,
{
    300
}

/// The default cap on the exposure to one event, in cents.
pub fn default_max_event_exposure() -> (v: i64)
    ensures
        v == 1000,
{
    1000
}

/// The default cap on the exposure of all events together, in cents.
pub fn default_max_total_exposure() -> (v: i64)
    ensures
        v == 5000,
{
    5000
}

/// The default cap on the attempts on one group within a minute.
pub fn default_max_attempts() -> (v: u32)
    ensures
        v == 3,
{
    3
}

/// The default cap on the loss of an unwind, in cents.
pub fn default_max_unwind_loss() -> (v: i64)
    ensures
        v == 50,
{
    50
}

/// The default number of critical failures in a row that engages the kill
/// switch.
pub fn default_kill_switch() -> (v: u32)
    ensures
        v == 5,
{
    5
}

/// The default cap on the orders of one minute.
pub fn default_max_orders_per_min() -> (v: u32)
    ensures
        v == 10,
{
    10
}

/// The default balance below which nothing is traded, in cents.
pub fn default_min_balance() -> (v: i64)
    ensures
        v == 100,
{
    100
}

/// The default cap on the loss of a session, in cents.
pub fn default_max_daily_loss() -> (v: i64)
    ensures
        v == 2000,
{
    2000
}

/// The default time in force of an order.
pub fn default_tif() -> (v: String)
    ensures
        v@ == "fok"@,
{
    String::from_str("fok")
}

/// The default policy for partial fills.
pub fn default_unwind_policy() -> (v: String)
    ensures
        v@ == "cross_spread"@,
{
    String::from_str("cross_spread")
}

impl Default for ArbConfig {
    fn default() -> (c: ArbConfig)
        ensures
            c == (ArbConfig {
                min_profit_cents: 1,
                slippage_buffer_cents: 1,
                ev_mode_enabled: true,
                guaranteed_arb_only: true,
                strict_binary_only: true,
                tie_buffer_cents: 5,
                min_leg_size: 5,
                default_qty: 10,
            }),
    {
        ArbConfig {
            min_profit_cents: default_min_profit(),
            slippage_buffer_cents: default_slippage(),
            ev_mode_enabled: true,
            guaranteed_arb_only: true,
            strict_binary_only: true,
            tie_buffer_cents: default_tie_buffer(),
            min_leg_size: default_min_leg_size(),
            default_qty: default_qty(),
        }
    }
}

impl Default for ArbTimingConfig {
    fn default() -> (c: ArbTimingConfig)
        ensures
            c == (ArbTimingConfig {
                universe_refresh_secs: 900,
                eval_interval_ms: 1000,
                quote_stale_secs: 120,
                price_stale_secs: 300,
            }),
    {
        ArbTimingConfig {
            universe_refresh_secs: default_universe_refresh(),
            eval_interval_ms: default_eval_interval(),
            quote_stale_secs: default_quote_stale(),
            price_stale_secs: default_price_stale(),
        }
    }
}

impl Default for ArbRiskConfig {
    fn default() -> (c: ArbRiskConfig)
        ensures
            c == (ArbRiskConfig {
                max_exposure_per_event_cents: 1000,
                max_total_exposure_cents: 5000,
                max_attempts_per_group_per_min: 3,
                max_unwind_loss_cents: 50,
                kill_switch_disconnect_count: 5,
                max_orders_per_minute: 10,
                min_balance_cents: 100,
                max_daily_loss_cents: 2000,
            }),
    {
        ArbRiskConfig {
            max_exposure_per_event_cents: default_max_event_exposure(),
            max_total_exposure_cents: default_max_total_exposure(),
            max_attempts_per_group_per_min: default_max_attempts(),
            max_unwind_loss_cents: default_max_unwind_loss(),
            kill_switch_disconnect_count: default_kill_switch(),
            max_orders_per_minute: default_max_orders_per_min(),
            min_balance_cents: default_min_balance(),
            max_daily_loss_cents: default_max_daily_loss(),
        }
    }
}

impl Default for ExecutionConfig {
    fn default() -> (c: ExecutionConfig)
        ensures
            c.time_in_force@ == "fok"@,
            c.unwind_policy@ == "cross_spread"@,
    {
        ExecutionConfig { time_in_force: default_tif(), unwind_policy: default_unwind_policy() }
    }
}

/// The whole configuration of the arbitrage strategy.
#[derive(Clone, Debug)]
pub struct ArbBotConfig {
    pub api_key: String,
    pub secret_key: String,
    pub use_demo: bool,
    pub arb: ArbConfig,
    pub timing: ArbTimingConfig,
    pub risk: ArbRiskConfig,
    pub execution: ExecutionConfig,
}

impl Default for ArbBotConfig {
    fn default() -> (c: ArbBotConfig)
        ensures
            c.api_key@.len() == 0,
            c.secret_key@.len() == 0,
            c.use_demo,
            c.arb.min_profit_cents == 1 && c.arb.slippage_buffer_cents == 1 && c.arb.default_qty
                == 10 && c.arb.tie_buffer_cents == 5 && c.arb.min_leg_size == 5,
            c.arb.ev_mode_enabled && c.arb.guaranteed_arb_only && c.arb.strict_binary_only,
            c.timing.quote_stale_secs == 120 && c.timing.eval_interval_ms == 1000,
            c.risk.max_orders_per_minute == 10 && c.risk.max_total_exposure_cents == 5000,
            c.execution.time_in_force@ == "fok"@,
            c.execution.unwind_policy@ == "cross_spread"@,
    {
        ArbBotConfig {
            api_key: String::new(),
            secret_key: String::new(),
            use_demo: true,
            arb: ArbConfig::default(),
            timing: ArbTimingConfig::default(),
            risk: ArbRiskConfig::default(),
            execution: ExecutionConfig::default(),
        }
    }
}

/// The demo switch as the environment sets it: on unless the value is
/// `0` or, in any mix of capitals and small letters, `false`.
pub open spec fn demo_switch(raw: Seq<char>) -> bool {
    raw != "0"@ && crate::text::lowercase(raw) != "false"@
}

/// The first of the two credentials that is missing, if one is.
pub open spec fn missing_credential(api_key: Seq<char>, secret_key: Seq<char>) -> Option<Seq<char>> {
    if api_key.len() == 0 {
        Some("KALSHI_API_KEY is required (set in .env or environment)"@)
    } else if secret_key.len() == 0 {
        Some("KALSHI_SECRET_KEY is required (set in .env or environment)"@)
    } else {
        None
    }
}

/// The configuration of the strategy: `base`, which comes from the
/// defaults or from a file, with the credentials and the demo switch
/// that the environment sets. Both credentials are required.
pub fn load_config(
    base: ArbBotConfig,
    api_key: Option<String>,
    secret_key: Option<String>,
    use_demo: Option<String>,
) -> (r: Result<ArbBotConfig, crate::error::Error>)
    ensures
        match r {
            Ok(c) => {
                &&& c.api_key@.len() > 0 && c.secret_key@.len() > 0
                &&& c.api_key == (match api_key {
                    Some(k) => k,
                    None => base.api_key,
                })
                &&& c.secret_key == (match secret_key {
                    Some(k) => k,
                    None => base.secret_key,
                })
                &&& c.use_demo == (match use_demo {
                    Some(d) => demo_switch(d@),
                    None => base.use_demo,
                })
                &&& c.arb == base.arb && c.timing == base.timing && c.risk == base.risk
                    && c.execution == base.execution
            },
            Err(e) => e matches crate::error::Error::Config(m) && missing_credential(
                match api_key {
                    Some(k) => k@,
                    None => base.api_key@,
                },
                match secret_key {
                    Some(k) => k@,
                    None => base.secret_key@,
                },
            ) == Some(m@),
        },
{
    let mut config = base;
    match api_key {
        Some(k) => {
            config.api_key = k;
        },
        None => {},
    }
    match secret_key {
        Some(k) => {
            config.secret_key = k;
        },
        None => {},
    }
    match use_demo {
        Some(d) => {
            let lowered = crate::text::to_lowercase(d.as_str());
            config.use_demo = !crate::text::same_text(d.as_str(), "0") && !crate::text::same_text(
                lowered.as_str(),
                "false",
            );
        },
        None => {},
    }
    if config.api_key.as_str().is_empty() {
        return Err(
            crate::error::Error::Config(
                String::from_str("KALSHI_API_KEY is required (set in .env or environment)"),
            ),
        );
    }
    if config.secret_key.as_str().is_empty() {
        return Err(
            crate::error::Error::Config(
                String::from_str("KALSHI_SECRET_KEY is required (set in .env or environment)"),
            ),
        );
    }
    Ok(config)
}

} // verus!
