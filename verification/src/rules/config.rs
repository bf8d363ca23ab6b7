//! Settings of the rules strategy.

use vstd::prelude::*;
use vstd::string::StringExecFns;

verus! {

/// Which exchange environment to use.
#[derive(Clone, Debug)]
pub struct KalshiConfig {
    pub use_demo: bool,
    pub api_base: String,
}

/// The research provider.
#[derive(Clone, Debug)]
pub struct LlmConfig {
    pub provider: String,
    pub model: String,
    pub timeout_ms: u64,
    pub max_retries: u32,
}

/// How many research calls may be spent.
#[derive(Clone, Copy, Debug, PartialEq, Eq, Structural)]
pub struct LlmBudgetConfig {
    pub daily_max_calls: u32,
    pub per_market_max_calls: u32,
}

/// Thresholds of the research stage. Probabilities and scores are whole
/// millionths.
#[derive(Clone, Debug)]
pub struct ResearchConfig {
    pub min_edge_for_research_cents: i64,
    pub complexity_threshold_ppm: i64,
    pub market_liquidity_min_depth: i64,
    pub max_days_to_expiry: i64,
    pub max_uncertainty_ppm: i64,
    pub rules_risk_veto_level: String,
    pub staleness_budget_ms: i64,
    pub llm_required_for_complex_markets: bool,
    pub allowed_urls: Vec<String>,
    pub kelly_fraction_ppm: i64,
}

/// How orders are placed.
#[derive(Clone, Copy, Debug, PartialEq, Eq, Structural)]
pub struct TradingConfig {
    pub shadow_mode: bool,
    pub live_enable: bool,
    pub live_min_size_contracts: i64,
    pub max_position_contracts: i64,
    pub loop_interval_ms: u64,
}

/// Limits enforced by the risk guard.
#[derive(Clone, Copy, Debug, PartialEq, Eq, Structural)]
pub struct RiskConfig {
    pub max_position_cents: i64,
    pub max_total_exposure_cents: i64,
    pub max_daily_loss_cents: i64,
    pub max_orders_per_minute: u32,
    pub min_balance_cents: i64,
}

/// The workflow broker that can stand in for the research provider.
#[derive(Clone, Debug)]
pub struct TemporalConfig {
    pub enabled: bool,
    pub broker_base_url: String,
    pub start_path: String,
    pub poll_path_template: String,
    pub poll_interval_ms: u64,
    pub workflow_timeout_ms: u64,
    pub request_timeout_ms: u64,
    pub auth_token_env: String,
}

/// The whole configuration of the rules strategy.
#[derive(Clone, Debug)]
pub struct AppConfig {
    pub kalshi: KalshiConfig,
    pub llm: LlmConfig,
    pub llm_budget: LlmBudgetConfig,
    pub temporal: TemporalConfig,
    pub research: ResearchConfig,
    pub trading: TradingConfig,
    pub risk: RiskConfig,
}

/// The default share of the full Kelly bet: a fifth, in millionths.
pub fn default_kelly_fraction() -> (v: i64)
    ensures
        v == 200_000,
{
    200_000
}

/// The default address of the workflow broker.
pub fn default_broker_base_url() -> (v: String)
    ensures
        v@ == "http://127.0.0.1:8787"@,
{
    String::from_str("http://127.0.0.1:8787")
}

/// The default path under which a workflow is started.
pub fn default_temporal_start_path() -> (v: String)
    ensures
        v@ == "/research/start"@,
{
    String::from_str("/research/start")
}

/// The default path under which a workflow is polled; `{id}` stands for its
/// identifier.
pub fn default_temporal_poll_path_template() -> (v: String)
    ensures
        v@ == "/research/{id}"@,
{
    String::from_str("/research/{id}")
}

/// The default pause between polls, in milliseconds.
pub fn default_temporal_poll_interval() -> (v: u64)
    ensures
        v == 250,
{
    250
}

/// The default time that a workflow is given, in milliseconds.
pub fn default_temporal_workflow_timeout() -> (v: u64)
    ensures
        v == 5_000,
{
    5_000
}

/// The default time that a request to the broker is given, in milliseconds.
pub fn default_temporal_request_timeout() -> (v: u64)
    ensures
        v == 2_000,
{
    2_000
}

impl Default for TemporalConfig {
    fn default() -> (c: TemporalConfig)
        ensures
            !c.enabled,
            c.broker_base_url@ == "http://127.0.0.1:8787"@,
            c.start_path@ == "/research/start"@,
            c.poll_path_template@ == "/research/{id}"@,
            c.poll_interval_ms == 250,
            c.workflow_timeout_ms == 5_000,
            c.request_timeout_ms == 2_000,
            c.auth_token_env@.len() == 0,
    {
        TemporalConfig {
            enabled: false,
            broker_base_url: default_broker_base_url(),
            start_path: default_temporal_start_path(),
            poll_path_template: default_temporal_poll_path_template(),
            poll_interval_ms: default_temporal_poll_interval(),
            workflow_timeout_ms: default_temporal_workflow_timeout(),
            request_timeout_ms: default_temporal_request_timeout(),
            auth_token_env: String::new(),
        }
    }
}

/// A configuration that neither shadows nor trades live is no mode at
/// all.
pub open spec fn mode_valid(trading: TradingConfig) -> bool {
    trading.shadow_mode || trading.live_enable
}

/// Whether the trading mode is one the strategy can run in.
pub fn is_mode_valid(trading: &TradingConfig) -> (ok: bool)
    ensures
        ok == mode_valid(*trading),
{
    trading.shadow_mode || trading.live_enable
}

} // verus!
