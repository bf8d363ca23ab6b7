//! Settings of the forecast strategy, each with its default, and the
//! checks that a configuration must pass before the strategy starts.
//!
//! Probabilities, confidences and weights are whole millionths; angles are
//! whole millionths of a degree.

use crate::error::Error;
use crate::text::{
    ascii_lower, ascii_lower_chars, chars_of, push_text, same_chars, texts, trim_chars, trimmed,
};
use vstd::prelude::*;
use vstd::string::StringExecFns;

verus! {

/// How selective the strategy is.
#[derive(Clone, Copy, Debug, PartialEq, Eq, Structural)]
pub enum QualityMode {
    UltraSafe,
    Balanced,
    Aggressive,
}

/// One city whose forecasts are followed.
#[derive(Clone, Debug)]
pub struct CityConfig {
    pub name: String,
    /// Latitude in millionths of a degree.
    pub lat_micro: i64,
    /// Longitude in millionths of a degree.
    pub lon_micro: i64,
    /// Forecast office of the weather service.
    pub wfo: String,
    pub grid_x: u32,
    pub grid_y: u32,
    /// Prefix of the tickers of the city's markets.
    pub series_prefix: String,
}

/// Thresholds and limits of the strategy.
#[derive(Clone, Copy, Debug, PartialEq, Eq, Structural)]
pub struct StrategyConfig {
    /// Buy YES only at an ask at or below this.
    pub entry_threshold_cents: i64,
    /// Sell YES at a bid at or above this.
    pub exit_threshold_cents: i64,
    /// Least net edge, in cents, to enter.
    pub edge_threshold_cents: i64,
    /// Cents taken off the fair value.
    pub safety_margin_cents: i64,
    pub max_position_cents: i64,
    /// Most entries per evaluation; zero lifts the cap.
    pub max_trades_per_run: usize,
    pub max_spread_cents: i64,
    /// Least time to the close of a market, in minutes.
    pub min_minutes_before_close: i64,
    /// Only markets that resolve in fewer days than this are traded.
    pub max_days_to_resolution: i64,
}

/// Limits enforced by the risk manager.
#[derive(Clone, Copy, Debug, PartialEq, Eq, Structural)]
pub struct RiskConfig {
    pub max_position_cents: i64,
    pub max_total_exposure_cents: i64,
    pub max_city_exposure_cents: i64,
    pub max_daily_loss_cents: i64,
    pub max_orders_per_minute: u32,
    pub min_balance_cents: i64,
}

/// Cadences and staleness budgets, in seconds.
#[derive(Clone, Copy, Debug, PartialEq, Eq, Structural)]
pub struct TimingConfig {
    pub scan_interval_secs: u64,
    pub forecast_interval_secs: u64,
    pub discovery_interval_secs: u64,
    pub price_stale_secs: u64,
    pub forecast_stale_secs: u64,
}

/// Weights of the forecast sources in the ensemble, in millionths.
#[derive(Clone, Copy, Debug, PartialEq, Eq, Structural)]
pub struct WeatherSourcesConfig {
    pub noaa_weight_ppm: i64,
    pub google_weight_ppm: i64,
}

/// Gates on the quality of a signal.
#[derive(Clone, Copy, Debug, PartialEq, Eq, Structural)]
pub struct QualityConfig {
    pub mode: QualityMode,
    /// Disagreement between the sources blocks an entry.
    pub strict_source_veto: bool,
    /// Both sources must have an estimate for an entry.
    pub require_both_sources: bool,
    pub max_source_prob_gap_ppm: i64,
    pub min_source_confidence_ppm: i64,
    pub min_ensemble_confidence_ppm: i64,
    pub min_conservative_net_edge_cents: i64,
    pub min_conservative_ev_cents: i64,
    pub min_volume_24h: i64,
    pub min_open_interest: i64,
    pub slippage_buffer_cents: i64,
    pub max_spread_cents_ultra: i64,
}

/// The whole configuration of the forecast strategy.
#[derive(Clone, Debug)]
pub struct BotConfig {
    pub api_key: String,
    pub secret_key: String,
    pub use_demo: bool,
    pub cities: Vec<CityConfig>,
    pub series_prefixes: Vec<String>,
    pub strategy: StrategyConfig,
    pub risk: RiskConfig,
    pub timing: TimingConfig,
    pub weather_sources: WeatherSourcesConfig,
    pub google_weather_api_key: String,
    pub quality: QualityConfig,
}

/// The default of a switch that is on unless it is switched off.
pub fn default_true() -> (v: bool)
    ensures
        v,
{
    true
}

/// The default entry threshold: the highest ask at which a position is
/// opened, in cents.
pub fn default_entry() -> (v: i64)
    ensures
        v == 15,
{
    15
}

/// The default exit threshold: the lowest bid at which a position is closed,
/// in cents.
pub fn default_exit() -> (v: i64)
    ensures
        v == 45,
{
    45
}

/// The default edge that an entry must show after fees, in cents.
pub fn default_edge() -> (v: i64)
    ensures
        v == 5,
{
    5
}

/// The default margin taken off the fair value, in cents.
pub fn default_safety() -> (v: i64)
    ensures
        v == 3,
{
    3
}

/// The default cap on what one position may cost, in cents.
pub fn default_max_position() -> (v: i64)
    ensures
        v == 500,
{
    500
}

/// The default number of entries that one evaluation may emit.
pub fn default_max_trades() -> (v: usize)
    ensures
        v == 5,
{
    5
}

/// The default cap on the spread of a market, in cents.
pub fn default_max_spread() -> (v: i64)
    ensures
        v == 10,
{
    10
}

/// The default time that a market must have left before it closes, in
/// minutes.
pub fn default_min_minutes() -> (v: i64)
    ensures
        v == 120,
{
    120
}

/// The default window within which a market must resolve, in days.
pub fn default_max_days_to_resolution() -> (v: i64)
    ensures
        v == 11,
{
    11
}

/// The default cap on the exposure of all positions together, in cents.
pub fn default_max_total_exposure() -> (v: i64)
    ensures
        v == 5000,
{
    5000
}

/// The default cap on the exposure to one city, in cents.
pub fn default_max_city_exposure() -> (v: i64)
    ensures
        v == 1500,
{
    1500
}

/// The default cap on the loss of a session, in cents.
pub fn default_max_daily_loss() -> (v: i64)
    ensures
        v == 2000,
{
    2000
}

/// The default cap on the orders of one minute.
pub fn default_max_orders_per_min() -> (v: u32)
    ensures
        v == 10,
{
    10
}

/// The default balance below which nothing is bought, in cents.
pub fn default_min_balance() -> (v: i64)
    ensures
        v == 100,
{
    100
}

/// The default pause between strategy ticks, in seconds.
pub fn default_scan_interval() -> (v: u64)
    ensures
        v == 120,
{
    120
}

/// The default pause between forecast updates, in seconds.
pub fn default_forecast_interval() -> (v: u64)
    ensures
        v == 1800,
{
    1800
}

/// The default pause between discoveries, in seconds.
pub fn default_discovery_interval() -> (v: u64)
    ensures
        v == 1800,
{
    1800
}

/// The default age from which a quote is stale, in seconds.
pub fn default_price_stale() -> (v: u64)
    ensures
        v == 300,
{
    300
}

/// The default age from which a forecast is stale, in seconds.
pub fn default_forecast_stale() -> (v: u64)
    ensures
        v == 3600,
{
    3600
}

/// The default quality mode.
pub fn default_quality_mode() -> (v: QualityMode)
    ensures
        v == QualityMode::UltraSafe,
{
    QualityMode::UltraSafe
}

/// The default floor of the conservative net edge, in cents.
pub fn default_min_conservative_net_edge_cents() -> (v: i64)
    ensures
        v == 8,
{
    8
}

/// The default floor of the conservative expected value, in cents.
pub fn default_min_conservative_ev_cents() -> (v: i64)
    ensures
        v == 4,
{
    4
}

/// The default floor of the volume of the last day.
pub fn default_min_volume_24h() -> (v: i64)
    ensures
        v == 50,
{
    50
}

/// The default floor of the open interest.
pub fn default_min_open_interest() -> (v: i64)
    ensures
        v == 25,
{
    25
}

/// The default allowance for slippage, in cents.
pub fn default_slippage_buffer_cents() -> (v: i64)
    ensures
        v == 1,
{
    1
}

/// The default cap on the spread in the safest mode, in cents.
pub fn default_max_spread_cents_ultra() -> (v: i64)
    ensures
        v == 6,
{
    6
}

/// The tickers' prefixes of the five cities followed by default.
pub open spec fn default_prefixes() -> Seq<Seq<char>> {
    seq!["KXHIGHNYC"@, "KXHIGHCHI"@, "KXHIGHSEA"@, "KXHIGHATL"@, "KXHIGHDAL"@]
}

/// The default series of weather markets.
pub fn default_series_prefixes() -> (v: Vec<String>)
    ensures
        texts(v@) == default_prefixes(),
{
    let mut v: Vec<String> = Vec::new();
    v.push(String::from_str("KXHIGHNYC"));
    v.push(String::from_str("KXHIGHCHI"));
    v.push(String::from_str("KXHIGHSEA"));
    v.push(String::from_str("KXHIGHATL"));
    v.push(String::from_str("KXHIGHDAL"));
    assert(texts(v@) =~= default_prefixes());
    v
}

fn city(
    name: &str,
    lat_micro: i64,
    lon_micro: i64,
    wfo: &str,
    grid_x: u32,
    grid_y: u32,
    series_prefix: &str,
) -> (c: CityConfig)
    ensures
        c.name@ == name@,
        c.lat_micro == lat_micro,
        c.lon_micro == lon_micro,
        c.wfo@ == wfo@,
        c.grid_x == grid_x,
        c.grid_y == grid_y,
        c.series_prefix@ == series_prefix@,
{
    CityConfig {
        name: String::from_str(name),
        lat_micro,
        lon_micro,
        wfo: String::from_str(wfo),
        grid_x,
        grid_y,
        series_prefix: String::from_str(series_prefix),
    }
}

/// The five cities followed by default.
pub fn default_cities() -> (v: Vec<CityConfig>)
    ensures
        v@.len() == 5,
        v@[0].name@ == "New York City"@ && v@[0].series_prefix@ == "KXHIGHNYC"@,
        v@[1].name@ == "Chicago"@ && v@[1].series_prefix@ == "KXHIGHCHI"@,
        v@[2].name@ == "Seattle"@ && v@[2].series_prefix@ == "KXHIGHSEA"@,
        v@[3].name@ == "Atlanta"@ && v@[3].series_prefix@ == "KXHIGHATL"@,
        v@[4].name@ == "Dallas"@ && v@[4].series_prefix@ == "KXHIGHDAL"@,
{
    let mut v: Vec<CityConfig> = Vec::new();
    v.push(city("New York City", 40_712_800, -74_006_000, "OKX", 33, 37, "KXHIGHNYC"));
    v.push(city("Chicago", 41_878_100, -87_629_800, "LOT", 76, 73, "KXHIGHCHI"));
    v.push(city("Seattle", 47_606_200, -122_332_100, "SEW", 124, 67, "KXHIGHSEA"));
    v.push(city("Atlanta", 33_749_000, -84_388_000, "FFC", 50, 86, "KXHIGHATL"));
    v.push(city("Dallas", 32_776_700, -96_797_000, "FWD", 80, 108, "KXHIGHDAL"));
    v
}

/// The default strategy thresholds.
pub open spec fn strategy_defaults() -> StrategyConfig {
    StrategyConfig {
        entry_threshold_cents: 15,
        exit_threshold_cents: 45,
        edge_threshold_cents: 5,
        safety_margin_cents: 3,
        max_position_cents: 500,
        max_trades_per_run: 5,
        max_spread_cents: 10,
        min_minutes_before_close: 120,
        max_days_to_resolution: 11,
    }
}

/// The default risk limits.
pub open spec fn risk_defaults() -> RiskConfig {
    RiskConfig {
        max_position_cents: 500,
        max_total_exposure_cents: 5000,
        max_city_exposure_cents: 1500,
        max_daily_loss_cents: 2000,
        max_orders_per_minute: 10,
        min_balance_cents: 100,
    }
}

/// The default cadences.
pub open spec fn timing_defaults() -> TimingConfig {
    TimingConfig {
        scan_interval_secs: 120,
        forecast_interval_secs: 1800,
        discovery_interval_secs: 1800,
        price_stale_secs: 300,
        forecast_stale_secs: 3600,
    }
}

/// The default source weights: half and half.
pub open spec fn sources_defaults() -> WeatherSourcesConfig {
    WeatherSourcesConfig { noaa_weight_ppm: 500_000, google_weight_ppm: 500_000 }
}

/// The default quality gates.
pub open spec fn quality_defaults() -> QualityConfig {
    QualityConfig {
        mode: QualityMode::UltraSafe,
        strict_source_veto: true,
        require_both_sources: true,
        max_source_prob_gap_ppm: 80_000,
        min_source_confidence_ppm: 650_000,
        min_ensemble_confidence_ppm: 750_000,
        min_conservative_net_edge_cents: 8,
        min_conservative_ev_cents: 4,
        min_volume_24h: 50,
        min_open_interest: 25,
        slippage_buffer_cents: 1,
        max_spread_cents_ultra: 6,
    }
}

impl Default for StrategyConfig {
    fn default() -> (c: StrategyConfig)
        ensures
            c == strategy_defaults(),
    {
        StrategyConfig {
            entry_threshold_cents: default_entry(),
            exit_threshold_cents: default_exit(),
            edge_threshold_cents: default_edge(),
            safety_margin_cents: default_safety(),
            max_position_cents: default_max_position(),
            max_trades_per_run: default_max_trades(),
            max_spread_cents: default_max_spread(),
            min_minutes_before_close: default_min_minutes(),
            max_days_to_resolution: default_max_days_to_resolution(),
        }
    }
}

impl Default for TimingConfig {
    fn default() -> (c: TimingConfig)
        ensures
            c == timing_defaults(),
    {
        TimingConfig {
            scan_interval_secs: default_scan_interval(),
            forecast_interval_secs: default_forecast_interval(),
            discovery_interval_secs: default_discovery_interval(),
            price_stale_secs: default_price_stale(),
            forecast_stale_secs: default_forecast_stale(),
        }
    }
}

impl Default for RiskConfig {
    fn default() -> (c: RiskConfig)
        ensures
            c == risk_defaults(),
    {
        RiskConfig {
            max_position_cents: default_max_position(),
            max_total_exposure_cents: default_max_total_exposure(),
            max_city_exposure_cents: default_max_city_exposure(),
            max_daily_loss_cents: default_max_daily_loss(),
            max_orders_per_minute: default_max_orders_per_min(),
            min_balance_cents: default_min_balance(),
        }
    }
}

impl Default for WeatherSourcesConfig {
    fn default() -> (c: WeatherSourcesConfig)
        ensures
            c == sources_defaults(),
    {
        WeatherSourcesConfig { noaa_weight_ppm: 500_000, google_weight_ppm: 500_000 }
    }
}

impl Default for QualityConfig {
    fn default() -> (c: QualityConfig)
        ensures
            c == quality_defaults(),
    {
        QualityConfig {
            mode: default_quality_mode(),
            strict_source_veto: default_true(),
            require_both_sources: default_true(),
            max_source_prob_gap_ppm: 80_000,
            min_source_confidence_ppm: 650_000,
            min_ensemble_confidence_ppm: 750_000,
            min_conservative_net_edge_cents: default_min_conservative_net_edge_cents(),
            min_conservative_ev_cents: default_min_conservative_ev_cents(),
            min_volume_24h: default_min_volume_24h(),
            min_open_interest: default_min_open_interest(),
            slippage_buffer_cents: default_slippage_buffer_cents(),
            max_spread_cents_ultra: default_max_spread_cents_ultra(),
        }
    }
}

impl Default for BotConfig {
    fn default() -> (c: BotConfig)
        ensures
            c.api_key@.len() == 0,
            c.secret_key@.len() == 0,
            c.use_demo,
            c.cities@.len() == 5,
            texts(c.series_prefixes@) == default_prefixes(),
            c.strategy == strategy_defaults(),
            c.risk == risk_defaults(),
            c.timing == timing_defaults(),
            c.weather_sources == sources_defaults(),
            c.google_weather_api_key@.len() == 0,
            c.quality == quality_defaults(),
    {
        BotConfig {
            api_key: String::new(),
            secret_key: String::new(),
            use_demo: true,
            cities: default_cities(),
            series_prefixes: default_series_prefixes(),
            strategy: StrategyConfig::default(),
            risk: RiskConfig::default(),
            timing: TimingConfig::default(),
            weather_sources: WeatherSourcesConfig::default(),
            google_weather_api_key: String::new(),
            quality: QualityConfig::default(),
        }
    }
}

/// A switch read from text is on unless the text, trimmed and in small
/// letters, is one of `0`, `false`, `no`, `off`.
pub open spec fn switch_on(raw: Seq<char>) -> bool {
    let v = ascii_lower(trimmed(raw));
    v != "0"@ && v != "false"@ && v != "no"@ && v != "off"@
}

/// Reads a switch from text.
pub fn parse_bool(raw: &str) -> (on: bool)
    ensures
        on == switch_on(raw@),
{
    let v = ascii_lower_chars(&trim_chars(&chars_of(raw)));
    !same_chars(&v, &chars_of("0")) && !same_chars(&v, &chars_of("false")) && !same_chars(
        &v,
        &chars_of("no"),
    ) && !same_chars(&v, &chars_of("off"))
}

/// The quality mode named by a text, trimmed and in small letters.
pub open spec fn quality_mode_named(raw: Seq<char>) -> Option<QualityMode> {
    let v = ascii_lower(trimmed(raw));
    if v == "ultra_safe"@ || v == "ultrasafe"@ {
        Some(QualityMode::UltraSafe)
    } else if v == "balanced"@ {
        Some(QualityMode::Balanced)
    } else if v == "aggressive"@ {
        Some(QualityMode::Aggressive)
    } else {
        None
    }
}

/// Reads a quality mode from text.
pub fn parse_quality_mode(raw: &str) -> (r: Result<QualityMode, Error>)
    ensures
        match r {
            Ok(mode) => quality_mode_named(raw@) == Some(mode),
            Err(e) => quality_mode_named(raw@) is None && (e matches Error::Config(m) && m@
                == "WEATHER_QUALITY_MODE must be one of: ultra_safe, balanced, aggressive"@),
        },
{
    let v = ascii_lower_chars(&trim_chars(&chars_of(raw)));
    if same_chars(&v, &chars_of("ultra_safe")) || same_chars(&v, &chars_of("ultrasafe")) {
        Ok(QualityMode::UltraSafe)
    } else if same_chars(&v, &chars_of("balanced")) {
        Ok(QualityMode::Balanced)
    } else if same_chars(&v, &chars_of("aggressive")) {
        Ok(QualityMode::Aggressive)
    } else {
        Err(
            Error::Config(
                String::from_str(
                    "WEATHER_QUALITY_MODE must be one of: ultra_safe, balanced, aggressive",
                ),
            ),
        )
    }
}

/// The source settings after the fallbacks for a missing key or missing
/// weights have been applied.
pub open spec fn with_source_fallbacks(
    has_google_key: bool,
    sources: WeatherSourcesConfig,
    require_both: bool,
) -> (WeatherSourcesConfig, bool) {
    let google = if !has_google_key && sources.google_weight_ppm > 0 {
        0
    } else {
        sources.google_weight_ppm
    };
    let both = require_both && has_google_key && sources.noaa_weight_ppm > 0 && google > 0;
    if sources.noaa_weight_ppm + google <= 0 {
        (WeatherSourcesConfig { noaa_weight_ppm: 1_000_000, google_weight_ppm: 0 }, both)
    } else {
        (WeatherSourcesConfig { noaa_weight_ppm: sources.noaa_weight_ppm, google_weight_ppm: google }, both)
    }
}

/// Falls back gracefully when a forecast source cannot be used: without a
/// key the second source gets no weight and is not required; requiring
/// both sources needs both weights positive; with no weight at all the
/// first source is used alone.
pub fn apply_weather_source_fallbacks(config: &mut BotConfig)
    ensures
        (final(config).weather_sources, final(config).quality.require_both_sources)
            == with_source_fallbacks(
            trimmed(old(config).google_weather_api_key@).len() > 0,
            old(config).weather_sources,
            old(config).quality.require_both_sources,
        ),
        final(config).quality == (QualityConfig {
            require_both_sources: final(config).quality.require_both_sources,
            ..old(config).quality
        }),
        final(config).api_key == old(config).api_key,
        final(config).secret_key == old(config).secret_key,
        final(config).use_demo == old(config).use_demo,
        final(config).cities == old(config).cities,
        final(config).series_prefixes == old(config).series_prefixes,
        final(config).strategy == old(config).strategy,
        final(config).risk == old(config).risk,
        final(config).timing == old(config).timing,
        final(config).google_weather_api_key == old(config).google_weather_api_key,
{
    let key = trim_chars(&chars_of(config.google_weather_api_key.as_str()));
    let has_google_key = key.len() > 0;
    if !has_google_key {
        if config.weather_sources.google_weight_ppm > 0 {
            config.weather_sources.google_weight_ppm = 0;
        }
        if config.quality.require_both_sources {
            config.quality.require_both_sources = false;
        }
    }
    if config.quality.require_both_sources && (config.weather_sources.noaa_weight_ppm <= 0
        || config.weather_sources.google_weight_ppm <= 0) {
        config.quality.require_both_sources = false;
    }
    if config.weather_sources.noaa_weight_ppm as i128 + config.weather_sources.google_weight_ppm as i128
        <= 0 {
        config.weather_sources.noaa_weight_ppm = 1_000_000;
        config.weather_sources.google_weight_ppm = 0;
    }
}

/// One issue if `present`, none otherwise.
pub open spec fn issue_if(present: bool, text: Seq<char>) -> Seq<Seq<char>> {
    if present {
        seq![text]
    } else {
        Seq::empty()
    }
}

/// What is wrong with the lists of cities and prefixes.
pub open spec fn list_issues(c: BotConfig) -> Seq<Seq<char>> {
    issue_if(c.cities@.len() == 0, "cities must contain at least one city"@) + issue_if(
        c.series_prefixes@.len() == 0,
        "series_prefixes must contain at least one prefix"@,
    )
}

/// What is wrong with the strategy thresholds.
pub open spec fn strategy_issues(s: StrategyConfig) -> Seq<Seq<char>> {
    issue_if(s.entry_threshold_cents <= 0, "strategy.entry_threshold_cents must be > 0"@) + issue_if(
        s.exit_threshold_cents <= 0,
        "strategy.exit_threshold_cents must be > 0"@,
    ) + issue_if(s.edge_threshold_cents < 0, "strategy.edge_threshold_cents must be >= 0"@)
        + issue_if(s.max_position_cents <= 0, "strategy.max_position_cents must be > 0"@)
        + issue_if(s.max_spread_cents < 0, "strategy.max_spread_cents must be >= 0"@) + issue_if(
        s.min_minutes_before_close < 0,
        "strategy.min_hours_before_close must be >= 0"@,
    ) + issue_if(s.max_days_to_resolution <= 0, "strategy.max_days_to_resolution must be > 0"@)
}

/// What is wrong with the risk limits.
pub open spec fn risk_issues(r: RiskConfig) -> Seq<Seq<char>> {
    issue_if(r.max_position_cents <= 0, "risk.max_position_cents must be > 0"@) + issue_if(
        r.max_total_exposure_cents <= 0,
        "risk.max_total_exposure_cents must be > 0"@,
    ) + issue_if(r.max_city_exposure_cents <= 0, "risk.max_city_exposure_cents must be > 0"@)
        + issue_if(r.max_daily_loss_cents <= 0, "risk.max_daily_loss_cents must be > 0"@)
        + issue_if(r.max_orders_per_minute == 0, "risk.max_orders_per_minute must be > 0"@)
        + issue_if(r.min_balance_cents < 0, "risk.min_balance_cents must be >= 0"@) + issue_if(
        r.max_total_exposure_cents < r.max_position_cents,
        "risk.max_total_exposure_cents must be >= risk.max_position_cents"@,
    ) + issue_if(
        r.max_total_exposure_cents < r.max_city_exposure_cents,
        "risk.max_total_exposure_cents must be >= risk.max_city_exposure_cents"@,
    )
}

/// What is wrong with the cadences.
pub open spec fn timing_issues(t: TimingConfig) -> Seq<Seq<char>> {
    issue_if(t.scan_interval_secs == 0, "timing.scan_interval_secs must be > 0"@) + issue_if(
        t.discovery_interval_secs == 0,
        "timing.discovery_interval_secs must be > 0"@,
    ) + issue_if(t.forecast_interval_secs == 0, "timing.forecast_interval_secs must be > 0"@)
        + issue_if(t.price_stale_secs == 0, "timing.price_stale_secs must be > 0"@) + issue_if(
        t.forecast_stale_secs == 0,
        "timing.forecast_stale_secs must be > 0"@,
    )
}

/// What is wrong with the source weights.
pub open spec fn source_issues(w: WeatherSourcesConfig) -> Seq<Seq<char>> {
    issue_if(w.noaa_weight_ppm < 0, "weather_sources.noaa_weight must be >= 0"@) + issue_if(
        w.google_weight_ppm < 0,
        "weather_sources.google_weight must be >= 0"@,
    ) + issue_if(
        w.noaa_weight_ppm + w.google_weight_ppm <= 0,
        "weather_sources total weight must be > 0"@,
    )
}

/// What is wrong with the quality gates.
pub open spec fn quality_issues(q: QualityConfig) -> Seq<Seq<char>> {
    issue_if(
        q.max_source_prob_gap_ppm < 0 || q.max_source_prob_gap_ppm > 1_000_000,
        "quality.max_source_prob_gap must be in [0,1]"@,
    ) + issue_if(
        q.min_source_confidence_ppm < 0 || q.min_source_confidence_ppm > 1_000_000,
        "quality.min_source_confidence must be in [0,1]"@,
    ) + issue_if(
        q.min_ensemble_confidence_ppm < 0 || q.min_ensemble_confidence_ppm > 1_000_000,
        "quality.min_ensemble_confidence must be in [0,1]"@,
    ) + issue_if(
        q.min_conservative_net_edge_cents < 0,
        "quality.min_conservative_net_edge_cents must be >= 0"@,
    ) + issue_if(
        q.min_conservative_ev_cents < 0,
        "quality.min_conservative_ev_cents must be >= 0"@,
    ) + issue_if(q.min_volume_24h < 0, "quality.min_volume_24h must be >= 0"@) + issue_if(
        q.min_open_interest < 0,
        "quality.min_open_interest must be >= 0"@,
    ) + issue_if(q.slippage_buffer_cents < 0, "quality.slippage_buffer_cents must be >= 0"@)
        + issue_if(q.max_spread_cents_ultra < 0, "quality.max_spread_cents_ultra must be >= 0"@)
}

/// Everything that is wrong with a configuration, in the order in which
/// it is reported.
pub open spec fn config_issues(c: BotConfig) -> Seq<Seq<char>> {
    list_issues(c) + strategy_issues(c.strategy) + risk_issues(c.risk) + timing_issues(c.timing)
        + source_issues(c.weather_sources) + quality_issues(c.quality)
}

/// The issues written one to a line, each behind a dash.
pub open spec fn issue_lines(issues: Seq<Seq<char>>) -> Seq<char>
    decreases issues.len(),
{
    if issues.len() == 0 {
        Seq::empty()
    } else {
        issue_lines(issues.drop_last()) + "\n - "@ + issues.last()
    }
}

/// The message that reports the issues of a configuration.
pub open spec fn invalid_config_text(issues: Seq<Seq<char>>) -> Seq<char> {
    "Invalid config:"@ + issue_lines(issues)
}

fn note(issues: &mut Vec<String>, present: bool, text: &str)
    ensures
        texts(final(issues)@) == texts(old(issues)@) + issue_if(present, text@),
{
    if present {
        issues.push(String::from_str(text));
        assert(texts(issues@) =~= texts(old(issues)@) + seq![text@]);
    } else {
        assert(texts(issues@) =~= texts(old(issues)@) + Seq::<Seq<char>>::empty());
    }
}

fn fresh_issues() -> (issues: Vec<String>)
    ensures
        texts(issues@) == Seq::<Seq<char>>::empty(),
{
    let issues: Vec<String> = Vec::new();
    assert(texts(issues@) =~= Seq::<Seq<char>>::empty());
    issues
}

fn extend_issues(issues: &mut Vec<String>, more: Vec<String>)
    ensures
        texts(final(issues)@) == texts(old(issues)@) + texts(more@),
{
    let mut more = more;
    let ghost added = more@;
    issues.append(&mut more);
    assert(texts(issues@) =~= texts(old(issues)@) + texts(added));
}

fn check_lists(c: &BotConfig) -> (issues: Vec<String>)
    ensures
        texts(issues@) == list_issues(*c),
{
    let mut issues = fresh_issues();
    note(&mut issues, c.cities.len() == 0, "cities must contain at least one city");
    note(&mut issues, c.series_prefixes.len() == 0, "series_prefixes must contain at least one prefix");
    issues
}

fn check_strategy(s: &StrategyConfig) -> (issues: Vec<String>)
    ensures
        texts(issues@) == strategy_issues(*s),
{
    let mut issues = fresh_issues();
    note(&mut issues, s.entry_threshold_cents <= 0, "strategy.entry_threshold_cents must be > 0");
    note(&mut issues, s.exit_threshold_cents <= 0, "strategy.exit_threshold_cents must be > 0");
    note(&mut issues, s.edge_threshold_cents < 0, "strategy.edge_threshold_cents must be >= 0");
    note(&mut issues, s.max_position_cents <= 0, "strategy.max_position_cents must be > 0");
    note(&mut issues, s.max_spread_cents < 0, "strategy.max_spread_cents must be >= 0");
    note(&mut issues, s.min_minutes_before_close < 0, "strategy.min_hours_before_close must be >= 0");
    note(&mut issues, s.max_days_to_resolution <= 0, "strategy.max_days_to_resolution must be > 0");
    issues
}

fn check_risk(r: &RiskConfig) -> (issues: Vec<String>)
    ensures
        texts(issues@) == risk_issues(*r),
{
    let mut issues = fresh_issues();
    note(&mut issues, r.max_position_cents <= 0, "risk.max_position_cents must be > 0");
    note(&mut issues, r.max_total_exposure_cents <= 0, "risk.max_total_exposure_cents must be > 0");
    note(&mut issues, r.max_city_exposure_cents <= 0, "risk.max_city_exposure_cents must be > 0");
    note(&mut issues, r.max_daily_loss_cents <= 0, "risk.max_daily_loss_cents must be > 0");
    note(&mut issues, r.max_orders_per_minute == 0, "risk.max_orders_per_minute must be > 0");
    note(&mut issues, r.min_balance_cents < 0, "risk.min_balance_cents must be >= 0");
    note(
        &mut issues,
        r.max_total_exposure_cents < r.max_position_cents,
        "risk.max_total_exposure_cents must be >= risk.max_position_cents",
    );
    note(
        &mut issues,
        r.max_total_exposure_cents < r.max_city_exposure_cents,
        "risk.max_total_exposure_cents must be >= risk.max_city_exposure_cents",
    );
    issues
}

fn check_timing(t: &TimingConfig) -> (issues: Vec<String>)
    ensures
        texts(issues@) == timing_issues(*t),
{
    let mut issues = fresh_issues();
    note(&mut issues, t.scan_interval_secs == 0, "timing.scan_interval_secs must be > 0");
    note(&mut issues, t.discovery_interval_secs == 0, "timing.discovery_interval_secs must be > 0");
    note(&mut issues, t.forecast_interval_secs == 0, "timing.forecast_interval_secs must be > 0");
    note(&mut issues, t.price_stale_secs == 0, "timing.price_stale_secs must be > 0");
    note(&mut issues, t.forecast_stale_secs == 0, "timing.forecast_stale_secs must be > 0");
    issues
}

fn check_sources(w: &WeatherSourcesConfig) -> (issues: Vec<String>)
    ensures
        texts(issues@) == source_issues(*w),
{
    let mut issues = fresh_issues();
    note(&mut issues, w.noaa_weight_ppm < 0, "weather_sources.noaa_weight must be >= 0");
    note(&mut issues, w.google_weight_ppm < 0, "weather_sources.google_weight must be >= 0");
    note(
        &mut issues,
        w.noaa_weight_ppm as i128 + w.google_weight_ppm as i128 <= 0,
        "weather_sources total weight must be > 0",
    );
    issues
}

fn check_quality(q: &QualityConfig) -> (issues: Vec<String>)
    ensures
        texts(issues@) == quality_issues(*q),
{
    let mut issues = fresh_issues();
    note(
        &mut issues,
        q.max_source_prob_gap_ppm < 0 || q.max_source_prob_gap_ppm > 1_000_000,
        "quality.max_source_prob_gap must be in [0,1]",
    );
    note(
        &mut issues,
        q.min_source_confidence_ppm < 0 || q.min_source_confidence_ppm > 1_000_000,
        "quality.min_source_confidence must be in [0,1]",
    );
    note(
        &mut issues,
        q.min_ensemble_confidence_ppm < 0 || q.min_ensemble_confidence_ppm > 1_000_000,
        "quality.min_ensemble_confidence must be in [0,1]",
    );
    note(
        &mut issues,
        q.min_conservative_net_edge_cents < 0,
        "quality.min_conservative_net_edge_cents must be >= 0",
    );
    note(
        &mut issues,
        q.min_conservative_ev_cents < 0,
        "quality.min_conservative_ev_cents must be >= 0",
    );
    note(&mut issues, q.min_volume_24h < 0, "quality.min_volume_24h must be >= 0");
    note(&mut issues, q.min_open_interest < 0, "quality.min_open_interest must be >= 0");
    note(&mut issues, q.slippage_buffer_cents < 0, "quality.slippage_buffer_cents must be >= 0");
    note(&mut issues, q.max_spread_cents_ultra < 0, "quality.max_spread_cents_ultra must be >= 0");
    issues
}

/// Checks a configuration before the strategy starts. Every issue is
/// reported, not just the first.
pub fn validate_config(config: &BotConfig) -> (r: Result<(), Error>)
    ensures
        match r {
            Ok(()) => config_issues(*config).len() == 0,
            Err(e) => config_issues(*config).len() > 0 && (e matches Error::Config(m) && m@
                == invalid_config_text(config_issues(*config))),
        },
{
    let mut issues = check_lists(config);
    extend_issues(&mut issues, check_strategy(&config.strategy));
    extend_issues(&mut issues, check_risk(&config.risk));
    extend_issues(&mut issues, check_timing(&config.timing));
    extend_issues(&mut issues, check_sources(&config.weather_sources));
    extend_issues(&mut issues, check_quality(&config.quality));
    if issues.len() == 0 {
        return Ok(());
    }
    let mut message = String::from_str("Invalid config:");
    let mut i: usize = 0;
    while i < issues.len()
        invariant
            i <= issues.len(),
            message@ == "Invalid config:"@ + issue_lines(texts(issues@).take(i as int)),
        decreases issues.len() - i,
    {
        proof {
            let next = texts(issues@).take(i + 1);
            assert(next.drop_last() =~= texts(issues@).take(i as int));
            assert(next.last() == issues@[i as int]@);
        }
        let ghost before = message@;
        push_text(&mut message, "\n - ");
        push_text(&mut message, issues[i].as_str());
        assert(message@ =~= "Invalid config:"@ + (issue_lines(texts(issues@).take(i as int))
            + "\n - "@ + issues@[i as int]@));
        i += 1;
    }
    assert(texts(issues@).take(issues@.len() as int) =~= texts(issues@));
    Err(Error::Config(message))
}

/// What the environment says about the configuration. Each value is
/// the raw text of one variable, absent when the variable is not set.
#[derive(Clone, Debug)]
pub struct EnvOverrides {
    pub api_key: Option<String>,
    pub secret_key: Option<String>,
    pub use_demo: Option<String>,
    pub max_days_to_resolution: Option<String>,
    pub max_position_cents: Option<String>,
    pub google_weather_api_key: Option<String>,
    pub noaa_weight: Option<String>,
    pub google_weight: Option<String>,
    pub quality_mode: Option<String>,
    pub strict_source_veto: Option<String>,
    pub require_both_sources: Option<String>,
    pub max_source_prob_gap: Option<String>,
    pub min_source_confidence: Option<String>,
    pub min_ensemble_confidence: Option<String>,
    pub min_conservative_net_edge_cents: Option<String>,
    pub min_conservative_ev_cents: Option<String>,
    pub min_volume_24h: Option<String>,
    pub min_open_interest: Option<String>,
    pub slippage_buffer_cents: Option<String>,
    pub max_spread_cents_ultra: Option<String>,
}

/// A setting after its override: the value read from the text if there
/// is one and it satisfies `accepts`, the current value if there is no
/// text, and otherwise the complaint.
pub open spec fn overridden(
    raw: Option<String>,
    current: i64,
    read: Option<int>,
    least: int,
    complaint: Seq<char>,
) -> Result<i64, Seq<char>> {
    match raw {
        None => Ok(current),
        Some(_) => match read {
            Some(v) => if v >= least {
                Ok(v as i64)
            } else {
                Err(complaint)
            },
            None => Err(complaint),
        },
    }
}

/// A whole number of at least `least` read from a variable.
pub open spec fn whole_override(raw: Option<String>, current: i64, least: int, complaint: Seq<char>) -> Result<
    i64,
    Seq<char>,
> {
    overridden(
        raw,
        current,
        match raw {
            Some(t) => crate::parse::parsed_i64(trimmed(t@)),
            None => None,
        },
        least,
        complaint,
    )
}

/// A fraction that is not negative, in millionths, read from a variable.
pub open spec fn fraction_override(raw: Option<String>, current: i64, complaint: Seq<char>) -> Result<
    i64,
    Seq<char>,
> {
    overridden(
        raw,
        current,
        match raw {
            Some(t) => crate::parse::parsed_ppm(trimmed(t@), 1_000_000),
            None => None,
        },
        0,
        complaint,
    )
}

/// A switch after its override.
pub open spec fn switch_override(raw: Option<String>, current: bool) -> bool {
    match raw {
        Some(t) => switch_on(t@),
        None => current,
    }
}

/// A text after its override.
pub open spec fn text_override(raw: Option<String>, current: String) -> String {
    match raw {
        Some(t) => t,
        None => current,
    }
}

/// The complaint about a whole number that must not be negative.
pub open spec fn must_be_whole(name: Seq<char>) -> Seq<char> {
    name + " must be an integer >= 0"@
}

/// The complaint about a whole number that must be positive.
pub open spec fn must_be_positive(name: Seq<char>) -> Seq<char> {
    name + " must be an integer > 0"@
}

/// The complaint about a number that must not be negative.
pub open spec fn must_be_number(name: Seq<char>) -> Seq<char> {
    name + " must be a number >= 0"@
}

fn complaint(name: &str, rest: &str) -> (e: Error)
    ensures
        e matches Error::Config(m) && m@ == name@ + rest@,
{
    let mut m = String::from_str(name);
    push_text(&mut m, rest);
    Error::Config(m)
}

/// Reads a whole number that is not negative from the text of the
/// variable `env_name`.
pub fn parse_non_negative_i64(raw: &str, env_name: &str) -> (r: Result<i64, Error>)
    ensures
        match r {
            Ok(v) => crate::parse::parsed_i64(trimmed(raw@)) == Some(v as int) && v >= 0,
            Err(e) => !(crate::parse::parsed_i64(trimmed(raw@)) matches Some(v) && v >= 0) && (
            e matches Error::Config(m) && m@ == must_be_whole(env_name@)),
        },
{
    let t = crate::text::string_of(&trim_chars(&chars_of(raw)));
    match crate::parse::parse_i64(t.as_str()) {
        Some(v) => {
            if v >= 0 {
                Ok(v)
            } else {
                Err(complaint(env_name, " must be an integer >= 0"))
            }
        },
        None => Err(complaint(env_name, " must be an integer >= 0")),
    }
}

/// Reads a positive whole number from the text of the variable
/// `env_name`.
pub fn parse_positive_i64(raw: &str, env_name: &str) -> (r: Result<i64, Error>)
    ensures
        match r {
            Ok(v) => crate::parse::parsed_i64(trimmed(raw@)) == Some(v as int) && v > 0,
            Err(e) => !(crate::parse::parsed_i64(trimmed(raw@)) matches Some(v) && v > 0) && (
            e matches Error::Config(m) && m@ == must_be_positive(env_name@)),
        },
{
    let t = crate::text::string_of(&trim_chars(&chars_of(raw)));
    match crate::parse::parse_i64(t.as_str()) {
        Some(v) => {
            if v > 0 {
                Ok(v)
            } else {
                Err(complaint(env_name, " must be an integer > 0"))
            }
        },
        None => Err(complaint(env_name, " must be an integer > 0")),
    }
}

/// Reads a fraction that is not negative, in millionths, from the text
/// of the variable `env_name`.
pub fn parse_non_negative_ppm(raw: &str, env_name: &str) -> (r: Result<i64, Error>)
    ensures
        match r {
            Ok(v) => crate::parse::parsed_ppm(trimmed(raw@), 1_000_000) == Some(v as int) && v >= 0,
            Err(e) => !(crate::parse::parsed_ppm(trimmed(raw@), 1_000_000) matches Some(v) && v
                >= 0) && (e matches Error::Config(m) && m@ == must_be_number(env_name@)),
        },
{
    let t = crate::text::string_of(&trim_chars(&chars_of(raw)));
    match crate::parse::parse_ppm(t.as_str()) {
        Some(v) => {
            if v >= 0 {
                Ok(v)
            } else {
                Err(complaint(env_name, " must be a number >= 0"))
            }
        },
        None => Err(complaint(env_name, " must be a number >= 0")),
    }
}

fn override_whole(raw: &Option<String>, current: i64, env_name: &str) -> (r: Result<i64, Error>)
    ensures
        match r {
            Ok(v) => whole_override(*raw, current, 0, must_be_whole(env_name@)) == Ok::<
                i64,
                Seq<char>,
            >(v),
            Err(e) => whole_override(*raw, current, 0, must_be_whole(env_name@)) is Err && (
            e matches Error::Config(m) && m@ == must_be_whole(env_name@)),
        },
{
    match raw {
        Some(t) => parse_non_negative_i64(t.as_str(), env_name),
        None => Ok(current),
    }
}

fn override_positive(raw: &Option<String>, current: i64, env_name: &str) -> (r: Result<i64, Error>)
    ensures
        match r {
            Ok(v) => whole_override(*raw, current, 1, must_be_positive(env_name@)) == Ok::<
                i64,
                Seq<char>,
            >(v),
            Err(e) => whole_override(*raw, current, 1, must_be_positive(env_name@)) is Err && (
            e matches Error::Config(m) && m@ == must_be_positive(env_name@)),
        },
{
    match raw {
        Some(t) => parse_positive_i64(t.as_str(), env_name),
        None => Ok(current),
    }
}

fn override_fraction(raw: &Option<String>, current: i64, env_name: &str) -> (r: Result<i64, Error>)
    ensures
        match r {
            Ok(v) => fraction_override(*raw, current, must_be_number(env_name@)) == Ok::<
                i64,
                Seq<char>,
            >(v),
            Err(e) => fraction_override(*raw, current, must_be_number(env_name@)) is Err && (
            e matches Error::Config(m) && m@ == must_be_number(env_name@)),
        },
{
    match raw {
        Some(t) => parse_non_negative_ppm(t.as_str(), env_name),
        None => Ok(current),
    }
}

fn override_switch(raw: &Option<String>, current: bool) -> (r: bool)
    ensures
        r == switch_override(*raw, current),
{
    match raw {
        Some(t) => parse_bool(t.as_str()),
        None => current,
    }
}

fn override_text(raw: &Option<String>, current: String) -> (r: String)
    ensures
        r == text_override(*raw, current),
{
    match raw {
        Some(t) => t.clone(),
        None => current,
    }
}

/// The two position limits after their override: the strategy's and
/// the risk manager's move together.
pub open spec fn limits_overridden(base: BotConfig, env: EnvOverrides) -> Result<
    (StrategyConfig, RiskConfig),
    Seq<char>,
> {
    match whole_override(
        env.max_days_to_resolution,
        base.strategy.max_days_to_resolution,
        1,
        must_be_positive("WEATHER_MAX_DAYS_TO_RESOLUTION"@),
    ) {
        Err(m) => Err(m),
        Ok(days) => match whole_override(
            env.max_position_cents,
            base.strategy.max_position_cents,
            1,
            must_be_positive("WEATHER_MAX_POSITION_CENTS"@),
        ) {
            Err(m) => Err(m),
            Ok(position) => Ok(
                (
                    StrategyConfig {
                        max_days_to_resolution: days,
                        max_position_cents: position,
                        ..base.strategy
                    },
                    RiskConfig {
                        max_position_cents: if env.max_position_cents is Some {
                            position
                        } else {
                            base.risk.max_position_cents
                        },
                        ..base.risk
                    },
                ),
            ),
        },
    }
}

/// The source weights after their override.
pub open spec fn sources_overridden(base: WeatherSourcesConfig, env: EnvOverrides) -> Result<
    WeatherSourcesConfig,
    Seq<char>,
> {
    match fraction_override(
        env.noaa_weight,
        base.noaa_weight_ppm,
        must_be_number("WEATHER_NOAA_WEIGHT"@),
    ) {
        Err(m) => Err(m),
        Ok(noaa) => match fraction_override(
            env.google_weight,
            base.google_weight_ppm,
            must_be_number("WEATHER_GOOGLE_WEIGHT"@),
        ) {
            Err(m) => Err(m),
            Ok(google) => Ok(WeatherSourcesConfig { noaa_weight_ppm: noaa, google_weight_ppm: google }),
        },
    }
}

/// The mode and the switches of the quality gates after their override.
pub open spec fn quality_switches_overridden(base: QualityConfig, env: EnvOverrides) -> Result<
    QualityConfig,
    Seq<char>,
> {
    let mode = match env.quality_mode {
        Some(t) => quality_mode_named(t@),
        None => Some(base.mode),
    };
    match mode {
        None => Err("WEATHER_QUALITY_MODE must be one of: ultra_safe, balanced, aggressive"@),
        Some(m) => Ok(
            QualityConfig {
                mode: m,
                strict_source_veto: switch_override(env.strict_source_veto, base.strict_source_veto),
                require_both_sources: switch_override(
                    env.require_both_sources,
                    base.require_both_sources,
                ),
                ..base
            },
        ),
    }
}

/// The fractions of the quality gates after their override.
pub open spec fn quality_fractions_overridden(base: QualityConfig, env: EnvOverrides) -> Result<
    QualityConfig,
    Seq<char>,
> {
    match fraction_override(
        env.max_source_prob_gap,
        base.max_source_prob_gap_ppm,
        must_be_number("WEATHER_MAX_SOURCE_PROB_GAP"@),
    ) {
        Err(m) => Err(m),
        Ok(gap) => match fraction_override(
            env.min_source_confidence,
            base.min_source_confidence_ppm,
            must_be_number("WEATHER_MIN_SOURCE_CONFIDENCE"@),
        ) {
            Err(m) => Err(m),
            Ok(source) => match fraction_override(
                env.min_ensemble_confidence,
                base.min_ensemble_confidence_ppm,
                must_be_number("WEATHER_MIN_ENSEMBLE_CONFIDENCE"@),
            ) {
                Err(m) => Err(m),
                Ok(ensemble) => Ok(
                    QualityConfig {
                        max_source_prob_gap_ppm: gap,
                        min_source_confidence_ppm: source,
                        min_ensemble_confidence_ppm: ensemble,
                        ..base
                    },
                ),
            },
        },
    }
}

/// The floors of edge and expected value after their override.
pub open spec fn quality_edges_overridden(base: QualityConfig, env: EnvOverrides) -> Result<
    QualityConfig,
    Seq<char>,
> {
    match whole_override(
        env.min_conservative_net_edge_cents,
        base.min_conservative_net_edge_cents,
        0,
        must_be_whole("WEATHER_MIN_CONSERVATIVE_NET_EDGE_CENTS"@),
    ) {
        Err(m) => Err(m),
        Ok(edge) => match whole_override(
            env.min_conservative_ev_cents,
            base.min_conservative_ev_cents,
            0,
            must_be_whole("WEATHER_MIN_CONSERVATIVE_EV_CENTS"@),
        ) {
            Err(m) => Err(m),
            Ok(ev) => Ok(
                QualityConfig {
                    min_conservative_net_edge_cents: edge,
                    min_conservative_ev_cents: ev,
                    ..base
                },
            ),
        },
    }
}

/// The liquidity floors, the slippage buffer and the spread cap after
/// their override.
pub open spec fn quality_market_overridden(base: QualityConfig, env: EnvOverrides) -> Result<
    QualityConfig,
    Seq<char>,
> {
    match whole_override(
        env.min_volume_24h,
        base.min_volume_24h,
        0,
        must_be_whole("WEATHER_MIN_VOLUME_24H"@),
    ) {
        Err(m) => Err(m),
        Ok(volume) => match whole_override(
            env.min_open_interest,
            base.min_open_interest,
            0,
            must_be_whole("WEATHER_MIN_OPEN_INTEREST"@),
        ) {
            Err(m) => Err(m),
            Ok(interest) => match whole_override(
                env.slippage_buffer_cents,
                base.slippage_buffer_cents,
                0,
                must_be_whole("WEATHER_SLIPPAGE_BUFFER_CENTS"@),
            ) {
                Err(m) => Err(m),
                Ok(slippage) => match whole_override(
                    env.max_spread_cents_ultra,
                    base.max_spread_cents_ultra,
                    0,
                    must_be_whole("WEATHER_MAX_SPREAD_CENTS_ULTRA"@),
                ) {
                    Err(m) => Err(m),
                    Ok(spread) => Ok(
                        QualityConfig {
                            min_volume_24h: volume,
                            min_open_interest: interest,
                            slippage_buffer_cents: slippage,
                            max_spread_cents_ultra: spread,
                            ..base
                        },
                    ),
                },
            },
        },
    }
}

/// The quality gates after every override, in the order in which the
/// variables are read.
pub open spec fn quality_overridden(base: QualityConfig, env: EnvOverrides) -> Result<
    QualityConfig,
    Seq<char>,
> {
    match quality_switches_overridden(base, env) {
        Err(m) => Err(m),
        Ok(a) => match quality_fractions_overridden(a, env) {
            Err(m) => Err(m),
            Ok(b) => match quality_edges_overridden(b, env) {
                Err(m) => Err(m),
                Ok(c) => quality_market_overridden(c, env),
            },
        },
    }
}

/// The configuration with the overrides of the environment applied, or
/// the complaint about the first variable that cannot be read.
pub open spec fn with_overrides(base: BotConfig, env: EnvOverrides) -> Result<BotConfig, Seq<char>> {
    match limits_overridden(base, env) {
        Err(m) => Err(m),
        Ok((strategy, risk)) => match sources_overridden(base.weather_sources, env) {
            Err(m) => Err(m),
            Ok(sources) => match quality_overridden(base.quality, env) {
                Err(m) => Err(m),
                Ok(quality) => Ok(
                    BotConfig {
                        api_key: text_override(env.api_key, base.api_key),
                        secret_key: text_override(env.secret_key, base.secret_key),
                        use_demo: switch_override(env.use_demo, base.use_demo),
                        strategy,
                        risk,
                        weather_sources: sources,
                        google_weather_api_key: text_override(
                            env.google_weather_api_key,
                            base.google_weather_api_key,
                        ),
                        quality,
                        ..base
                    },
                ),
            },
        },
    }
}

fn no(e: Error) -> (r: Result<QualityConfig, Error>)
    ensures
        r == Err::<QualityConfig, Error>(e),
{
    Err(e)
}

/// `r` reports what `expected` says: the same value, or the same
/// complaint as a configuration error.
pub open spec fn reports<T>(r: Result<T, Error>, expected: Result<T, Seq<char>>) -> bool {
    match r {
        Ok(v) => expected == Ok::<T, Seq<char>>(v),
        Err(e) => expected is Err && (e matches Error::Config(m) && m@ == expected->Err_0),
    }
}

fn override_limits(base: &BotConfig, env: &EnvOverrides) -> (r: Result<(StrategyConfig, RiskConfig), Error>)
    ensures
        reports(r, limits_overridden(*base, *env)),
{
    let days = match override_positive(
        &env.max_days_to_resolution,
        base.strategy.max_days_to_resolution,
        "WEATHER_MAX_DAYS_TO_RESOLUTION",
    ) {
        Ok(v) => v,
        Err(e) => {
            return Err(e);
        },
    };
    let position = match override_positive(
        &env.max_position_cents,
        base.strategy.max_position_cents,
        "WEATHER_MAX_POSITION_CENTS",
    ) {
        Ok(v) => v,
        Err(e) => {
            return Err(e);
        },
    };
    let mut strategy = base.strategy;
    strategy.max_days_to_resolution = days;
    strategy.max_position_cents = position;
    let mut risk = base.risk;
    if env.max_position_cents.is_some() {
        risk.max_position_cents = position;
    }
    Ok((strategy, risk))
}

fn override_sources(base: &WeatherSourcesConfig, env: &EnvOverrides) -> (r: Result<
    WeatherSourcesConfig,
    Error,
>)
    ensures
        reports(r, sources_overridden(*base, *env)),
{
    let noaa = match override_fraction(&env.noaa_weight, base.noaa_weight_ppm, "WEATHER_NOAA_WEIGHT") {
        Ok(v) => v,
        Err(e) => {
            return Err(e);
        },
    };
    let google = match override_fraction(
        &env.google_weight,
        base.google_weight_ppm,
        "WEATHER_GOOGLE_WEIGHT",
    ) {
        Ok(v) => v,
        Err(e) => {
            return Err(e);
        },
    };
    Ok(WeatherSourcesConfig { noaa_weight_ppm: noaa, google_weight_ppm: google })
}

fn override_quality_switches(base: &QualityConfig, env: &EnvOverrides) -> (r: Result<QualityConfig, Error>)
    ensures
        reports(r, quality_switches_overridden(*base, *env)),
{
    let mode = match &env.quality_mode {
        Some(t) => match parse_quality_mode(t.as_str()) {
            Ok(m) => m,
            Err(e) => {
                return no(e);
            },
        },
        None => base.mode,
    };
    let mut q = *base;
    q.mode = mode;
    q.strict_source_veto = override_switch(&env.strict_source_veto, base.strict_source_veto);
    q.require_both_sources = override_switch(&env.require_both_sources, base.require_both_sources);
    Ok(q)
}

fn override_quality_fractions(base: &QualityConfig, env: &EnvOverrides) -> (r: Result<QualityConfig, Error>)
    ensures
        reports(r, quality_fractions_overridden(*base, *env)),
{
    let gap = match override_fraction(
        &env.max_source_prob_gap,
        base.max_source_prob_gap_ppm,
        "WEATHER_MAX_SOURCE_PROB_GAP",
    ) {
        Ok(v) => v,
        Err(e) => {
            return no(e);
        },
    };
    let source = match override_fraction(
        &env.min_source_confidence,
        base.min_source_confidence_ppm,
        "WEATHER_MIN_SOURCE_CONFIDENCE",
    ) {
        Ok(v) => v,
        Err(e) => {
            return no(e);
        },
    };
    let ensemble = match override_fraction(
        &env.min_ensemble_confidence,
        base.min_ensemble_confidence_ppm,
        "WEATHER_MIN_ENSEMBLE_CONFIDENCE",
    ) {
        Ok(v) => v,
        Err(e) => {
            return no(e);
        },
    };
    let mut q = *base;
    q.max_source_prob_gap_ppm = gap;
    q.min_source_confidence_ppm = source;
    q.min_ensemble_confidence_ppm = ensemble;
    Ok(q)
}

fn override_quality_edges(base: &QualityConfig, env: &EnvOverrides) -> (r: Result<QualityConfig, Error>)
    ensures
        reports(r, quality_edges_overridden(*base, *env)),
{
    let edge = match override_whole(
        &env.min_conservative_net_edge_cents,
        base.min_conservative_net_edge_cents,
        "WEATHER_MIN_CONSERVATIVE_NET_EDGE_CENTS",
    ) {
        Ok(v) => v,
        Err(e) => {
            return no(e);
        },
    };
    let ev = match override_whole(
        &env.min_conservative_ev_cents,
        base.min_conservative_ev_cents,
        "WEATHER_MIN_CONSERVATIVE_EV_CENTS",
    ) {
        Ok(v) => v,
        Err(e) => {
            return no(e);
        },
    };
    let mut q = *base;
    q.min_conservative_net_edge_cents = edge;
    q.min_conservative_ev_cents = ev;
    Ok(q)
}

fn override_quality_market(base: &QualityConfig, env: &EnvOverrides) -> (r: Result<QualityConfig, Error>)
    ensures
        reports(r, quality_market_overridden(*base, *env)),
{
    let volume = match override_whole(&env.min_volume_24h, base.min_volume_24h, "WEATHER_MIN_VOLUME_24H") {
        Ok(v) => v,
        Err(e) => {
            return no(e);
        },
    };
    let interest = match override_whole(
        &env.min_open_interest,
        base.min_open_interest,
        "WEATHER_MIN_OPEN_INTEREST",
    ) {
        Ok(v) => v,
        Err(e) => {
            return no(e);
        },
    };
    let slippage = match override_whole(
        &env.slippage_buffer_cents,
        base.slippage_buffer_cents,
        "WEATHER_SLIPPAGE_BUFFER_CENTS",
    ) {
        Ok(v) => v,
        Err(e) => {
            return no(e);
        },
    };
    let spread = match override_whole(
        &env.max_spread_cents_ultra,
        base.max_spread_cents_ultra,
        "WEATHER_MAX_SPREAD_CENTS_ULTRA",
    ) {
        Ok(v) => v,
        Err(e) => {
            return no(e);
        },
    };
    let mut q = *base;
    q.min_volume_24h = volume;
    q.min_open_interest = interest;
    q.slippage_buffer_cents = slippage;
    q.max_spread_cents_ultra = spread;
    Ok(q)
}

fn override_quality(base: &QualityConfig, env: &EnvOverrides) -> (r: Result<QualityConfig, Error>)
    ensures
        reports(r, quality_overridden(*base, *env)),
{
    let a = match override_quality_switches(base, env) {
        Ok(v) => v,
        Err(e) => {
            return Err(e);
        },
    };
    let b = match override_quality_fractions(&a, env) {
        Ok(v) => v,
        Err(e) => {
            return Err(e);
        },
    };
    let c = match override_quality_edges(&b, env) {
        Ok(v) => v,
        Err(e) => {
            return Err(e);
        },
    };
    override_quality_market(&c, env)
}

/// Applies the overrides of the environment to `base`.
pub fn apply_overrides(base: BotConfig, env: &EnvOverrides) -> (r: Result<BotConfig, Error>)
    ensures
        reports(r, with_overrides(base, *env)),
{
    let (strategy, risk) = match override_limits(&base, env) {
        Ok(v) => v,
        Err(e) => {
            return Err(e);
        },
    };
    let sources = match override_sources(&base.weather_sources, env) {
        Ok(v) => v,
        Err(e) => {
            return Err(e);
        },
    };
    let quality = match override_quality(&base.quality, env) {
        Ok(v) => v,
        Err(e) => {
            return Err(e);
        },
    };
    Ok(
        BotConfig {
            api_key: override_text(&env.api_key, base.api_key),
            secret_key: override_text(&env.secret_key, base.secret_key),
            use_demo: override_switch(&env.use_demo, base.use_demo),
            cities: base.cities,
            series_prefixes: base.series_prefixes,
            strategy,
            risk,
            timing: base.timing,
            weather_sources: sources,
            google_weather_api_key: override_text(
                &env.google_weather_api_key,
                base.google_weather_api_key,
            ),
            quality,
        },
    )
}

/// What stands in the way of a configuration once the overrides are in:
/// a missing key, a missing secret, or the issues of validation.
pub open spec fn startup_issue(c: BotConfig) -> Option<Seq<char>> {
    if c.api_key@.len() == 0 {
        Some("KALSHI_API_KEY is required (set in .env or environment)"@)
    } else if c.secret_key@.len() == 0 {
        Some("KALSHI_SECRET_KEY is required (set in .env or environment)"@)
    } else if config_issues(c).len() > 0 {
        Some(invalid_config_text(config_issues(c)))
    } else {
        None
    }
}

/// `c` is `before` with the fallbacks for the forecast sources applied.
pub open spec fn is_with_fallbacks(c: BotConfig, before: BotConfig) -> bool {
    &&& (c.weather_sources, c.quality.require_both_sources) == with_source_fallbacks(
        trimmed(before.google_weather_api_key@).len() > 0,
        before.weather_sources,
        before.quality.require_both_sources,
    )
    &&& c.quality == (QualityConfig {
        require_both_sources: c.quality.require_both_sources,
        ..before.quality
    })
    &&& c.api_key == before.api_key
    &&& c.secret_key == before.secret_key
    &&& c.use_demo == before.use_demo
    &&& c.cities == before.cities
    &&& c.series_prefixes == before.series_prefixes
    &&& c.strategy == before.strategy
    &&& c.risk == before.risk
    &&& c.timing == before.timing
    &&& c.google_weather_api_key == before.google_weather_api_key
}

/// The configuration of the strategy: `base`, which comes from the
/// defaults or from a file, with the overrides of the environment and
/// the fallbacks for the forecast sources applied, and then checked. The
/// first thing that is wrong is reported.
pub fn load_config(base: BotConfig, env: &EnvOverrides) -> (r: Result<BotConfig, Error>)
    ensures
        match r {
            Ok(c) => with_overrides(base, *env) matches Ok(o) && is_with_fallbacks(c, o)
                && startup_issue(c) is None,
            Err(e) => e matches Error::Config(m) && (match with_overrides(base, *env) {
                Err(complaint) => m@ == complaint,
                Ok(o) => exists|c: BotConfig|
                    is_with_fallbacks(c, o) && #[trigger] startup_issue(c) == Some(m@),
            }),
        },
{
    let mut config = match apply_overrides(base, env) {
        Ok(c) => c,
        Err(e) => {
            return Err(e);
        },
    };
    let ghost before = config;
    apply_weather_source_fallbacks(&mut config);
    assert(is_with_fallbacks(config, before));
    if config.api_key.as_str().is_empty() {
        return Err(
            Error::Config(
                String::from_str("KALSHI_API_KEY is required (set in .env or environment)"),
            ),
        );
    }
    if config.secret_key.as_str().is_empty() {
        return Err(
            Error::Config(
                String::from_str("KALSHI_SECRET_KEY is required (set in .env or environment)"),
            ),
        );
    }
    match validate_config(&config) {
        Ok(()) => Ok(config),
        Err(e) => {
            assert(startup_issue(config) is Some);
            Err(e)
        },
    }
}

} // verus!
