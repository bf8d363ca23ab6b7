use kalshi_core::arb::config::{
    ArbBotConfig, ArbConfig, ArbRiskConfig, ArbTimingConfig, ExecutionConfig,
};
use kalshi_core::config::{
    apply_overrides, apply_weather_source_fallbacks, load_config, parse_bool,
    parse_non_negative_i64, parse_non_negative_ppm, parse_positive_i64, parse_quality_mode,
    validate_config, BotConfig, EnvOverrides, QualityConfig, QualityMode, RiskConfig,
    StrategyConfig, TimingConfig, WeatherSourcesConfig,
};
use kalshi_core::error::Error;
use kalshi_core::parse::{parse_i64, parse_ppm};

fn no_overrides() -> EnvOverrides {
    EnvOverrides {
        api_key: None,
        secret_key: None,
        use_demo: None,
        max_days_to_resolution: None,
        max_position_cents: None,
        google_weather_api_key: None,
        noaa_weight: None,
        google_weight: None,
        quality_mode: None,
        strict_source_veto: None,
        require_both_sources: None,
        max_source_prob_gap: None,
        min_source_confidence: None,
        min_ensemble_confidence: None,
        min_conservative_net_edge_cents: None,
        min_conservative_ev_cents: None,
        min_volume_24h: None,
        min_open_interest: None,
        slippage_buffer_cents: None,
        max_spread_cents_ultra: None,
    }
}

fn with_keys() -> EnvOverrides {
    let mut env = no_overrides();
    env.api_key = Some("key".into());
    env.secret_key = Some("secret".into());
    env.google_weather_api_key = Some("gkey".into());
    env
}

#[test]
fn missing_google_key_disables_google_requirements() {
    let mut cfg = BotConfig::default();
    cfg.weather_sources.noaa_weight_ppm = 500_000;
    cfg.weather_sources.google_weight_ppm = 500_000;
    cfg.quality.require_both_sources = true;
    cfg.google_weather_api_key.clear();

    apply_weather_source_fallbacks(&mut cfg);

    assert_eq!(cfg.weather_sources.google_weight_ppm, 0);
    assert!(!cfg.quality.require_both_sources);
    assert_eq!(cfg.weather_sources.noaa_weight_ppm, 500_000);
}

#[test]
fn all_zero_weights_fallback_to_noaa_only() {
    let mut cfg = BotConfig::default();
    cfg.weather_sources.noaa_weight_ppm = 0;
    cfg.weather_sources.google_weight_ppm = 0;
    cfg.quality.require_both_sources = false;

    apply_weather_source_fallbacks(&mut cfg);

    assert_eq!(cfg.weather_sources.noaa_weight_ppm, 1_000_000);
    assert_eq!(cfg.weather_sources.google_weight_ppm, 0);
}

#[test]
fn fallbacks_leave_a_complete_setup_alone() {
    let mut cfg = BotConfig::default();
    cfg.google_weather_api_key = "  key ".into();
    apply_weather_source_fallbacks(&mut cfg);
    assert_eq!(cfg.weather_sources, WeatherSourcesConfig { noaa_weight_ppm: 500_000, google_weight_ppm: 500_000 });
    assert!(cfg.quality.require_both_sources);
    // a blank key is no key
    cfg.google_weather_api_key = " \t ".into();
    apply_weather_source_fallbacks(&mut cfg);
    assert_eq!(cfg.weather_sources.google_weight_ppm, 0);
    assert!(!cfg.quality.require_both_sources);
    // both sources cannot be required of a source without weight
    let mut cfg = BotConfig::default();
    cfg.google_weather_api_key = "key".into();
    cfg.weather_sources.noaa_weight_ppm = 0;
    apply_weather_source_fallbacks(&mut cfg);
    assert!(!cfg.quality.require_both_sources);
    assert_eq!(cfg.weather_sources, WeatherSourcesConfig { noaa_weight_ppm: 0, google_weight_ppm: 500_000 });
}

#[test]
fn defaults_of_the_forecast_strategy() {
    let cfg = BotConfig::default();
    assert!(cfg.use_demo);
    assert!(cfg.api_key.is_empty());
    assert_eq!(cfg.cities.len(), 5);
    assert_eq!(cfg.cities[0].name, "New York City");
    assert_eq!(cfg.cities[0].wfo, "OKX");
    assert_eq!((cfg.cities[0].grid_x, cfg.cities[0].grid_y), (33, 37));
    assert_eq!((cfg.cities[0].lat_micro, cfg.cities[0].lon_micro), (40_712_800, -74_006_000));
    assert_eq!(cfg.cities[4].series_prefix, "KXHIGHDAL");
    assert_eq!(
        cfg.series_prefixes,
        vec!["KXHIGHNYC", "KXHIGHCHI", "KXHIGHSEA", "KXHIGHATL", "KXHIGHDAL"]
    );
    assert_eq!(
        cfg.strategy,
        StrategyConfig {
            entry_threshold_cents: 15,
            exit_threshold_cents: 45,
            edge_threshold_cents: 5,
            safety_margin_cents: 3,
            max_position_cents: 500,
            max_trades_per_run: 5,
            max_spread_cents: 10,
            min_minutes_before_close: 120,
            max_days_to_resolution: 11,
        }
    );
    assert_eq!(
        cfg.risk,
        RiskConfig {
            max_position_cents: 500,
            max_total_exposure_cents: 5000,
            max_city_exposure_cents: 1500,
            max_daily_loss_cents: 2000,
            max_orders_per_minute: 10,
            min_balance_cents: 100,
        }
    );
    assert_eq!(
        cfg.timing,
        TimingConfig {
            scan_interval_secs: 120,
            forecast_interval_secs: 1800,
            discovery_interval_secs: 1800,
            price_stale_secs: 300,
            forecast_stale_secs: 3600,
        }
    );
    assert_eq!(
        cfg.quality,
        QualityConfig {
            mode: QualityMode::UltraSafe,
            strict_source_veto: true,
            require_both_sources: true,
            max_source_prob_gap_ppm: 80_000,
            min_source_confidence_ppm: 650_000,
            min_ensemble_confidence_ppm: 750_000,
            min_conservative_net_edge_cents: 8,
            min_conservative_ev_cents: 4,
            min_volume_24h: 50,
            min_open_interest: 25,
            slippage_buffer_cents: 1,
            max_spread_cents_ultra: 6,
        }
    );
}

#[test]
fn defaults_of_the_arbitrage_strategy() {
    let cfg = ArbBotConfig::default();
    assert!(cfg.use_demo);
    assert_eq!(
        cfg.arb,
        ArbConfig {
            min_profit_cents: 1,
            slippage_buffer_cents: 1,
            ev_mode_enabled: true,
            guaranteed_arb_only: true,
            strict_binary_only: true,
            tie_buffer_cents: 5,
            min_leg_size: 5,
            default_qty: 10,
        }
    );
    assert_eq!(
        cfg.timing,
        ArbTimingConfig {
            universe_refresh_secs: 900,
            eval_interval_ms: 1000,
            quote_stale_secs: 120,
            price_stale_secs: 300,
        }
    );
    assert_eq!(
        cfg.risk,
        ArbRiskConfig {
            max_exposure_per_event_cents: 1000,
            max_total_exposure_cents: 5000,
            max_attempts_per_group_per_min: 3,
            max_unwind_loss_cents: 50,
            kill_switch_disconnect_count: 5,
            max_orders_per_minute: 10,
            min_balance_cents: 100,
            max_daily_loss_cents: 2000,
        }
    );
    let ex = ExecutionConfig::default();
    assert_eq!(ex.time_in_force, "fok");
    assert_eq!(ex.unwind_policy, "cross_spread");
}

#[test]
fn arbitrage_configuration_needs_both_credentials() {
    let base = ArbBotConfig::default();
    let err = kalshi_core::arb::config::load_config(base.clone(), None, Some("s".into()), None).unwrap_err();
    assert_eq!(
        err.to_string(),
        "Config error: KALSHI_API_KEY is required (set in .env or environment)"
    );
    let err = kalshi_core::arb::config::load_config(base.clone(), Some("k".into()), None, None).unwrap_err();
    assert_eq!(
        err.to_string(),
        "Config error: KALSHI_SECRET_KEY is required (set in .env or environment)"
    );
    let load = |demo: &str| {
        kalshi_core::arb::config::load_config(
            base.clone(),
            Some("k".into()),
            Some("s".into()),
            Some(demo.into()),
        )
        .unwrap()
    };
    assert!(!load("0").use_demo);
    assert!(!load("false").use_demo);
    assert!(!load("FALSE").use_demo);
    assert!(!load("False").use_demo);
    assert!(load("1").use_demo);
    assert!(load("no").use_demo);
    assert!(load(" false").use_demo);
    let c = load("true");
    assert_eq!((c.api_key.as_str(), c.secret_key.as_str()), ("k", "s"));
}

#[test]
fn switches_read_from_text() {
    for off in ["0", "false", "no", "off", " FALSE ", "No", "\tOFF\n"] {
        assert!(!parse_bool(off), "{:?}", off);
    }
    for on in ["1", "true", "yes", "on", "", "  ", "00", "nope", "f alse"] {
        assert!(parse_bool(on), "{:?}", on);
    }
}

#[test]
fn quality_modes_read_from_text() {
    assert_eq!(parse_quality_mode("ultra_safe").unwrap(), QualityMode::UltraSafe);
    assert_eq!(parse_quality_mode(" UltraSafe ").unwrap(), QualityMode::UltraSafe);
    assert_eq!(parse_quality_mode("BALANCED").unwrap(), QualityMode::Balanced);
    assert_eq!(parse_quality_mode("aggressive\n").unwrap(), QualityMode::Aggressive);
    assert_eq!(
        parse_quality_mode("bold").unwrap_err().to_string(),
        "Config error: WEATHER_QUALITY_MODE must be one of: ultra_safe, balanced, aggressive"
    );
}

#[test]
fn whole_numbers_read_from_text() {
    assert_eq!(parse_i64("0"), Some(0));
    assert_eq!(parse_i64("+17"), Some(17));
    assert_eq!(parse_i64("-17"), Some(-17));
    assert_eq!(parse_i64("007"), Some(7));
    assert_eq!(parse_i64("9223372036854775807"), Some(i64::MAX));
    assert_eq!(parse_i64("-9223372036854775808"), Some(i64::MIN));
    assert_eq!(parse_i64("9223372036854775808"), None);
    assert_eq!(parse_i64("-9223372036854775809"), None);
    assert_eq!(parse_i64("99999999999999999999999999999999999999999"), None);
    for bad in ["", "+", "-", " 1", "1 ", "1.0", "1e3", "--1", "+-1", "1_000", "x", "١"] {
        assert_eq!(parse_i64(bad), None, "{:?}", bad);
    }
    assert_eq!(parse_non_negative_i64(" 42 ", "X").unwrap(), 42);
    assert_eq!(parse_non_negative_i64("-0", "X").unwrap(), 0);
    assert_eq!(
        parse_non_negative_i64("-1", "WEATHER_MIN_VOLUME_24H").unwrap_err().to_string(),
        "Config error: WEATHER_MIN_VOLUME_24H must be an integer >= 0"
    );
    assert!(parse_non_negative_i64("abc", "X").is_err());
    assert_eq!(parse_positive_i64("3", "X").unwrap(), 3);
    assert_eq!(
        parse_positive_i64("0", "WEATHER_MAX_POSITION_CENTS").unwrap_err().to_string(),
        "Config error: WEATHER_MAX_POSITION_CENTS must be an integer > 0"
    );
}

#[test]
fn fractions_read_from_text() {
    assert_eq!(parse_ppm("0.08"), Some(80_000));
    assert_eq!(parse_ppm("0.5"), Some(500_000));
    assert_eq!(parse_ppm("1"), Some(1_000_000));
    assert_eq!(parse_ppm("1."), Some(1_000_000));
    assert_eq!(parse_ppm(".25"), Some(250_000));
    assert_eq!(parse_ppm("+0.000001"), Some(1));
    assert_eq!(parse_ppm("0.0000019"), Some(1));
    assert_eq!(parse_ppm("-0.5"), Some(-500_000));
    assert_eq!(parse_ppm("12.345678"), Some(12_345_678));
    assert_eq!(parse_ppm("1000000"), Some(1_000_000_000_000));
    assert_eq!(parse_ppm("1000001"), None);
    for bad in ["", ".", "+", "-.", "1.2.3", "1e3", " 1", "0,5", "abc", "1.x"] {
        assert_eq!(parse_ppm(bad), None, "{:?}", bad);
    }
    assert_eq!(parse_non_negative_ppm(" 0.65 ", "X").unwrap(), 650_000);
    assert_eq!(
        parse_non_negative_ppm("-0.1", "WEATHER_NOAA_WEIGHT").unwrap_err().to_string(),
        "Config error: WEATHER_NOAA_WEIGHT must be a number >= 0"
    );
    assert!(parse_non_negative_ppm("half", "X").is_err());
}

#[test]
fn a_valid_configuration_passes() {
    assert!(validate_config(&BotConfig::default()).is_ok());
}

#[test]
fn every_issue_of_a_configuration_is_reported() {
    let mut cfg = BotConfig::default();
    cfg.cities.clear();
    cfg.strategy.entry_threshold_cents = 0;
    cfg.risk.max_total_exposure_cents = 100;
    cfg.timing.price_stale_secs = 0;
    cfg.weather_sources.noaa_weight_ppm = -1;
    cfg.quality.min_source_confidence_ppm = 1_000_001;
    cfg.quality.max_spread_cents_ultra = -1;
    let err = validate_config(&cfg).unwrap_err();
    assert_eq!(
        err.to_string(),
        "Config error: Invalid config:\n - cities must contain at least one city\n - strategy.entry_threshold_cents must be > 0\n - risk.max_total_exposure_cents must be >= risk.max_position_cents\n - risk.max_total_exposure_cents must be >= risk.max_city_exposure_cents\n - timing.price_stale_secs must be > 0\n - weather_sources.noaa_weight must be >= 0\n - quality.min_source_confidence must be in [0,1]\n - quality.max_spread_cents_ultra must be >= 0"
    );
    assert!(matches!(err, Error::Config(_)));
}

#[test]
fn each_setting_is_checked() {
    let check = |change: &dyn Fn(&mut BotConfig), expected: &str| {
        let mut cfg = BotConfig::default();
        change(&mut cfg);
        let err = validate_config(&cfg).unwrap_err().to_string();
        assert_eq!(err, format!("Config error: Invalid config:\n - {}", expected));
    };
    check(&|c| c.series_prefixes.clear(), "series_prefixes must contain at least one prefix");
    check(&|c| c.strategy.exit_threshold_cents = 0, "strategy.exit_threshold_cents must be > 0");
    check(&|c| c.strategy.edge_threshold_cents = -1, "strategy.edge_threshold_cents must be >= 0");
    check(&|c| c.strategy.max_position_cents = 0, "strategy.max_position_cents must be > 0");
    check(&|c| c.strategy.max_spread_cents = -1, "strategy.max_spread_cents must be >= 0");
    check(&|c| c.strategy.min_minutes_before_close = -1, "strategy.min_hours_before_close must be >= 0");
    check(&|c| c.strategy.max_days_to_resolution = 0, "strategy.max_days_to_resolution must be > 0");
    check(&|c| c.risk.max_daily_loss_cents = 0, "risk.max_daily_loss_cents must be > 0");
    check(&|c| c.risk.max_orders_per_minute = 0, "risk.max_orders_per_minute must be > 0");
    check(&|c| c.risk.min_balance_cents = -1, "risk.min_balance_cents must be >= 0");
    check(&|c| c.timing.scan_interval_secs = 0, "timing.scan_interval_secs must be > 0");
    check(&|c| c.timing.discovery_interval_secs = 0, "timing.discovery_interval_secs must be > 0");
    check(&|c| c.timing.forecast_interval_secs = 0, "timing.forecast_interval_secs must be > 0");
    check(&|c| c.timing.forecast_stale_secs = 0, "timing.forecast_stale_secs must be > 0");
    check(&|c| c.weather_sources.google_weight_ppm = -1, "weather_sources.google_weight must be >= 0");
    check(&|c| c.quality.max_source_prob_gap_ppm = -1, "quality.max_source_prob_gap must be in [0,1]");
    check(&|c| c.quality.min_ensemble_confidence_ppm = 1_000_001, "quality.min_ensemble_confidence must be in [0,1]");
    check(&|c| c.quality.min_conservative_net_edge_cents = -1, "quality.min_conservative_net_edge_cents must be >= 0");
    check(&|c| c.quality.min_conservative_ev_cents = -1, "quality.min_conservative_ev_cents must be >= 0");
    check(&|c| c.quality.min_volume_24h = -1, "quality.min_volume_24h must be >= 0");
    check(&|c| c.quality.min_open_interest = -1, "quality.min_open_interest must be >= 0");
    check(&|c| c.quality.slippage_buffer_cents = -1, "quality.slippage_buffer_cents must be >= 0");
}

#[test]
fn overrides_are_applied() {
    let mut env = with_keys();
    env.use_demo = Some("no".into());
    env.max_days_to_resolution = Some(" 7 ".into());
    env.max_position_cents = Some("250".into());
    env.noaa_weight = Some("0.75".into());
    env.google_weight = Some("0.25".into());
    env.quality_mode = Some("Balanced".into());
    env.strict_source_veto = Some("off".into());
    env.require_both_sources = Some("1".into());
    env.max_source_prob_gap = Some("0.1".into());
    env.min_source_confidence = Some("0.6".into());
    env.min_ensemble_confidence = Some("0.7".into());
    env.min_conservative_net_edge_cents = Some("9".into());
    env.min_conservative_ev_cents = Some("5".into());
    env.min_volume_24h = Some("60".into());
    env.min_open_interest = Some("30".into());
    env.slippage_buffer_cents = Some("2".into());
    env.max_spread_cents_ultra = Some("4".into());
    let cfg = load_config(BotConfig::default(), &env).unwrap();
    assert_eq!(cfg.api_key, "key");
    assert_eq!(cfg.secret_key, "secret");
    assert_eq!(cfg.google_weather_api_key, "gkey");
    assert!(!cfg.use_demo);
    assert_eq!(cfg.strategy.max_days_to_resolution, 7);
    assert_eq!(cfg.strategy.max_position_cents, 250);
    assert_eq!(cfg.risk.max_position_cents, 250);
    assert_eq!(cfg.weather_sources, WeatherSourcesConfig { noaa_weight_ppm: 750_000, google_weight_ppm: 250_000 });
    assert_eq!(
        cfg.quality,
        QualityConfig {
            mode: QualityMode::Balanced,
            strict_source_veto: false,
            require_both_sources: true,
            max_source_prob_gap_ppm: 100_000,
            min_source_confidence_ppm: 600_000,
            min_ensemble_confidence_ppm: 700_000,
            min_conservative_net_edge_cents: 9,
            min_conservative_ev_cents: 5,
            min_volume_24h: 60,
            min_open_interest: 30,
            slippage_buffer_cents: 2,
            max_spread_cents_ultra: 4,
        }
    );
    assert_eq!(cfg.strategy.entry_threshold_cents, 15);
    assert_eq!(cfg.cities.len(), 5);
}

#[test]
fn the_first_bad_override_is_reported() {
    let mut env = with_keys();
    env.max_position_cents = Some("0".into());
    env.noaa_weight = Some("x".into());
    assert_eq!(
        load_config(BotConfig::default(), &env).unwrap_err().to_string(),
        "Config error: WEATHER_MAX_POSITION_CENTS must be an integer > 0"
    );
    env.max_days_to_resolution = Some("soon".into());
    assert_eq!(
        apply_overrides(BotConfig::default(), &env).unwrap_err().to_string(),
        "Config error: WEATHER_MAX_DAYS_TO_RESOLUTION must be an integer > 0"
    );
    let mut env = with_keys();
    env.quality_mode = Some("bold".into());
    env.max_spread_cents_ultra = Some("-1".into());
    assert_eq!(
        load_config(BotConfig::default(), &env).unwrap_err().to_string(),
        "Config error: WEATHER_QUALITY_MODE must be one of: ultra_safe, balanced, aggressive"
    );
    env.quality_mode = None;
    assert_eq!(
        load_config(BotConfig::default(), &env).unwrap_err().to_string(),
        "Config error: WEATHER_MAX_SPREAD_CENTS_ULTRA must be an integer >= 0"
    );
}

#[test]
fn credentials_and_validation_come_last() {
    let mut env = no_overrides();
    assert_eq!(
        load_config(BotConfig::default(), &env).unwrap_err().to_string(),
        "Config error: KALSHI_API_KEY is required (set in .env or environment)"
    );
    env.api_key = Some("key".into());
    assert_eq!(
        load_config(BotConfig::default(), &env).unwrap_err().to_string(),
        "Config error: KALSHI_SECRET_KEY is required (set in .env or environment)"
    );
    env.secret_key = Some("secret".into());
    // without a key for the second source the strategy falls back to the first
    let cfg = load_config(BotConfig::default(), &env).unwrap();
    assert_eq!(cfg.weather_sources.google_weight_ppm, 0);
    assert!(!cfg.quality.require_both_sources);
    let mut base = BotConfig::default();
    base.timing.scan_interval_secs = 0;
    assert_eq!(
        load_config(base, &env).unwrap_err().to_string(),
        "Config error: Invalid config:\n - timing.scan_interval_secs must be > 0"
    );
}
