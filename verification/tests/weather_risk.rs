use kalshi_core::arb::quotes::{PriceEntry, QuoteBook};
use kalshi_core::config::{BotConfig, QualityMode, RiskConfig};
use kalshi_core::types::{Action, MarketInfo, OrderIntent, Position, Side};
use kalshi_core::weather::cycle::plan_cycle;
use kalshi_core::weather::engine::{Moment, StrategyEngine};
use kalshi_core::weather::risk::{extract_city_prefix, RiskManager};
use kalshi_core::weather::signal::{new_forecast_cache, ForecastEntry, ProbabilityEstimate};

fn default_risk_config() -> RiskConfig {
    RiskConfig {
        max_position_cents: 500,
        max_total_exposure_cents: 5000,
        max_city_exposure_cents: 1500,
        max_daily_loss_cents: 2000,
        max_orders_per_minute: 10,
        min_balance_cents: 100,
    }
}

fn make_intent(ticker: &str, price: i64, count: i64) -> OrderIntent {
    OrderIntent {
        ticker: ticker.into(),
        side: Side::Yes,
        action: Action::Buy,
        price_cents: price,
        count,
        reason: "test".into(),
        estimated_fee_cents: 0,
        confidence_ppm: 900_000,
    }
}

fn make_sell(ticker: &str) -> OrderIntent {
    OrderIntent {
        ticker: ticker.into(),
        side: Side::Yes,
        action: Action::Sell,
        price_cents: 50,
        count: 5,
        reason: "test sell".into(),
        estimated_fee_cents: 0,
        confidence_ppm: 900_000,
    }
}

fn make_position(ticker: &str, exposure: i64, yes_count: i64) -> Position {
    Position {
        ticker: ticker.into(),
        yes_count,
        no_count: 0,
        market_exposure: exposure,
        realized_pnl: 0,
    }
}

#[test]
fn test_position_limit_enforced() {
    let rm = RiskManager::new(default_risk_config());
    let intent = make_intent("TEST-TICKER", 20, 30);
    let result = rm.check_order(&intent, &[], 10000);
    assert!(result.is_err(), "Should reject over-limit position");
    assert_eq!(
        result.unwrap_err().to_string(),
        "Risk check failed: Position limit exceeded for TEST-TICKER: current=0¢ + order=600¢ = 600¢ > max=500¢"
    );
}

#[test]
fn test_position_within_limit() {
    let rm = RiskManager::new(default_risk_config());
    let intent = make_intent("TEST-TICKER", 20, 20);
    let result = rm.check_order(&intent, &[], 10000);
    assert!(result.is_ok(), "Should allow within-limit position");
}

#[test]
fn test_insufficient_balance() {
    let rm = RiskManager::new(default_risk_config());
    let intent = make_intent("TEST-TICKER", 15, 20);
    let result = rm.check_order(&intent, &[], 200);
    assert!(result.is_err(), "Should reject when balance insufficient");
    assert_eq!(
        result.unwrap_err().to_string(),
        "Risk check failed: Insufficient balance: 200¢ - 300¢ < min 100¢"
    );
}

#[test]
fn test_sells_with_position_pass() {
    let rm = RiskManager::new(default_risk_config());
    let intent = make_sell("TEST");
    let positions = vec![make_position("TEST", 500, 10)];
    let result = rm.check_order(&intent, &positions, 0);
    assert!(result.is_ok(), "Sells with existing position should pass");
}

#[test]
fn test_sell_without_position_rejected() {
    let rm = RiskManager::new(default_risk_config());
    let intent = make_sell("NONEXISTENT");
    let result = rm.check_order(&intent, &[], 10000);
    assert!(result.is_err(), "Sells without position should be rejected");
    assert_eq!(
        result.unwrap_err().to_string(),
        "Risk check failed: Sell rejected for NONEXISTENT: no position found"
    );
}

#[test]
fn sell_needs_a_long_position_in_the_same_market() {
    let rm = RiskManager::new(default_risk_config());
    let intent = make_sell("TEST");
    assert!(rm.check_order(&intent, &[make_position("TEST", 500, 0)], 0).is_err());
    assert!(rm.check_order(&intent, &[make_position("TEST", 500, -3)], 0).is_err());
    assert!(rm.check_order(&intent, &[make_position("OTHER", 500, 10)], 0).is_err());
    assert!(rm
        .check_order(&intent, &[make_position("TEST", 500, 0), make_position("TEST", 1, 1)], 0)
        .is_ok());
}

#[test]
fn test_city_concentration_limit() {
    let rm = RiskManager::new(default_risk_config());
    let positions = vec![
        make_position("KXHIGHNYC-B50", 600, 10),
        make_position("KXHIGHNYC-B55", 600, 10),
    ];
    let intent = make_intent("KXHIGHNYC-B60", 20, 20);
    let result = rm.check_order(&intent, &positions, 10000);
    assert!(result.is_err(), "Should reject when city concentration exceeded");
    assert_eq!(
        result.unwrap_err().to_string(),
        "Risk check failed: City concentration limit for 'KXHIGHNYC': exposure=1600¢ > max=1500¢"
    );
}

#[test]
fn test_city_concentration_different_cities_ok() {
    let rm = RiskManager::new(default_risk_config());
    let positions = vec![
        make_position("KXHIGHNYC-B50", 600, 10),
        make_position("KXHIGHNYC-B55", 600, 10),
    ];
    let intent = make_intent("KXHIGHCHI-B30", 20, 20);
    let result = rm.check_order(&intent, &positions, 10000);
    assert!(result.is_ok(), "Different city should not be blocked by NYC concentration");
}

#[test]
fn city_prefix_is_upper_case_before_the_dash() {
    assert_eq!(extract_city_prefix("KXHIGHNYC-26FEB10-B50"), "KXHIGHNYC");
    assert_eq!(extract_city_prefix("kxhighnyc-26feb10"), "KXHIGHNYC");
    assert_eq!(extract_city_prefix("nodash"), "NODASH");
    assert_eq!(extract_city_prefix("-x"), "");
    assert_eq!(extract_city_prefix(""), "");
    // markets of one city count together whatever their capitals
    let rm = RiskManager::new(default_risk_config());
    let positions = vec![make_position("kxhighnyc-B50", -1_200, 10)];
    let intent = make_intent("KXHIGHNYC-B60", 20, 20);
    assert!(rm.check_order(&intent, &positions, 10000).is_err());
}

#[test]
fn test_drawdown_circuit_breaker() {
    let mut rm = RiskManager::new(default_risk_config());
    rm.set_session_balance(10000);
    let intent = make_intent("TEST-TICKER", 10, 5);
    let result = rm.check_order(&intent, &[], 7500);
    assert!(result.is_err(), "Should block all buys when drawdown exceeds limit");
    assert_eq!(
        result.unwrap_err().to_string(),
        "Risk check failed: Drawdown circuit-breaker: loss=2500¢ exceeds max=2000¢ (start=10000¢, now=7500¢)"
    );
}

#[test]
fn test_drawdown_within_limit() {
    let mut rm = RiskManager::new(default_risk_config());
    rm.set_session_balance(10000);
    let intent = make_intent("TEST-TICKER", 10, 5);
    let result = rm.check_order(&intent, &[], 9000);
    assert!(result.is_ok(), "Should allow buys when drawdown is within limit");
    // the session balance is fixed once
    rm.set_session_balance(1);
    assert!(rm.check_order(&intent, &[], 7999).is_err());
    assert!(rm.check_order(&intent, &[], 8000).is_ok());
}

#[test]
fn test_order_throttle() {
    let mut rm = RiskManager::new(RiskConfig {
        max_orders_per_minute: 3,
        ..default_risk_config()
    });
    rm.record_order();
    rm.record_order();
    rm.record_order();

    let intent = make_intent("TEST-TICKER", 10, 5);
    let result = rm.check_order(&intent, &[], 10000);
    assert!(result.is_err(), "Should reject when order frequency exceeds limit");
    assert_eq!(
        result.unwrap_err().to_string(),
        "Risk check failed: Order throttle: 3 orders in last 60s >= max 3"
    );
}

#[test]
fn throttle_window_is_a_minute() {
    let mut rm = RiskManager::new(RiskConfig {
        max_orders_per_minute: 2,
        ..default_risk_config()
    });
    rm.record_order_at(1_000);
    rm.record_order_at(2_000);
    let intent = make_intent("TEST-TICKER", 10, 5);
    assert!(rm.check_order_at(&intent, &[], 10000, 61_000).is_err());
    assert!(rm.check_order_at(&intent, &[], 10000, 61_001).is_ok());
    // sells are never throttled
    assert!(rm
        .check_order_at(&make_sell("T"), &[make_position("T", 0, 1)], 0, 3_000)
        .is_ok());
}

#[test]
fn test_total_exposure_limit() {
    let rm = RiskManager::new(default_risk_config());
    let positions: Vec<Position> = ["A", "B", "C", "D", "E", "F", "G", "H", "I", "J", "K", "L"]
        .iter()
        .map(|t| make_position(&format!("{}-1", t), 400, 10))
        .collect();
    let intent = make_intent("M-1", 15, 20);
    let result = rm.check_order(&intent, &positions, 10000);
    assert!(result.is_err(), "Should reject when total exposure limit exceeded");
    assert_eq!(
        result.unwrap_err().to_string(),
        "Risk check failed: Total exposure limit exceeded: current=4800¢ + order=300¢ > max=5000¢"
    );
}

#[test]
fn orders_must_be_sane() {
    let rm = RiskManager::new(default_risk_config());
    assert_eq!(
        rm.check_order(&make_intent("T", 10, 0), &[], 10000).unwrap_err().to_string(),
        "Risk check failed: Invalid quantity; must be positive"
    );
    assert_eq!(
        rm.check_order(&make_intent("T", 0, 1), &[], 10000).unwrap_err().to_string(),
        "Risk check failed: Invalid price; must be in [1,99]"
    );
    assert!(rm.check_order(&make_intent("T", 100, 1), &[], 10000).is_err());
    assert!(rm.check_order(&make_intent("T", 99, 1), &[], 10000).is_ok());
    assert!(rm.check_order(&make_intent("T", 1, i64::MAX), &[], i64::MAX).is_err());
}

#[test]
fn filter_spends_the_balance_as_it_goes() {
    let rm = RiskManager::new(default_risk_config());
    let intents = vec![
        make_intent("A-1", 20, 20),
        make_sell("GONE"),
        make_intent("B-1", 20, 20),
        make_intent("C-1", 20, 20),
        make_sell("HELD"),
    ];
    let positions = vec![make_position("HELD", 0, 1)];
    // 1000 of balance, 100 must stay: two purchases of 400 fit, the third does not
    let approved = rm.filter_intents(intents, &positions, 1_000);
    let tickers: Vec<&str> = approved.iter().map(|i| i.ticker.as_str()).collect();
    assert_eq!(tickers, vec!["A-1", "B-1", "HELD"]);
}

#[test]
fn legacy_constructor_keeps_the_other_defaults() {
    let rm = RiskManager::from_max_position(123);
    assert_eq!(rm.config.max_position_cents, 123);
    assert_eq!(rm.config.max_total_exposure_cents, 5000);
    assert_eq!(rm.config.max_city_exposure_cents, 1500);
    assert_eq!(rm.config.max_daily_loss_cents, 2000);
    assert_eq!(rm.config.max_orders_per_minute, 10);
    assert_eq!(rm.config.min_balance_cents, 100);
}

#[test]
fn a_tick_is_planned_from_evaluation_to_filter() {
    let mut cfg = BotConfig::default();
    cfg.quality.mode = QualityMode::Balanced;
    cfg.quality.strict_source_veto = false;
    cfg.quality.require_both_sources = false;
    cfg.quality.min_volume_24h = 0;
    cfg.quality.min_open_interest = 0;
    let engine = StrategyEngine::new(cfg);
    let mut risk = RiskManager::new(default_risk_config());
    let now = Moment { mono_ms: 5_000, utc_ms: 1_700_000_000_000 };
    let market = |t: &str| MarketInfo {
        ticker: t.into(),
        event_ticker: "EVT".into(),
        market_type: "binary".into(),
        title: String::new(),
        subtitle: String::new(),
        status: "open".into(),
        yes_bid: 8,
        yes_ask: 12,
        no_bid: 88,
        no_ask: 92,
        last_price: 10,
        volume: 100,
        volume_24h: 50,
        open_interest: 100,
        rules_primary: String::new(),
        rules_secondary: String::new(),
        close_time_ms: None,
        expiration_time_ms: None,
        result: None,
        strike_type: None,
        floor_strike: None,
        cap_strike: None,
        functional_strike: None,
        tick_size: None,
        response_price_units: None,
    };
    let markets = vec![market("KXHIGHNYC-A"), market("KXHIGHNYC-B"), market("KXHIGHNYC-C")];
    let mut prices = QuoteBook::new();
    let mut fc = new_forecast_cache();
    let sure = ProbabilityEstimate { p_yes: 1_000_000, confidence: 1_000_000, p_yes_low: 999_999, p_yes_high: 1_000_000 };
    for t in ["KXHIGHNYC-A", "KXHIGHNYC-B"] {
        prices.upsert(t, PriceEntry { yes_bid: 8, yes_ask: 12, last_price: 10, volume: 1, updated_at_ms: 5_000 });
        fc.insert(t, ForecastEntry { ensemble: sure, noaa: None, google: None, updated_at_ms: 5_000 });
    }
    // each entry buys ten contracts at twelve cents; 300 of balance leave room for one
    let plan = plan_cycle(&engine, &mut risk, &markets, &prices, &fc, &[], 300, now);
    assert_eq!(plan.generated.len(), 2);
    assert_eq!(plan.approved.len(), 1);
    assert_eq!(plan.approved[0].ticker, "KXHIGHNYC-A");
    assert_eq!(plan.rejected.len(), 1);
    assert_eq!(plan.rejected[0].reason, "no_price_data");
    let mut summary = plan.summary();
    assert_eq!((summary.generated, summary.approved, summary.risk_rejected), (2, 1, 1));
    summary.count_order(true);
    summary.count_order(false);
    summary.count_order(false);
    assert_eq!((summary.orders_placed, summary.orders_failed), (1, 2));
    // the balance of the first tick is the start of the session
    let fallen = plan_cycle(&engine, &mut risk, &markets, &prices, &fc, &[], -1_701, now);
    assert_eq!(fallen.generated.len(), 2);
    assert!(fallen.approved.is_empty());
}

#[test]
fn a_tick_stays_within_the_order_throttle() {
    let mut rm = RiskManager::new(RiskConfig { max_orders_per_minute: 1, ..default_risk_config() });
    let intents = vec![make_intent("A-1", 10, 5), make_intent("B-1", 10, 5)];
    let approved = rm.filter_intents_at(intents, &[], 10_000, 1_000);
    assert_eq!(approved.len(), 1);
    assert_eq!(approved[0].ticker, "A-1");

    // orders of the last minute and approvals of the tick count together
    rm = RiskManager::new(RiskConfig { max_orders_per_minute: 3, ..default_risk_config() });
    rm.record_order_at(500);
    let intents = vec![
        make_intent("A-1", 10, 5),
        make_sell("HELD"),
        make_intent("B-1", 10, 5),
        make_intent("C-1", 10, 5),
    ];
    let positions = vec![make_position("HELD", 0, 1)];
    let approved = rm.filter_intents_at(intents, &positions, 10_000, 1_000);
    let tickers: Vec<&str> = approved.iter().map(|i| i.ticker.as_str()).collect();
    // one order on record, then a purchase and a sale: the next purchase is the fourth
    assert_eq!(tickers, vec!["A-1", "HELD"]);

    // a single check sees the orders on record alone
    assert!(rm.check_order_at(&make_intent("B-1", 10, 5), &[], 10_000, 1_000).is_ok());
}
