use kalshi_core::arb::quotes::{PriceEntry, QuoteBook};
use kalshi_core::config::{BotConfig, QualityMode};
use kalshi_core::types::{Action, MarketInfo, OrderIntent, Position, Side};
use kalshi_core::weather::engine::{
    city_for_upper, held_position, insert_candidate, last_listed, Assessment, EntryCandidate,
    ForecastSource, Moment, RejectReason, StrategyEngine,
};
use kalshi_core::weather::signal::{
    new_forecast_cache, ForecastCache, ForecastEntry, ProbabilityEstimate,
};
use kalshi_core::weather::sizing::{kelly_fraction_percent, kelly_size};

const NOW: Moment = Moment { mono_ms: 10_000_000, utc_ms: 1_700_000_000_000 };
const HOUR_MS: i64 = 3_600_000;

fn default_config() -> BotConfig {
    let mut cfg = BotConfig::default();
    cfg.quality.mode = QualityMode::Balanced;
    cfg.quality.strict_source_veto = false;
    cfg.quality.require_both_sources = false;
    cfg.quality.max_source_prob_gap_ppm = 1_000_000;
    cfg.quality.min_source_confidence_ppm = 0;
    cfg.quality.min_ensemble_confidence_ppm = 0;
    cfg.quality.min_conservative_net_edge_cents = 0;
    cfg.quality.min_conservative_ev_cents = 0;
    cfg.quality.min_volume_24h = 0;
    cfg.quality.min_open_interest = 0;
    cfg.quality.slippage_buffer_cents = 0;
    cfg
}

fn make_market(ticker: &str, yes_bid: i64, yes_ask: i64) -> MarketInfo {
    MarketInfo {
        ticker: ticker.into(),
        event_ticker: "EVT".into(),
        market_type: "binary".into(),
        title: format!("Test {}", ticker),
        subtitle: String::new(),
        status: "open".into(),
        yes_bid,
        yes_ask,
        no_bid: 100 - yes_ask,
        no_ask: 100 - yes_bid,
        last_price: (yes_bid + yes_ask) / 2,
        volume: 100,
        volume_24h: 50,
        open_interest: 100,
        rules_primary: String::new(),
        rules_secondary: String::new(),
        close_time_ms: Some(NOW.utc_ms + 24 * HOUR_MS),
        expiration_time_ms: Some(NOW.utc_ms + 24 * HOUR_MS),
        result: None,
        strike_type: Some("greater".into()),
        floor_strike: Some(50),
        cap_strike: None,
        functional_strike: None,
        tick_size: Some(1),
        response_price_units: Some("usd_cent".into()),
    }
}

fn make_price(yes_bid: i64, yes_ask: i64) -> PriceEntry {
    PriceEntry {
        yes_bid,
        yes_ask,
        last_price: (yes_bid + yes_ask) / 2,
        volume: 100,
        updated_at_ms: NOW.mono_ms,
    }
}

fn estimate(p: i64, confidence: i64, low: i64, high: i64) -> ProbabilityEstimate {
    ProbabilityEstimate { p_yes: p, confidence, p_yes_low: low, p_yes_high: high }
}

/// What a forecast of 80°F / 60°F with a deviation of 3°F and a tenth of
/// precipitation gives for a strike of 50°F: all but certain.
fn sure() -> ProbabilityEstimate {
    estimate(1_000_000, 1_000_000, 999_999, 1_000_000)
}

fn bundle(
    ensemble: ProbabilityEstimate,
    noaa: Option<ProbabilityEstimate>,
    google: Option<ProbabilityEstimate>,
) -> ForecastEntry {
    ForecastEntry { ensemble, noaa, google, updated_at_ms: NOW.mono_ms }
}

fn book(entries: &[(&str, PriceEntry)]) -> QuoteBook {
    let mut b = QuoteBook::new();
    for (t, p) in entries {
        b.upsert(t, *p);
    }
    b
}

fn cache(entries: &[(&str, ForecastEntry)]) -> ForecastCache {
    let mut c = new_forecast_cache();
    for (t, e) in entries {
        c.insert(t, *e);
    }
    c
}

fn position(ticker: &str, yes_count: i64) -> Position {
    Position {
        ticker: ticker.into(),
        yes_count,
        no_count: 0,
        market_exposure: 0,
        realized_pnl: 0,
    }
}

fn reject_of(engine: &StrategyEngine, market: &MarketInfo, price: Option<PriceEntry>, signal: Option<ForecastEntry>, pos: i64) -> RejectReason {
    match engine.assess_market(market, price, signal, pos, NOW) {
        Assessment::Reject(r) => r,
        other => panic!("expected a rejection, got {:?}", other),
    }
}

#[test]
fn test_entry_signal() {
    let engine = StrategyEngine::new(default_config());
    let markets = vec![make_market("KXHIGHNYC-TEST", 8, 12)];
    let prices = book(&[("KXHIGHNYC-TEST", make_price(8, 12))]);
    let fc = cache(&[("KXHIGHNYC-TEST", bundle(sure(), Some(sure()), Some(sure())))]);
    let intents = engine.evaluate(&markets, &prices, &fc, &[], NOW);

    assert!(!intents.is_empty(), "Should generate entry signal");
    assert_eq!(intents[0].action, Action::Buy);
    assert_eq!(intents[0].side, Side::Yes);
    assert_eq!(intents.len(), 1);
    assert_eq!(intents[0].price_cents, 12);
    assert!(intents[0].count >= 1);
}

#[test]
fn entry_numbers_are_exact() {
    let engine = StrategyEngine::new(default_config());
    let markets = vec![make_market("KXHIGHNYC-TEST", 8, 12)];
    let prices = book(&[("KXHIGHNYC-TEST", make_price(8, 12))]);
    let fc = cache(&[("KXHIGHNYC-TEST", bundle(sure(), Some(sure()), Some(sure())))]);
    let intents = engine.evaluate(&markets, &prices, &fc, &[], NOW);
    let i = &intents[0];
    // fair = floor(100 * 1.0) - 3 = 97; conservative fair = floor(99.9999) - 3 = 96
    // round trip fee = fee(12) + fee(45) = 1 + 2 = 3
    // net = 97 - 12 - 3 = 82, conservative net = 81
    // ev = 0.999999 * 85 - 0.000001 * 15 = 84.9999
    // Kelly: (p * 85 - q * 15) / 85 * 0.5 * 500 / 15 = 16.6 -> capped at 10
    assert_eq!(i.count, 10);
    assert_eq!(i.estimated_fee_cents, 8);
    assert_eq!(i.confidence_ppm, 1_000_000);
    assert_eq!(
        i.reason,
        "entry: ask=12¢, fair=97¢, net_edge=82¢, cons_edge=81¢, cons_ev=85.00¢, p_cons=1.000, conf=1.00"
    );
}

#[test]
fn test_no_entry_when_stale() {
    let engine = StrategyEngine::new(default_config());
    let markets = vec![make_market("KXHIGHNYC-TEST", 8, 12)];
    let mut stale = make_price(8, 12);
    stale.updated_at_ms = NOW.mono_ms - 360_000;
    let prices = book(&[("KXHIGHNYC-TEST", stale)]);
    let fc = cache(&[("KXHIGHNYC-TEST", bundle(sure(), Some(sure()), Some(sure())))]);
    let result = engine.evaluate_with_diagnostics(&markets, &prices, &fc, &[], NOW);
    assert!(result.intents.is_empty(), "Should NOT trade on stale price data");
    assert_eq!(result.rejected.len(), 1);
    assert_eq!(result.rejected[0].ticker, "KXHIGHNYC-TEST");
    assert_eq!(result.rejected[0].reason, "stale_price_data");
}

#[test]
fn staleness_is_strict() {
    let engine = StrategyEngine::new(default_config());
    let market = make_market("KXHIGHNYC-TEST", 8, 12);
    let signal = Some(bundle(sure(), None, None));
    let mut p = make_price(8, 12);
    p.updated_at_ms = NOW.mono_ms - 300_000;
    assert!(matches!(engine.assess_market(&market, Some(p), signal, 0, NOW), Assessment::Entry(_)));
    p.updated_at_ms = NOW.mono_ms - 300_001;
    assert_eq!(reject_of(&engine, &market, Some(p), signal, 0), RejectReason::StalePriceData);
    // a stale quote blocks an exit as well
    let mut q = make_price(48, 52);
    q.updated_at_ms = NOW.mono_ms - 300_001;
    assert_eq!(reject_of(&engine, &market, Some(q), signal, 5), RejectReason::StalePriceData);
}

#[test]
fn test_exit_signal() {
    let engine = StrategyEngine::new(default_config());
    let markets = vec![make_market("KXHIGHNYC-TEST", 48, 52)];
    let prices = book(&[("KXHIGHNYC-TEST", make_price(48, 52))]);
    let fc = cache(&[("KXHIGHNYC-TEST", bundle(sure(), Some(sure()), Some(sure())))]);
    let positions = vec![position("KXHIGHNYC-TEST", 5)];
    let intents = engine.evaluate(&markets, &prices, &fc, &positions, NOW);

    assert!(!intents.is_empty(), "Should generate exit signal");
    assert_eq!(intents[0].action, Action::Sell);
    assert_eq!(intents.len(), 1);
    assert_eq!(intents[0].side, Side::Yes);
    assert_eq!(intents[0].count, 5);
    assert_eq!(intents[0].price_cents, 48);
    assert_eq!(intents[0].estimated_fee_cents, 9);
    assert_eq!(intents[0].confidence_ppm, 1_000_000);
    assert_eq!(intents[0].reason, "exit: bid=48¢ >= thresh=45¢, fee≈9¢");
}

#[test]
fn exit_fires_without_any_forecast() {
    let engine = StrategyEngine::new(BotConfig::default());
    let markets = vec![make_market("KXHIGHNYC-TEST", 48, 52)];
    let prices = book(&[("KXHIGHNYC-TEST", make_price(48, 52))]);
    let positions = vec![position("KXHIGHNYC-TEST", 5)];
    let intents = engine.evaluate(&markets, &prices, &new_forecast_cache(), &positions, NOW);
    assert_eq!(intents.len(), 1);
    assert_eq!(intents[0].action, Action::Sell);
    assert_eq!(intents[0].side, Side::Yes);
    assert_eq!(intents[0].count, 5);
}

#[test]
fn exit_ignores_spread_liquidity_and_expiry() {
    let mut cfg = BotConfig::default();
    cfg.strategy.max_spread_cents = 1;
    cfg.quality.min_volume_24h = 1_000_000;
    let engine = StrategyEngine::new(cfg);
    let mut market = make_market("KXHIGHNYC-TEST", 48, 95);
    market.close_time_ms = Some(NOW.utc_ms + 60_000);
    let a = engine.assess_market(&market, Some(make_price(48, 95)), None, 3, NOW);
    match a {
        Assessment::Exit(i) => {
            assert_eq!(i.count, 3);
            assert_eq!(i.price_cents, 48);
        }
        other => panic!("expected an exit, got {:?}", other),
    }
    // without a position the same market is an entry candidate and fails the ladder
    assert_eq!(
        reject_of(&engine, &market, Some(make_price(48, 95)), None, 0),
        RejectReason::SpreadFilter { spread: 47, cap: 1 }
    );
    // a short position is no reason to sell
    assert!(matches!(
        engine.assess_market(&market, Some(make_price(48, 95)), None, -3, NOW),
        Assessment::Reject(_)
    ));
    // below the threshold nothing is sold
    assert!(matches!(
        engine.assess_market(&market, Some(make_price(44, 46)), None, 3, NOW),
        Assessment::Reject(_)
    ));
}

#[test]
fn test_fee_on_entry_is_reported() {
    let engine = StrategyEngine::new(default_config());
    let markets = vec![make_market("KXHIGHNYC-TEST", 8, 12)];
    let prices = book(&[("KXHIGHNYC-TEST", make_price(8, 12))]);
    let fc = cache(&[("KXHIGHNYC-TEST", bundle(sure(), Some(sure()), Some(sure())))]);
    let intents = engine.evaluate(&markets, &prices, &fc, &[], NOW);
    if !intents.is_empty() {
        assert!(intents[0].estimated_fee_cents >= 0);
    }
}

#[test]
fn test_kelly_sizing_proportional_to_edge() {
    let count_strong = kelly_size(950_000, 10, 500, 1, QualityMode::Balanced);
    let count_weak = kelly_size(600_000, 10, 500, 1, QualityMode::Balanced);
    assert!(count_strong >= count_weak);
}

#[test]
fn test_kelly_sizing_minimum_one() {
    let count = kelly_size(120_000, 10, 500, 1, QualityMode::Balanced);
    assert!(count >= 1);
    assert_eq!(count, 1);
}

#[test]
fn kelly_sizes_are_exact() {
    // p = 0.30 at 20¢ with 2¢ friction: cost 22, payout 78
    // f = (0.3 * 78 - 0.7 * 22) / 78 = 8 / 78; size = share * f * 500 / 22
    assert_eq!(kelly_size(300_000, 20, 500, 2, QualityMode::UltraSafe), 1);
    assert_eq!(kelly_size(300_000, 20, 500, 2, QualityMode::Balanced), 1);
    assert_eq!(kelly_size(300_000, 20, 1_500, 2, QualityMode::Balanced), 3);
    assert_eq!(kelly_size(300_000, 20, 1_500, 2, QualityMode::Aggressive), 5);
    assert_eq!(kelly_size(300_000, 20, 1_500, 2, QualityMode::UltraSafe), 1);
    assert_eq!(kelly_size(300_000, 20, 100_000, 2, QualityMode::UltraSafe), 10);
    // nothing to win, nothing to stake, no edge
    assert_eq!(kelly_size(990_000, 60, 500, 40, QualityMode::Aggressive), 1);
    assert_eq!(kelly_size(990_000, 10, 0, 1, QualityMode::Aggressive), 1);
    assert_eq!(kelly_size(100_000, 50, 500, 0, QualityMode::Aggressive), 1);
    assert_eq!(kelly_size(990_000, -5, 500, 1, QualityMode::Aggressive), 1);
    assert_eq!(kelly_fraction_percent(QualityMode::UltraSafe), 20);
    assert_eq!(kelly_fraction_percent(QualityMode::Balanced), 50);
    assert_eq!(kelly_fraction_percent(QualityMode::Aggressive), 75);
}

#[test]
fn test_strict_veto_blocks_source_disagreement() {
    let mut config = default_config();
    config.quality.strict_source_veto = true;
    config.quality.require_both_sources = true;
    config.quality.max_source_prob_gap_ppm = 50_000;
    let engine = StrategyEngine::new(config);

    let markets = vec![make_market("KXHIGHNYC-TEST", 8, 12)];
    let prices = book(&[("KXHIGHNYC-TEST", make_price(8, 12))]);
    // the ensemble sees 60°F, one source 92°F and the other 32°F
    let ensemble = estimate(999_999, 999_996, 999_272, 1_000_000);
    let noaa = sure();
    let google = estimate(0, 1_000_000, 0, 0);
    let fc = cache(&[("KXHIGHNYC-TEST", bundle(ensemble, Some(noaa), Some(google)))]);
    let result = engine.evaluate_with_diagnostics(&markets, &prices, &fc, &[], NOW);

    assert!(result.intents.is_empty());
    assert!(result
        .rejected
        .iter()
        .any(|r| r.reason.contains("source_disagreement")));
    assert_eq!(result.rejected[0].reason, "source_disagreement:direction");
}

#[test]
fn source_gap_is_checked_after_direction() {
    let mut config = default_config();
    config.quality.strict_source_veto = true;
    config.quality.max_source_prob_gap_ppm = 50_000;
    let engine = StrategyEngine::new(config);
    let market = make_market("KXHIGHNYC-TEST", 8, 12);
    let a = estimate(900_000, 1_000_000, 900_000, 900_000);
    let b = estimate(849_999, 1_000_000, 849_999, 849_999);
    assert_eq!(
        reject_of(&engine, &market, Some(make_price(8, 12)), Some(bundle(a, Some(a), Some(b))), 0),
        RejectReason::SourceDisagreementGap { gap_ppm: 50_001, max_ppm: 50_000 }
    );
    assert_eq!(
        RejectReason::SourceDisagreementGap { gap_ppm: 50_001, max_ppm: 50_000 }.text(),
        "source_disagreement:gap:0.050>0.050"
    );
    let c = estimate(850_000, 1_000_000, 850_000, 850_000);
    assert!(matches!(
        engine.assess_market(&market, Some(make_price(8, 12)), Some(bundle(a, Some(a), Some(c))), 0, NOW),
        Assessment::Entry(_)
    ));
}

#[test]
fn test_require_both_sources_blocks_missing_source() {
    let mut config = default_config();
    config.quality.strict_source_veto = true;
    config.quality.require_both_sources = true;
    let engine = StrategyEngine::new(config);

    let markets = vec![make_market("KXHIGHNYC-TEST", 8, 12)];
    let prices = book(&[("KXHIGHNYC-TEST", make_price(8, 12))]);
    let fc = cache(&[("KXHIGHNYC-TEST", bundle(sure(), Some(sure()), None))]);
    let result = engine.evaluate_with_diagnostics(&markets, &prices, &fc, &[], NOW);

    assert!(result.intents.is_empty());
    assert!(result
        .rejected
        .iter()
        .any(|r| r.reason.contains("missing_source")));
    assert_eq!(result.rejected[0].reason, "missing_source");
}

#[test]
fn test_exit_not_blocked_when_sources_missing() {
    let mut config = default_config();
    config.quality.strict_source_veto = true;
    config.quality.require_both_sources = true;
    let engine = StrategyEngine::new(config);

    let markets = vec![make_market("KXHIGHNYC-TEST", 48, 52)];
    let prices = book(&[("KXHIGHNYC-TEST", make_price(48, 52))]);
    let ensemble = estimate(1_000_000, 1_000_000, 999_990, 1_000_000);
    let fc = cache(&[("KXHIGHNYC-TEST", bundle(ensemble, None, None))]);
    let positions = vec![position("KXHIGHNYC-TEST", 4)];

    let intents = engine.evaluate(&markets, &prices, &fc, &positions, NOW);
    assert!(!intents.is_empty());
    assert_eq!(intents[0].action, Action::Sell);
    assert_eq!(intents[0].count, 4);
}

#[test]
fn test_max_trades_zero_means_unlimited() {
    let mut config = default_config();
    config.strategy.max_trades_per_run = 0;
    config.quality.min_conservative_net_edge_cents = 0;
    config.quality.min_conservative_ev_cents = 0;
    let engine = StrategyEngine::new(config);

    let markets = vec![
        make_market("KXHIGHNYC-A", 8, 12),
        make_market("KXHIGHNYC-B", 8, 12),
    ];
    let prices = book(&[
        ("KXHIGHNYC-A", make_price(8, 12)),
        ("KXHIGHNYC-B", make_price(8, 12)),
    ]);
    let fc = cache(&[
        ("KXHIGHNYC-A", bundle(sure(), Some(sure()), Some(sure()))),
        ("KXHIGHNYC-B", bundle(sure(), Some(sure()), Some(sure()))),
    ]);
    let intents = engine.evaluate(&markets, &prices, &fc, &[], NOW);

    let buys = intents.iter().filter(|i| i.action == Action::Buy).count();
    assert!(buys >= 2, "Expected unlimited buys with max_trades_per_run=0");
    assert_eq!(buys, 2);
}

#[test]
fn entries_are_ranked_and_capped_and_exits_come_first() {
    let mut config = default_config();
    config.strategy.max_trades_per_run = 2;
    let engine = StrategyEngine::new(config);
    let markets = vec![
        make_market("M-LOW", 8, 14),
        make_market("M-EXIT", 48, 52),
        make_market("M-HIGH", 8, 10),
        make_market("M-MID", 8, 12),
        make_market("M-MID2", 8, 12),
    ];
    let prices = book(&[
        ("M-LOW", make_price(8, 14)),
        ("M-EXIT", make_price(48, 52)),
        ("M-HIGH", make_price(8, 10)),
        ("M-MID", make_price(8, 12)),
        ("M-MID2", make_price(8, 12)),
    ]);
    let s = bundle(sure(), None, None);
    let fc = cache(&[("M-LOW", s), ("M-HIGH", s), ("M-MID", s), ("M-MID2", s)]);
    let positions = vec![position("M-EXIT", 2)];
    let result = engine.evaluate_with_diagnostics(&markets, &prices, &fc, &positions, NOW);
    let order: Vec<&str> = result.intents.iter().map(|i| i.ticker.as_str()).collect();
    assert_eq!(order, vec!["M-EXIT", "M-HIGH", "M-MID"]);
    assert!(result.rejected.is_empty());
    assert!(result.intents.iter().all(|i| (1..=99).contains(&i.price_cents) && i.count >= 1));
}

#[test]
fn ranking_is_stable() {
    fn cand(name: &str, score: i128) -> EntryCandidate {
        EntryCandidate {
            intent: OrderIntent {
                ticker: name.into(),
                side: Side::Yes,
                action: Action::Buy,
                price_cents: 10,
                count: 1,
                reason: String::new(),
                estimated_fee_cents: 0,
                confidence_ppm: 0,
            },
            score,
        }
    }
    let mut ranked: Vec<EntryCandidate> = Vec::new();
    for (n, s) in [("a", 5), ("b", 9), ("c", 5), ("d", 1), ("e", 9), ("f", 7)] {
        insert_candidate(&mut ranked, cand(n, s));
    }
    let order: Vec<&str> = ranked.iter().map(|c| c.intent.ticker.as_str()).collect();
    assert_eq!(order, vec!["b", "e", "f", "a", "c", "d"]);
}

#[test]
fn veto_ladder_in_order() {
    let mut config = BotConfig::default();
    config.quality.mode = QualityMode::UltraSafe;
    let engine = StrategyEngine::new(config);
    let good = bundle(sure(), Some(sure()), Some(sure()));
    let market = make_market("KXHIGHNYC-TEST", 8, 12);
    let price = Some(make_price(8, 12));

    let mut closed = make_market("KXHIGHNYC-TEST", 8, 12);
    closed.status = "closed".into();
    assert!(matches!(engine.assess_market(&closed, price, Some(good), 0, NOW), Assessment::Skip));

    assert_eq!(reject_of(&engine, &market, None, Some(good), 0), RejectReason::NoPriceData);
    // the most cautious mode caps the spread at six cents
    assert_eq!(
        reject_of(&engine, &market, Some(make_price(5, 12)), Some(good), 0),
        RejectReason::SpreadFilter { spread: 7, cap: 6 }
    );
    assert_eq!(reject_of(&engine, &market, price, None, 0), RejectReason::NoForecastData);
    let mut old = good;
    old.updated_at_ms = NOW.mono_ms - 3_601_000;
    assert_eq!(reject_of(&engine, &market, price, Some(old), 0), RejectReason::StaleForecastData);
    old.updated_at_ms = NOW.mono_ms - 3_600_999;
    assert!(matches!(engine.assess_market(&market, price, Some(old), 0, NOW), Assessment::Entry(_)));
    let broken = bundle(estimate(500_000, 1_000_000, 600_000, 700_000), Some(sure()), Some(sure()));
    assert_eq!(reject_of(&engine, &market, price, Some(broken), 0), RejectReason::InvalidSignal);
    assert_eq!(
        reject_of(&engine, &market, price, Some(bundle(sure(), None, Some(sure()))), 0),
        RejectReason::MissingSource
    );
    let weak = estimate(1_000_000, 649_999, 999_999, 1_000_000);
    assert_eq!(
        reject_of(&engine, &market, price, Some(bundle(sure(), Some(weak), Some(weak))), 0),
        RejectReason::LowSourceConfidence { source: ForecastSource::Noaa, confidence_ppm: 649_999 }
    );
    assert_eq!(
        reject_of(&engine, &market, price, Some(bundle(sure(), Some(sure()), Some(weak))), 0),
        RejectReason::LowSourceConfidence { source: ForecastSource::Google, confidence_ppm: 649_999 }
    );
    let shaky = estimate(1_000_000, 749_999, 999_999, 1_000_000);
    assert_eq!(
        reject_of(&engine, &market, price, Some(bundle(shaky, Some(sure()), Some(sure()))), 0),
        RejectReason::LowEnsembleConfidence { confidence_ppm: 749_999 }
    );
    let mut thin = make_market("KXHIGHNYC-TEST", 8, 12);
    thin.open_interest = 24;
    assert_eq!(
        reject_of(&engine, &thin, price, Some(good), 0),
        RejectReason::LiquidityFilter { volume_24h: 50, open_interest: 24 }
    );
    let mut closing = make_market("KXHIGHNYC-TEST", 8, 12);
    closing.close_time_ms = Some(NOW.utc_ms + 2 * HOUR_MS - 1);
    assert_eq!(
        reject_of(&engine, &closing, price, Some(good), 0),
        RejectReason::TooCloseToExpiry { minutes_left: 119 }
    );
    closing.close_time_ms = Some(NOW.utc_ms + 2 * HOUR_MS);
    assert!(matches!(engine.assess_market(&closing, price, Some(good), 0, NOW), Assessment::Entry(_)));
    let mut far = make_market("KXHIGHNYC-TEST", 8, 12);
    far.close_time_ms = Some(NOW.utc_ms + 11 * 24 * HOUR_MS);
    assert_eq!(
        reject_of(&engine, &far, price, Some(good), 0),
        RejectReason::BeyondResolutionWindow { max_days: 11 }
    );
    assert_eq!(
        reject_of(&engine, &market, Some(make_price(12, 16)), Some(good), 0),
        RejectReason::EntryThreshold { ask: 16 }
    );
    assert_eq!(
        reject_of(&engine, &market, Some(make_price(0, 0)), Some(good), 0),
        RejectReason::InvalidPrice { bid: 0, ask: 0 }
    );
    let faint = bundle(estimate(190_000, 1_000_000, 100_000, 200_000), Some(sure()), Some(sure()));
    // fair = 19 - 3 = 16; net = 16 - 12 - 3 - 1 = 0 < 5
    assert_eq!(
        reject_of(&engine, &market, price, Some(faint), 0),
        RejectReason::InsufficientEdge { net_edge: 0, threshold: 5 }
    );
    let cautious = bundle(estimate(990_000, 1_000_000, 250_000, 1_000_000), Some(sure()), Some(sure()));
    // conservative fair = 25 - 3 = 22; conservative net = 22 - 12 - 3 - 1 = 6 < 8
    assert_eq!(
        reject_of(&engine, &market, price, Some(cautious), 0),
        RejectReason::InsufficientConservativeEdge { net_edge: 6, threshold: 8 }
    );
    assert_eq!(reject_of(&engine, &market, price, Some(good), -1), RejectReason::PositionAlreadyOpen);
    assert!(matches!(engine.assess_market(&market, price, Some(good), 0, NOW), Assessment::Entry(_)));
}

#[test]
fn expected_value_floor() {
    let mut config = default_config();
    config.quality.min_conservative_ev_cents = 20;
    config.strategy.edge_threshold_cents = -100;
    config.quality.min_conservative_net_edge_cents = -100;
    let engine = StrategyEngine::new(config);
    let market = make_market("KXHIGHNYC-TEST", 8, 12);
    // friction 3: ev = 0.35 * 85 - 0.65 * 15 = 20.0 exactly
    let at = bundle(estimate(350_000, 1_000_000, 350_000, 350_000), None, None);
    assert!(matches!(
        engine.assess_market(&market, Some(make_price(8, 12)), Some(at), 0, NOW),
        Assessment::Entry(_)
    ));
    let below = bundle(estimate(350_000, 1_000_000, 349_999, 350_000), None, None);
    assert_eq!(
        reject_of(&engine, &market, Some(make_price(8, 12)), Some(below), 0),
        RejectReason::InsufficientEv { ev_micro: 19_999_900, threshold: 20 }
    );
    assert_eq!(
        RejectReason::InsufficientEv { ev_micro: 19_999_900, threshold: 20 }.text(),
        "insufficient_ev:20.000<20"
    );
}

#[test]
fn reject_reason_texts() {
    assert_eq!(RejectReason::StalePriceData.text(), "stale_price_data");
    assert_eq!(RejectReason::NoPriceData.text(), "no_price_data");
    assert_eq!(RejectReason::SpreadFilter { spread: 7, cap: 6 }.text(), "spread_filter:7>6");
    assert_eq!(
        RejectReason::InsufficientEdge { net_edge: -2, threshold: 5 }.text(),
        "insufficient_edge:-2<5"
    );
    assert_eq!(
        RejectReason::InsufficientConservativeEdge { net_edge: 6, threshold: 8 }.text(),
        "insufficient_conservative_edge:6<8"
    );
    assert_eq!(
        RejectReason::LowSourceConfidence { source: ForecastSource::Noaa, confidence_ppm: 649_999 }.text(),
        "low_source_confidence:noaa:0.650"
    );
    assert_eq!(
        RejectReason::LowSourceConfidence { source: ForecastSource::Google, confidence_ppm: 12_499 }.text(),
        "low_source_confidence:google:0.012"
    );
    assert_eq!(
        RejectReason::LowEnsembleConfidence { confidence_ppm: 1_500 }.text(),
        "low_ensemble_confidence:0.002"
    );
    assert_eq!(
        RejectReason::LiquidityFilter { volume_24h: 50, open_interest: 24 }.text(),
        "liquidity_filter:vol24h=50 oi=24"
    );
    assert_eq!(
        RejectReason::TooCloseToExpiry { minutes_left: 119 }.text(),
        "too_close_to_expiry:1.98h"
    );
    assert_eq!(
        RejectReason::TooCloseToExpiry { minutes_left: -90 }.text(),
        "too_close_to_expiry:-1.50h"
    );
    assert_eq!(
        RejectReason::BeyondResolutionWindow { max_days: 11 }.text(),
        "beyond_resolution_window:11d"
    );
    assert_eq!(RejectReason::EntryThreshold { ask: 16 }.text(), "entry_threshold:ask=16¢");
    assert_eq!(
        RejectReason::InvalidPrice { bid: 0, ask: 100 }.text(),
        "invalid_price:bid=0¢ ask=100¢"
    );
    assert_eq!(RejectReason::PositionAlreadyOpen.text(), "position_already_open");
    assert_eq!(RejectReason::MissingSourceForStrictVeto.text(), "missing_source_for_strict_veto");
    assert_eq!(RejectReason::NoForecastData.text(), "no_forecast_data");
    assert_eq!(RejectReason::StaleForecastData.text(), "stale_forecast_data");
    assert_eq!(RejectReason::InvalidSignal.text(), "invalid_signal");
    assert_eq!(RejectReason::MissingSource.text(), "missing_source");
    assert_eq!(RejectReason::SourceDisagreementDirection.text(), "source_disagreement:direction");
}

#[test]
fn strict_veto_needs_both_sources() {
    let mut config = default_config();
    config.quality.strict_source_veto = true;
    let engine = StrategyEngine::new(config);
    let market = make_market("KXHIGHNYC-TEST", 8, 12);
    assert_eq!(
        reject_of(&engine, &market, Some(make_price(8, 12)), Some(bundle(sure(), Some(sure()), None)), 0),
        RejectReason::MissingSourceForStrictVeto
    );
}

#[test]
fn positions_are_read_by_ticker() {
    let positions = vec![position("A", 3), position("B", -2), position("A", 7)];
    assert_eq!(held_position(&positions, "A"), 7);
    assert_eq!(held_position(&positions, "B"), -2);
    assert_eq!(held_position(&positions, "C"), 0);
    assert_eq!(held_position(&[], "A"), 0);
}

#[test]
fn tickers_name_cities() {
    let engine = StrategyEngine::new(BotConfig::default());
    assert_eq!(engine.ticker_to_city("KXHIGHNYC-26FEB10-B50").as_deref(), Some("New York City"));
    assert_eq!(engine.ticker_to_city("kxhighchi-26feb10-b50").as_deref(), Some("Chicago"));
    assert_eq!(engine.ticker_to_city("xx-seattle-1").as_deref(), Some("Seattle"));
    assert_eq!(engine.ticker_to_city("KXLOWDAL-1").as_deref(), Some("Dallas"));
    assert_eq!(engine.ticker_to_city("TEMP-ATLANTA").as_deref(), Some("Atlanta"));
    assert_eq!(engine.ticker_to_city("KXHIGHLAX-1"), None);
    let mut cfg = BotConfig::default();
    cfg.cities[4].series_prefix = "kxhighlax".into();
    cfg.cities[4].name = "Los Angeles".into();
    let engine = StrategyEngine::new(cfg);
    assert_eq!(engine.ticker_to_city("KXHIGHLAX-1").as_deref(), Some("Los Angeles"));
    let prefixes = vec!["NYC".to_string(), "KXHIGH".to_string()];
    let names = vec!["first".to_string(), "second".to_string()];
    assert_eq!(city_for_upper("KXHIGHNYC", &prefixes, &names).as_deref(), Some("first"));
    assert_eq!(city_for_upper("KXHIGHBOS", &prefixes, &names).as_deref(), Some("second"));
    assert_eq!(city_for_upper("kxhighnyc", &prefixes, &names), None);
}

#[test]
fn forecast_entries_go_stale_by_whole_seconds() {
    let e = bundle(sure(), None, None);
    assert!(!e.is_stale(10, NOW.mono_ms + 10_999));
    assert!(e.is_stale(10, NOW.mono_ms + 11_000));
    assert!(!e.is_stale(10, 0));
    assert!(e.is_valid());
    assert!(!bundle(sure(), Some(estimate(1, 2_000_000, 0, 2)), None).is_valid());
    assert!(!estimate(-1, 0, -1, 0).is_valid());
    let mut c = new_forecast_cache();
    assert_eq!(c.len(), 0);
    c.insert("A", e);
    assert_eq!(c.get("A"), Some(e));
    assert_eq!(c.get("B"), None);
}

#[test]
fn cache_keeps_the_latest_entry_of_each_ticker() {
    let first = bundle(sure(), None, None);
    let second = bundle(estimate(400_000, 900_000, 300_000, 500_000), Some(sure()), None);
    let mut c = new_forecast_cache();
    c.insert("A", first);
    c.insert("B", first);
    assert_eq!(c.len(), 2);
    c.insert("A", second);
    assert_eq!(c.len(), 2);
    assert_eq!(c.get("A"), Some(second));
    assert_eq!(c.get("B"), Some(first));
    assert_eq!(c.get("a"), None);
}

#[test]
fn the_spread_is_looked_at_before_the_age_of_the_quote() {
    let engine = StrategyEngine::new(default_config());
    let market = make_market("KXHIGHNYC-TEST", 8, 12);
    let signal = Some(bundle(sure(), Some(sure()), Some(sure())));
    let mut wide = make_price(1, 60);
    wide.updated_at_ms = NOW.mono_ms - 360_000;
    assert!(matches!(
        reject_of(&engine, &market, Some(wide), signal, 0),
        RejectReason::SpreadFilter { spread: 59, .. }
    ));
    let mut narrow = make_price(8, 12);
    narrow.updated_at_ms = NOW.mono_ms - 360_000;
    assert_eq!(reject_of(&engine, &market, Some(narrow), signal, 0), RejectReason::StalePriceData);
    // a stale quote never sells, whatever its bid and spread
    let mut high = make_price(48, 99);
    high.updated_at_ms = NOW.mono_ms - 360_000;
    assert!(matches!(
        engine.assess_market(&market, Some(high), None, 5, NOW),
        Assessment::Reject(_)
    ));
}

#[test]
fn a_ticker_listed_twice_is_assessed_once() {
    let engine = StrategyEngine::new(default_config());
    let mut first = make_market("KXHIGHNYC-TEST", 48, 52);
    first.title = "first".into();
    let other = make_market("KXHIGHCHI-TEST", 48, 52);
    let mut last = make_market("KXHIGHNYC-TEST", 48, 52);
    last.title = "last".into();
    let markets = vec![first, other, last];

    let kept = last_listed(&markets);
    assert_eq!(kept.len(), 2);
    assert_eq!(kept[0].ticker, "KXHIGHCHI-TEST");
    assert_eq!(kept[1].ticker, "KXHIGHNYC-TEST");
    assert_eq!(kept[1].title, "last");
    assert!(last_listed(&[]).is_empty());

    let prices = book(&[("KXHIGHNYC-TEST", make_price(48, 52)), ("KXHIGHCHI-TEST", make_price(48, 52))]);
    // of two positions in one ticker the last one counts
    let positions = vec![position("KXHIGHNYC-TEST", 2), position("KXHIGHNYC-TEST", 5)];
    let result = engine.evaluate_with_diagnostics(&markets, &prices, &new_forecast_cache(), &positions, NOW);
    assert_eq!(result.intents.len(), 1);
    assert_eq!(result.intents[0].ticker, "KXHIGHNYC-TEST");
    assert_eq!(result.intents[0].action, Action::Sell);
    assert_eq!(result.intents[0].count, 5);
    assert_eq!(result.rejected.len(), 1);
    assert_eq!(result.rejected[0].ticker, "KXHIGHCHI-TEST");
}
