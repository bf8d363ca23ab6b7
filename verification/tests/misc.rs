use kalshi_core::api::{
    check_order_status, format_error_chain, next_page, normalize_base_url, order_request,
    resolve_rest_base_url, summarize_response_body,
};
use kalshi_core::arb::quotes::QuoteBook;
use kalshi_core::clock::{is_expired, MonoClock};
use kalshi_core::discovery::{matches_series, needs_broad_search, retain_in_series};
use kalshi_core::error::Error;
use kalshi_core::journal::{day_file_name, resolve_trades_dir, TradeJournal, TradesDir};
use kalshi_core::sports::{
    better_side, can_afford, env_bool, market_is_sports, market_text, normalize_text, passes_auto_gate,
    passes_gate, passes_hitl_gate, z_score_from_confidence, CandidateNumbers, ExecutionMode,
    GateSettings, SportsDataGame,
};
use kalshi_core::stream::{
    apply_ticker, copy_texts, env_truthy, is_unauthorized, message_kind, normalize_ws_url,
    path_to_sign,
    resolve_ws_url, same_texts, signing_message, MessageKind, Reconnect, Subscriptions,
};
use kalshi_core::text::{
    contains, decimal_string, eq_ignore_ascii_case, normalize_url, prefix_before, same_text,
};
use kalshi_core::types::{
    action_label, is_valid_order_price, side_label, Action, MarketInfo, OrderIntent, OrderType,
    Side, WsTickerMessage,
};

fn sports_market(title: &str, rules: &str) -> MarketInfo {
    MarketInfo {
        ticker: "T".into(),
        event_ticker: "EVT".into(),
        market_type: String::new(),
        title: title.into(),
        subtitle: "sub".into(),
        status: "open".into(),
        yes_bid: 0,
        yes_ask: 0,
        no_bid: 0,
        no_ask: 0,
        last_price: 0,
        volume: 0,
        volume_24h: 0,
        open_interest: 0,
        rules_primary: rules.into(),
        rules_secondary: String::new(),
        close_time_ms: None,
        expiration_time_ms: None,
        result: None,
        strike_type: None,
        floor_strike: None,
        cap_strike: None,
        functional_strike: None,
        tick_size: None,
        response_price_units: None,
    }
}

#[test]
fn text_helpers() {
    assert!(contains("hello world", "o w"));
    assert!(contains("hello", ""));
    assert!(contains("", ""));
    assert!(!contains("", "a"));
    assert!(!contains("hello", "hello!"));
    assert!(contains("aab", "ab"));
    assert!(same_text("é", "é"));
    assert!(!same_text("a", "A"));
    assert!(eq_ignore_ascii_case("Cancel_Only", "cancel_only"));
    assert!(!eq_ignore_ascii_case("cancel-only", "cancel_only"));
    assert!(!eq_ignore_ascii_case("É", "é"));
    assert_eq!(decimal_string(0), "0");
    assert_eq!(decimal_string(-7), "-7");
    assert_eq!(decimal_string(1_234_567_890), "1234567890");
    assert_eq!(decimal_string(i128::MAX), "170141183460469231731687303715884105727");
    assert_eq!(decimal_string(i128::MIN), "-170141183460469231731687303715884105728");
    assert_eq!(prefix_before("a?b?c", '?'), "a");
    assert_eq!(prefix_before("abc", '?'), "abc");
    assert_eq!(prefix_before("?abc", '?'), "");
    assert_eq!(normalize_url("  https://x.example/api///  "), "https://x.example/api");
    assert_eq!(normalize_url(" / "), "");
    assert_eq!(normalize_url("\u{3000}a\u{a0}"), "a");
}

#[test]
fn labels_and_prices() {
    assert_eq!(side_label(Side::Yes), "yes");
    assert_eq!(side_label(Side::No), "no");
    assert_eq!(action_label(Action::Buy), "buy");
    assert_eq!(action_label(Action::Sell), "sell");
    assert_eq!(Action::Buy.opposite(), Action::Sell);
    assert_eq!(Action::Sell.opposite(), Action::Buy);
    assert!(!is_valid_order_price(0));
    assert!(is_valid_order_price(1));
    assert!(is_valid_order_price(99));
    assert!(!is_valid_order_price(100));
}

#[test]
fn errors_have_texts() {
    assert_eq!(Error::Http("x".into()).to_string(), "HTTP request failed: x");
    assert_eq!(Error::WebSocket("x".into()).to_string(), "WebSocket error: x");
    assert_eq!(Error::Json("x".into()).to_string(), "JSON parse error: x");
    assert_eq!(Error::Auth("x".into()).to_string(), "Auth error: x");
    assert_eq!(Error::Config("x".into()).to_string(), "Config error: x");
    assert_eq!(Error::Noaa("x".into()).to_string(), "NOAA API error: x");
    assert_eq!(Error::GoogleWeather("x".into()).to_string(), "Google Weather API error: x");
    assert_eq!(
        Error::KalshiApi { status: 404, message: "gone".into() }.to_string(),
        "Kalshi API error (status=404): gone"
    );
    assert_eq!(
        Error::RateLimited { retry_after_ms: 1000 }.to_string(),
        "Rate limited — retry after 1000ms"
    );
    assert_eq!(Error::RiskViolation("x".into()).to_string(), "Risk check failed: x");
    assert_eq!(Error::MarketNotFound("x".into()).to_string(), "Market not found: x");
    assert_eq!(Error::StaleData("x".into()).to_string(), "Stale data: x");
    assert_eq!(Error::Io("x".into()).to_string(), "IO error: x");
    assert_eq!(Error::Other("x".into()).to_string(), "x");
}

#[test]
fn rolling_window_edges() {
    assert!(!is_expired(1_000, 60_999));
    assert!(is_expired(1_000, 61_000));
    assert!(!is_expired(61_000, 1_000));
    let clock = MonoClock::start();
    let a = clock.now_ms();
    let b = clock.now_ms();
    assert!(a <= b);
}

#[test]
fn journal_files_follow_the_utc_day() {
    assert_eq!(day_file_name("2026-02-10"), "trades-2026-02-10.jsonl");
    let mut j = TradeJournal::open("1970-01-01");
    assert_eq!(j.file_name(), "trades-1970-01-01.jsonl");
    // the last millisecond of the first day of 1970, and the first of the second
    let before = j.write_event(86_399_999);
    assert_eq!(before.file_name, "trades-1970-01-01.jsonl");
    assert!(!before.reopen);
    let after = j.write_event(86_400_000);
    assert_eq!(after.file_name, "trades-1970-01-02.jsonl");
    assert!(after.reopen);
    let again = j.write_event(86_400_001);
    assert_eq!(again.file_name, "trades-1970-01-02.jsonl");
    assert!(!again.reopen);
    // 2024-02-29T23:59:59.999Z and the millisecond after it
    let leap = j.write_event(1_709_251_199_999);
    assert_eq!(leap.file_name, "trades-2024-02-29.jsonl");
    assert!(leap.reopen);
    assert_eq!(j.write_event(1_709_251_200_000).file_name, "trades-2024-03-01.jsonl");
    // a moment that the calendar cannot hold keeps the open file
    let lost = j.write_event(i64::MAX);
    assert_eq!(lost.file_name, "trades-2024-03-01.jsonl");
    assert!(!lost.reopen);
    assert!(j.rotate_if_needed("2024-03-02"));
    assert!(!j.rotate_if_needed("2024-03-02"));
}

#[test]
fn journal_directory_precedence() {
    assert!(matches!(
        resolve_trades_dir(Some("  /var/trades  "), Some("/repo")),
        TradesDir::Configured(ref p) if p == "/var/trades"
    ));
    assert!(matches!(
        resolve_trades_dir(Some("   "), Some("/repo")),
        TradesDir::Repository(ref p) if p == "/repo"
    ));
    assert!(matches!(resolve_trades_dir(None, Some("/repo")), TradesDir::Repository(_)));
    assert!(matches!(resolve_trades_dir(Some(""), None), TradesDir::Local));
    assert!(matches!(resolve_trades_dir(None, None), TradesDir::Local));
    assert_eq!(
        resolve_trades_dir(Some(" /var/trades "), Some("/repo")).components("weather-bot"),
        vec!["/var/trades".to_string()]
    );
    assert_eq!(
        resolve_trades_dir(None, Some("/repo")).components("weather-bot"),
        vec!["/repo".to_string(), "TRADES".to_string(), "weather-bot".to_string()]
    );
    assert_eq!(
        resolve_trades_dir(Some(" "), None).components("arbitrage-bot"),
        vec!["TRADES".to_string(), "arbitrage-bot".to_string()]
    );
}

#[test]
fn stream_addresses() {
    assert_eq!(normalize_ws_url(" wss://x/ws/ "), "wss://x/ws");
    assert_eq!(resolve_ws_url(None, true), "wss://demo-api.kalshi.co/trade-api/ws/v2");
    assert_eq!(resolve_ws_url(None, false), "wss://api.elections.kalshi.com/trade-api/ws/v2");
    assert_eq!(resolve_ws_url(Some(" wss://mine// "), false), "wss://mine");
    assert_eq!(resolve_ws_url(Some(" / "), true), "wss://demo-api.kalshi.co/trade-api/ws/v2");
    assert_eq!(normalize_base_url("https://x/ "), "https://x");
    assert_eq!(resolve_rest_base_url(None, true), "https://demo-api.kalshi.co");
    assert_eq!(resolve_rest_base_url(None, false), "https://api.elections.kalshi.com");
    assert_eq!(resolve_rest_base_url(Some("http://local:1/"), false), "http://local:1");
    assert_eq!(resolve_rest_base_url(Some(""), false), "https://api.elections.kalshi.com");
    for on in ["1", "true", "YES", "anything"] {
        assert!(env_truthy(Some(on)));
    }
    for off in ["", " ", "0", "false", " No ", "FALSE"] {
        assert!(!env_truthy(Some(off)));
    }
    assert!(!env_truthy(None));
}

#[test]
fn reconnect_backs_off_to_a_minute() {
    let mut r = Reconnect::new();
    let mut pauses = Vec::new();
    for _ in 0..9 {
        pauses.push(r.after_connection(false));
    }
    assert_eq!(pauses, vec![1, 2, 4, 8, 16, 32, 60, 60, 60]);
    // a connection that closed cleanly starts afresh
    assert_eq!(r.after_connection(true), 1);
    assert_eq!(r.after_connection(false), 2);
}

#[test]
fn signatures_cover_the_path_without_its_query() {
    assert_eq!(
        signing_message("1700000000000", "GET", "/trade-api/v2/portfolio/orders?limit=5&x=?"),
        "1700000000000GET/trade-api/v2/portfolio/orders"
    );
    assert_eq!(
        signing_message("1", "POST", "/trade-api/v2/portfolio/orders"),
        "1POST/trade-api/v2/portfolio/orders"
    );
    assert_eq!(path_to_sign(""), "/");
    assert_eq!(path_to_sign("/trade-api/ws/v2"), "/trade-api/ws/v2");
}

#[test]
fn subscriptions_follow_the_tracked_set() {
    let mut s = Subscriptions::new();
    assert!(s.sync(&Vec::new()).is_none());
    let first = vec!["A".to_string(), "B".to_string()];
    let cmd = s.sync(&first).expect("subscribe");
    assert_eq!(cmd.id, 1);
    assert_eq!(cmd.cmd, "subscribe");
    assert_eq!(cmd.params.channels, vec!["ticker"]);
    assert_eq!(cmd.params.market_tickers, Some(first.clone()));
    assert!(s.sync(&first).is_none());
    // nothing tracked for a moment is no reason to subscribe again
    assert!(s.sync(&Vec::new()).is_none());
    assert!(s.sync(&first).is_none());
    let second = vec!["B".to_string(), "A".to_string()];
    let cmd = s.sync(&second).expect("subscribe");
    assert_eq!(cmd.id, 2);
    assert_eq!(cmd.params.market_tickers, Some(second.clone()));
    assert!(same_texts(&copy_texts(&second), &second));
    assert!(!same_texts(&first, &second));
    assert!(!same_texts(&first, &first[..1].to_vec()));
}

#[test]
fn ticker_messages_update_the_book() {
    let mut book = QuoteBook::new();
    let msg = WsTickerMessage {
        market_ticker: "A".into(),
        yes_bid: 40,
        yes_ask: 45,
        last_price: 42,
        volume: 9,
        };
    assert!(apply_ticker(&mut book, &msg, 5));
    let e = book.get("A").unwrap();
    assert_eq!((e.yes_bid, e.yes_ask, e.last_price, e.volume, e.updated_at_ms), (40, 45, 42, 9, 5));
    let newer = WsTickerMessage { yes_bid: 41, ..msg.clone() };
    assert!(apply_ticker(&mut book, &newer, 6));
    assert_eq!(book.get("A").unwrap().yes_bid, 41);
    assert_eq!(book.get("A").unwrap().updated_at_ms, 6);
    let nameless = WsTickerMessage { market_ticker: String::new(), ..msg };
    assert!(!apply_ticker(&mut book, &nameless, 7));
    assert_eq!(book.len(), 1);
    assert_eq!(message_kind(Some("ticker")), MessageKind::Ticker);
    assert_eq!(message_kind(Some("error")), MessageKind::Error);
    assert_eq!(message_kind(Some("subscribed")), MessageKind::Other);
    assert_eq!(message_kind(None), MessageKind::Untyped);
}

#[test]
fn answers_are_summarized() {
    assert_eq!(summarize_response_body("a\nb\r\nc"), "a b  c");
    assert_eq!(summarize_response_body(""), "");
    let long = "x".repeat(800);
    assert_eq!(summarize_response_body(&long), long);
    let longer = format!("{}\ny", "é".repeat(800));
    assert_eq!(summarize_response_body(&longer), format!("{}…", "é".repeat(800)));
}

#[test]
fn error_chains_skip_what_is_known() {
    let causes = vec![
        "connection refused".to_string(),
        String::new(),
        "refused".to_string(),
        "os error 111".to_string(),
    ];
    assert_eq!(
        format_error_chain("request failed", &causes),
        "request failed: connection refused: os error 111"
    );
    assert_eq!(format_error_chain("alone", &Vec::new()), "alone");
}

#[test]
fn orders_are_written_for_the_exchange() {
    let intent = OrderIntent {
        ticker: "T".into(),
        side: Side::No,
        action: Action::Sell,
        price_cents: 33,
        count: 4,
        reason: "r".into(),
        estimated_fee_cents: 1,
        confidence_ppm: 1,
    };
    let a = order_request(&intent);
    assert_eq!(a.ticker, "T");
    assert_eq!(a.side, Side::No);
    assert_eq!(a.action, Action::Sell);
    assert_eq!(a.count, 4);
    assert_eq!(a.order_type, OrderType::Limit);
    assert_eq!(a.yes_price, None);
    assert_eq!(a.no_price, Some(33));
    assert_eq!(a.expiration_ts, None);
    assert_eq!(a.time_in_force, None);
    let b = order_request(&intent);
    assert!(!a.client_order_id.is_empty());
    assert_ne!(a.client_order_id, b.client_order_id);
    let yes = order_request(&OrderIntent { side: Side::Yes, ..intent });
    assert_eq!((yes.yes_price, yes.no_price), (Some(33), None));
}

#[test]
fn statuses_of_answers() {
    assert!(check_order_status(200, "").is_ok());
    assert!(check_order_status(201, "").is_ok());
    assert!(matches!(
        check_order_status(429, "slow down"),
        Err(Error::RateLimited { retry_after_ms: 1000 })
    ));
    assert!(matches!(
        check_order_status(500, "boom"),
        Err(Error::KalshiApi { status: 500, ref message }) if message == "boom"
    ));
    assert!(matches!(check_order_status(204, ""), Err(Error::KalshiApi { status: 204, .. })));
    assert_eq!(next_page(Some("abc".into())), Some("abc".to_string()));
    assert_eq!(next_page(Some(String::new())), None);
    assert_eq!(next_page(None), None);
}

#[test]
fn series_are_matched_whatever_the_capitals() {
    let prefixes = vec!["KXHIGHNYC".to_string(), "kxhighchi".to_string()];
    assert!(matches_series("kxhighnyc-26feb10", &prefixes));
    assert!(matches_series("X-KXHIGHCHI", &prefixes));
    assert!(!matches_series("KXHIGHSEA-1", &prefixes));
    assert!(!matches_series("KXHIGHNYC-1", &Vec::new()));
}

#[test]
fn texts_are_normalized_to_words() {
    assert_eq!(normalize_text("  Hello,   World!  "), "hello world");
    assert_eq!(normalize_text("NFL: Kansas-City @ 49ers"), "nfl kansas city 49ers");
    assert_eq!(normalize_text("a\tb\nc\u{b}d"), "a b c d");
    assert_eq!(normalize_text("Zürich"), "z rich");
    assert_eq!(normalize_text("!!!"), "");
    assert_eq!(normalize_text(""), "");
}

#[test]
fn sports_markets_are_recognized() {
    let m = sports_market("Will the Chiefs win the Super-Bowl?", "Resolves YES if they win.");
    assert_eq!(
        market_text(&m),
        "Will the Chiefs win the Super-Bowl? sub EVT Resolves YES if they win. "
    );
    assert!(market_is_sports(&m));
    assert!(market_is_sports(&sports_market("x", "the NBA season")));
    assert!(market_is_sports(&sports_market("Hockey night", "")));
    assert!(!market_is_sports(&sports_market("Will it rain?", "Rain in the city.")));
    let game = |status: &str| SportsDataGame {
        home_team: "A".into(),
        away_team: "B".into(),
        home_score: 1,
        away_score: 0,
        status: status.into(),
    };
    assert!(game("Final").is_final());
    assert!(game("F/OT FINAL").is_final());
    assert!(game("closed").is_final());
    assert!(!game("InProgress").is_final());
    assert!(!game("").is_final());
}

#[test]
fn sports_gates() {
    let settings = GateSettings {
        min_net_edge_cents: 8,
        min_lower_bound_bps: 7000,
        min_clv_proxy_bps: 250,
        max_spread_cents: 10,
        max_signal_disagreement_ppm: 80_000,
    };
    let good = CandidateNumbers {
        side: Side::Yes,
        ask_cents: 40,
        spread_cents: 10,
        lower_bound_ppm: 700_000,
        ev_net_micro_cents: 8_000_000,
        fee_cents_est: 2,
        clv_proxy_bps: 250,
        signal_disagreement_ppm: 80_000,
    };
    assert!(passes_auto_gate(&settings, &good));
    assert!(passes_hitl_gate(&settings, &good));
    assert!(passes_gate(ExecutionMode::AutoUltraStrict, &settings, &good));
    for c in [
        CandidateNumbers { lower_bound_ppm: 699_999, ..good },
        CandidateNumbers { ev_net_micro_cents: 7_999_999, ..good },
        CandidateNumbers { clv_proxy_bps: 249, ..good },
        CandidateNumbers { spread_cents: 11, ..good },
        CandidateNumbers { signal_disagreement_ppm: 80_001, ..good },
    ] {
        assert!(!passes_auto_gate(&settings, &c));
    }
    let modest = CandidateNumbers {
        lower_bound_ppm: 0,
        ev_net_micro_cents: 2_000_000,
        clv_proxy_bps: 75,
        signal_disagreement_ppm: 200_000,
        ..good
    };
    assert!(passes_hitl_gate(&settings, &modest));
    assert!(passes_gate(ExecutionMode::Hitl, &settings, &modest));
    assert!(!passes_gate(ExecutionMode::AutoUltraStrict, &settings, &modest));
    for c in [
        CandidateNumbers { ev_net_micro_cents: 1_999_999, ..modest },
        CandidateNumbers { clv_proxy_bps: 74, ..modest },
        CandidateNumbers { spread_cents: 11, ..modest },
        CandidateNumbers { signal_disagreement_ppm: 200_001, ..modest },
    ] {
        assert!(!passes_hitl_gate(&settings, &c));
    }
    assert_eq!(ExecutionMode::Hitl.as_str(), "hitl");
    assert_eq!(ExecutionMode::AutoUltraStrict.as_str(), "auto_ultra_strict");
    assert_eq!(z_score_from_confidence(9900), 2326);
    assert_eq!(z_score_from_confidence(9899), 1960);
    assert_eq!(z_score_from_confidence(9750), 1960);
    assert_eq!(z_score_from_confidence(9500), 1645);
    assert_eq!(z_score_from_confidence(9499), 1282);
    assert_eq!(better_side(5, 5), Side::Yes);
    assert_eq!(better_side(5, 6), Side::No);
    assert_eq!(can_afford(402, 40, 10, 2), (true, 402));
    assert_eq!(can_afford(401, 40, 10, 2), (false, 402));
    assert_eq!(can_afford(i64::MAX, i64::MAX, 2, 1), (false, i64::MAX as i128 + 1));
}

#[test]
fn switches_of_the_environment() {
    for on in ["1", "true", "YES", " On ", "\tTRUE\n"] {
        assert!(env_bool(Some(on), false));
        assert!(env_bool(Some(on), true));
    }
    for off in ["0", "false", "No", " OFF ", "False"] {
        assert!(!env_bool(Some(off), false));
        assert!(!env_bool(Some(off), true));
    }
    for other in ["", "2", "maybe", "yes please", "o n"] {
        assert!(env_bool(Some(other), true));
        assert!(!env_bool(Some(other), false));
    }
    assert!(env_bool(None, true));
    assert!(!env_bool(None, false));
}

#[test]
fn discovery_falls_back_on_series_names() {
    let prefixes = vec!["kxhigh".to_string(), "KXLOW".to_string()];
    let mut a = sports_market("first", "");
    a.ticker = "KXHIGHNY-26FEB20-T50".to_string();
    let mut b = sports_market("second", "");
    b.ticker = "OTHER-1".to_string();
    let mut c = sports_market("third", "");
    c.ticker = "x-kxlowchi-2".to_string();
    let listed = vec![a, b, c];
    let kept = retain_in_series(&listed, &prefixes);
    assert_eq!(kept.len(), 2);
    assert_eq!(kept[0].ticker, "KXHIGHNY-26FEB20-T50");
    assert_eq!(kept[0].title, "first");
    assert_eq!(kept[1].ticker, "x-kxlowchi-2");
    assert!(retain_in_series(&listed, &Vec::new()).is_empty());
    assert!(needs_broad_search(&Vec::new()));
    assert!(!needs_broad_search(&kept));
}

#[test]
fn a_refused_handshake_that_speaks_of_401() {
    assert!(is_unauthorized("HTTP error: 401 Unauthorized"));
    assert!(is_unauthorized("401"));
    assert!(!is_unauthorized("HTTP error: 403 Forbidden"));
    assert!(!is_unauthorized("4 0 1"));
    assert!(!is_unauthorized(""));
}
