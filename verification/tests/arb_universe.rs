use kalshi_core::arb::universe::{EdgeCase, LoweredTexts, UniverseBuilder};
use kalshi_core::discovery::{resolves_within_days_window, retain_in_window, seed_quotes};
use kalshi_core::arb::quotes::QuoteBook;
use kalshi_core::types::{EventInfo, MarketInfo};

fn make_market(ticker: &str, title: &str) -> MarketInfo {
    MarketInfo {
        ticker: ticker.into(),
        event_ticker: "EVT-TEST".into(),
        market_type: "binary".into(),
        title: title.into(),
        subtitle: String::new(),
        status: "open".into(),
        yes_bid: 40,
        yes_ask: 45,
        no_bid: 55,
        no_ask: 60,
        last_price: 42,
        volume: 100,
        volume_24h: 50,
        open_interest: 10,
        rules_primary: String::new(),
        rules_secondary: String::new(),
        close_time_ms: None,
        expiration_time_ms: None,
        result: None,
        strike_type: None,
        floor_strike: None,
        cap_strike: None,
        functional_strike: None,
        tick_size: Some(1),
        response_price_units: None,
    }
}

#[test]
fn test_exhaustive_mutually_exclusive() {
    let markets = vec![
        make_market("A-YES", "Team A wins"),
        make_market("B-YES", "Team B wins"),
    ];
    let (exhaustive, edge) = UniverseBuilder::classify_exhaustiveness(true, &markets);
    assert!(exhaustive);
    assert!(edge.is_none());
}

#[test]
fn test_non_mutually_exclusive() {
    let markets = vec![
        make_market("A-YES", "Team A wins"),
        make_market("B-YES", "Team B wins"),
    ];
    let (exhaustive, edge) = UniverseBuilder::classify_exhaustiveness(false, &markets);
    assert!(!exhaustive);
    assert_eq!(edge, Some(EdgeCase::PartialSet));
}

#[test]
fn test_void_detected() {
    let mut m = make_market("A-YES", "Team A wins");
    m.rules_primary = "If the event is void or cancelled, all contracts resolve NO.".into();
    let markets = vec![m, make_market("B-YES", "Team B wins")];
    let (exhaustive, edge) = UniverseBuilder::classify_exhaustiveness(true, &markets);
    assert!(!exhaustive);
    assert_eq!(edge, Some(EdgeCase::VoidPossible));
}

#[test]
fn test_tie_without_tie_market() {
    let mut m = make_market("A-YES", "Team A wins");
    m.rules_primary = "In the event of a tie, all contracts resolve NO.".into();
    let markets = vec![m, make_market("B-YES", "Team B wins")];
    let (exhaustive, edge) = UniverseBuilder::classify_exhaustiveness(true, &markets);
    assert!(!exhaustive);
    assert_eq!(edge, Some(EdgeCase::TiePossible));
}

#[test]
fn test_tie_with_tie_market() {
    let mut m = make_market("A-YES", "Team A wins");
    m.rules_primary = "In the event of a tie, the tie market resolves YES.".into();
    let markets = vec![
        m,
        make_market("B-YES", "Team B wins"),
        make_market("TIE-YES", "Tie / Draw"),
    ];
    let (exhaustive, edge) = UniverseBuilder::classify_exhaustiveness(true, &markets);
    assert!(exhaustive);
    assert!(edge.is_none());
}

#[test]
fn single_market_is_always_exhaustive() {
    let mut m = make_market("A-YES", "Team A wins");
    m.rules_primary = "Void if cancelled; a tie resolves NO.".into();
    let markets = vec![m];
    assert_eq!(
        UniverseBuilder::classify_exhaustiveness(false, &markets),
        (true, None)
    );
}

#[test]
fn classification_ignores_capitals() {
    // the rules are read in lower case: capitals must not hide a keyword
    let mut m = make_market("A-YES", "Team A wins");
    m.rules_secondary = "The market is VOID if the game is postponed.".into();
    let markets = vec![m, make_market("B-YES", "Team B wins")];
    assert_eq!(
        UniverseBuilder::classify_exhaustiveness(true, &markets),
        (false, Some(EdgeCase::VoidPossible))
    );
    let mut t = make_market("A-YES", "Team A wins");
    t.rules_primary = "A DRAW resolves every contract NO.".into();
    let markets = vec![t, make_market("B-YES", "Team B wins")];
    assert_eq!(
        UniverseBuilder::classify_exhaustiveness(true, &markets),
        (false, Some(EdgeCase::TiePossible))
    );
}

#[test]
fn void_in_a_title_counts_and_wins_over_a_tie() {
    let mut a = make_market("A-YES", "Team A wins");
    a.rules_primary = "a tie resolves no".into();
    let b = make_market("B-YES", "Cancel the event");
    let markets = vec![a, b];
    assert_eq!(
        UniverseBuilder::classify_exhaustiveness(true, &markets),
        (false, Some(EdgeCase::VoidPossible))
    );
}

#[test]
fn classification_of_lowered_texts() {
    let texts = vec![
        LoweredTexts {
            title: "team a wins".into(),
            rules_primary: "in the event of a tie nobody wins".into(),
            rules_secondary: String::new(),
        },
        LoweredTexts {
            title: "team b wins".into(),
            rules_primary: String::new(),
            rules_secondary: String::new(),
        },
    ];
    assert_eq!(
        UniverseBuilder::classify_lowered(true, &texts),
        (false, Some(EdgeCase::TiePossible))
    );
    assert_eq!(
        UniverseBuilder::classify_lowered(false, &texts),
        (false, Some(EdgeCase::PartialSet))
    );
    let none: Vec<LoweredTexts> = Vec::new();
    assert_eq!(UniverseBuilder::classify_lowered(true, &none), (true, None));
}

#[test]
fn groups_are_built_from_tradeable_markets() {
    let mut closed = make_market("C-YES", "Team C wins");
    closed.status = "closed".into();
    let mut active = make_market("B-YES", "Team B wins");
    active.status = "active".into();
    let events = vec![
        EventInfo {
            event_ticker: "EVT-1".into(),
            title: "Game one".into(),
            mutually_exclusive: true,
            markets: vec![make_market("A-YES", "Team A wins"), active, closed.clone()],
        },
        EventInfo {
            event_ticker: "EVT-2".into(),
            title: "Game two".into(),
            mutually_exclusive: true,
            markets: vec![closed],
        },
        EventInfo {
            event_ticker: "EVT-3".into(),
            title: "Game three".into(),
            mutually_exclusive: false,
            markets: vec![make_market("X-YES", "X"), make_market("Y-YES", "Y")],
        },
    ];
    let groups = UniverseBuilder::build(&events);
    assert_eq!(groups.len(), 2);
    assert_eq!(groups[0].event_ticker, "EVT-1");
    assert_eq!(groups[0].title, "Game one");
    assert_eq!(groups[0].tickers, vec!["A-YES".to_string(), "B-YES".to_string()]);
    assert_eq!(groups[0].markets.len(), 2);
    assert!(groups[0].is_mutually_exclusive);
    assert!(groups[0].is_exhaustive);
    assert_eq!(groups[0].edge_case, None);
    assert_eq!(groups[1].event_ticker, "EVT-3");
    assert!(!groups[1].is_exhaustive);
    assert_eq!(groups[1].edge_case, Some(EdgeCase::PartialSet));
}

#[test]
fn resolution_window() {
    let day: i64 = 86_400_000;
    let mut m = make_market("A", "a");
    assert!(!resolves_within_days_window(&m, 0, 11));
    m.expiration_time_ms = Some(5 * day);
    assert!(resolves_within_days_window(&m, 0, 11));
    m.close_time_ms = Some(11 * day);
    assert!(!resolves_within_days_window(&m, 0, 11));
    m.close_time_ms = Some(11 * day - 1);
    assert!(resolves_within_days_window(&m, 0, 11));
    assert!(!resolves_within_days_window(&m, 11 * day - 1, 11));
    assert!(!resolves_within_days_window(&m, 0, 0));
    assert!(!resolves_within_days_window(&m, 0, -3));
    let kept = retain_in_window(&vec![m.clone(), make_market("B", "b"), m], 0, 11);
    assert_eq!(kept.len(), 2);
    assert_eq!(kept[0].ticker, "A");
}

#[test]
fn quotes_are_seeded_from_listings() {
    let mut book = QuoteBook::new();
    let markets = vec![make_market("A", "a"), make_market("B", "b"), make_market("A", "again")];
    assert_eq!(seed_quotes(&mut book, &markets, 77), 2);
    assert_eq!(book.len(), 2);
    let a = book.get("A").unwrap();
    assert_eq!((a.yes_bid, a.yes_ask, a.last_price, a.volume, a.updated_at_ms), (40, 45, 42, 100, 77));
    assert_eq!(seed_quotes(&mut book, &markets, 99), 0);
    assert_eq!(book.get("A").unwrap().updated_at_ms, 77);
}
