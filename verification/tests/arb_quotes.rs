use kalshi_core::arb::quotes::{MarketQuote, PriceEntry, QuoteBook};

fn make_book_with(entries: Vec<(&str, i64, i64)>) -> QuoteBook {
    let mut book = QuoteBook::new();
    for (ticker, bid, ask) in entries {
        book.upsert(
            ticker,
            PriceEntry {
                yes_bid: bid,
                yes_ask: ask,
                last_price: (bid + ask) / 2,
                volume: 100,
                updated_at_ms: 1_000,
            },
        );
    }
    book
}

#[test]
fn test_group_quotes_all_present() {
    let qb = make_book_with(vec![("A", 40, 45), ("B", 50, 55)]);
    let tickers: Vec<String> = vec!["A".into(), "B".into()];
    let quotes = qb.group_quotes(&tickers, 1_000);
    assert!(quotes.is_some());
    assert_eq!(quotes.unwrap().len(), 2);
}

#[test]
fn test_group_quotes_missing_ticker() {
    let qb = make_book_with(vec![("A", 40, 45)]);
    let tickers: Vec<String> = vec!["A".into(), "B".into()];
    let quotes = qb.group_quotes(&tickers, 1_000);
    assert!(quotes.is_none());
}

#[test]
fn test_all_fresh() {
    let quotes = vec![
        MarketQuote {
            ticker: "A".into(),
            yes_bid: 40,
            yes_ask: 45,
            last_price: 42,
            volume: 100,
            age_ms: 500,
        },
        MarketQuote {
            ticker: "B".into(),
            yes_bid: 50,
            yes_ask: 55,
            last_price: 52,
            volume: 100,
            age_ms: 1500,
        },
    ];
    assert!(QuoteBook::all_fresh(&quotes, 2));
    assert!(!QuoteBook::all_fresh(&quotes, 1));
}

#[test]
fn group_quotes_keep_order_and_carry_ages() {
    let mut qb = make_book_with(vec![("A", 40, 45), ("B", 50, 55)]);
    qb.upsert(
        "B",
        PriceEntry {
            yes_bid: 51,
            yes_ask: 56,
            last_price: 53,
            volume: 7,
            updated_at_ms: 4_000,
        },
    );
    let tickers: Vec<String> = vec!["B".into(), "A".into()];
    let quotes = qb.group_quotes(&tickers, 5_500).unwrap();
    assert_eq!(quotes[0].ticker, "B");
    assert_eq!(quotes[0].yes_bid, 51);
    assert_eq!(quotes[0].yes_ask, 56);
    assert_eq!(quotes[0].volume, 7);
    assert_eq!(quotes[0].age_ms, 1_500);
    assert_eq!(quotes[1].ticker, "A");
    assert_eq!(quotes[1].age_ms, 4_500);
    // an entry stamped after the snapshot has age zero
    let early = qb.group_quotes(&tickers, 10).unwrap();
    assert_eq!(early[0].age_ms, 0);
    assert_eq!(qb.len(), 2);
}

#[test]
fn empty_group_snapshot_is_empty() {
    let qb = QuoteBook::new();
    let tickers: Vec<String> = Vec::new();
    assert_eq!(qb.group_quotes(&tickers, 0).unwrap().len(), 0);
    assert!(QuoteBook::all_fresh(&[], 0));
}

#[test]
fn seeding_never_replaces_a_streamed_quote() {
    let mut qb = make_book_with(vec![("A", 40, 45)]);
    let seed = PriceEntry {
        yes_bid: 1,
        yes_ask: 2,
        last_price: 1,
        volume: 0,
        updated_at_ms: 9,
    };
    assert!(!qb.seed("A", seed));
    assert_eq!(qb.get("A").unwrap().yes_bid, 40);
    assert!(qb.seed("B", seed));
    assert_eq!(qb.get("B"), Some(seed));
    assert_eq!(qb.get("C"), None);
}

#[test]
fn freshness_of_one_ticker() {
    let qb = make_book_with(vec![("A", 40, 45)]);
    assert!(qb.is_fresh("A", 2, 3_000));
    assert!(!qb.is_fresh("A", 2, 3_001));
    assert!(!qb.is_fresh("B", 2, 3_000));
    assert!(qb.is_fresh("A", u64::MAX, u64::MAX));
}
