use kalshi_core::arb::evaluator::ArbEvaluator;
use kalshi_core::arb::fees::ArbFeeModel;
use kalshi_core::arb::opportunity::{direction_label, ArbDirection};
use kalshi_core::arb::quotes::{MarketQuote, PriceEntry, QuoteBook};
use kalshi_core::arb::universe::{ArbGroup, EdgeCase};
use kalshi_core::types::Side;

fn group(tickers: &[&str], exhaustive: bool, edge_case: Option<EdgeCase>) -> ArbGroup {
    ArbGroup {
        event_ticker: "EVT".into(),
        title: "Event".into(),
        tickers: tickers.iter().map(|t| t.to_string()).collect(),
        markets: Vec::new(),
        is_mutually_exclusive: exhaustive,
        is_exhaustive: exhaustive,
        edge_case,
    }
}

fn quote(ticker: &str, bid: i64, ask: i64, age_ms: u64) -> MarketQuote {
    MarketQuote {
        ticker: ticker.into(),
        yes_bid: bid,
        yes_ask: ask,
        last_price: (bid + ask) / 2,
        volume: 100,
        age_ms,
    }
}

fn assess(
    fees: &ArbFeeModel,
    g: &ArbGroup,
    quotes: &[MarketQuote],
    ev_mode: bool,
    guaranteed_only: bool,
    qty: i64,
) -> Option<kalshi_core::arb::opportunity::ArbOpportunity> {
    ArbEvaluator::assess(fees, g, quotes, 1, ev_mode, guaranteed_only, 5, 120, qty)
}

#[test]
fn single_market_arbitrage_buys_both_sides() {
    let fees = ArbFeeModel::new(1);
    let g = group(&["MKT"], true, None);
    // yes_ask 35, yes_bid 70 -> no_ask 30; 10 sets cost 350 + 300 + fees 16 + 15 = 681
    let quotes = vec![quote("MKT", 70, 35, 0)];
    let opp = assess(&fees, &g, &quotes, false, true, 10).expect("arbitrage");
    assert_eq!(opp.direction, ArbDirection::BuySet);
    assert_eq!(opp.qty, 10);
    assert_eq!(opp.group_event_ticker, "EVT");
    assert_eq!(opp.legs.len(), 2);
    assert_eq!(opp.legs[0].ticker, "MKT");
    assert_eq!(opp.legs[0].side, Side::Yes);
    assert_eq!(opp.legs[0].price_cents, 35);
    assert_eq!(opp.legs[1].ticker, "MKT");
    assert_eq!(opp.legs[1].side, Side::No);
    assert_eq!(opp.legs[1].price_cents, 30);
    assert_eq!(opp.gross_edge_cents, 1000 - 650);
    assert_eq!(opp.net_edge_cents, 1000 - 681);
    assert_eq!(
        opp.reason,
        "SINGLE-MKT ARB: Yes(35¢)+No(30¢)+Fees(3¢) < 100¢; net=319"
    );
}

#[test]
fn single_market_quotes_of_the_scenario() {
    // yes_ask 35, yes_bid 38: the NO side costs 100 - 38 = 62, so ten sets cost
    // 350 + 620 plus fees of 16 + 17, which is more than they pay out.
    let fees = ArbFeeModel::new(1);
    let g = group(&["MKT"], true, None);
    let quotes = vec![quote("MKT", 38, 35, 0)];
    assert!(assess(&fees, &g, &quotes, false, true, 10).is_none());
    // at the threshold itself the opportunity fires: the net profit must reach
    // one cent per set
    let edge = vec![quote("MKT", 41, 35, 0)];
    // no_ask 59: 350 + 590 + 16 + 17 = 973, net 27 >= 10
    let opp = assess(&fees, &g, &edge, false, true, 10).expect("arbitrage");
    assert_eq!(opp.net_edge_cents, 27);
    assert_eq!(opp.legs[1].price_cents, 59);
    let short = vec![quote("MKT", 40, 36, 0)];
    // no_ask 60: 360 + 600 + 17 + 17 = 994, net 6 < 10
    assert!(assess(&fees, &g, &short, false, true, 10).is_none());
}

#[test]
fn partial_sets_never_trade() {
    let fees = ArbFeeModel::new(0);
    let quotes = vec![quote("A", 1, 2, 0), quote("B", 1, 2, 0)];
    for ev_mode in [false, true] {
        for guaranteed in [false, true] {
            for exhaustive in [false, true] {
                let g = group(&["A", "B"], exhaustive, Some(EdgeCase::PartialSet));
                assert!(assess(&fees, &g, &quotes, ev_mode, guaranteed, 10).is_none());
            }
        }
    }
    let single = group(&["A"], true, Some(EdgeCase::PartialSet));
    assert!(assess(&fees, &single, &quotes[..1], true, false, 10).is_none());
}

#[test]
fn buy_set_on_an_exhaustive_group() {
    let fees = ArbFeeModel::new(1);
    let g = group(&["A", "B"], true, None);
    let quotes = vec![quote("A", 30, 35, 0), quote("B", 50, 55, 0)];
    // asks with slippage 36 and 56, ten sets: 360 + 17 + 560 + 18 = 955
    let opp = assess(&fees, &g, &quotes, false, true, 10).expect("buy set");
    assert_eq!(opp.direction, ArbDirection::BuySet);
    assert_eq!(direction_label(opp.direction), "buy_set");
    assert_eq!(opp.net_edge_cents, 45);
    assert_eq!(opp.gross_edge_cents, 45);
    assert_eq!(opp.legs.len(), 2);
    assert_eq!(opp.legs[0].price_cents, 35);
    assert_eq!(opp.legs[1].price_cents, 55);
    assert!(opp.legs.iter().all(|l| l.side == Side::Yes));
    assert_eq!(
        opp.reason,
        "BUY-SET: cost (95.50/c) < payout (100.00/c); net=45¢"
    );
}

#[test]
fn sell_set_on_an_exhaustive_group() {
    let fees = ArbFeeModel::new(1);
    let g = group(&["A", "B"], true, None);
    let quotes = vec![quote("A", 60, 65, 0), quote("B", 50, 55, 0)];
    // buying costs 660 + 16 + 560 + 18 > 1000; selling at 59 and 49:
    // 590 - 17 + 490 - 18 = 1045
    let opp = assess(&fees, &g, &quotes, false, true, 10).expect("sell set");
    assert_eq!(opp.direction, ArbDirection::SellSet);
    assert_eq!(direction_label(opp.direction), "sell_set");
    assert_eq!(opp.net_edge_cents, 45);
    assert_eq!(opp.legs[0].price_cents, 60);
    assert_eq!(opp.legs[1].price_cents, 50);
    assert_eq!(
        opp.reason,
        "SELL-SET: revenue (104.50/c) > liability (100.00/c); net=45¢"
    );
}

#[test]
fn non_exhaustive_groups_need_expected_value_mode() {
    let fees = ArbFeeModel::new(0);
    let quotes = vec![quote("A", 10, 20, 0), quote("B", 10, 20, 0)];
    let tie = group(&["A", "B"], false, Some(EdgeCase::TiePossible));
    assert!(assess(&fees, &tie, &quotes, true, true, 10).is_none());
    assert!(assess(&fees, &tie, &quotes, false, false, 10).is_none());
    // payout 95, cost 2 * (200 + 12) = 424, net 526 >= (1 + 5) * 10
    let opp = assess(&fees, &tie, &quotes, true, false, 10).expect("expected value trade");
    assert_eq!(opp.net_edge_cents, 950 - 424);
    let void = group(&["A", "B"], false, Some(EdgeCase::VoidPossible));
    let opp = assess(&fees, &void, &quotes, true, false, 10).expect("expected value trade");
    assert_eq!(opp.net_edge_cents, 980 - 424);
}

#[test]
fn tie_buffer_raises_the_bar() {
    let fees = ArbFeeModel::new(0);
    let tie = group(&["A", "B"], false, Some(EdgeCase::TiePossible));
    // cost 45 + 2 + 45 + 2 = 94 against a payout of 95: a cent of profit, but six
    // are asked of a set that may tie
    let quotes = vec![quote("A", 40, 45, 0), quote("B", 40, 45, 0)];
    assert!(assess(&fees, &tie, &quotes, true, false, 1).is_none());
    let sure = group(&["A", "B"], true, None);
    // with a payout of 100 the same quotes leave six cents
    assert_eq!(
        assess(&fees, &sure, &quotes, true, false, 1).unwrap().net_edge_cents,
        6
    );
}

#[test]
fn stale_quotes_and_bad_requests_yield_nothing() {
    let fees = ArbFeeModel::new(0);
    let g = group(&["A", "B"], true, None);
    let fresh = vec![quote("A", 10, 20, 0), quote("B", 10, 20, 120_000)];
    assert!(assess(&fees, &g, &fresh, false, true, 10).is_some());
    let stale = vec![quote("A", 10, 20, 0), quote("B", 10, 20, 120_001)];
    assert!(assess(&fees, &g, &stale, false, true, 10).is_none());
    assert!(assess(&fees, &g, &fresh, false, true, 0).is_none());
    assert!(assess(&fees, &g, &fresh, false, true, -10).is_none());
    let wild = vec![quote("A", 10, 20, 0), quote("B", 10, 101, 0)];
    assert!(assess(&fees, &g, &wild, false, true, 10).is_none());
}

#[test]
fn minimum_profit_is_at_least_a_cent() {
    let fees = ArbFeeModel::new(0);
    let g = group(&["A", "B"], true, None);
    // cost 48 + 2 + 48 + 2 = 100: no profit at all
    let quotes = vec![quote("A", 40, 48, 0), quote("B", 40, 48, 0)];
    assert!(ArbEvaluator::assess(&fees, &g, &quotes, 0, false, true, 5, 120, 1).is_none());
    assert!(ArbEvaluator::assess(&fees, &g, &quotes, -50, false, true, 5, 120, 1).is_none());
}

#[test]
fn evaluation_reads_the_quote_book() {
    let fees = ArbFeeModel::new(1);
    let mut book = QuoteBook::new();
    book.upsert(
        "A",
        PriceEntry { yes_bid: 30, yes_ask: 35, last_price: 32, volume: 1, updated_at_ms: 1_000 },
    );
    let evaluator = ArbEvaluator::new(&fees, &book);
    let g = group(&["A", "B"], true, None);
    // B is missing
    assert!(evaluator.evaluate(&g, 1, false, true, 5, 120, 10, 2_000).is_none());
    book.upsert(
        "B",
        PriceEntry { yes_bid: 50, yes_ask: 55, last_price: 52, volume: 1, updated_at_ms: 1_500 },
    );
    let evaluator = ArbEvaluator::new(&fees, &book);
    let opp = evaluator.evaluate(&g, 1, false, true, 5, 120, 10, 2_000).expect("buy set");
    assert_eq!(opp.net_edge_cents, 45);
    // two minutes and a millisecond after A was written its quote is stale
    assert!(evaluator.evaluate(&g, 1, false, true, 5, 120, 10, 121_001).is_none());
    assert!(evaluator.evaluate(&g, 1, false, true, 5, 120, 10, 121_000).is_some());
}

#[test]
fn a_single_market_is_not_held_to_thresholds_it_never_reads() {
    let g = group(&["MKT"], true, None);
    let quotes = vec![quote("MKT", 70, 35, 0)];
    // neither the tie buffer nor the slippage buffer enters the single-market path
    let fees = ArbFeeModel::new(i64::MAX);
    let opp = ArbEvaluator::assess(&fees, &g, &quotes, 1, false, true, i64::MIN, 120, 10)
        .expect("arbitrage");
    assert_eq!(opp.net_edge_cents, 1000 - 681);
    assert_eq!(opp.legs.len(), 2);
    let opp = ArbEvaluator::assess(&fees, &g, &quotes, i64::MIN, false, true, i64::MAX, 120, 10)
        .expect("arbitrage");
    assert_eq!(opp.net_edge_cents, 1000 - 681);
    // a profit that no trade can show is simply not reached
    assert!(ArbEvaluator::assess(&fees, &g, &quotes, i64::MAX, false, true, 0, 120, 10).is_none());
    assert!(ArbEvaluator::assess(&fees, &g, &quotes, 32, false, true, 0, 120, 10).is_none());
    assert!(ArbEvaluator::assess(&fees, &g, &quotes, 31, false, true, 0, 120, 10).is_some());

    // a set is not held to the tie buffer unless it reads it
    let fees = ArbFeeModel::new(0);
    let set = group(&["A", "B"], true, None);
    let cheap = vec![quote("A", 30, 40, 0), quote("B", 30, 40, 0)];
    assert!(ArbEvaluator::assess(&fees, &set, &cheap, 1, true, false, i64::MAX, 120, 10).is_some());
    let flawed = group(&["A", "B"], false, Some(EdgeCase::TiePossible));
    assert!(ArbEvaluator::assess(&fees, &flawed, &cheap, 1, true, false, i64::MAX, 120, 10).is_none());
    assert!(ArbEvaluator::assess(&fees, &flawed, &cheap, 1, true, false, 0, 120, 10).is_some());
}
