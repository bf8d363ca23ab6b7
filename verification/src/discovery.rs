//! Decisions of the discovery task: which markets are tracked, how the
//! events of the exchange become groups, and how the quote book is seeded.

use crate::arb::quotes::{seeded, PriceEntry, QuoteBook};
use crate::arb::universe::{classification, lowered_all, ArbGroup, UniverseBuilder};
use crate::text::{contains, contains_text, to_uppercase, uppercase};
use crate::types::{EventInfo, MarketInfo};
use vstd::prelude::*;

verus! {

/// When a market is decided: at its close, or where it has no close at its
/// expiration.
pub open spec fn resolution_time(market: MarketInfo) -> Option<i64> {
    match market.close_time_ms {
        Some(t) => Some(t),
        None => market.expiration_time_ms,
    }
}

/// The market resolves after `now_ms` and in fewer than `max_days` days.
/// A market without a resolution time is never within the window, and a
/// window of no days holds nothing.
pub open spec fn within_window(market: MarketInfo, now_ms: int, max_days: int) -> bool {
    max_days > 0 && (resolution_time(market) matches Some(t) && 0 < t - now_ms < max_days
        * 86_400_000)
}

/// Whether `market` resolves within `max_days_to_resolution` days of
/// `now_utc_ms`.
pub fn resolves_within_days_window(market: &MarketInfo, now_utc_ms: i64, max_days_to_resolution: i64) -> (r:
    bool)
    ensures
        r == within_window(*market, now_utc_ms as int, max_days_to_resolution as int),
{
    if max_days_to_resolution <= 0 {
        return false;
    }
    let resolution: i64 = match market.close_time_ms {
        Some(t) => t,
        None => match market.expiration_time_ms {
            Some(t) => t,
            None => {
                return false;
            },
        },
    };
    let remaining: i128 = resolution as i128 - now_utc_ms as i128;
    remaining > 0 && remaining < max_days_to_resolution as i128 * 86_400_000
}

/// The markets of `fetched` that resolve within the window, in order.
pub open spec fn kept_in_window(fetched: Seq<MarketInfo>, now_ms: int, max_days: int) -> Seq<MarketInfo>
    decreases fetched.len(),
{
    if fetched.len() == 0 {
        Seq::empty()
    } else if within_window(fetched.last(), now_ms, max_days) {
        kept_in_window(fetched.drop_last(), now_ms, max_days).push(fetched.last())
    } else {
        kept_in_window(fetched.drop_last(), now_ms, max_days)
    }
}

/// Keeps the markets that resolve within the window.
pub fn retain_in_window(fetched: &Vec<MarketInfo>, now_utc_ms: i64, max_days_to_resolution: i64) -> (kept:
    Vec<MarketInfo>)
    ensures
        kept@ == kept_in_window(fetched@, now_utc_ms as int, max_days_to_resolution as int),
{
    let mut kept: Vec<MarketInfo> = Vec::new();
    let mut i: usize = 0;
    while i < fetched.len()
        invariant
            i <= fetched.len(),
            kept@ == kept_in_window(
                fetched@.take(i as int),
                now_utc_ms as int,
                max_days_to_resolution as int,
            ),
        decreases fetched.len() - i,
    {
        proof {
            let next = fetched@.take(i + 1);
            assert(next.drop_last() =~= fetched@.take(i as int));
            assert(next.last() == fetched@[i as int]);
        }
        if resolves_within_days_window(&fetched[i], now_utc_ms, max_days_to_resolution) {
            kept.push(fetched[i].duplicate());
        }
        i += 1;
    }
    assert(fetched@.take(fetched@.len() as int) =~= fetched@);
    kept
}

/// The ticker names one of the series: some prefix occurs in it,
/// capitals and small letters alike.
pub open spec fn in_series(ticker: Seq<char>, prefixes: Seq<String>) -> bool {
    exists|i: int|
        0 <= i < prefixes.len() && contains_text(uppercase(ticker), uppercase(
            (#[trigger] prefixes[i])@,
        ))
}

/// Whether `ticker` names one of the series with the given prefixes.
pub fn matches_series(ticker: &str, prefixes: &Vec<String>) -> (r: bool)
    ensures
        r == in_series(ticker@, prefixes@),
{
    let upper = to_uppercase(ticker);
    let mut i: usize = 0;
    while i < prefixes.len()
        invariant
            i <= prefixes.len(),
            upper@ == uppercase(ticker@),
            forall|k: int|
                0 <= k < i ==> !contains_text(uppercase(ticker@), uppercase(
                    (#[trigger] prefixes@[k])@,
                )),
        decreases prefixes.len() - i,
    {
        let prefix = to_uppercase(prefixes[i].as_str());
        if contains(upper.as_str(), prefix.as_str()) {
            return true;
        }
        i += 1;
    }
    false
}

/// The markets of `listed` whose ticker names one of the series, in
/// order.
pub open spec fn kept_in_series(listed: Seq<MarketInfo>, prefixes: Seq<String>) -> Seq<MarketInfo>
    decreases listed.len(),
{
    if listed.len() == 0 {
        Seq::empty()
    } else if in_series(listed.last().ticker@, prefixes) {
        kept_in_series(listed.drop_last(), prefixes).push(listed.last())
    } else {
        kept_in_series(listed.drop_last(), prefixes)
    }
}

/// Keeps the markets whose ticker names one of the series.
pub fn retain_in_series(listed: &Vec<MarketInfo>, prefixes: &Vec<String>) -> (kept: Vec<MarketInfo>)
    ensures
        kept@ == kept_in_series(listed@, prefixes@),
{
    let mut kept: Vec<MarketInfo> = Vec::new();
    let mut i: usize = 0;
    while i < listed.len()
        invariant
            i <= listed.len(),
            kept@ == kept_in_series(listed@.take(i as int), prefixes@),
        decreases listed.len() - i,
    {
        proof {
            let next = listed@.take(i + 1);
            assert(next.drop_last() =~= listed@.take(i as int));
            assert(next.last() == listed@[i as int]);
        }
        if matches_series(listed[i].ticker.as_str(), prefixes) {
            kept.push(listed[i].duplicate());
        }
        i += 1;
    }
    assert(listed@.take(listed@.len() as int) =~= listed@);
    kept
}

/// Whether discovery has to fall back on a search of all open markets:
/// when the searches by series found nothing.
pub fn needs_broad_search(found_by_series: &Vec<MarketInfo>) -> (r: bool)
    ensures
        r == (found_by_series@.len() == 0),
{
    found_by_series.len() == 0
}

/// The markets of an event that are listed as tradeable, in order.
pub open spec fn listed_markets(markets: Seq<MarketInfo>) -> Seq<MarketInfo>
    decreases markets.len(),
{
    if markets.len() == 0 {
        Seq::empty()
    } else if markets.last().is_listed() {
        listed_markets(markets.drop_last()).push(markets.last())
    } else {
        listed_markets(markets.drop_last())
    }
}

/// `group` is the group of `event`: its tradeable markets with their
/// tickers in the same order, and the classification of those markets.
pub open spec fn is_group_of(group: ArbGroup, event: EventInfo) -> bool {
    let open = listed_markets(event.markets@);
    &&& group.event_ticker == event.event_ticker
    &&& group.title == event.title
    &&& group.markets@ == open
    &&& group.tickers@ == Seq::new(open.len(), |i: int| open[i].ticker)
    &&& group.is_mutually_exclusive == event.mutually_exclusive
    &&& (group.is_exhaustive, group.edge_case) == classification(
        event.mutually_exclusive,
        lowered_all(open),
    )
}

fn open_markets(markets: &Vec<MarketInfo>) -> (open: Vec<MarketInfo>)
    ensures
        open@ == listed_markets(markets@),
{
    let mut open: Vec<MarketInfo> = Vec::new();
    let mut i: usize = 0;
    while i < markets.len()
        invariant
            i <= markets.len(),
            open@ == listed_markets(markets@.take(i as int)),
        decreases markets.len() - i,
    {
        proof {
            let next = markets@.take(i + 1);
            assert(next.drop_last() =~= markets@.take(i as int));
            assert(next.last() == markets@[i as int]);
        }
        if markets[i].listed() {
            open.push(markets[i].duplicate());
        }
        i += 1;
    }
    assert(markets@.take(markets@.len() as int) =~= markets@);
    open
}

impl UniverseBuilder {
    /// The group of one event, or nothing when none of its markets is
    /// tradeable.
    pub fn group_of(event: &EventInfo) -> (group: Option<ArbGroup>)
        ensures
            match group {
                Some(g) => listed_markets(event.markets@).len() > 0 && is_group_of(g, *event),
                None => listed_markets(event.markets@).len() == 0,
            },
    {
        let open = open_markets(&event.markets);
        if open.len() == 0 {
            return None;
        }
        let (is_exhaustive, edge_case) = Self::classify_exhaustiveness(
            event.mutually_exclusive,
            open.as_slice(),
        );
        let mut tickers: Vec<String> = Vec::new();
        let mut i: usize = 0;
        while i < open.len()
            invariant
                i <= open.len(),
                tickers@.len() == i,
                forall|k: int| 0 <= k < i ==> tickers@[k] == open@[k].ticker,
            decreases open.len() - i,
        {
            tickers.push(open[i].ticker.clone());
            i += 1;
        }
        assert(tickers@ =~= Seq::new(open@.len(), |i: int| open@[i].ticker));
        Some(
            ArbGroup {
                event_ticker: event.event_ticker.clone(),
                title: event.title.clone(),
                tickers,
                markets: open,
                is_mutually_exclusive: event.mutually_exclusive,
                is_exhaustive,
                edge_case,
            },
        )
    }

    /// The groups of the events that have a tradeable market, in the order
    /// of the events.
    pub fn build(events: &Vec<EventInfo>) -> (groups: Vec<ArbGroup>)
        ensures
            groups@.len() == tradeable_events(events@).len(),
            forall|g: int|
                0 <= g < groups@.len() ==> is_group_of(
                    #[trigger] groups@[g],
                    tradeable_events(events@)[g],
                ),
    {
        let mut groups: Vec<ArbGroup> = Vec::new();
        let mut i: usize = 0;
        while i < events.len()
            invariant
                i <= events.len(),
                groups@.len() == tradeable_events(events@.take(i as int)).len(),
                forall|g: int|
                    0 <= g < groups@.len() ==> is_group_of(
                        #[trigger] groups@[g],
                        tradeable_events(events@.take(i as int))[g],
                    ),
            decreases events.len() - i,
        {
            proof {
                let next = events@.take(i + 1);
                assert(next.drop_last() =~= events@.take(i as int));
                assert(next.last() == events@[i as int]);
            }
            match Self::group_of(&events[i]) {
                Some(group) => {
                    groups.push(group);
                },
                None => {},
            }
            i += 1;
        }
        assert(events@.take(events@.len() as int) =~= events@);
        groups
    }
}

/// The events that have a tradeable market, in order.
pub open spec fn tradeable_events(events: Seq<EventInfo>) -> Seq<EventInfo>
    decreases events.len(),
{
    if events.len() == 0 {
        Seq::empty()
    } else if listed_markets(events.last().markets@).len() > 0 {
        tradeable_events(events.drop_last()).push(events.last())
    } else {
        tradeable_events(events.drop_last())
    }
}

/// The quote that the listing of a market gives, stamped `now_ms`.
pub open spec fn listed_quote(market: MarketInfo, now_ms: u64) -> PriceEntry {
    PriceEntry {
        yes_bid: market.yes_bid,
        yes_ask: market.yes_ask,
        last_price: market.last_price,
        volume: market.volume,
        updated_at_ms: now_ms,
    }
}

/// The book after the listings of `markets` have seeded it, in order:
/// a market that has a quote keeps it.
pub open spec fn seeded_with(
    book: Map<Seq<char>, PriceEntry>,
    markets: Seq<MarketInfo>,
    now_ms: u64,
) -> Map<Seq<char>, PriceEntry>
    decreases markets.len(),
{
    if markets.len() == 0 {
        book
    } else {
        seeded(
            seeded_with(book, markets.drop_last(), now_ms),
            markets.last().ticker@,
            listed_quote(markets.last(), now_ms),
        )
    }
}

/// Seeds the quote book from the listings of `markets` and returns how
/// many quotes were written.
pub fn seed_quotes(book: &mut QuoteBook, markets: &Vec<MarketInfo>, now_ms: u64) -> (written: usize)
    ensures
        final(book)@ == seeded_with(old(book)@, markets@, now_ms),
        written <= markets@.len(),
{
    let mut written: usize = 0;
    let mut i: usize = 0;
    while i < markets.len()
        invariant
            i <= markets.len(),
            written <= i,
            book@ == seeded_with(old(book)@, markets@.take(i as int), now_ms),
        decreases markets.len() - i,
    {
        proof {
            let next = markets@.take(i + 1);
            assert(next.drop_last() =~= markets@.take(i as int));
            assert(next.last() == markets@[i as int]);
        }
        let m = &markets[i];
        let entry = PriceEntry {
            yes_bid: m.yes_bid,
            yes_ask: m.yes_ask,
            last_price: m.last_price,
            volume: m.volume,
            updated_at_ms: now_ms,
        };
        if book.seed(m.ticker.as_str(), entry) {
            written += 1;
        }
        i += 1;
    }
    assert(markets@.take(markets@.len() as int) =~= markets@);
    written
}

/// Seeding never replaces a quote that the book already has.
pub proof fn lemma_seeding_keeps_quotes(
    book: Map<Seq<char>, PriceEntry>,
    markets: Seq<MarketInfo>,
    now_ms: u64,
    ticker: Seq<char>,
)
    requires
        book.contains_key(ticker),
    ensures
        seeded_with(book, markets, now_ms).contains_key(ticker),
        seeded_with(book, markets, now_ms)[ticker] == book[ticker],
    decreases markets.len(),
{
    if markets.len() > 0 {
        lemma_seeding_keeps_quotes(book, markets.drop_last(), now_ms, ticker);
    }
}

} // verus!
