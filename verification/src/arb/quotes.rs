//! The quote book: the latest top-of-book prices per ticker, each with the
//! time of its last update, and snapshots of whole groups.

use crate::text::texts;
use vstd::hash_map::StringHashMap;
use vstd::prelude::*;

verus! {

/// The latest prices of one market. `updated_at_ms` is the reading of the
/// monotonic clock when the entry was written.
#[derive(Clone, Copy, Debug, PartialEq, Eq, Structural)]
pub struct PriceEntry {
    pub yes_bid: i64,
    pub yes_ask: i64,
    pub last_price: i64,
    pub volume: i64,
    pub updated_at_ms: u64,
}

/// The prices of one leg at the moment of a snapshot.
#[derive(Clone, Debug)]
pub struct MarketQuote {
    pub ticker: String,
    pub yes_bid: i64,
    pub yes_ask: i64,
    pub last_price: i64,
    pub volume: i64,
    pub age_ms: u64,
}

/// A quote as a mathematical value.
pub struct QuoteModel {
    pub ticker: Seq<char>,
    pub yes_bid: int,
    pub yes_ask: int,
    pub last_price: int,
    pub volume: int,
    pub age_ms: int,
}

impl View for MarketQuote {
    type V = QuoteModel;

    open spec fn view(&self) -> QuoteModel {
        QuoteModel {
            ticker: self.ticker@,
            yes_bid: self.yes_bid as int,
            yes_ask: self.yes_ask as int,
            last_price: self.last_price as int,
            volume: self.volume as int,
            age_ms: self.age_ms as int,
        }
    }
}

/// The quotes of a slice as mathematical values.
pub open spec fn quote_models(quotes: Seq<MarketQuote>) -> Seq<QuoteModel> {
    Seq::new(quotes.len(), |i: int| quotes[i]@)
}

/// Age of an entry at `now`; an entry stamped after `now` has age zero.
pub open spec fn age_at(entry: PriceEntry, now: u64) -> int {
    if now >= entry.updated_at_ms {
        now - entry.updated_at_ms
    } else {
        0
    }
}

/// The quote that a snapshot at `now` makes of an entry.
pub open spec fn quote_at(ticker: Seq<char>, entry: PriceEntry, now: u64) -> QuoteModel {
    QuoteModel {
        ticker: ticker,
        yes_bid: entry.yes_bid as int,
        yes_ask: entry.yes_ask as int,
        last_price: entry.last_price as int,
        volume: entry.volume as int,
        age_ms: age_at(entry, now),
    }
}

/// The snapshot of a group at `now`: one quote per ticker, in the order of
/// the tickers, or nothing when any ticker has no entry.
pub open spec fn group_snapshot(
    book: Map<Seq<char>, PriceEntry>,
    tickers: Seq<Seq<char>>,
    now: u64,
) -> Option<Seq<QuoteModel>> {
    if forall|i: int| 0 <= i < tickers.len() ==> book.contains_key(#[trigger] tickers[i]) {
        Some(Seq::new(tickers.len(), |i: int| quote_at(tickers[i], book[tickers[i]], now)))
    } else {
        None
    }
}

/// Every quote is at most `max_age_secs` old.
pub open spec fn quotes_fresh(quotes: Seq<QuoteModel>, max_age_secs: u64) -> bool {
    forall|i: int| 0 <= i < quotes.len() ==> (#[trigger] quotes[i]).age_ms <= max_age_secs * 1000
}

/// The book after a seeding write: an entry that exists is kept.
pub open spec fn seeded(book: Map<Seq<char>, PriceEntry>, ticker: Seq<char>, entry: PriceEntry) -> Map<
    Seq<char>,
    PriceEntry,
> {
    if book.contains_key(ticker) {
        book
    } else {
        book.insert(ticker, entry)
    }
}

/// Top-of-book cache keyed by ticker.
pub struct QuoteBook {
    entries: StringHashMap<PriceEntry>,
}

impl View for QuoteBook {
    type V = Map<Seq<char>, PriceEntry>;

    closed spec fn view(&self) -> Map<Seq<char>, PriceEntry> {
        self.entries@
    }
}

impl QuoteBook {
    /// An empty book.
    pub fn new() -> (book: QuoteBook)
        ensures
            book@ == Map::<Seq<char>, PriceEntry>::empty(),
    {
        QuoteBook { entries: StringHashMap::new() }
    }

    /// Writes the entry of `ticker`, replacing any earlier one.
    pub fn upsert(&mut self, ticker: &str, entry: PriceEntry)
        ensures
            final(self)@ == old(self)@.insert(ticker@, entry),
    {
        self.entries.insert(ticker.to_owned(), entry);
    }

    /// Writes the entry of `ticker` unless the book already has one, and
    /// says whether it wrote.
    pub fn seed(&mut self, ticker: &str, entry: PriceEntry) -> (written: bool)
        ensures
            final(self)@ == seeded(old(self)@, ticker@, entry),
            written == !old(self)@.contains_key(ticker@),
    {
        if self.entries.contains_key(ticker) {
            false
        } else {
            self.entries.insert(ticker.to_owned(), entry);
            true
        }
    }

    /// The entry of `ticker`, if the book has one.
    pub fn get(&self, ticker: &str) -> (entry: Option<PriceEntry>)
        ensures
            entry == (if self@.contains_key(ticker@) {
                Some(self@[ticker@])
            } else {
                None
            }),
    {
        match self.entries.get(ticker) {
            Some(e) => Some(*e),
            None => None,
        }
    }

    /// The number of tickers that have an entry.
    pub fn len(&self) -> (n: usize)
        ensures
            n == self@.len(),
    {
        broadcast use vstd::hash_map::group_hash_map_axioms;

        self.entries.len()
    }

    /// Snapshot of the quotes of all `tickers` at `now_ms`, or `None` if
    /// any of them is missing from the book.
    pub fn group_quotes(&self, tickers: &[String], now_ms: u64) -> (quotes: Option<Vec<MarketQuote>>)
        ensures
            match quotes {
                Some(q) => group_snapshot(self@, texts(tickers@), now_ms) == Some(quote_models(q@)),
                None => group_snapshot(self@, texts(tickers@), now_ms) is None,
            },
    {
        let mut quotes: Vec<MarketQuote> = Vec::new();
        let mut i: usize = 0;
        while i < tickers.len()
            invariant
                i <= tickers.len(),
                quotes@.len() == i,
                forall|j: int| 0 <= j < i ==> self@.contains_key(#[trigger] texts(tickers@)[j]),
                forall|j: int|
                    0 <= j < i ==> (#[trigger] quotes@[j])@ == quote_at(
                        texts(tickers@)[j],
                        self@[texts(tickers@)[j]],
                        now_ms,
                    ),
            decreases tickers.len() - i,
        {
            let ticker = &tickers[i];
            assert(texts(tickers@)[i as int] == ticker@);
            match self.entries.get(ticker.as_str()) {
                Some(entry) => {
                    let age: u64 = if now_ms >= entry.updated_at_ms {
                        now_ms - entry.updated_at_ms
                    } else {
                        0
                    };
                    quotes.push(
                        MarketQuote {
                            ticker: ticker.clone(),
                            yes_bid: entry.yes_bid,
                            yes_ask: entry.yes_ask,
                            last_price: entry.last_price,
                            volume: entry.volume,
                            age_ms: age,
                        },
                    );
                },
                None => {
                    return None;
                },
            }
            i += 1;
        }
        assert(quote_models(quotes@) =~= Seq::new(
            texts(tickers@).len(),
            |i: int| quote_at(texts(tickers@)[i], self@[texts(tickers@)[i]], now_ms),
        ));
        Some(quotes)
    }

    /// Whether every quote is at most `max_age_secs` old.
    pub fn all_fresh(quotes: &[MarketQuote], max_age_secs: u64) -> (fresh: bool)
        ensures
            fresh == quotes_fresh(quote_models(quotes@), max_age_secs),
    {
        let limit: u128 = max_age_secs as u128 * 1000;
        let mut i: usize = 0;
        while i < quotes.len()
            invariant
                i <= quotes.len(),
                limit == max_age_secs * 1000,
                forall|j: int|
                    0 <= j < i ==> (#[trigger] quote_models(quotes@)[j]).age_ms <= max_age_secs
                        * 1000,
            decreases quotes.len() - i,
        {
            if quotes[i].age_ms as u128 > limit {
                assert(quote_models(quotes@)[i as int].age_ms > max_age_secs * 1000);
                return false;
            }
            i += 1;
        }
        true
    }

    /// Whether `ticker` has an entry that is at most `max_age_secs` old at
    /// `now_ms`.
    pub fn is_fresh(&self, ticker: &str, max_age_secs: u64, now_ms: u64) -> (fresh: bool)
        ensures
            fresh == (self@.contains_key(ticker@) && age_at(self@[ticker@], now_ms) <= max_age_secs
                * 1000),
    {
        match self.entries.get(ticker) {
            Some(entry) => {
                let age: u64 = if now_ms >= entry.updated_at_ms {
                    now_ms - entry.updated_at_ms
                } else {
                    0
                };
                age as u128 <= max_age_secs as u128 * 1000
            },
            None => false,
        }
    }
}

} // verus!
