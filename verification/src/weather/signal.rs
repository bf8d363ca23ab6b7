//! Probability estimates and the cache that holds them per market.

use dashmap::DashMap;
use std::collections::hash_map::RandomState;
use vstd::prelude::*;

verus! {

/// An estimate of the probability that a market resolves YES, with
/// bounds and a confidence, all in millionths.
#[derive(Clone, Copy, Debug, PartialEq, Eq, Structural)]
pub struct ProbabilityEstimate {
    pub p_yes: i64,
    pub confidence: i64,
    pub p_yes_low: i64,
    pub p_yes_high: i64,
}

/// A well-formed estimate: the bounds enclose the point estimate, and all
/// four numbers lie between zero and one.
pub open spec fn estimate_valid(e: ProbabilityEstimate) -> bool {
    &&& 0 <= e.p_yes_low <= e.p_yes <= e.p_yes_high <= 1_000_000
    &&& 0 <= e.confidence <= 1_000_000
}

impl ProbabilityEstimate {
    /// Whether the estimate is well formed.
    pub fn is_valid(&self) -> (ok: bool)
        ensures
            ok == estimate_valid(*self),
    {
        0 <= self.p_yes_low && self.p_yes_low <= self.p_yes && self.p_yes <= self.p_yes_high
            && self.p_yes_high <= 1_000_000 && 0 <= self.confidence && self.confidence <= 1_000_000
    }
}

/// The estimates for one market: the ensemble that prices it and, where
/// available, each source on its own. `updated_at_ms` is the reading of
/// the monotonic clock when the forecast behind them was fetched.
#[derive(Clone, Copy, Debug, PartialEq, Eq, Structural)]
pub struct ForecastEntry {
    pub ensemble: ProbabilityEstimate,
    pub noaa: Option<ProbabilityEstimate>,
    pub google: Option<ProbabilityEstimate>,
    pub updated_at_ms: u64,
}

/// Whole seconds that have passed between `stamp` and `now`.
pub open spec fn elapsed_secs(stamp: u64, now: u64) -> int {
    if now >= stamp {
        (now - stamp) / 1000
    } else {
        0
    }
}

/// Every estimate of the entry is well formed.
pub open spec fn entry_valid(e: ForecastEntry) -> bool {
    &&& estimate_valid(e.ensemble)
    &&& e.noaa matches Some(n) ==> estimate_valid(n)
    &&& e.google matches Some(g) ==> estimate_valid(g)
}

impl ForecastEntry {
    /// Whether more than `max_age_secs` whole seconds have passed since
    /// the entry was updated.
    pub fn is_stale(&self, max_age_secs: u64, now_ms: u64) -> (stale: bool)
        ensures
            stale == (elapsed_secs(self.updated_at_ms, now_ms) > max_age_secs),
    {
        if now_ms >= self.updated_at_ms {
            (now_ms - self.updated_at_ms) / 1000 > max_age_secs
        } else {
            false
        }
    }

    /// Whether every estimate of the entry is well formed.
    pub fn is_valid(&self) -> (ok: bool)
        ensures
            ok == entry_valid(*self),
    {
        let noaa_ok = match self.noaa {
            Some(n) => n.is_valid(),
            None => true,
        };
        let google_ok = match self.google {
            Some(g) => g.is_valid(),
            None => true,
        };
        self.ensemble.is_valid() && noaa_ok && google_ok
    }
}

/// The map of an outside crate that holds the cache: `dashmap::DashMap`.
/// Nothing inside it is visible here; what it holds goes by the name
/// `cached_entries`.
#[verifier::external_type_specification]
#[verifier::external_body]
#[verifier::reject_recursive_types(K)]
#[verifier::reject_recursive_types(V)]
#[verifier::reject_recursive_types(S)]
pub struct ExDashMap<K, V, S>(DashMap<K, V, S>);

/// The map as the cache uses it: from ticker to entry.
pub type EntryMap = DashMap<String, ForecastEntry, RandomState>;

/// What a map holds: the entry of each ticker that has one.
pub uninterp spec fn cached_entries(map: EntryMap) -> Map<
    Seq<char>,
    ForecastEntry,
>;

/// The contents of an empty map.
pub open spec fn no_entries() -> Map<Seq<char>, ForecastEntry> {
    Map::empty()
}

/// `DashMap::new`: a map that holds nothing.
#[verifier::external_body]
fn empty_map() -> (fresh: EntryMap)
    ensures
        cached_entries(fresh) == no_entries(),
{
    DashMap::new()
}

/// `DashMap::insert`: afterwards the key has the value, whatever it had
/// before, and every other key has what it had.
#[verifier::external_body]
fn map_insert(map: &mut EntryMap, key: String, value: ForecastEntry)
    ensures
        cached_entries(*final(map)) == cached_entries(*old(map)).insert(key@, value),
{
    map.insert(key, value);
}

/// `DashMap::get`: a copy of the value of the key, if the map has the key.
#[verifier::external_body]
fn map_get(map: &EntryMap, key: &str) -> (value: Option<
    ForecastEntry,
>)
    ensures
        value == (if cached_entries(*map).contains_key(key@) {
            Some(cached_entries(*map)[key@])
        } else {
            None
        }),
{
    map.get(key).map(|entry| *entry.value())
}

/// `DashMap::len`: the number of keys that the map has.
#[verifier::external_body]
fn map_len(map: &EntryMap) -> (n: usize)
    ensures
        n == cached_entries(*map).len(),
{
    map.len()
}

/// Forecast entries keyed by market ticker.
pub struct ForecastCache {
    entries: EntryMap,
}

impl View for ForecastCache {
    type V = Map<Seq<char>, ForecastEntry>;

    closed spec fn view(&self) -> Map<Seq<char>, ForecastEntry> {
        cached_entries(self.entries)
    }
}

/// An empty cache.
pub fn new_forecast_cache() -> (cache: ForecastCache)
    ensures
        cache@ == Map::<Seq<char>, ForecastEntry>::empty(),
{
    ForecastCache { entries: empty_map() }
}

impl ForecastCache {
    /// Writes the entry of `ticker`, replacing any earlier one.
    pub fn insert(&mut self, ticker: &str, entry: ForecastEntry)
        ensures
            final(self)@ == old(self)@.insert(ticker@, entry),
    {
        map_insert(&mut self.entries, ticker.to_owned(), entry);
    }

    /// The entry of `ticker`, if the cache has one.
    pub fn get(&self, ticker: &str) -> (entry: Option<ForecastEntry>)
        ensures
            entry == (if self@.contains_key(ticker@) {
                Some(self@[ticker@])
            } else {
                None
            }),
    {
        map_get(&self.entries, ticker)
    }

    /// The number of markets that have an entry.
    pub fn len(&self) -> (n: usize)
        ensures
            n == self@.len(),
    {
        map_len(&self.entries)
    }
}

} // verus!
