//! The budget of research calls: a cap per day and a cap per market and
//! day. The counters start afresh when the UTC day changes.

use crate::clock::{day_key_of, utc_day_key, utc_now_ms};
use crate::rules::config::LlmBudgetConfig;
use crate::text::same_text;
use vstd::prelude::*;

verus! {

/// The calls made in one market.
#[derive(Clone, Debug)]
pub struct MarketCalls {
    pub ticker: String,
    pub calls: u32,
}

/// The counters, as they are persisted.
#[derive(Clone, Debug)]
pub struct BudgetState {
    /// The UTC day that the counters belong to, as `YYYY-MM-DD`.
    pub day_key: String,
    pub daily_calls: u32,
    /// One entry per market in which a call was made, in the order of the
    /// first call. The manager keeps it so that no ticker has two entries.
    pub per_market_calls: Vec<MarketCalls>,
}

/// The counters as a mathematical value.
pub struct BudgetModel {
    pub day_key: Seq<char>,
    pub daily_calls: int,
    pub per_market: Seq<(Seq<char>, int)>,
}

impl View for BudgetState {
    type V = BudgetModel;

    open spec fn view(&self) -> BudgetModel {
        BudgetModel {
            day_key: self.day_key@,
            daily_calls: self.daily_calls as int,
            per_market: Seq::new(
                self.per_market_calls@.len(),
                |i: int| (self.per_market_calls@[i].ticker@, self.per_market_calls@[i].calls as int),
            ),
        }
    }
}

/// The calls counted for `ticker`: those of its first entry, zero when
/// it has none.
pub open spec fn calls_of(per_market: Seq<(Seq<char>, int)>, ticker: Seq<char>) -> int
    decreases per_market.len(),
{
    if per_market.len() == 0 {
        0
    } else if per_market[0].0 == ticker {
        per_market[0].1
    } else {
        calls_of(per_market.drop_first(), ticker)
    }
}

/// The position of the first entry of `ticker`, or the length when it
/// has none.
pub open spec fn position_of(per_market: Seq<(Seq<char>, int)>, ticker: Seq<char>) -> int
    decreases per_market.len(),
{
    if per_market.len() == 0 {
        0
    } else if per_market[0].0 == ticker {
        0
    } else {
        1 + position_of(per_market.drop_first(), ticker)
    }
}

/// One more, held to what a `u32` can count.
pub open spec fn one_more(n: int) -> int {
    if n >= u32::MAX {
        u32::MAX as int
    } else {
        n + 1
    }
}

/// The counters after the day has been checked: unchanged on the same
/// day, and empty under the new day when the day has changed.
pub open spec fn after_rollover(m: BudgetModel, today: Seq<char>) -> BudgetModel {
    if m.day_key == today {
        m
    } else {
        BudgetModel { day_key: today, daily_calls: 0, per_market: Seq::empty() }
    }
}

/// Whether a call may be spent on `ticker`: neither the daily cap nor the
/// cap of the market is reached.
pub open spec fn may_spend(m: BudgetModel, config: LlmBudgetConfig, ticker: Seq<char>) -> bool {
    m.daily_calls < config.daily_max_calls && calls_of(m.per_market, ticker)
        < config.per_market_max_calls
}

/// The per-market counters after one more call in `ticker`.
pub open spec fn bumped(per_market: Seq<(Seq<char>, int)>, ticker: Seq<char>) -> Seq<
    (Seq<char>, int),
> {
    let at = position_of(per_market, ticker);
    if at < per_market.len() {
        per_market.update(at, (ticker, one_more(per_market[at].1)))
    } else {
        per_market.push((ticker, 1))
    }
}

/// The counters after one more call in `ticker`.
pub open spec fn after_call(m: BudgetModel, ticker: Seq<char>) -> BudgetModel {
    BudgetModel {
        daily_calls: one_more(m.daily_calls),
        per_market: bumped(m.per_market, ticker),
        ..m
    }
}

/// Checking the day twice on the same day is the same as checking it
/// once, so two questions on the same day get the same answer; and a
/// change of day empties the counters.
pub proof fn lemma_rollover_idempotent(
    m: BudgetModel,
    config: LlmBudgetConfig,
    ticker: Seq<char>,
    today: Seq<char>,
)
    ensures
        after_rollover(after_rollover(m, today), today) == after_rollover(m, today),
        may_spend(after_rollover(after_rollover(m, today), today), config, ticker) == may_spend(
            after_rollover(m, today),
            config,
            ticker,
        ),
        m.day_key != today ==> after_rollover(m, today).daily_calls == 0 && after_rollover(
            m,
            today,
        ).per_market.len() == 0 && after_rollover(m, today).day_key == today,
{
}

/// The entry of a ticker is found where `position_of` says, and the
/// entries before it belong to other tickers.
pub proof fn lemma_position_of(per_market: Seq<(Seq<char>, int)>, ticker: Seq<char>)
    ensures
        0 <= position_of(per_market, ticker) <= per_market.len(),
        position_of(per_market, ticker) < per_market.len() ==> per_market[position_of(
            per_market,
            ticker,
        )].0 == ticker && calls_of(per_market, ticker) == per_market[position_of(
            per_market,
            ticker,
        )].1,
        position_of(per_market, ticker) == per_market.len() ==> calls_of(per_market, ticker) == 0,
        forall|k: int| 0 <= k < position_of(per_market, ticker) ==> per_market[k].0 != ticker,
    decreases per_market.len(),
{
    if per_market.len() > 0 && per_market[0].0 != ticker {
        let rest = per_market.drop_first();
        lemma_position_of(rest, ticker);
        assert forall|k: int| 0 <= k < position_of(per_market, ticker) implies per_market[k].0
            != ticker by {
            if k > 0 {
                assert(rest[k - 1] == per_market[k]);
            }
        }
    }
}

/// After a call in a market, its count is one more and every other
/// market's count is as before.
pub proof fn lemma_call_counts(per_market: Seq<(Seq<char>, int)>, ticker: Seq<char>, other: Seq<char>)
    requires
        forall|k: int| 0 <= k < per_market.len() ==> 0 <= (#[trigger] per_market[k]).1,
    ensures
        calls_of(bumped(per_market, ticker), ticker) == (if position_of(per_market, ticker)
            < per_market.len() {
            one_more(calls_of(per_market, ticker))
        } else {
            1
        }),
        other != ticker ==> calls_of(bumped(per_market, ticker), other) == calls_of(
            per_market,
            other,
        ),
    decreases per_market.len(),
{
    lemma_position_of(per_market, ticker);
    reveal_with_fuel(calls_of, 3);
    if per_market.len() == 0 {
        assert(bumped(per_market, ticker) =~= seq![(ticker, 1int)]);
        assert(bumped(per_market, ticker).drop_first() =~= Seq::<(Seq<char>, int)>::empty());
    } else if per_market[0].0 == ticker {
        let after = bumped(per_market, ticker);
        assert(after[0] == (ticker, one_more(per_market[0].1)));
        assert(after.drop_first() =~= per_market.drop_first());
    } else {
        let rest = per_market.drop_first();
        assert forall|k: int| 0 <= k < rest.len() implies 0 <= (#[trigger] rest[k]).1 by {
            assert(rest[k] == per_market[k + 1]);
        }
        lemma_call_counts(rest, ticker, other);
        lemma_position_of(rest, ticker);
        let after = bumped(per_market, ticker);
        assert(after[0] == per_market[0]);
        assert(after.drop_first() =~= bumped(rest, ticker));
    }
}

/// No ticker has two entries.
pub open spec fn distinct_tickers(per_market: Seq<(Seq<char>, int)>) -> bool {
    forall|i: int, j: int|
        0 <= i < j < per_market.len() ==> (#[trigger] per_market[i]).0 != (#[trigger] per_market[j]).0
}

/// The entries as pairs of ticker and count.
pub open spec fn entries_model(entries: Seq<MarketCalls>) -> Seq<(Seq<char>, int)> {
    Seq::new(entries.len(), |i: int| (entries[i].ticker@, entries[i].calls as int))
}

/// The first entry of each ticker, in order: an entry whose ticker has
/// an earlier entry is left out.
pub open spec fn first_entries(per_market: Seq<(Seq<char>, int)>) -> Seq<(Seq<char>, int)>
    decreases per_market.len(),
{
    if per_market.len() == 0 {
        Seq::empty()
    } else {
        let earlier = first_entries(per_market.drop_last());
        if position_of(earlier, per_market.last().0) < earlier.len() {
            earlier
        } else {
            earlier.push(per_market.last())
        }
    }
}

/// One more call in a market leaves every ticker with one entry.
pub proof fn lemma_bumped_distinct(per_market: Seq<(Seq<char>, int)>, ticker: Seq<char>)
    requires
        distinct_tickers(per_market),
    ensures
        distinct_tickers(bumped(per_market, ticker)),
{
    lemma_position_of(per_market, ticker);
    let after = bumped(per_market, ticker);
    let at = position_of(per_market, ticker);
    assert forall|i: int, j: int| 0 <= i < j < after.len() implies (#[trigger] after[i]).0 != (
    #[trigger] after[j]).0 by {
        if at < per_market.len() {
            assert(after[i].0 == per_market[i].0);
            assert(after[j].0 == per_market[j].0);
        } else {
            if j < per_market.len() {
                assert(after[i] == per_market[i]);
                assert(after[j] == per_market[j]);
            } else {
                assert(after[i] == per_market[i]);
                assert(per_market[i].0 != ticker);
            }
        }
    }
}

/// Where no ticker has two entries, every entry is the first of its
/// ticker.
pub proof fn lemma_first_entries_of_distinct(per_market: Seq<(Seq<char>, int)>)
    requires
        distinct_tickers(per_market),
    ensures
        first_entries(per_market) == per_market,
    decreases per_market.len(),
{
    if per_market.len() > 0 {
        let init = per_market.drop_last();
        let last = per_market.last();
        assert forall|i: int, j: int| 0 <= i < j < init.len() implies (#[trigger] init[i]).0 != (
        #[trigger] init[j]).0 by {
            assert(init[i] == per_market[i]);
            assert(init[j] == per_market[j]);
        }
        lemma_first_entries_of_distinct(init);
        assert forall|k: int| 0 <= k < init.len() implies (#[trigger] init[k]).0 != last.0 by {
            assert(init[k] == per_market[k]);
            assert(last == per_market[per_market.len() - 1]);
        }
        lemma_no_match(init, last.0);
        assert(init.push(last) =~= per_market);
    } else {
        assert(first_entries(per_market) =~= per_market);
    }
}

/// The position of the first entry of `ticker` among `entries`, or their
/// number when it has none.
fn index_of(entries: &Vec<MarketCalls>, ticker: &str) -> (at: usize)
    ensures
        at == position_of(entries_model(entries@), ticker@),
        at <= entries@.len(),
{
    let ghost models = entries_model(entries@);
    let mut i: usize = 0;
    while i < entries.len()
        invariant
            i <= entries.len(),
            models == entries_model(entries@),
            forall|k: int| 0 <= k < i ==> (#[trigger] models[k]).0 != ticker@,
        decreases entries.len() - i,
    {
        assert(models[i as int].0 == entries@[i as int].ticker@);
        if same_text(entries[i].ticker.as_str(), ticker) {
            proof {
                lemma_first_match(models, ticker@, i as int);
            }
            return i;
        }
        i += 1;
    }
    proof {
        lemma_no_match(models, ticker@);
    }
    i
}

/// Keeps count of research calls against the budget.
pub struct BudgetManager {
    config: LlmBudgetConfig,
    state: BudgetState,
}

impl BudgetManager {
    /// The configuration of the budget.
    pub closed spec fn config(&self) -> LlmBudgetConfig {
        self.config
    }

    /// The counters.
    pub closed spec fn model(&self) -> BudgetModel {
        self.state@
    }

    /// The invariant of the counters: no ticker has two entries.
    pub open spec fn wf(&self) -> bool {
        distinct_tickers(self.model().per_market)
    }

    /// A manager that carries on from persisted counters. Of each ticker
    /// the first entry is taken over, so that counters in which no ticker
    /// occurs twice are taken over as they are.
    pub fn new(config: LlmBudgetConfig, state: BudgetState) -> (m: BudgetManager)
        ensures
            m.config() == config,
            m.wf(),
            m.model() == (BudgetModel {
                per_market: first_entries(state@.per_market),
                ..state@
            }),
            distinct_tickers(state@.per_market) ==> m.model() == state@,
    {
        let ghost source = state@.per_market;
        let mut kept: Vec<MarketCalls> = Vec::new();
        let mut i: usize = 0;
        assert(entries_model(kept@) =~= Seq::<(Seq<char>, int)>::empty());
        while i < state.per_market_calls.len()
            invariant
                i <= state.per_market_calls.len(),
                source == state@.per_market,
                entries_model(kept@) == first_entries(source.take(i as int)),
                distinct_tickers(entries_model(kept@)),
            decreases state.per_market_calls.len() - i,
        {
            let entry = &state.per_market_calls[i];
            let ghost before = entries_model(kept@);
            proof {
                let next = source.take(i + 1);
                assert(next.drop_last() =~= source.take(i as int));
                assert(next.last() == source[i as int]);
                assert(source[i as int] == (entry.ticker@, entry.calls as int));
                lemma_position_of(before, entry.ticker@);
            }
            let at = index_of(&kept, entry.ticker.as_str());
            if at == kept.len() {
                kept.push(MarketCalls { ticker: entry.ticker.clone(), calls: entry.calls });
                assert(entries_model(kept@) =~= before.push(source[i as int]));
                assert forall|a: int, b: int| 0 <= a < b < entries_model(kept@).len() implies (
                #[trigger] entries_model(kept@)[a]).0 != (#[trigger] entries_model(kept@)[b]).0 by {
                    assert(entries_model(kept@)[a] == before[a]);
                    if b < before.len() {
                        assert(entries_model(kept@)[b] == before[b]);
                    }
                }
            }
            i += 1;
        }
        assert(source.take(state.per_market_calls@.len() as int) =~= source);
        let day_key = state.day_key.clone();
        let kept_state = BudgetState {
            day_key,
            daily_calls: state.daily_calls,
            per_market_calls: kept,
        };
        assert(kept_state@.per_market =~= entries_model(kept@));
        proof {
            if distinct_tickers(source) {
                lemma_first_entries_of_distinct(source);
            }
        }
        BudgetManager { config, state: kept_state }
    }

    /// A manager with empty counters for the day `today`.
    pub fn fresh(config: LlmBudgetConfig, today: &str) -> (m: BudgetManager)
        ensures
            m.config() == config,
            m.wf(),
            m.model() == (BudgetModel {
                day_key: today@,
                daily_calls: 0,
                per_market: Seq::empty(),
            }),
    {
        let state = BudgetState {
            day_key: today.to_owned(),
            daily_calls: 0,
            per_market_calls: Vec::new(),
        };
        assert(state@.per_market =~= Seq::<(Seq<char>, int)>::empty());
        BudgetManager { config, state }
    }

    /// The counters, to be persisted.
    pub fn state(&self) -> (s: &BudgetState)
        ensures
            s@ == self.model(),
    {
        &self.state
    }

    fn rollover_if_needed(&mut self, today: &str)
        ensures
            old(self).wf() ==> final(self).wf(),
            final(self).config() == old(self).config(),
            final(self).model() == after_rollover(old(self).model(), today@),
    {
        if !same_text(self.state.day_key.as_str(), today) {
            self.state.day_key = today.to_owned();
            self.state.daily_calls = 0;
            self.state.per_market_calls = Vec::new();
            assert(self.state@.per_market =~= Seq::<(Seq<char>, int)>::empty());
        }
    }

    fn market_calls(&self, ticker: &str) -> (calls: u32)
        ensures
            calls == calls_of(self.model().per_market, ticker@),
    {
        let entries = &self.state.per_market_calls;
        let ghost models = self.state@.per_market;
        let mut i: usize = 0;
        assert(models.skip(0) =~= models);
        while i < entries.len()
            invariant
                i <= entries.len(),
                entries == &self.state.per_market_calls,
                models == self.state@.per_market,
                calls_of(models, ticker@) == calls_of(models.skip(i as int), ticker@),
            decreases entries.len() - i,
        {
            assert(models.skip(i as int)[0] == models[i as int]);
            assert(models.skip(i as int).drop_first() =~= models.skip(i + 1));
            if same_text(entries[i].ticker.as_str(), ticker) {
                return entries[i].calls;
            }
            i += 1;
        }
        0
    }

    /// Whether a call may be spent on `market_ticker` today, by the
    /// calendar clock.
    pub fn can_spend_call(&mut self, market_ticker: &str) -> (ok: bool)
        ensures
            old(self).wf() ==> final(self).wf(),
            final(self).config() == old(self).config(),
            exists|now: i64|
                match #[trigger] utc_day_key(now) {
                    Some(today) => final(self).model() == after_rollover(old(self).model(), today)
                        && ok == may_spend(final(self).model(), final(self).config(), market_ticker@),
                    None => final(self).model() == old(self).model() && ok == may_spend(
                        final(self).model(),
                        final(self).config(),
                        market_ticker@,
                    ),
                },
    {
        let now = utc_now_ms();
        let ok = match day_key_of(now) {
            Some(today) => self.can_spend_call_on(market_ticker, today.as_str()),
            None => self.within_caps(market_ticker),
        };
        assert(match utc_day_key(now) {
            Some(today) => self.model() == after_rollover(old(self).model(), today) && ok
                == may_spend(self.model(), self.config(), market_ticker@),
            None => self.model() == old(self).model() && ok == may_spend(
                self.model(),
                self.config(),
                market_ticker@,
            ),
        });
        ok
    }

    fn within_caps(&self, market_ticker: &str) -> (ok: bool)
        ensures
            ok == may_spend(self.model(), self.config(), market_ticker@),
    {
        if self.state.daily_calls >= self.config.daily_max_calls {
            return false;
        }
        self.market_calls(market_ticker) < self.config.per_market_max_calls
    }

    /// Whether a call may be spent on `market_ticker` on the day `today`.
    /// The counters are emptied first if the day has changed.
    pub fn can_spend_call_on(&mut self, market_ticker: &str, today: &str) -> (ok: bool)
        ensures
            old(self).wf() ==> final(self).wf(),
            final(self).config() == old(self).config(),
            final(self).model() == after_rollover(old(self).model(), today@),
            ok == may_spend(final(self).model(), final(self).config(), market_ticker@),
    {
        self.rollover_if_needed(today);
        self.within_caps(market_ticker)
    }

    fn bump(&mut self, market_ticker: &str)
        ensures
            old(self).wf() ==> final(self).wf(),
            final(self).config() == old(self).config(),
            final(self).model() == after_call(old(self).model(), market_ticker@),
    {
        let ghost models = self.state@.per_market;
        proof {
            lemma_position_of(models, market_ticker@);
            if distinct_tickers(models) {
                lemma_bumped_distinct(models, market_ticker@);
            }
        }
        if self.state.daily_calls < u32::MAX {
            self.state.daily_calls = self.state.daily_calls + 1;
        }
        let mut i: usize = 0;
        let n: usize = self.state.per_market_calls.len();
        while i < n
            invariant
                i <= n,
                n == self.state.per_market_calls.len(),
                self.config == old(self).config,
                self.state.day_key == old(self).state.day_key,
                self.state.daily_calls == one_more(old(self).state.daily_calls as int),
                self.state@.per_market == models,
                models == old(self).state@.per_market,
                forall|k: int| 0 <= k < i ==> (#[trigger] models[k]).0 != market_ticker@,
            decreases n - i,
        {
            assert(models[i as int].0 == self.state.per_market_calls@[i as int].ticker@);
            if same_text(self.state.per_market_calls[i].ticker.as_str(), market_ticker) {
                proof {
                    lemma_first_match(models, market_ticker@, i as int);
                }
                let calls: u32 = self.state.per_market_calls[i].calls;
                let next: u32 = if calls < u32::MAX {
                    calls + 1
                } else {
                    calls
                };
                self.state.per_market_calls.set(
                    i,
                    MarketCalls { ticker: market_ticker.to_owned(), calls: next },
                );
                assert(self.state@.per_market =~= models.update(
                    i as int,
                    (market_ticker@, one_more(models[i as int].1)),
                ));
                return ;
            }
            i += 1;
        }
        proof {
            lemma_no_match(models, market_ticker@);
        }
        self.state.per_market_calls.push(MarketCalls { ticker: market_ticker.to_owned(), calls: 1 });
        assert(self.state@.per_market =~= models.push((market_ticker@, 1int)));
    }

    /// Counts one call in `market_ticker` today, by the calendar clock.
    pub fn record_call(&mut self, market_ticker: &str)
        ensures
            old(self).wf() ==> final(self).wf(),
            final(self).config() == old(self).config(),
            exists|now: i64|
                match #[trigger] utc_day_key(now) {
                    Some(today) => final(self).model() == after_call(
                        after_rollover(old(self).model(), today),
                        market_ticker@,
                    ),
                    None => final(self).model() == after_call(old(self).model(), market_ticker@),
                },
    {
        let now = utc_now_ms();
        match day_key_of(now) {
            Some(today) => {
                self.record_call_on(market_ticker, today.as_str());
            },
            None => {
                self.bump(market_ticker);
            },
        }
        assert(match utc_day_key(now) {
            Some(today) => self.model() == after_call(
                after_rollover(old(self).model(), today),
                market_ticker@,
            ),
            None => self.model() == after_call(old(self).model(), market_ticker@),
        });
    }

    /// Counts one call in `market_ticker` on the day `today`.
    pub fn record_call_on(&mut self, market_ticker: &str, today: &str)
        ensures
            old(self).wf() ==> final(self).wf(),
            final(self).config() == old(self).config(),
            final(self).model() == after_call(
                after_rollover(old(self).model(), today@),
                market_ticker@,
            ),
    {
        self.rollover_if_needed(today);
        self.bump(market_ticker);
    }

    /// The calls used and allowed on the day `today`: daily used, daily
    /// cap, used in the market, cap per market.
    pub fn usage_snapshot_on(&mut self, market_ticker: &str, today: &str) -> (usage: (
        u32,
        u32,
        u32,
        u32,
    ))
        ensures
            old(self).wf() ==> final(self).wf(),
            final(self).config() == old(self).config(),
            final(self).model() == after_rollover(old(self).model(), today@),
            usage.0 == final(self).model().daily_calls,
            usage.1 == final(self).config().daily_max_calls,
            usage.2 == calls_of(final(self).model().per_market, market_ticker@),
            usage.3 == final(self).config().per_market_max_calls,
    {
        self.rollover_if_needed(today);
        (
            self.state.daily_calls,
            self.config.daily_max_calls,
            self.market_calls(market_ticker),
            self.config.per_market_max_calls,
        )
    }

    /// The calls used and allowed today, by the calendar clock.
    pub fn usage_snapshot(&mut self, market_ticker: &str) -> (usage: (u32, u32, u32, u32))
        ensures
            old(self).wf() ==> final(self).wf(),
            final(self).config() == old(self).config(),
            usage.0 == final(self).model().daily_calls,
            usage.1 == final(self).config().daily_max_calls,
            usage.2 == calls_of(final(self).model().per_market, market_ticker@),
            usage.3 == final(self).config().per_market_max_calls,
            exists|now: i64|
                match #[trigger] utc_day_key(now) {
                    Some(today) => final(self).model() == after_rollover(old(self).model(), today),
                    None => final(self).model() == old(self).model(),
                },
    {
        let now = utc_now_ms();
        let usage = match day_key_of(now) {
            Some(today) => self.usage_snapshot_on(market_ticker, today.as_str()),
            None => (
                self.state.daily_calls,
                self.config.daily_max_calls,
                self.market_calls(market_ticker),
                self.config.per_market_max_calls,
            ),
        };
        assert(match utc_day_key(now) {
            Some(today) => self.model() == after_rollover(old(self).model(), today),
            None => self.model() == old(self).model(),
        });
        usage
    }
}

/// The first entry of `ticker` stands at position `at` when no earlier
/// entry is its own.
pub proof fn lemma_first_match(per_market: Seq<(Seq<char>, int)>, ticker: Seq<char>, at: int)
    requires
        0 <= at < per_market.len(),
        per_market[at].0 == ticker,
        forall|k: int| 0 <= k < at ==> (#[trigger] per_market[k]).0 != ticker,
    ensures
        position_of(per_market, ticker) == at,
    decreases per_market.len(),
{
    if at > 0 {
        let rest = per_market.drop_first();
        assert(per_market[0].0 != ticker);
        assert forall|k: int| 0 <= k < at - 1 implies (#[trigger] rest[k]).0 != ticker by {
            assert(rest[k] == per_market[k + 1]);
        }
        lemma_first_match(rest, ticker, at - 1);
    }
}

/// A ticker without an entry has its position at the length.
pub proof fn lemma_no_match(per_market: Seq<(Seq<char>, int)>, ticker: Seq<char>)
    requires
        forall|k: int| 0 <= k < per_market.len() ==> (#[trigger] per_market[k]).0 != ticker,
    ensures
        position_of(per_market, ticker) == per_market.len(),
    decreases per_market.len(),
{
    if per_market.len() > 0 {
        let rest = per_market.drop_first();
        assert(per_market[0].0 != ticker);
        assert forall|k: int| 0 <= k < rest.len() implies (#[trigger] rest[k]).0 != ticker by {
            assert(rest[k] == per_market[k + 1]);
        }
        lemma_no_match(rest, ticker);
    }
}

} // verus!
