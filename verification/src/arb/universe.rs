//! Groups of outcome markets under one event, and the judgement whether a
//! group covers every outcome exactly once.

use crate::text::{contains, contains_text, lowercase, push_text, to_lowercase};
use crate::types::MarketInfo;
use vstd::prelude::*;
use vstd::string::StringExecFns;

verus! {

/// Why a group may pay nothing, or more than once.
#[derive(Clone, Copy, Debug, PartialEq, Eq, Structural)]
pub enum EdgeCase {
    /// A tie is possible and no market of the group stands for it.
    TiePossible,
    /// The event may be voided.
    VoidPossible,
    /// The outcomes are not mutually exclusive, or not all are listed.
    PartialSet,
}

/// The markets of one event that are open for trading.
#[derive(Clone, Debug)]
pub struct ArbGroup {
    pub event_ticker: String,
    pub title: String,
    /// Tickers of the outcome markets, in listing order.
    pub tickers: Vec<String>,
    /// The market behind each ticker, in the same order.
    pub markets: Vec<MarketInfo>,
    pub is_mutually_exclusive: bool,
    pub is_exhaustive: bool,
    pub edge_case: Option<EdgeCase>,
}

/// The texts of a market that the classification reads, in lower case.
pub struct LoweredMarket {
    pub title: Seq<char>,
    pub rules_primary: Seq<char>,
    pub rules_secondary: Seq<char>,
}

/// A market's texts in lower case, exec form.
pub struct LoweredTexts {
    pub title: String,
    pub rules_primary: String,
    pub rules_secondary: String,
}

impl View for LoweredTexts {
    type V = LoweredMarket;

    open spec fn view(&self) -> LoweredMarket {
        LoweredMarket {
            title: self.title@,
            rules_primary: self.rules_primary@,
            rules_secondary: self.rules_secondary@,
        }
    }
}

/// The lowered texts of a sequence of markets.
pub open spec fn lowered_models(texts: Seq<LoweredTexts>) -> Seq<LoweredMarket> {
    Seq::new(texts.len(), |i: int| texts[i]@)
}

/// The lower-case texts of `market`.
pub open spec fn lowered(market: MarketInfo) -> LoweredMarket {
    LoweredMarket {
        title: lowercase(market.title@),
        rules_primary: lowercase(market.rules_primary@),
        rules_secondary: lowercase(market.rules_secondary@),
    }
}

/// The lower-case texts of every market.
pub open spec fn lowered_all(markets: Seq<MarketInfo>) -> Seq<LoweredMarket> {
    Seq::new(markets.len(), |i: int| lowered(markets[i]))
}

/// The title of the market names a tie.
pub open spec fn is_tie_market(m: LoweredMarket) -> bool {
    contains_text(m.title, "tie"@) || contains_text(m.title, "draw"@)
}

/// Title and rules of the market, joined by single spaces.
pub open spec fn all_text(m: LoweredMarket) -> Seq<char> {
    m.title + " "@ + m.rules_primary + " "@ + m.rules_secondary
}

/// The two rule texts of the market, joined by a single space.
pub open spec fn rules_text(m: LoweredMarket) -> Seq<char> {
    m.rules_primary + " "@ + m.rules_secondary
}

/// Title or rules of the market speak of a void or a cancellation.
pub open spec fn mentions_void(m: LoweredMarket) -> bool {
    contains_text(all_text(m), "void"@) || contains_text(all_text(m), "cancel"@)
}

/// The rules of the market speak of a tie.
pub open spec fn rules_mention_tie(m: LoweredMarket) -> bool {
    contains_text(rules_text(m), "tie"@) || contains_text(rules_text(m), "draw"@)
}

/// Whether a group is exhaustive, and if not, why not.
///
/// A single market is always exhaustive: its YES and NO sides complement
/// each other. A group whose outcomes are not mutually exclusive is a
/// partial set. A mention of a void or a cancellation makes a void possible. A
/// mention of a tie in the rules, with no market for the tie, makes a tie
/// possible. Anything else is exhaustive.
pub open spec fn classification(mutually_exclusive: bool, markets: Seq<LoweredMarket>) -> (
    bool,
    Option<EdgeCase>,
) {
    if markets.len() == 1 {
        (true, None)
    } else if !mutually_exclusive {
        (false, Some(EdgeCase::PartialSet))
    } else if exists|i: int| 0 <= i < markets.len() && mentions_void(#[trigger] markets[i]) {
        (false, Some(EdgeCase::VoidPossible))
    } else if (exists|i: int| 0 <= i < markets.len() && rules_mention_tie(#[trigger] markets[i]))
        && !(exists|i: int| 0 <= i < markets.len() && is_tie_market(#[trigger] markets[i])) {
        (false, Some(EdgeCase::TiePossible))
    } else {
        (true, None)
    }
}

/// Builds the groups of the universe.
pub struct UniverseBuilder;

impl UniverseBuilder {
    /// The texts of `market` that the classification reads, in lower case.
    pub fn lower_texts(market: &MarketInfo) -> (t: LoweredTexts)
        ensures
            t@ == lowered(*market),
    {
        LoweredTexts {
            title: to_lowercase(market.title.as_str()),
            rules_primary: to_lowercase(market.rules_primary.as_str()),
            rules_secondary: to_lowercase(market.rules_secondary.as_str()),
        }
    }

    /// Classifies a group from the texts of its markets.
    pub fn classify_exhaustiveness(mutually_exclusive: bool, markets: &[MarketInfo]) -> (r: (
        bool,
        Option<EdgeCase>,
    ))
        ensures
            r == classification(mutually_exclusive, lowered_all(markets@)),
    {
        let mut texts: Vec<LoweredTexts> = Vec::new();
        let mut i: usize = 0;
        while i < markets.len()
            invariant
                i <= markets.len(),
                texts@.len() == i,
                forall|j: int| 0 <= j < i ==> (#[trigger] texts@[j])@ == lowered(markets@[j]),
            decreases markets.len() - i,
        {
            texts.push(Self::lower_texts(&markets[i]));
            i += 1;
        }
        assert(lowered_models(texts@) =~= lowered_all(markets@));
        Self::classify_lowered(mutually_exclusive, &texts)
    }

    /// Classifies a group from texts that are already in lower case.
    pub fn classify_lowered(mutually_exclusive: bool, markets: &Vec<LoweredTexts>) -> (r: (
        bool,
        Option<EdgeCase>,
    ))
        ensures
            r == classification(mutually_exclusive, lowered_models(markets@)),
    {
        let ghost models = lowered_models(markets@);
        if markets.len() == 1 {
            return (true, None);
        }
        if !mutually_exclusive {
            return (false, Some(EdgeCase::PartialSet));
        }
        let mut has_tie_market = false;
        let mut tie_mentioned = false;
        let mut i: usize = 0;
        while i < markets.len()
            invariant
                i <= markets.len(),
                markets.len() != 1,
                mutually_exclusive,
                models == lowered_models(markets@),
                forall|j: int| 0 <= j < i ==> !mentions_void(#[trigger] models[j]),
                has_tie_market == (exists|j: int| 0 <= j < i && is_tie_market(#[trigger] models[j])),
                tie_mentioned == (exists|j: int|
                    0 <= j < i && rules_mention_tie(#[trigger] models[j])),
            decreases markets.len() - i,
        {
            let m = &markets[i];
            assert(models[i as int] == m@);
            let tie_title = contains(m.title.as_str(), "tie") || contains(m.title.as_str(), "draw");
            let mut all = m.title.clone();
            push_text(&mut all, " ");
            push_text(&mut all, m.rules_primary.as_str());
            push_text(&mut all, " ");
            push_text(&mut all, m.rules_secondary.as_str());
            if contains(all.as_str(), "void") || contains(all.as_str(), "cancel") {
                assert(mentions_void(models[i as int]));
                return (false, Some(EdgeCase::VoidPossible));
            }
            let mut rules = m.rules_primary.clone();
            push_text(&mut rules, " ");
            push_text(&mut rules, m.rules_secondary.as_str());
            let tie_rules = contains(rules.as_str(), "tie") || contains(rules.as_str(), "draw");
            assert(tie_title == is_tie_market(models[i as int]));
            assert(tie_rules == rules_mention_tie(models[i as int]));
            has_tie_market = has_tie_market || tie_title;
            tie_mentioned = tie_mentioned || tie_rules;
            i += 1;
        }
        if tie_mentioned && !has_tie_market {
            return (false, Some(EdgeCase::TiePossible));
        }
        (true, None)
    }
}

} // verus!
