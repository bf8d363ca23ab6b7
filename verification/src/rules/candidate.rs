//! Candidates for research: the deterministic signal of a market and the
//! score of how complex its rules are.
//!
//! Probabilities and scores are whole millionths; edges are whole
//! millionths of a cent.

use crate::text::{
    ascii_lower, ascii_lower_chars, chars_of, contains_chars, contains_text, decimal, push_decimal,
    push_text, texts,
};
use crate::types::{valid_order_price, MarketInfo, Side};
use crate::weather::sizing::clamp;
use vstd::prelude::*;
use vstd::string::StringExecFns;

verus! {

/// What the prices of a market say by themselves.
#[derive(Clone, Copy, Debug, PartialEq, Eq, Structural)]
pub struct DeterministicSignal {
    pub p_det_yes_ppm: i64,
    pub p_det_no_ppm: i64,
    pub edge_yes_micro_cents: i64,
    pub edge_no_micro_cents: i64,
    pub best_side: Side,
    pub best_price_cents: i64,
    pub best_edge_micro_cents: i64,
}

/// A market put forward for research.
#[derive(Clone, Debug)]
pub struct ResearchCandidate {
    pub market: MarketInfo,
    pub deterministic: DeterministicSignal,
    pub complexity_score_ppm: i64,
    pub complexity_reasons: Vec<String>,
    /// The state of the market at the scan, as JSON text.
    pub snapshot: String,
}

/// A probability held between 1% and 99%.
pub open spec fn clamped_prob(ppm: int) -> int {
    clamp(ppm, 10_000, 990_000)
}

/// A probability held between 1% and 99%.
pub fn clamp_prob(ppm: i128) -> (r: i64)
    ensures
        r == clamped_prob(ppm as int),
{
    if ppm < 10_000 {
        10_000
    } else if ppm > 990_000 {
        990_000
    } else {
        ppm as i64
    }
}

/// The probability of YES that the prices imply: the last price where it
/// is a valid price, else the middle of bid and ask.
pub open spec fn implied_yes_ppm(last_price: int, yes_bid: int, yes_ask: int) -> int {
    if valid_order_price(last_price) {
        clamped_prob(last_price * 10_000)
    } else {
        clamped_prob((yes_bid + yes_ask) * 5_000)
    }
}

/// The deterministic signal of a market, or nothing when either ask is
/// not a valid price. The better side is the one with the larger edge;
/// YES wins a tie.
pub open spec fn deterministic_signal(market: MarketInfo) -> Option<DeterministicSignal> {
    if !valid_order_price(market.yes_ask as int) || !valid_order_price(market.no_ask as int) {
        None
    } else {
        let p_yes = implied_yes_ppm(
            market.last_price as int,
            market.yes_bid as int,
            market.yes_ask as int,
        );
        let p_no = 1_000_000 - p_yes;
        let edge_yes = 100 * p_yes - 1_000_000 * market.yes_ask;
        let edge_no = 100 * p_no - 1_000_000 * market.no_ask;
        Some(
            DeterministicSignal {
                p_det_yes_ppm: p_yes as i64,
                p_det_no_ppm: p_no as i64,
                edge_yes_micro_cents: edge_yes as i64,
                edge_no_micro_cents: edge_no as i64,
                best_side: if edge_yes >= edge_no {
                    Side::Yes
                } else {
                    Side::No
                },
                best_price_cents: if edge_yes >= edge_no {
                    market.yes_ask
                } else {
                    market.no_ask
                },
                best_edge_micro_cents: if edge_yes >= edge_no {
                    edge_yes as i64
                } else {
                    edge_no as i64
                },
            },
        )
    }
}

/// The deterministic signal of `market`.
pub fn compute_deterministic_signal(market: &MarketInfo) -> (r: Option<DeterministicSignal>)
    ensures
        r == deterministic_signal(*market),
        r matches Some(s) ==> valid_order_price(s.best_price_cents as int) && 10_000
            <= s.p_det_yes_ppm <= 990_000 && s.p_det_no_ppm == 1_000_000 - s.p_det_yes_ppm,
{
    if market.yes_ask < 1 || market.yes_ask > 99 || market.no_ask < 1 || market.no_ask > 99 {
        return None;
    }
    let p_yes: i64 = if 1 <= market.last_price && market.last_price <= 99 {
        clamp_prob(market.last_price as i128 * 10_000)
    } else {
        clamp_prob((market.yes_bid as i128 + market.yes_ask as i128) * 5_000)
    };
    let p_no: i64 = 1_000_000 - p_yes;
    let edge_yes: i64 = 100 * p_yes - 1_000_000 * market.yes_ask;
    let edge_no: i64 = 100 * p_no - 1_000_000 * market.no_ask;
    let yes_best = edge_yes >= edge_no;
    Some(
        DeterministicSignal {
            p_det_yes_ppm: p_yes,
            p_det_no_ppm: p_no,
            edge_yes_micro_cents: edge_yes,
            edge_no_micro_cents: edge_no,
            best_side: if yes_best {
                Side::Yes
            } else {
                Side::No
            },
            best_price_cents: if yes_best {
                market.yes_ask
            } else {
                market.no_ask
            },
            best_edge_micro_cents: if yes_best {
                edge_yes
            } else {
                edge_no
            },
        },
    )
}

/// One point of a score: its weight in millionths and its reason, if the
/// point applies.
pub open spec fn point(applies: bool, weight: int, reason: Seq<char>) -> (int, Seq<Seq<char>>) {
    if applies {
        (weight, seq![reason])
    } else {
        (0, Seq::empty())
    }
}

/// Two tallies of points taken together.
pub open spec fn tally(a: (int, Seq<Seq<char>>), b: (int, Seq<Seq<char>>)) -> (int, Seq<Seq<char>>) {
    (a.0 + b.0, a.1 + b.1)
}

/// The number of bytes that a text takes in UTF-8.
pub open spec fn byte_len(text: Seq<char>) -> int {
    (vstd::utf8::encode_utf8(text).len() as usize) as int
}

/// The points for the length of the rules: half a point for more than
/// 1000 bytes, a fifth for more than 500.
pub open spec fn length_points(rules: Seq<char>) -> (int, Seq<Seq<char>>) {
    let len = byte_len(rules);
    if len > 1000 {
        (500_000, seq!["Long rules ("@ + decimal(len) + ")"@])
    } else if len > 500 {
        (200_000, seq!["Medium rules ("@ + decimal(len) + ")"@])
    } else {
        (0, Seq::empty())
    }
}

/// The points so far and the next point, if it applies.
pub open spec fn with_point(
    so_far: (int, Seq<Seq<char>>),
    applies: bool,
    weight: int,
    reason: Seq<char>,
) -> (int, Seq<Seq<char>>) {
    tally(so_far, point(applies, weight, reason))
}

/// All the points of a market, before the score is held to one: the
/// length of the rules; three tenths for secondary rules; a fifth for each
/// word that leaves the time of resolution open; a tenth for a reference
/// to an outside source.
pub open spec fn complexity_points(market: MarketInfo) -> (int, Seq<Seq<char>>) {
    let lower = ascii_lower(market.rules_primary@);
    let a = length_points(market.rules_primary@);
    let b = with_point(a, market.rules_secondary@.len() > 0, 300_000, "Has secondary rules"@);
    let c = with_point(
        b,
        contains_text(lower, "approximate"@),
        200_000,
        "Ambiguous time keyword: approximate"@,
    );
    let d = with_point(
        c,
        contains_text(lower, "estimate"@),
        200_000,
        "Ambiguous time keyword: estimate"@,
    );
    let e = with_point(d, contains_text(lower, "around"@), 200_000, "Ambiguous time keyword: around"@);
    let f = with_point(
        e,
        contains_text(lower, "variable"@),
        200_000,
        "Ambiguous time keyword: variable"@,
    );
    with_point(
        f,
        contains_text(lower, "link"@) || contains_text(lower, "http"@),
        100_000,
        "External source reference"@,
    )
}

fn add_point(score: &mut i64, reasons: &mut Vec<String>, applies: bool, weight: i64, reason: &str)
    requires
        0 <= *old(score) <= 3_000_000,
        0 <= weight <= 500_000,
    ensures
        (*final(score) as int, texts(final(reasons)@)) == with_point(
            (*old(score) as int, texts(old(reasons)@)),
            applies,
            weight as int,
            reason@,
        ),
        *final(score) <= *old(score) + weight,
        *final(score) >= *old(score),
{
    if applies {
        *score = *score + weight;
        reasons.push(String::from_str(reason));
        assert(texts(reasons@) =~= texts(old(reasons)@) + seq![reason@]);
    } else {
        assert(texts(reasons@) =~= texts(old(reasons)@) + Seq::<Seq<char>>::empty());
    }
}

fn score_length(rules: &str) -> (r: (i64, Vec<String>))
    ensures
        (r.0 as int, texts(r.1@)) == length_points(rules@),
        0 <= r.0 <= 500_000,
{
    let len: usize = rules.len();
    let mut reasons: Vec<String> = Vec::new();
    if len > 1000 {
        let mut m = String::from_str("Long rules (");
        push_decimal(&mut m, len as i128);
        push_text(&mut m, ")");
        let ghost text = m@;
        reasons.push(m);
        assert(texts(reasons@) =~= seq![text]);
        (500_000, reasons)
    } else if len > 500 {
        let mut m = String::from_str("Medium rules (");
        push_decimal(&mut m, len as i128);
        push_text(&mut m, ")");
        let ghost text = m@;
        reasons.push(m);
        assert(texts(reasons@) =~= seq![text]);
        (200_000, reasons)
    } else {
        assert(texts(reasons@) =~= Seq::<Seq<char>>::empty());
        (0, reasons)
    }
}

/// How complex the rules of `market` are, from zero to one in millionths,
/// with the reasons behind the score.
pub fn compute_complexity_score(market: &MarketInfo) -> (r: (i64, Vec<String>))
    ensures
        r.0 == clamp(complexity_points(*market).0, 0, 1_000_000),
        texts(r.1@) == complexity_points(*market).1,
        0 <= r.0 <= 1_000_000,
{
    let lower = ascii_lower_chars(&chars_of(market.rules_primary.as_str()));
    let (mut score, mut reasons) = score_length(market.rules_primary.as_str());
    add_point(
        &mut score,
        &mut reasons,
        !market.rules_secondary.as_str().is_empty(),
        300_000,
        "Has secondary rules",
    );
    add_point(
        &mut score,
        &mut reasons,
        contains_chars(&lower, &chars_of("approximate")),
        200_000,
        "Ambiguous time keyword: approximate",
    );
    add_point(
        &mut score,
        &mut reasons,
        contains_chars(&lower, &chars_of("estimate")),
        200_000,
        "Ambiguous time keyword: estimate",
    );
    add_point(
        &mut score,
        &mut reasons,
        contains_chars(&lower, &chars_of("around")),
        200_000,
        "Ambiguous time keyword: around",
    );
    add_point(
        &mut score,
        &mut reasons,
        contains_chars(&lower, &chars_of("variable")),
        200_000,
        "Ambiguous time keyword: variable",
    );
    add_point(
        &mut score,
        &mut reasons,
        contains_chars(&lower, &chars_of("link")) || contains_chars(&lower, &chars_of("http")),
        100_000,
        "External source reference",
    );
    let capped: i64 = if score > 1_000_000 {
        1_000_000
    } else {
        score
    };
    (capped, reasons)
}

/// Whole days from `now_ms` to `then_ms`, rounded toward zero.
pub open spec fn days_between(then_ms: int, now_ms: int) -> int {
    if then_ms >= now_ms {
        (then_ms - now_ms) / 86_400_000
    } else {
        -((now_ms - then_ms) / 86_400_000)
    }
}

/// A market is scanned when it has an expiration that lies at most
/// `max_days` whole days ahead.
pub open spec fn expires_within(market: MarketInfo, now_ms: int, max_days: int) -> bool {
    market.expiration_time_ms matches Some(t) && days_between(t as int, now_ms) <= max_days
}

/// Whether `market` expires within `max_days_to_expiry` days of
/// `now_utc_ms`.
pub fn expires_within_days(market: &MarketInfo, now_utc_ms: i64, max_days_to_expiry: i64) -> (r: bool)
    ensures
        r == expires_within(*market, now_utc_ms as int, max_days_to_expiry as int),
{
    match market.expiration_time_ms {
        None => false,
        Some(t) => {
            let remaining: i128 = t as i128 - now_utc_ms as i128;
            let days: i128 = if remaining >= 0 {
                remaining / 86_400_000
            } else {
                -((-remaining) / 86_400_000)
            };
            days <= max_days_to_expiry as i128
        },
    }
}

/// A market is put forward for research when it expires within the
/// window and its book gives a signal.
pub open spec fn is_put_forward(market: MarketInfo, now_ms: int, max_days: int) -> bool {
    expires_within(market, now_ms, max_days) && deterministic_signal(market) is Some
}

/// The markets that are put forward, in the order of the scan.
pub open spec fn put_forward(markets: Seq<MarketInfo>, now_ms: int, max_days: int) -> Seq<MarketInfo>
    decreases markets.len(),
{
    if markets.len() == 0 {
        Seq::empty()
    } else {
        let earlier = put_forward(markets.drop_last(), now_ms, max_days);
        if is_put_forward(markets.last(), now_ms, max_days) {
            earlier.push(markets.last())
        } else {
            earlier
        }
    }
}

/// `c` is the candidate that a scan makes of `market`: the market with
/// its signal and its complexity, and no snapshot yet.
pub open spec fn is_candidate_for(c: ResearchCandidate, market: MarketInfo) -> bool {
    &&& c.market == market
    &&& Some(c.deterministic) == deterministic_signal(market)
    &&& c.complexity_score_ppm == clamp(complexity_points(market).0, 0, 1_000_000)
    &&& texts(c.complexity_reasons@) == complexity_points(market).1
    &&& c.snapshot@.len() == 0
}

/// Finds the markets worth a closer look.
pub struct Scanner;

impl Scanner {
    /// A scanner.
    pub fn new() -> (s: Scanner) {
        Scanner
    }

    /// Goes through the listed markets at time `now_utc_ms` and puts
    /// forward, in order, each one that expires within
    /// `max_days_to_expiry` days and whose book gives a signal. The
    /// snapshot of a candidate is left empty for the caller to fill.
    pub fn scan_markets(
        &self,
        markets: &Vec<MarketInfo>,
        now_utc_ms: i64,
        max_days_to_expiry: i64,
    ) -> (candidates: Vec<ResearchCandidate>)
        ensures
            candidates@.len() == put_forward(
                markets@,
                now_utc_ms as int,
                max_days_to_expiry as int,
            ).len(),
            forall|i: int|
                0 <= i < candidates@.len() ==> is_candidate_for(
                    #[trigger] candidates@[i],
                    put_forward(markets@, now_utc_ms as int, max_days_to_expiry as int)[i],
                ),
    {
        let ghost now = now_utc_ms as int;
        let ghost days = max_days_to_expiry as int;
        let mut candidates: Vec<ResearchCandidate> = Vec::new();
        let mut i: usize = 0;
        while i < markets.len()
            invariant
                i <= markets.len(),
                now == now_utc_ms as int,
                days == max_days_to_expiry as int,
                candidates@.len() == put_forward(markets@.take(i as int), now, days).len(),
                forall|k: int|
                    0 <= k < candidates@.len() ==> is_candidate_for(
                        #[trigger] candidates@[k],
                        put_forward(markets@.take(i as int), now, days)[k],
                    ),
            decreases markets.len() - i,
        {
            let market = &markets[i];
            proof {
                let upto = markets@.take(i + 1);
                assert(upto.drop_last() =~= markets@.take(i as int));
                assert(upto.last() == markets@[i as int]);
            }
            if expires_within_days(market, now_utc_ms, max_days_to_expiry) {
                match compute_deterministic_signal(market) {
                    Some(deterministic) => {
                        let (score, reasons) = compute_complexity_score(market);
                        candidates.push(
                            ResearchCandidate {
                                market: market.duplicate(),
                                deterministic,
                                complexity_score_ppm: score,
                                complexity_reasons: reasons,
                                snapshot: String::new(),
                            },
                        );
                    },
                    None => {},
                }
            }
            i += 1;
        }
        assert(markets@.take(markets.len() as int) =~= markets@);
        candidates
    }
}


} // verus!
