//! Screening for the sports worker: which markets are about sports, when
//! a game is over, and what a recommendation must show to be acted on.
//!
//! Probabilities and disagreements are whole millionths; expected values
//! are whole millionths of a cent.

use crate::text::{
    ascii_lower, ascii_lower_char, ascii_lower_chars, chars_of, contains_chars, contains_text,
    push_text, same_chars, string_of, to_ascii_lower_char, trim_chars, trimmed,
};
use crate::types::{MarketInfo, Side};
use vstd::prelude::*;
use vstd::string::StringExecFns;

verus! {

/// How a recommendation becomes an order.
#[derive(Clone, Copy, Debug, PartialEq, Eq, Structural)]
pub enum ExecutionMode {
    /// A human approves each recommendation.
    Hitl,
    /// Recommendations that pass the strict gate are placed at once.
    AutoUltraStrict,
}

impl ExecutionMode {
    /// The name of the mode, as it is journaled.
    pub fn as_str(&self) -> (name: &'static str)
        ensures
            name@ == (if *self == ExecutionMode::Hitl {
                "hitl"@
            } else {
                "auto_ultra_strict"@
            }),
    {
        match self {
            ExecutionMode::Hitl => "hitl",
            ExecutionMode::AutoUltraStrict => "auto_ultra_strict",
        }
    }
}

/// A game as the scores feed reports it.
#[derive(Clone, Debug)]
pub struct SportsDataGame {
    pub home_team: String,
    pub away_team: String,
    pub home_score: i64,
    pub away_score: i64,
    pub status: String,
}

impl SportsDataGame {
    /// The game is over: its status speaks of `final` or `closed`,
    /// capitals and small letters alike.
    pub fn is_final(&self) -> (over: bool)
        ensures
            over == (contains_text(crate::text::ascii_lower(self.status@), "final"@)
                || contains_text(crate::text::ascii_lower(self.status@), "closed"@)),
    {
        let s = ascii_lower_chars(&chars_of(self.status.as_str()));
        contains_chars(&s, &chars_of("final")) || contains_chars(&s, &chars_of("closed"))
    }
}

/// An ASCII letter or digit.
pub open spec fn ascii_alphanumeric(c: char) -> bool {
    ('a' <= c <= 'z') || ('A' <= c <= 'Z') || ('0' <= c <= '9')
}

/// The text so far squeezed, and whether a gap is pending before the next
/// word: letters and digits are kept in small letters, everything else is
/// a gap, and a gap shows as one space between two words only.
pub open spec fn squeezed(text: Seq<char>) -> (Seq<char>, bool)
    decreases text.len(),
{
    if text.len() == 0 {
        (Seq::empty(), false)
    } else {
        let (out, gap) = squeezed(text.drop_last());
        let c = text.last();
        if ascii_alphanumeric(c) {
            if gap && out.len() > 0 {
                (out.push(' ').push(ascii_lower_char(c)), false)
            } else {
                (out.push(ascii_lower_char(c)), false)
            }
        } else {
            (out, true)
        }
    }
}

/// The words of a text in small letters, one space apart: what is left
/// when everything but ASCII letters and digits counts as a gap.
pub open spec fn normalized_text(text: Seq<char>) -> Seq<char> {
    squeezed(text).0
}

/// The words of `input` in small letters, one space apart.
pub fn normalize_text(input: &str) -> (r: String)
    ensures
        r@ == normalized_text(input@),
{
    let chars = chars_of(input);
    let mut out: Vec<char> = Vec::new();
    let mut gap = false;
    let mut i: usize = 0;
    assert(chars@.take(0) =~= Seq::<char>::empty());
    while i < chars.len()
        invariant
            i <= chars.len(),
            (out@, gap) == squeezed(chars@.take(i as int)),
        decreases chars.len() - i,
    {
        proof {
            let next = chars@.take(i + 1);
            assert(next.drop_last() =~= chars@.take(i as int));
            assert(next.last() == chars@[i as int]);
        }
        let c = chars[i];
        if ('a' <= c && c <= 'z') || ('A' <= c && c <= 'Z') || ('0' <= c && c <= '9') {
            if gap && out.len() > 0 {
                out.push(' ');
            }
            out.push(to_ascii_lower_char(c));
            gap = false;
        } else {
            gap = true;
        }
        i += 1;
    }
    assert(chars@.take(chars@.len() as int) =~= chars@);
    string_of(&out)
}

/// Title, subtitle, event and rules of a market, a space apart.
pub open spec fn market_words(market: MarketInfo) -> Seq<char> {
    market.title@ + " "@ + market.subtitle@ + " "@ + market.event_ticker@ + " "@
        + market.rules_primary@ + " "@ + market.rules_secondary@
}

/// Title, subtitle, event and rules of `market`, a space apart.
pub fn market_text(market: &MarketInfo) -> (text: String)
    ensures
        text@ == market_words(*market),
{
    let mut text = market.title.clone();
    push_text(&mut text, " ");
    push_text(&mut text, market.subtitle.as_str());
    push_text(&mut text, " ");
    push_text(&mut text, market.event_ticker.as_str());
    push_text(&mut text, " ");
    push_text(&mut text, market.rules_primary.as_str());
    push_text(&mut text, " ");
    push_text(&mut text, market.rules_secondary.as_str());
    text
}

/// The words that mark a market as one about sports.
pub open spec fn sport_keywords() -> Seq<Seq<char>> {
    seq![
        "nfl"@,
        "nba"@,
        "mlb"@,
        "nhl"@,
        "ncaa"@,
        "wnba"@,
        "soccer"@,
        "football"@,
        "basketball"@,
        "baseball"@,
        "hockey"@,
        "playoffs"@,
        "super bowl"@,
    ]
}

/// Some sport keyword stands in the text.
pub open spec fn mentions_sport(text: Seq<char>) -> bool {
    exists|i: int| 0 <= i < sport_keywords().len() && contains_text(text, #[trigger] sport_keywords()[i])
}

/// Whether `market` is about sports: a sport keyword stands in its
/// normalized text.
pub fn market_is_sports(market: &MarketInfo) -> (r: bool)
    ensures
        r == mentions_sport(normalized_text(market_words(*market))),
{
    let text = chars_of(normalize_text(market_text(market).as_str()).as_str());
    let mut keywords: Vec<&'static str> = Vec::new();
    keywords.push("nfl");
    keywords.push("nba");
    keywords.push("mlb");
    keywords.push("nhl");
    keywords.push("ncaa");
    keywords.push("wnba");
    keywords.push("soccer");
    keywords.push("football");
    keywords.push("basketball");
    keywords.push("baseball");
    keywords.push("hockey");
    keywords.push("playoffs");
    keywords.push("super bowl");
    assert(Seq::new(keywords@.len(), |i: int| keywords@[i]@) =~= sport_keywords());
    let mut i: usize = 0;
    while i < keywords.len()
        invariant
            i <= keywords.len(),
            text@ == normalized_text(market_words(*market)),
            Seq::new(keywords@.len(), |i: int| keywords@[i]@) == sport_keywords(),
            forall|k: int| 0 <= k < i ==> !contains_text(text@, #[trigger] sport_keywords()[k]),
        decreases keywords.len() - i,
    {
        assert(sport_keywords()[i as int] == keywords@[i as int]@);
        if contains_chars(&text, &chars_of(keywords[i])) {
            return true;
        }
        i += 1;
    }
    false
}

/// The one-sided z-score for a confidence given in hundredths of a
/// percent, in thousandths: 2.326 from 99%, 1.960 from 97.5%, 1.645
/// from 95%, and 1.282 below.
pub fn z_score_from_confidence(confidence_bp: i64) -> (z_milli: i64)
    ensures
        z_milli == (if confidence_bp >= 9900 {
            2326int
        } else if confidence_bp >= 9750 {
            1960
        } else if confidence_bp >= 9500 {
            1645
        } else {
            1282
        }),
{
    if confidence_bp >= 9900 {
        2326
    } else if confidence_bp >= 9750 {
        1960
    } else if confidence_bp >= 9500 {
        1645
    } else {
        1282
    }
}

/// The numbers of a candidate that the thresholds are held against.
#[derive(Clone, Copy, Debug, PartialEq, Eq, Structural)]
pub struct CandidateNumbers {
    pub side: Side,
    pub ask_cents: i64,
    pub spread_cents: i64,
    /// Lower bound of the probability of winning, in millionths.
    pub lower_bound_ppm: i64,
    /// Expected value after fees and slippage, in millionths of a cent.
    pub ev_net_micro_cents: i64,
    pub fee_cents_est: i64,
    /// Signal probability less the price, in hundredths of a percent.
    pub clv_proxy_bps: i64,
    /// Distance between the two signals, in millionths.
    pub signal_disagreement_ppm: i64,
}

/// The thresholds for unattended orders.
#[derive(Clone, Copy, Debug, PartialEq, Eq, Structural)]
pub struct GateSettings {
    pub min_net_edge_cents: i64,
    pub min_lower_bound_bps: i64,
    pub min_clv_proxy_bps: i64,
    pub max_spread_cents: i64,
    pub max_signal_disagreement_ppm: i64,
}

/// What a candidate must show before a human is asked: an expected value of at least two
/// cents, a spread within the cap, a price advantage of at least 75
/// hundredths of a percent, and signals no more than a fifth apart.
pub open spec fn hitl_gate(s: GateSettings, c: CandidateNumbers) -> bool {
    &&& c.ev_net_micro_cents >= 2_000_000
    &&& c.spread_cents <= s.max_spread_cents
    &&& c.clv_proxy_bps >= 75
    &&& c.signal_disagreement_ppm <= 200_000
}

/// What a candidate must show before an order goes out unattended: every configured floor
/// and cap holds.
pub open spec fn auto_gate(s: GateSettings, c: CandidateNumbers) -> bool {
    &&& c.lower_bound_ppm >= 100 * s.min_lower_bound_bps
    &&& c.ev_net_micro_cents >= 1_000_000 * s.min_net_edge_cents
    &&& c.clv_proxy_bps >= s.min_clv_proxy_bps
    &&& c.spread_cents <= s.max_spread_cents
    &&& c.signal_disagreement_ppm <= s.max_signal_disagreement_ppm
}

/// Whether a candidate may be put before a human.
pub fn passes_hitl_gate(settings: &GateSettings, candidate: &CandidateNumbers) -> (r: bool)
    ensures
        r == hitl_gate(*settings, *candidate),
{
    candidate.ev_net_micro_cents >= 2_000_000 && candidate.spread_cents <= settings.max_spread_cents
        && candidate.clv_proxy_bps >= 75 && candidate.signal_disagreement_ppm <= 200_000
}

/// Whether a candidate may be placed unattended.
pub fn passes_auto_gate(settings: &GateSettings, candidate: &CandidateNumbers) -> (r: bool)
    ensures
        r == auto_gate(*settings, *candidate),
{
    candidate.lower_bound_ppm as i128 >= 100 * settings.min_lower_bound_bps as i128
        && candidate.ev_net_micro_cents as i128 >= 1_000_000 * settings.min_net_edge_cents as i128
        && candidate.clv_proxy_bps >= settings.min_clv_proxy_bps && candidate.spread_cents
        <= settings.max_spread_cents && candidate.signal_disagreement_ppm
        <= settings.max_signal_disagreement_ppm
}

/// Whether a candidate may be acted on under `mode`.
pub fn passes_gate(mode: ExecutionMode, settings: &GateSettings, candidate: &CandidateNumbers) -> (r:
    bool)
    ensures
        r == (if mode == ExecutionMode::AutoUltraStrict {
            auto_gate(*settings, *candidate)
        } else {
            hitl_gate(*settings, *candidate)
        }),
{
    match mode {
        ExecutionMode::AutoUltraStrict => passes_auto_gate(settings, candidate),
        ExecutionMode::Hitl => passes_hitl_gate(settings, candidate),
    }
}

/// What an order costs: price times size, held to the range of the
/// counter, plus the fee.
pub open spec fn entry_cost(ask_cents: int, size: int, fee_cents: int) -> int {
    crate::fees::clamp_i64(ask_cents * size) + fee_cents
}

/// Whether the balance covers an order; the cost comes back either way.
pub fn can_afford(balance_cents: i64, ask_cents: i64, size: i64, fee_cents: i64) -> (r: (bool, i128))
    ensures
        r.1 == entry_cost(ask_cents as int, size as int, fee_cents as int),
        r.0 == (balance_cents >= r.1),
{
    assert(-0x4000_0000_0000_0000_0000_0000_0000_0000 <= ask_cents * size
        <= 0x4000_0000_0000_0000_0000_0000_0000_0000) by (nonlinear_arith)
        requires
            -0x8000_0000_0000_0000 <= ask_cents <= 0x7fff_ffff_ffff_ffff,
            -0x8000_0000_0000_0000 <= size <= 0x7fff_ffff_ffff_ffff,
    ;
    let product: i128 = ask_cents as i128 * size as i128;
    let held: i128 = if product > i64::MAX as i128 {
        i64::MAX as i128
    } else if product < i64::MIN as i128 {
        i64::MIN as i128
    } else {
        product
    };
    let cost: i128 = held + fee_cents as i128;
    (balance_cents as i128 >= cost, cost)
}

/// The side to recommend: YES unless NO has the strictly larger expected
/// value.
pub fn better_side(yes_ev_micro_cents: i64, no_ev_micro_cents: i64) -> (side: Side)
    ensures
        side == (if yes_ev_micro_cents >= no_ev_micro_cents {
            Side::Yes
        } else {
            Side::No
        }),
{
    if yes_ev_micro_cents >= no_ev_micro_cents {
        Side::Yes
    } else {
        Side::No
    }
}

/// What a switch of the environment says: on for `1`, `true`, `yes` and
/// `on`, off for `0`, `false`, `no` and `off`, capitals and small letters
/// alike and white space at the ends apart; the default for anything
/// else and for a switch that is not set.
pub open spec fn switch_value(raw: Option<Seq<char>>, default_value: bool) -> bool {
    match raw {
        Some(text) => {
            let v = ascii_lower(trimmed(text));
            if v == "1"@ || v == "true"@ || v == "yes"@ || v == "on"@ {
                true
            } else if v == "0"@ || v == "false"@ || v == "no"@ || v == "off"@ {
                false
            } else {
                default_value
            }
        },
        None => default_value,
    }
}

/// Reads a switch of the environment.
pub fn env_bool(raw: Option<&str>, default_value: bool) -> (on: bool)
    ensures
        on == switch_value(
            match raw {
                Some(v) => Some(v@),
                None => None,
            },
            default_value,
        ),
{
    match raw {
        Some(text) => {
            let v = ascii_lower_chars(&trim_chars(&chars_of(text)));
            if same_chars(&v, &chars_of("1")) || same_chars(&v, &chars_of("true")) || same_chars(
                &v,
                &chars_of("yes"),
            ) || same_chars(&v, &chars_of("on")) {
                true
            } else if same_chars(&v, &chars_of("0")) || same_chars(&v, &chars_of("false"))
                || same_chars(&v, &chars_of("no")) || same_chars(&v, &chars_of("off")) {
                false
            } else {
                default_value
            }
        },
        None => default_value,
    }
}


} // verus!
