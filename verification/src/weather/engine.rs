//! The evaluation engine of the forecast strategy.
//!
//! On every tick each tracked market is assessed against its latest quote,
//! its forecast signal and the position held. An exit is considered before
//! any quality gate; an entry must pass every gate of the veto ladder, and
//! the first gate that fails gives the reason of the rejection. Entries are
//! then ranked and the best are kept.

use crate::arb::quotes::{age_at, PriceEntry, QuoteBook};
use crate::config::{BotConfig, QualityConfig, QualityMode, StrategyConfig, TimingConfig};
use crate::fees::{fee_cents, round_trip_fee, FeeSchedule};
use crate::text::{
    contains_text, decimal, fixed2, fixed3, push_decimal, push_fixed2, push_fixed3, push_text, round_div,
    rounded_div, same_text,
};
use crate::types::{
    valid_order_price, Action, IntentModel, MarketInfo, OrderIntent, Position, Side,
};
use crate::weather::signal::{
    elapsed_secs, entry_valid, estimate_valid, ForecastCache, ForecastEntry, ProbabilityEstimate,
};
use crate::weather::sizing::{
    clamp, expected_value_micro, fair_cents, gap_ppm, kelly_contracts, kelly_size, min_int,
    net_edge, quality_score_micro,
};
use vstd::prelude::*;
use vstd::string::StringExecFns;

verus! {

/// Confidence below which no estimate is acted on, whatever the settings:
/// one half, in millionths.
pub const MIN_CONFIDENCE_FLOOR_PPM: i64 = 500_000;

/// Milliseconds in a minute.
pub const MINUTE_MS: i64 = 60_000;

/// Milliseconds in a day.
pub const DAY_MS: i64 = 86_400_000;

/// The two sources behind the ensemble.
#[derive(Clone, Copy, Debug, PartialEq, Eq, Structural)]
pub enum ForecastSource {
    Noaa,
    Google,
}

/// The moment of an evaluation on both clocks: the monotonic one that
/// stamps quotes and forecasts, and the calendar one that markets close by.
#[derive(Clone, Copy, Debug, PartialEq, Eq, Structural)]
pub struct Moment {
    pub mono_ms: u64,
    pub utc_ms: i64,
}

/// Why a market yields no intent.
#[derive(Clone, Copy, Debug, PartialEq, Eq, Structural)]
pub enum RejectReason {
    NoPriceData,
    StalePriceData,
    InvalidPrice { bid: i64, ask: i64 },
    SpreadFilter { spread: i128, cap: i64 },
    NoForecastData,
    StaleForecastData,
    InvalidSignal,
    MissingSource,
    MissingSourceForStrictVeto,
    LowSourceConfidence { source: ForecastSource, confidence_ppm: i64 },
    LowEnsembleConfidence { confidence_ppm: i64 },
    SourceDisagreementDirection,
    SourceDisagreementGap { gap_ppm: i64, max_ppm: i64 },
    LiquidityFilter { volume_24h: i64, open_interest: i64 },
    TooCloseToExpiry { minutes_left: i64 },
    BeyondResolutionWindow { max_days: i64 },
    EntryThreshold { ask: i64 },
    InsufficientEdge { net_edge: i128, threshold: i64 },
    InsufficientConservativeEdge { net_edge: i128, threshold: i64 },
    InsufficientEv { ev_micro: i128, threshold: i64 },
    PositionAlreadyOpen,
}

/// The reason code of a rejection, as it is journaled.
pub open spec fn reject_text(r: RejectReason) -> Seq<char> {
    match r {
        RejectReason::NoPriceData => "no_price_data"@,
        RejectReason::StalePriceData => "stale_price_data"@,
        RejectReason::InvalidPrice { bid, ask } => "invalid_price:bid="@ + decimal(bid as int)
            + "¢ ask="@ + decimal(ask as int) + "¢"@,
        RejectReason::SpreadFilter { spread, cap } => "spread_filter:"@ + decimal(spread as int)
            + ">"@ + decimal(cap as int),
        RejectReason::NoForecastData => "no_forecast_data"@,
        RejectReason::StaleForecastData => "stale_forecast_data"@,
        RejectReason::InvalidSignal => "invalid_signal"@,
        RejectReason::MissingSource => "missing_source"@,
        RejectReason::MissingSourceForStrictVeto => "missing_source_for_strict_veto"@,
        RejectReason::LowSourceConfidence { source, confidence_ppm } => (if source
            == ForecastSource::Noaa {
            "low_source_confidence:noaa:"@
        } else {
            "low_source_confidence:google:"@
        }) + fixed3(rounded_div(confidence_ppm as int, 1000)),
        RejectReason::LowEnsembleConfidence { confidence_ppm } => "low_ensemble_confidence:"@
            + fixed3(rounded_div(confidence_ppm as int, 1000)),
        RejectReason::SourceDisagreementDirection => "source_disagreement:direction"@,
        RejectReason::SourceDisagreementGap { gap_ppm, max_ppm } => "source_disagreement:gap:"@
            + fixed3(rounded_div(gap_ppm as int, 1000)) + ">"@ + fixed3(
            rounded_div(max_ppm as int, 1000),
        ),
        RejectReason::LiquidityFilter { volume_24h, open_interest } => "liquidity_filter:vol24h="@
            + decimal(volume_24h as int) + " oi="@ + decimal(open_interest as int),
        RejectReason::TooCloseToExpiry { minutes_left } => "too_close_to_expiry:"@ + fixed2(
            rounded_div(100 * minutes_left, 60),
        ) + "h"@,
        RejectReason::BeyondResolutionWindow { max_days } => "beyond_resolution_window:"@
            + decimal(max_days as int) + "d"@,
        RejectReason::EntryThreshold { ask } => "entry_threshold:ask="@ + decimal(ask as int)
            + "¢"@,
        RejectReason::InsufficientEdge { net_edge, threshold } => "insufficient_edge:"@ + decimal(
            net_edge as int,
        ) + "<"@ + decimal(threshold as int),
        RejectReason::InsufficientConservativeEdge { net_edge, threshold } =>
            "insufficient_conservative_edge:"@ + decimal(net_edge as int) + "<"@ + decimal(
                threshold as int,
            ),
        RejectReason::InsufficientEv { ev_micro, threshold } => "insufficient_ev:"@ + fixed3(
            rounded_div(ev_micro as int, 1000),
        ) + "<"@ + decimal(threshold as int),
        RejectReason::PositionAlreadyOpen => "position_already_open"@,
    }
}

/// A market that was passed over, with the reason.
#[derive(Clone, Debug)]
pub struct RejectedSignal {
    pub ticker: String,
    pub reason: String,
}

/// A rejection as a mathematical value.
pub struct RejectionModel {
    pub ticker: Seq<char>,
    pub reason: Seq<char>,
}

impl View for RejectedSignal {
    type V = RejectionModel;

    open spec fn view(&self) -> RejectionModel {
        RejectionModel { ticker: self.ticker@, reason: self.reason@ }
    }
}

/// What an evaluation produced.
#[derive(Debug)]
pub struct EvaluationResult {
    /// Exits first, in the order of the markets; then the entries kept,
    /// best first.
    pub intents: Vec<OrderIntent>,
    /// The markets passed over, in the order of the markets.
    pub rejected: Vec<RejectedSignal>,
}

/// The settings that an assessment reads.
pub struct Rules {
    pub strategy: StrategyConfig,
    pub quality: QualityConfig,
    pub timing: TimingConfig,
    pub fees: FeeSchedule,
}

/// What is known of one market at the moment of an assessment.
pub struct MarketFacts {
    pub ticker: Seq<char>,
    /// The exchange lists the market as open.
    pub open: bool,
    pub close_time_ms: Option<i64>,
    pub volume_24h: int,
    pub open_interest: int,
    pub price: Option<PriceEntry>,
    pub signal: Option<ForecastEntry>,
    /// Contracts of YES held; negative when short.
    pub position: int,
}

/// An entry that passed every gate, with its score.
pub struct EntryModel {
    pub intent: IntentModel,
    /// The score, in millionths.
    pub score: int,
}

/// The result of assessing one market.
pub enum AssessmentModel {
    /// The market is not open: nothing is recorded.
    Skip,
    Reject(RejectReason),
    Exit(IntentModel),
    Entry(EntryModel),
}

/// The widest spread at which a market is traded. The most cautious
/// mode also observes its own cap.
pub open spec fn spread_cap(rules: Rules) -> int {
    match rules.quality.mode {
        QualityMode::UltraSafe => min_int(
            rules.strategy.max_spread_cents as int,
            rules.quality.max_spread_cents_ultra as int,
        ),
        _ => rules.strategy.max_spread_cents as int,
    }
}

/// A confidence floor, never below one half.
pub open spec fn confidence_floor(configured_ppm: int) -> int {
    if configured_ppm < 500_000 {
        500_000
    } else {
        configured_ppm
    }
}

/// The slippage buffer, never negative.
pub open spec fn slippage_of(rules: Rules) -> int {
    if rules.quality.slippage_buffer_cents < 0 {
        0
    } else {
        rules.quality.slippage_buffer_cents as int
    }
}

/// Whole minutes from `now_ms` to `close_ms`, rounded toward zero.
pub open spec fn minutes_left(close_ms: int, now_ms: int) -> int {
    if close_ms >= now_ms {
        (close_ms - now_ms) / 60_000
    } else {
        -((now_ms - close_ms) / 60_000)
    }
}

/// The most cautious probability among the lower bounds of the ensemble
/// and of each source that has an estimate.
pub open spec fn conservative_p(s: ForecastEntry) -> int {
    let a = min_int(1_000_000, s.ensemble.p_yes_low as int);
    let b = match s.noaa {
        Some(n) => min_int(a, n.p_yes_low as int),
        None => a,
    };
    let c = match s.google {
        Some(g) => min_int(b, g.p_yes_low as int),
        None => b,
    };
    clamp(c, 0, 1_000_000)
}

/// How far apart the two sources lie; zero unless both have an estimate.
pub open spec fn source_gap(s: ForecastEntry) -> int {
    match (s.noaa, s.google) {
        (Some(n), Some(g)) => gap_ppm(n.p_yes as int, g.p_yes as int),
        _ => 0,
    }
}

/// The text that goes with an exit.
pub open spec fn exit_reason(bid: int, threshold: int, fee: int) -> Seq<char> {
    "exit: bid="@ + decimal(bid) + "¢ >= thresh="@ + decimal(threshold) + "¢, fee≈"@ + decimal(
        fee,
    ) + "¢"@
}

/// The text that goes with an entry.
pub open spec fn entry_reason(
    ask: int,
    fair: int,
    net: int,
    conservative_net: int,
    ev_micro: int,
    p_conservative: int,
    confidence: int,
) -> Seq<char> {
    "entry: ask="@ + decimal(ask) + "¢, fair="@ + decimal(fair) + "¢, net_edge="@ + decimal(net)
        + "¢, cons_edge="@ + decimal(conservative_net) + "¢, cons_ev="@ + fixed2(
        rounded_div(ev_micro, 10_000),
    ) + "¢, p_cons="@ + fixed3(rounded_div(p_conservative, 1000)) + ", conf="@ + fixed2(
        rounded_div(confidence, 10_000),
    )
}

/// The position is long and the bid has reached the exit threshold.
pub open spec fn wants_exit(rules: Rules, price: PriceEntry, position: int) -> bool {
    price.yes_bid >= rules.strategy.exit_threshold_cents && position > 0
}

/// The sale of the whole position at the bid.
pub open spec fn exit_intent(rules: Rules, facts: MarketFacts, price: PriceEntry) -> IntentModel {
    let fee = fee_cents(
        rules.fees.taker_coeff_bp as int,
        facts.position,
        price.yes_bid as int,
    );
    IntentModel {
        ticker: facts.ticker,
        side: Side::Yes,
        action: Action::Sell,
        price_cents: price.yes_bid as int,
        count: facts.position,
        reason: exit_reason(
            price.yes_bid as int,
            rules.strategy.exit_threshold_cents as int,
            fee,
        ),
        estimated_fee_cents: fee,
        confidence_ppm: 1_000_000,
    }
}

/// The numbers of an entry at the ask of `price` under signal `s`.
pub struct EntryNumbers {
    pub round_trip_fee: int,
    pub slippage: int,
    pub friction: int,
    pub p_conservative: int,
    pub fair: int,
    pub net: int,
    pub conservative_net: int,
    pub ev_micro: int,
}

/// Fair values, edges and expected value of an entry.
pub open spec fn entry_numbers(rules: Rules, price: PriceEntry, s: ForecastEntry) -> EntryNumbers {
    let ask = price.yes_ask as int;
    let fee = round_trip_fee(
        rules.fees.taker_coeff_bp as int,
        1,
        ask,
        rules.strategy.exit_threshold_cents as int,
    );
    let slippage = slippage_of(rules);
    let p_conservative = conservative_p(s);
    let fair = fair_cents(s.ensemble.p_yes as int, rules.strategy.safety_margin_cents as int);
    let conservative_fair = fair_cents(p_conservative, rules.strategy.safety_margin_cents as int);
    EntryNumbers {
        round_trip_fee: fee,
        slippage: slippage,
        friction: fee + slippage,
        p_conservative: p_conservative,
        fair: fair,
        net: net_edge(fair, ask, fee, slippage),
        conservative_net: net_edge(conservative_fair, ask, fee, slippage),
        ev_micro: expected_value_micro(p_conservative, ask, fee + slippage),
    }
}

/// The purchase that an entry makes, with its score.
pub open spec fn entry_model(
    rules: Rules,
    facts: MarketFacts,
    price: PriceEntry,
    s: ForecastEntry,
) -> EntryModel {
    let n = entry_numbers(rules, price, s);
    let ask = price.yes_ask as int;
    let count = kelly_contracts(
        n.p_conservative,
        ask,
        rules.strategy.max_position_cents as int,
        n.friction,
        rules.quality.mode,
    );
    EntryModel {
        intent: IntentModel {
            ticker: facts.ticker,
            side: Side::Yes,
            action: Action::Buy,
            price_cents: ask,
            count: count,
            reason: entry_reason(
                ask,
                n.fair,
                n.net,
                n.conservative_net,
                n.ev_micro,
                n.p_conservative,
                s.ensemble.confidence as int,
            ),
            estimated_fee_cents: fee_cents(rules.fees.taker_coeff_bp as int, count, ask),
            confidence_ppm: s.ensemble.confidence as int,
        },
        score: quality_score_micro(
            n.conservative_net,
            n.ev_micro,
            source_gap(s),
            facts.volume_24h,
            facts.open_interest,
        ),
    }
}

/// The first gate of the signal that fails, if any: the signal must be
/// there, fresh and well formed; the sources that are asked for must be
/// there; every confidence must reach its floor; and under the strict veto
/// the sources must agree in direction and lie close together.
pub open spec fn signal_veto(rules: Rules, signal: Option<ForecastEntry>, now: Moment) -> Option<
    RejectReason,
> {
    match signal {
        None => Some(RejectReason::NoForecastData),
        Some(s) => {
            let q = rules.quality;
            let one_missing = s.noaa is None || s.google is None;
            if elapsed_secs(s.updated_at_ms, now.mono_ms) > rules.timing.forecast_stale_secs {
                Some(RejectReason::StaleForecastData)
            } else if !entry_valid(s) {
                Some(RejectReason::InvalidSignal)
            } else if q.require_both_sources && one_missing {
                Some(RejectReason::MissingSource)
            } else if q.strict_source_veto && one_missing {
                Some(RejectReason::MissingSourceForStrictVeto)
            } else if s.noaa is Some && s.noaa->0.confidence < confidence_floor(
                q.min_source_confidence_ppm as int,
            ) {
                Some(
                    RejectReason::LowSourceConfidence {
                        source: ForecastSource::Noaa,
                        confidence_ppm: s.noaa->0.confidence,
                    },
                )
            } else if s.google is Some && s.google->0.confidence < confidence_floor(
                q.min_source_confidence_ppm as int,
            ) {
                Some(
                    RejectReason::LowSourceConfidence {
                        source: ForecastSource::Google,
                        confidence_ppm: s.google->0.confidence,
                    },
                )
            } else if s.ensemble.confidence < confidence_floor(q.min_ensemble_confidence_ppm as int) {
                Some(RejectReason::LowEnsembleConfidence { confidence_ppm: s.ensemble.confidence })
            } else if q.strict_source_veto && !one_missing && ((s.noaa->0.p_yes >= 500_000) != (
            s.google->0.p_yes >= 500_000)) {
                Some(RejectReason::SourceDisagreementDirection)
            } else if q.strict_source_veto && !one_missing && source_gap(s)
                > q.max_source_prob_gap_ppm {
                Some(
                    RejectReason::SourceDisagreementGap {
                        gap_ppm: source_gap(s) as i64,
                        max_ppm: q.max_source_prob_gap_ppm,
                    },
                )
            } else {
                None
            }
        },
    }
}

/// The first gate of the market itself that fails, if any: liquidity, and
/// the time left to the close.
pub open spec fn market_veto(rules: Rules, facts: MarketFacts, now: Moment) -> Option<RejectReason> {
    if facts.volume_24h < rules.quality.min_volume_24h || facts.open_interest
        < rules.quality.min_open_interest {
        Some(
            RejectReason::LiquidityFilter {
                volume_24h: facts.volume_24h as i64,
                open_interest: facts.open_interest as i64,
            },
        )
    } else {
        match facts.close_time_ms {
            None => None,
            Some(close) => {
                if minutes_left(close as int, now.utc_ms as int)
                    < rules.strategy.min_minutes_before_close {
                    Some(
                        RejectReason::TooCloseToExpiry {
                            minutes_left: minutes_left(close as int, now.utc_ms as int) as i64,
                        },
                    )
                } else if close - now.utc_ms >= rules.strategy.max_days_to_resolution * 86_400_000 {
                    Some(
                        RejectReason::BeyondResolutionWindow {
                            max_days: rules.strategy.max_days_to_resolution,
                        },
                    )
                } else {
                    None
                }
            },
        }
    }
}

/// The first gate of price and value that fails, if any: the ask must be a
/// price an order can carry and lie at or below the entry threshold; the net
/// edge, the conservative net edge and the conservative expected value must
/// reach their floors; and no position may be open.
pub open spec fn value_veto(rules: Rules, facts: MarketFacts, price: PriceEntry, s: ForecastEntry) -> Option<
    RejectReason,
> {
    if !valid_order_price(price.yes_ask as int) {
        Some(RejectReason::InvalidPrice { bid: price.yes_bid, ask: price.yes_ask })
    } else {
        value_gate(rules, entry_numbers(rules, price, s), price, facts.position)
    }
}

/// The quote is older than the staleness budget.
pub open spec fn quote_stale(rules: Rules, price: PriceEntry, now: Moment) -> bool {
    age_at(price, now.mono_ms) > rules.timing.price_stale_secs * 1000
}

/// The veto ladder of an entry: spread, staleness of the quote, signal,
/// market, value. The first gate that fails wins.
pub open spec fn entry_veto(rules: Rules, facts: MarketFacts, price: PriceEntry, now: Moment) -> Option<
    RejectReason,
> {
    if price.yes_ask - price.yes_bid > spread_cap(rules) {
        Some(
            RejectReason::SpreadFilter {
                spread: (price.yes_ask - price.yes_bid) as i128,
                cap: spread_cap(rules) as i64,
            },
        )
    } else if quote_stale(rules, price, now) {
        Some(RejectReason::StalePriceData)
    } else if signal_veto(rules, facts.signal, now) is Some {
        signal_veto(rules, facts.signal, now)
    } else if market_veto(rules, facts, now) is Some {
        market_veto(rules, facts, now)
    } else {
        value_veto(rules, facts, price, facts.signal->0)
    }
}

/// The assessment of one market.
///
/// A market that is not open is skipped, and without a quote nothing is
/// traded. A long position whose bid, in a fresh quote, has reached the
/// exit threshold is sold whole, whatever the quality gates say. Anything
/// else is an entry, which must pass the veto ladder; a stale quote fails
/// it at the spread or at the staleness gate, so that nothing is traded on
/// a stale quote.
pub open spec fn assessment(rules: Rules, facts: MarketFacts, now: Moment) -> AssessmentModel {
    if !facts.open {
        AssessmentModel::Skip
    } else {
        match facts.price {
            None => AssessmentModel::Reject(RejectReason::NoPriceData),
            Some(price) => {
                if !quote_stale(rules, price, now) && wants_exit(rules, price, facts.position) {
                    if valid_order_price(price.yes_bid as int) {
                        AssessmentModel::Exit(exit_intent(rules, facts, price))
                    } else {
                        AssessmentModel::Reject(
                            RejectReason::InvalidPrice { bid: price.yes_bid, ask: price.yes_ask },
                        )
                    }
                } else {
                    match entry_veto(rules, facts, price, now) {
                        Some(reason) => AssessmentModel::Reject(reason),
                        None => AssessmentModel::Entry(
                            entry_model(rules, facts, price, facts.signal->0),
                        ),
                    }
                }
            },
        }
    }
}

/// The intent of an assessment, if it has one.
pub open spec fn intent_of(a: AssessmentModel) -> Option<IntentModel> {
    match a {
        AssessmentModel::Exit(i) => Some(i),
        AssessmentModel::Entry(e) => Some(e.intent),
        _ => None,
    }
}

/// An intent that the exchange can take: a price from 1 to 99 cents and
/// at least one contract.
pub open spec fn intent_valid(i: IntentModel) -> bool {
    valid_order_price(i.price_cents) && i.count >= 1
}

/// Every intent that an assessment emits has a price from 1 to 99 cents
/// and asks for at least one contract.
pub proof fn lemma_emitted_intent_valid(rules: Rules, facts: MarketFacts, now: Moment)
    ensures
        intent_of(assessment(rules, facts, now)) matches Some(i) ==> intent_valid(i),
{
}

/// A quote older than the staleness budget yields no intent.
pub proof fn lemma_stale_quote_yields_no_intent(rules: Rules, facts: MarketFacts, now: Moment)
    requires
        facts.price matches Some(price) && age_at(price, now.mono_ms)
            > rules.timing.price_stale_secs * 1000,
    ensures
        intent_of(assessment(rules, facts, now)) is None,
        facts.open ==> assessment(rules, facts, now) is Reject,
{
}

/// An exit fires whenever an open market has a fresh quote with a valid
/// bid at or above the exit threshold and a long position is held,
/// whatever the signal, the spread, the liquidity and the time to the close:
/// it sells the whole position at the bid.
pub proof fn lemma_exit_fires(rules: Rules, facts: MarketFacts, now: Moment)
    requires
        facts.open,
        facts.price is Some,
        age_at(facts.price->0, now.mono_ms) <= rules.timing.price_stale_secs * 1000,
        valid_order_price(facts.price->0.yes_bid as int),
        facts.price->0.yes_bid >= rules.strategy.exit_threshold_cents,
        facts.position > 0,
    ensures
        assessment(rules, facts, now) matches AssessmentModel::Exit(i) && {
            &&& i.action == Action::Sell
            &&& i.side == Side::Yes
            &&& i.count == facts.position
            &&& i.price_cents == facts.price->0.yes_bid
            &&& i.ticker == facts.ticker
        },
{
}

/// An entry that is emitted has a net edge of at least the edge
/// threshold, after fees and slippage.
pub proof fn lemma_entry_has_edge(rules: Rules, facts: MarketFacts, now: Moment)
    requires
        assessment(rules, facts, now) is Entry,
    ensures
        entry_numbers(rules, facts.price->0, facts.signal->0).net
            >= rules.strategy.edge_threshold_cents,
        entry_numbers(rules, facts.price->0, facts.signal->0).conservative_net
            >= rules.quality.min_conservative_net_edge_cents,
{
}

impl RejectReason {
    /// The reason code, as it is journaled.
    pub fn text(&self) -> (s: String)
        ensures
            s@ == reject_text(*self),
    {
        match *self {
            RejectReason::NoPriceData => String::from_str("no_price_data"),
            RejectReason::StalePriceData => String::from_str("stale_price_data"),
            RejectReason::InvalidPrice { bid, ask } => {
                let mut s = String::from_str("invalid_price:bid=");
                push_decimal(&mut s, bid as i128);
                push_text(&mut s, "¢ ask=");
                push_decimal(&mut s, ask as i128);
                push_text(&mut s, "¢");
                s
            },
            RejectReason::SpreadFilter { spread, cap } => {
                let mut s = String::from_str("spread_filter:");
                push_decimal(&mut s, spread);
                push_text(&mut s, ">");
                push_decimal(&mut s, cap as i128);
                s
            },
            RejectReason::NoForecastData => String::from_str("no_forecast_data"),
            RejectReason::StaleForecastData => String::from_str("stale_forecast_data"),
            RejectReason::InvalidSignal => String::from_str("invalid_signal"),
            RejectReason::MissingSource => String::from_str("missing_source"),
            RejectReason::MissingSourceForStrictVeto => String::from_str(
                "missing_source_for_strict_veto",
            ),
            RejectReason::LowSourceConfidence { source, confidence_ppm } => {
                let mut s = match source {
                    ForecastSource::Noaa => String::from_str("low_source_confidence:noaa:"),
                    ForecastSource::Google => String::from_str("low_source_confidence:google:"),
                };
                push_fixed3(&mut s, round_div(confidence_ppm as i128, 1000));
                s
            },
            RejectReason::LowEnsembleConfidence { confidence_ppm } => {
                let mut s = String::from_str("low_ensemble_confidence:");
                push_fixed3(&mut s, round_div(confidence_ppm as i128, 1000));
                s
            },
            RejectReason::SourceDisagreementDirection => String::from_str(
                "source_disagreement:direction",
            ),
            RejectReason::SourceDisagreementGap { gap_ppm, max_ppm } => {
                let mut s = String::from_str("source_disagreement:gap:");
                push_fixed3(&mut s, round_div(gap_ppm as i128, 1000));
                push_text(&mut s, ">");
                push_fixed3(&mut s, round_div(max_ppm as i128, 1000));
                s
            },
            RejectReason::LiquidityFilter { volume_24h, open_interest } => {
                let mut s = String::from_str("liquidity_filter:vol24h=");
                push_decimal(&mut s, volume_24h as i128);
                push_text(&mut s, " oi=");
                push_decimal(&mut s, open_interest as i128);
                s
            },
            RejectReason::TooCloseToExpiry { minutes_left } => {
                let mut s = String::from_str("too_close_to_expiry:");
                push_fixed2(&mut s, round_div(100 * (minutes_left as i128), 60));
                push_text(&mut s, "h");
                s
            },
            RejectReason::BeyondResolutionWindow { max_days } => {
                let mut s = String::from_str("beyond_resolution_window:");
                push_decimal(&mut s, max_days as i128);
                push_text(&mut s, "d");
                s
            },
            RejectReason::EntryThreshold { ask } => {
                let mut s = String::from_str("entry_threshold:ask=");
                push_decimal(&mut s, ask as i128);
                push_text(&mut s, "¢");
                s
            },
            RejectReason::InsufficientEdge { net_edge, threshold } => {
                let mut s = String::from_str("insufficient_edge:");
                push_decimal(&mut s, net_edge);
                push_text(&mut s, "<");
                push_decimal(&mut s, threshold as i128);
                s
            },
            RejectReason::InsufficientConservativeEdge { net_edge, threshold } => {
                let mut s = String::from_str("insufficient_conservative_edge:");
                push_decimal(&mut s, net_edge);
                push_text(&mut s, "<");
                push_decimal(&mut s, threshold as i128);
                s
            },
            RejectReason::InsufficientEv { ev_micro, threshold } => {
                let mut s = String::from_str("insufficient_ev:");
                push_fixed3(&mut s, thousandth_part(ev_micro));
                push_text(&mut s, "<");
                push_decimal(&mut s, threshold as i128);
                s
            },
            RejectReason::PositionAlreadyOpen => String::from_str("position_already_open"),
        }
    }
}

/// A number of millionths in thousandths, rounded.
fn thousandth_part(micro: i128) -> (r: i128)
    ensures
        r == rounded_div(micro as int, 1000),
        r > i128::MIN,
{
    if micro >= 0 {
        let q: i128 = micro / 1000;
        let rem: i128 = micro % 1000;
        let r: i128 = if rem >= 500 {
            q + 1
        } else {
            q
        };
        assert(r == (2 * micro + 1000) / 2000) by (nonlinear_arith)
            requires
                micro == 1000 * q + rem,
                0 <= rem < 1000,
                r == q + (if rem >= 500 {
                    1int
                } else {
                    0int
                }),
        {
            assert(2 * micro + 1000 == 2000 * q + (2 * rem + 1000));
            assert((2000 * q + (2 * rem + 1000)) / 2000 == q + (2 * rem + 1000) / 2000);
        }
        r
    } else {
        let q: i128 = -(micro / 1000);
        let rem: i128 = -(micro % 1000);
        let r: i128 = if rem >= 500 {
            q + 1
        } else {
            q
        };
        assert(r == (2 * (-micro) + 1000) / 2000) by (nonlinear_arith)
            requires
                -micro == 1000 * q + rem,
                0 <= rem < 1000,
                r == q + (if rem >= 500 {
                    1int
                } else {
                    0int
                }),
        {
            assert(2 * (-micro) + 1000 == 2000 * q + (2 * rem + 1000));
            assert((2000 * q + (2 * rem + 1000)) / 2000 == q + (2 * rem + 1000) / 2000);
        }
        -r
    }
}

/// An entry that passed every gate, with its score in millionths.
#[derive(Debug)]
pub struct EntryCandidate {
    pub intent: OrderIntent,
    pub score: i128,
}

impl View for EntryCandidate {
    type V = EntryModel;

    open spec fn view(&self) -> EntryModel {
        EntryModel { intent: self.intent@, score: self.score as int }
    }
}

/// The result of assessing one market.
#[derive(Debug)]
pub enum Assessment {
    Skip,
    Reject(RejectReason),
    Exit(OrderIntent),
    Entry(EntryCandidate),
}

impl View for Assessment {
    type V = AssessmentModel;

    open spec fn view(&self) -> AssessmentModel {
        match self {
            Assessment::Skip => AssessmentModel::Skip,
            Assessment::Reject(r) => AssessmentModel::Reject(*r),
            Assessment::Exit(i) => AssessmentModel::Exit(i@),
            Assessment::Entry(e) => AssessmentModel::Entry(e@),
        }
    }
}

/// The YES contracts held in `ticker`: the count of the last position
/// listed for it, zero when none is.
pub open spec fn held(positions: Seq<Position>, ticker: Seq<char>) -> int
    decreases positions.len(),
{
    if positions.len() == 0 {
        0
    } else if positions.last().ticker@ == ticker {
        positions.last().yes_count as int
    } else {
        held(positions.drop_last(), ticker)
    }
}

/// The YES contracts held in `ticker`.
pub fn held_position(positions: &[Position], ticker: &str) -> (count: i64)
    ensures
        count == held(positions@, ticker@),
{
    let mut count: i64 = 0;
    let mut i: usize = 0;
    while i < positions.len()
        invariant
            i <= positions.len(),
            count == held(positions@.take(i as int), ticker@),
        decreases positions.len() - i,
    {
        proof {
            let next = positions@.take(i + 1);
            assert(next.drop_last() =~= positions@.take(i as int));
            assert(next.last() == positions@[i as int]);
        }
        if same_text(positions[i].ticker.as_str(), ticker) {
            count = positions[i].yes_count;
        }
        i += 1;
    }
    assert(positions@.take(positions@.len() as int) =~= positions@);
    count
}

/// What is known of `market` at the moment of an assessment.
pub open spec fn facts_of(
    market: MarketInfo,
    price: Option<PriceEntry>,
    signal: Option<ForecastEntry>,
    position: int,
) -> MarketFacts {
    MarketFacts {
        ticker: market.ticker@,
        open: market.status@ == "open"@,
        close_time_ms: market.close_time_ms,
        volume_24h: market.volume_24h as int,
        open_interest: market.open_interest as int,
        price: price,
        signal: signal,
        position: position,
    }
}

/// The entry of a map, if it has one.
pub open spec fn lookup<V>(map: Map<Seq<char>, V>, key: Seq<char>) -> Option<V> {
    if map.contains_key(key) {
        Some(map[key])
    } else {
        None
    }
}

/// The strategy engine.
pub struct StrategyEngine {
    pub config: BotConfig,
    pub fees: FeeSchedule,
}

impl StrategyEngine {
    /// An engine under `config` with the standard fee schedule.
    pub fn new(config: BotConfig) -> (e: StrategyEngine)
        ensures
            e.config == config,
            e.fees.taker_coeff_bp == 700,
            e.fees.maker_coeff_bp == 175,
    {
        StrategyEngine { config, fees: FeeSchedule::weather() }
    }

    /// The settings that the engine assesses by.
    pub open spec fn rules(&self) -> Rules {
        Rules {
            strategy: self.config.strategy,
            quality: self.config.quality,
            timing: self.config.timing,
            fees: self.fees,
        }
    }

    fn effective_spread_cap(&self) -> (cap: i64)
        ensures
            cap == spread_cap(self.rules()),
    {
        let strat_cap = self.config.strategy.max_spread_cents;
        let ultra_cap = self.config.quality.max_spread_cents_ultra;
        match self.config.quality.mode {
            QualityMode::UltraSafe => if strat_cap <= ultra_cap {
                strat_cap
            } else {
                ultra_cap
            },
            _ => strat_cap,
        }
    }

    fn signal_veto(&self, signal: Option<ForecastEntry>, now: Moment) -> (r: Option<RejectReason>)
        ensures
            r == signal_veto(self.rules(), signal, now),
    {
        let s = match signal {
            None => {
                return Some(RejectReason::NoForecastData);
            },
            Some(s) => s,
        };
        let q = &self.config.quality;
        if s.is_stale(self.config.timing.forecast_stale_secs, now.mono_ms) {
            return Some(RejectReason::StaleForecastData);
        }
        if !s.is_valid() {
            return Some(RejectReason::InvalidSignal);
        }
        let one_missing = s.noaa.is_none() || s.google.is_none();
        if q.require_both_sources && one_missing {
            return Some(RejectReason::MissingSource);
        }
        if q.strict_source_veto && one_missing {
            return Some(RejectReason::MissingSourceForStrictVeto);
        }
        let source_min: i64 = if q.min_source_confidence_ppm < MIN_CONFIDENCE_FLOOR_PPM {
            MIN_CONFIDENCE_FLOOR_PPM
        } else {
            q.min_source_confidence_ppm
        };
        match s.noaa {
            Some(n) => {
                if n.confidence < source_min {
                    return Some(
                        RejectReason::LowSourceConfidence {
                            source: ForecastSource::Noaa,
                            confidence_ppm: n.confidence,
                        },
                    );
                }
            },
            None => {},
        }
        match s.google {
            Some(g) => {
                if g.confidence < source_min {
                    return Some(
                        RejectReason::LowSourceConfidence {
                            source: ForecastSource::Google,
                            confidence_ppm: g.confidence,
                        },
                    );
                }
            },
            None => {},
        }
        let ensemble_min: i64 = if q.min_ensemble_confidence_ppm < MIN_CONFIDENCE_FLOOR_PPM {
            MIN_CONFIDENCE_FLOOR_PPM
        } else {
            q.min_ensemble_confidence_ppm
        };
        if s.ensemble.confidence < ensemble_min {
            return Some(RejectReason::LowEnsembleConfidence { confidence_ppm: s.ensemble.confidence });
        }
        match (s.noaa, s.google) {
            (Some(n), Some(g)) => {
                if q.strict_source_veto {
                    if (n.p_yes >= 500_000) != (g.p_yes >= 500_000) {
                        return Some(RejectReason::SourceDisagreementDirection);
                    }
                    let gap: i64 = if n.p_yes >= g.p_yes {
                        n.p_yes - g.p_yes
                    } else {
                        g.p_yes - n.p_yes
                    };
                    if gap > q.max_source_prob_gap_ppm {
                        return Some(
                            RejectReason::SourceDisagreementGap {
                                gap_ppm: gap,
                                max_ppm: q.max_source_prob_gap_ppm,
                            },
                        );
                    }
                }
            },
            _ => {},
        }
        None
    }

    fn market_veto(&self, market: &MarketInfo, now: Moment) -> (r: Option<RejectReason>)
        ensures
            forall|price: Option<PriceEntry>, signal: Option<ForecastEntry>, position: int|
                r == market_veto(
                    self.rules(),
                    #[trigger] facts_of(*market, price, signal, position),
                    now,
                ),
    {
        let q = &self.config.quality;
        if market.volume_24h < q.min_volume_24h || market.open_interest < q.min_open_interest {
            return Some(
                RejectReason::LiquidityFilter {
                    volume_24h: market.volume_24h,
                    open_interest: market.open_interest,
                },
            );
        }
        match market.close_time_ms {
            None => None,
            Some(close) => {
                let remaining: i128 = close as i128 - now.utc_ms as i128;
                let minutes: i128 = if remaining >= 0 {
                    remaining / 60_000
                } else {
                    -((-remaining) / 60_000)
                };
                if minutes < self.config.strategy.min_minutes_before_close as i128 {
                    return Some(RejectReason::TooCloseToExpiry { minutes_left: minutes as i64 });
                }
                if remaining >= self.config.strategy.max_days_to_resolution as i128 * 86_400_000 {
                    return Some(
                        RejectReason::BeyondResolutionWindow {
                            max_days: self.config.strategy.max_days_to_resolution,
                        },
                    );
                }
                None
            },
        }
    }

    fn exit_order(&self, market: &MarketInfo, price: PriceEntry, position: i64) -> (intent: OrderIntent)
        requires
            position > 0,
        ensures
            forall|signal: Option<ForecastEntry>|
                intent@ == exit_intent(
                    self.rules(),
                    #[trigger] facts_of(*market, Some(price), signal, position as int),
                    price,
                ),
    {
        let fee: i64 = self.fees.taker_fee_cents(position, price.yes_bid);
        let mut reason = String::from_str("exit: bid=");
        push_decimal(&mut reason, price.yes_bid as i128);
        push_text(&mut reason, "¢ >= thresh=");
        push_decimal(&mut reason, self.config.strategy.exit_threshold_cents as i128);
        push_text(&mut reason, "¢, fee≈");
        push_decimal(&mut reason, fee as i128);
        push_text(&mut reason, "¢");
        OrderIntent {
            ticker: market.ticker.clone(),
            side: Side::Yes,
            action: Action::Sell,
            price_cents: price.yes_bid,
            count: position,
            reason,
            estimated_fee_cents: fee,
            confidence_ppm: 1_000_000,
        }
    }

    fn numbers(&self, price: PriceEntry, s: ForecastEntry) -> (n: Numbers)
        requires
            entry_valid(s),
            valid_order_price(price.yes_ask as int),
        ensures
            n@ == entry_numbers(self.rules(), price, s),
            0 <= n.p_conservative <= 1_000_000,
            0 <= n.friction <= 0x1_0000_0000_0000_0000,
    {
        let strat = &self.config.strategy;
        let quality = &self.config.quality;
        let ask: i64 = price.yes_ask;
        let round_trip: i64 = self.fees.round_trip_fee_cents(1, ask, strat.exit_threshold_cents);
        let slippage: i64 = if quality.slippage_buffer_cents < 0 {
            0
        } else {
            quality.slippage_buffer_cents
        };
        let friction: i128 = round_trip as i128 + slippage as i128;
        let mut lowest: i64 = if s.ensemble.p_yes_low < 1_000_000 {
            s.ensemble.p_yes_low
        } else {
            1_000_000
        };
        match s.noaa {
            Some(n) => {
                if n.p_yes_low < lowest {
                    lowest = n.p_yes_low;
                }
            },
            None => {},
        }
        match s.google {
            Some(g) => {
                if g.p_yes_low < lowest {
                    lowest = g.p_yes_low;
                }
            },
            None => {},
        }
        let p_conservative: i64 = if lowest < 0 {
            0
        } else {
            lowest
        };
        assert(p_conservative == conservative_p(s));
        let fair: i128 = (s.ensemble.p_yes / 10_000) as i128 - strat.safety_margin_cents as i128;
        let conservative_fair: i128 = (p_conservative / 10_000) as i128
            - strat.safety_margin_cents as i128;
        let net: i128 = fair - ask as i128 - round_trip as i128 - slippage as i128;
        let conservative_net: i128 = conservative_fair - ask as i128 - round_trip as i128
            - slippage as i128;
        let win: i128 = 100 - ask as i128 - friction;
        let lose: i128 = ask as i128 + friction;
        assert(-0x2_0000_0000_0000_0000 <= win <= 100 && 0 < lose <= 0x2_0000_0000_0000_0000);
        assert(-0x2_0000_0000_0000_0000 * 1_000_000 <= p_conservative * win <= 100_000_000)
            by (nonlinear_arith)
            requires
                0 <= p_conservative <= 1_000_000,
                -0x2_0000_0000_0000_0000 <= win <= 100,
        ;
        assert(0 <= (1_000_000 - p_conservative) * lose <= 0x2_0000_0000_0000_0000 * 1_000_000)
            by (nonlinear_arith)
            requires
                0 <= p_conservative <= 1_000_000,
                0 < lose <= 0x2_0000_0000_0000_0000,
        ;
        let ev_micro: i128 = (p_conservative as i128) * win - (1_000_000 - p_conservative as i128)
            * lose;
        Numbers {
            round_trip_fee: round_trip,
            slippage,
            friction,
            p_conservative,
            fair,
            net,
            conservative_net,
            ev_micro,
        }
    }

    fn value_veto(&self, n: &Numbers, price: PriceEntry, position: i64) -> (r: Option<RejectReason>)
        requires
            valid_order_price(price.yes_ask as int),
        ensures
            r == value_gate(self.rules(), n@, price, position as int),
    {
        let strat = &self.config.strategy;
        let quality = &self.config.quality;
        if price.yes_ask > strat.entry_threshold_cents {
            return Some(RejectReason::EntryThreshold { ask: price.yes_ask });
        }
        if n.net < strat.edge_threshold_cents as i128 {
            return Some(
                RejectReason::InsufficientEdge {
                    net_edge: n.net,
                    threshold: strat.edge_threshold_cents,
                },
            );
        }
        if n.conservative_net < quality.min_conservative_net_edge_cents as i128 {
            return Some(
                RejectReason::InsufficientConservativeEdge {
                    net_edge: n.conservative_net,
                    threshold: quality.min_conservative_net_edge_cents,
                },
            );
        }
        if n.ev_micro < quality.min_conservative_ev_cents as i128 * 1_000_000 {
            return Some(
                RejectReason::InsufficientEv {
                    ev_micro: n.ev_micro,
                    threshold: quality.min_conservative_ev_cents,
                },
            );
        }
        if position != 0 {
            return Some(RejectReason::PositionAlreadyOpen);
        }
        None
    }

    fn entry_reason(&self, ask: i64, n: &Numbers, confidence: i64) -> (reason: String)
        requires
            -0x1000_0000_0000_0000_0000_0000 < n.ev_micro < 0x1000_0000_0000_0000_0000_0000,
        ensures
            reason@ == entry_reason(
                ask as int,
                n.fair as int,
                n.net as int,
                n.conservative_net as int,
                n.ev_micro as int,
                n.p_conservative as int,
                confidence as int,
            ),
    {
        let mut reason = String::from_str("entry: ask=");
        push_decimal(&mut reason, ask as i128);
        push_text(&mut reason, "¢, fair=");
        push_decimal(&mut reason, n.fair);
        push_text(&mut reason, "¢, net_edge=");
        push_decimal(&mut reason, n.net);
        push_text(&mut reason, "¢, cons_edge=");
        push_decimal(&mut reason, n.conservative_net);
        push_text(&mut reason, "¢, cons_ev=");
        push_fixed2(&mut reason, round_div(n.ev_micro, 10_000));
        push_text(&mut reason, "¢, p_cons=");
        push_fixed3(&mut reason, round_div(n.p_conservative as i128, 1000));
        push_text(&mut reason, ", conf=");
        push_fixed2(&mut reason, round_div(confidence as i128, 10_000));
        reason
    }

    fn score(&self, market: &MarketInfo, n: &Numbers, s: ForecastEntry) -> (score: i128)
        requires
            entry_valid(s),
            -0x1000_0000_0000_0000_0000 < n.conservative_net < 0x1000_0000_0000_0000_0000,
            -0x1000_0000_0000_0000_0000_0000 < n.ev_micro < 0x1000_0000_0000_0000_0000_0000,
        ensures
            score == quality_score_micro(
                n.conservative_net as int,
                n.ev_micro as int,
                source_gap(s),
                market.volume_24h as int,
                market.open_interest as int,
            ),
    {
        let gap: i64 = match (s.noaa, s.google) {
            (Some(a), Some(b)) => if a.p_yes >= b.p_yes {
                a.p_yes - b.p_yes
            } else {
                b.p_yes - a.p_yes
            },
            _ => 0,
        };
        let agreement: i128 = 1_000_000 - gap as i128;
        let volume: i128 = if market.volume_24h < 500 {
            market.volume_24h as i128
        } else {
            500
        };
        let interest: i128 = if market.open_interest < 250 {
            market.open_interest as i128
        } else {
            250
        };
        2_000_000 * n.conservative_net + n.ev_micro + 10 * agreement + 2_000 * volume + 4_000
            * interest
    }

    fn build_entry(&self, market: &MarketInfo, price: PriceEntry, s: ForecastEntry, n: &Numbers) -> (e:
        EntryCandidate)
        requires
            entry_valid(s),
            valid_order_price(price.yes_ask as int),
            n@ == entry_numbers(self.rules(), price, s),
            0 <= n.p_conservative <= 1_000_000,
            0 <= n.friction <= 0x1_0000_0000_0000_0000,
            -0x1000_0000_0000_0000_0000 < n.conservative_net < 0x1000_0000_0000_0000_0000,
            -0x1000_0000_0000_0000_0000_0000 < n.ev_micro < 0x1000_0000_0000_0000_0000_0000,
        ensures
            forall|position: int|
                e@ == entry_model(
                    self.rules(),
                    #[trigger] facts_of(*market, Some(price), Some(s), position),
                    price,
                    s,
                ),
            intent_valid(e@.intent),
    {
        let ask: i64 = price.yes_ask;
        let count: i64 = if n.friction > 1000 {
            1
        } else {
            kelly_size(
                n.p_conservative,
                ask,
                self.config.strategy.max_position_cents,
                n.friction as i64,
                self.config.quality.mode,
            )
        };
        let fee: i64 = self.fees.taker_fee_cents(count, ask);
        let reason = self.entry_reason(ask, n, s.ensemble.confidence);
        let score = self.score(market, n, s);
        EntryCandidate {
            intent: OrderIntent {
                ticker: market.ticker.clone(),
                side: Side::Yes,
                action: Action::Buy,
                price_cents: ask,
                count,
                reason,
                estimated_fee_cents: fee,
                confidence_ppm: s.ensemble.confidence,
            },
            score,
        }
    }

    fn quote_is_stale(&self, price: PriceEntry, now: Moment) -> (stale: bool)
        ensures
            stale == quote_stale(self.rules(), price, now),
    {
        let age: u64 = if now.mono_ms >= price.updated_at_ms {
            now.mono_ms - price.updated_at_ms
        } else {
            0
        };
        age as u128 > self.config.timing.price_stale_secs as u128 * 1000
    }

    fn assess_entry(
        &self,
        market: &MarketInfo,
        price: PriceEntry,
        signal: Option<ForecastEntry>,
        position: i64,
        now: Moment,
    ) -> (a: Assessment)
        ensures
            a@ == (match entry_veto(
                self.rules(),
                facts_of(*market, Some(price), signal, position as int),
                price,
                now,
            ) {
                Some(reason) => AssessmentModel::Reject(reason),
                None => AssessmentModel::Entry(
                    entry_model(
                        self.rules(),
                        facts_of(*market, Some(price), signal, position as int),
                        price,
                        signal->0,
                    ),
                ),
            }),
            intent_of(a@) matches Some(i) ==> intent_valid(i),
    {
        let ghost rules = self.rules();
        let ghost facts = facts_of(*market, Some(price), signal, position as int);
        let spread: i128 = price.yes_ask as i128 - price.yes_bid as i128;
        let cap: i64 = self.effective_spread_cap();
        if spread > cap as i128 {
            return Assessment::Reject(RejectReason::SpreadFilter { spread, cap });
        }
        if self.quote_is_stale(price, now) {
            return Assessment::Reject(RejectReason::StalePriceData);
        }
        match self.signal_veto(signal, now) {
            Some(r) => {
                return Assessment::Reject(r);
            },
            None => {},
        }
        match self.market_veto(market, now) {
            Some(r) => {
                assert(market_veto(rules, facts, now) == Some(r));
                return Assessment::Reject(r);
            },
            None => {
                assert(market_veto(rules, facts, now) is None);
            },
        }
        let s: ForecastEntry = match signal {
            Some(s) => s,
            None => {
                return Assessment::Reject(RejectReason::NoForecastData);
            },
        };
        if price.yes_ask < 1 || price.yes_ask > 99 {
            return Assessment::Reject(
                RejectReason::InvalidPrice { bid: price.yes_bid, ask: price.yes_ask },
            );
        }
        let n = self.numbers(price, s);
        match self.value_veto(&n, price, position) {
            Some(r) => {
                return Assessment::Reject(r);
            },
            None => {},
        }
        proof {
            lemma_numbers_bounded(rules, price, s);
        }
        Assessment::Entry(self.build_entry(market, price, s, &n))
    }

    /// Assesses one market from its quote, its signal and the position
    /// held.
    pub fn assess_market(
        &self,
        market: &MarketInfo,
        price: Option<PriceEntry>,
        signal: Option<ForecastEntry>,
        position: i64,
        now: Moment,
    ) -> (a: Assessment)
        ensures
            a@ == assessment(self.rules(), facts_of(*market, price, signal, position as int), now),
            intent_of(a@) matches Some(i) ==> intent_valid(i),
    {
        if !same_text(market.status.as_str(), "open") {
            return Assessment::Skip;
        }
        let price = match price {
            None => {
                return Assessment::Reject(RejectReason::NoPriceData);
            },
            Some(p) => p,
        };
        if !self.quote_is_stale(price, now) && price.yes_bid
            >= self.config.strategy.exit_threshold_cents && position > 0 {
            if price.yes_bid < 1 || price.yes_bid > 99 {
                return Assessment::Reject(
                    RejectReason::InvalidPrice { bid: price.yes_bid, ask: price.yes_ask },
                );
            }
            let intent = self.exit_order(market, price, position);
            assert(intent@ == exit_intent(
                self.rules(),
                facts_of(*market, Some(price), signal, position as int),
                price,
            ));
            return Assessment::Exit(intent);
        }
        self.assess_entry(market, price, signal, position, now)
    }
}

/// The numbers of an entry, as computed.
pub struct Numbers {
    pub round_trip_fee: i64,
    pub slippage: i64,
    pub friction: i128,
    pub p_conservative: i64,
    pub fair: i128,
    pub net: i128,
    pub conservative_net: i128,
    pub ev_micro: i128,
}

impl View for Numbers {
    type V = EntryNumbers;

    open spec fn view(&self) -> EntryNumbers {
        EntryNumbers {
            round_trip_fee: self.round_trip_fee as int,
            slippage: self.slippage as int,
            friction: self.friction as int,
            p_conservative: self.p_conservative as int,
            fair: self.fair as int,
            net: self.net as int,
            conservative_net: self.conservative_net as int,
            ev_micro: self.ev_micro as int,
        }
    }
}

/// The tests of price and value, on numbers already computed.
pub open spec fn value_gate(rules: Rules, n: EntryNumbers, price: PriceEntry, position: int) -> Option<
    RejectReason,
> {
    if price.yes_ask > rules.strategy.entry_threshold_cents {
        Some(RejectReason::EntryThreshold { ask: price.yes_ask })
    } else if n.net < rules.strategy.edge_threshold_cents {
        Some(
            RejectReason::InsufficientEdge {
                net_edge: n.net as i128,
                threshold: rules.strategy.edge_threshold_cents,
            },
        )
    } else if n.conservative_net < rules.quality.min_conservative_net_edge_cents {
        Some(
            RejectReason::InsufficientConservativeEdge {
                net_edge: n.conservative_net as i128,
                threshold: rules.quality.min_conservative_net_edge_cents,
            },
        )
    } else if n.ev_micro < rules.quality.min_conservative_ev_cents * 1_000_000 {
        Some(
            RejectReason::InsufficientEv {
                ev_micro: n.ev_micro as i128,
                threshold: rules.quality.min_conservative_ev_cents,
            },
        )
    } else if position != 0 {
        Some(RejectReason::PositionAlreadyOpen)
    } else {
        None
    }
}

/// With a well-formed signal and a valid ask, the numbers of an entry
/// stay far inside the machine integers.
pub proof fn lemma_numbers_bounded(rules: Rules, price: PriceEntry, s: ForecastEntry)
    requires
        entry_valid(s),
        valid_order_price(price.yes_ask as int),
    ensures
        -0x1000_0000_0000_0000_0000 < entry_numbers(rules, price, s).conservative_net
            < 0x1000_0000_0000_0000_0000,
        -0x1000_0000_0000_0000_0000_0000 < entry_numbers(rules, price, s).ev_micro
            < 0x1000_0000_0000_0000_0000_0000,
        0 <= entry_numbers(rules, price, s).friction <= 0x1_0000_0000_0000_0000,
        0 <= entry_numbers(rules, price, s).p_conservative <= 1_000_000,
{
    let n = entry_numbers(rules, price, s);
    let p = n.p_conservative;
    let win = 100 - price.yes_ask - n.friction;
    let lose = price.yes_ask + n.friction;
    assert(-0x2_0000_0000_0000_0000 * 1_000_000 <= p * win <= 100_000_000) by (nonlinear_arith)
        requires
            0 <= p <= 1_000_000,
            -0x2_0000_0000_0000_0000 <= win <= 100,
    ;
    assert(0 <= (1_000_000 - p) * lose <= 0x2_0000_0000_0000_0000 * 1_000_000) by (nonlinear_arith)
        requires
            0 <= p <= 1_000_000,
            0 < lose <= 0x2_0000_0000_0000_0000,
    ;
}

/// `e` put into a ranking: behind every entry that scores at least as
/// much, so that of two equal scores the earlier stays first.
pub open spec fn insert_ranked(sorted: Seq<EntryModel>, e: EntryModel) -> Seq<EntryModel>
    decreases sorted.len(),
{
    if sorted.len() == 0 {
        seq![e]
    } else if sorted.last().score >= e.score {
        sorted.push(e)
    } else {
        insert_ranked(sorted.drop_last(), e).push(sorted.last())
    }
}

/// The entries ordered by score, highest first; equal scores keep the
/// order in which they came.
pub open spec fn ranked(entries: Seq<EntryModel>) -> Seq<EntryModel>
    decreases entries.len(),
{
    if entries.len() == 0 {
        Seq::empty()
    } else {
        insert_ranked(ranked(entries.drop_last()), entries.last())
    }
}

/// The first `max` entries, or all of them when `max` is zero.
pub open spec fn capped(entries: Seq<EntryModel>, max: nat) -> Seq<EntryModel> {
    if max > 0 && entries.len() > max {
        entries.take(max as int)
    } else {
        entries
    }
}

/// The scores fall, or stay, from each entry to the next.
pub open spec fn descending(entries: Seq<EntryModel>) -> bool {
    forall|i: int, j: int| 0 <= i < j < entries.len() ==> entries[i].score >= entries[j].score
}

/// Where `e` goes in a ranking: behind position `pos - 1`, whose score is
/// at least that of `e`, and before everything that scores less.
pub proof fn lemma_insert_at(sorted: Seq<EntryModel>, e: EntryModel, pos: int)
    requires
        0 <= pos <= sorted.len(),
        forall|k: int| pos <= k < sorted.len() ==> sorted[k].score < e.score,
        pos > 0 ==> sorted[pos - 1].score >= e.score,
    ensures
        insert_ranked(sorted, e) == sorted.take(pos).push(e) + sorted.skip(pos),
    decreases sorted.len() - pos,
{
    if pos == sorted.len() {
        assert(sorted.take(pos) =~= sorted);
        assert(sorted.push(e) + sorted.skip(pos) =~= sorted.push(e));
        if sorted.len() == 0 {
            assert(sorted.push(e) =~= seq![e]);
        }
    } else {
        let rest = sorted.drop_last();
        lemma_insert_at(rest, e, pos);
        assert(rest.take(pos) =~= sorted.take(pos));
        assert((rest.take(pos).push(e) + rest.skip(pos)).push(sorted.last()) =~= sorted.take(
            pos,
        ).push(e) + sorted.skip(pos));
    }
}

/// Inserting into a descending ranking leaves it descending, one longer,
/// and holding what it held.
pub proof fn lemma_insert_keeps_order(sorted: Seq<EntryModel>, e: EntryModel)
    requires
        descending(sorted),
    ensures
        descending(insert_ranked(sorted, e)),
        insert_ranked(sorted, e).len() == sorted.len() + 1,
        insert_ranked(sorted, e).to_multiset() == sorted.to_multiset().insert(e),
    decreases sorted.len(),
{
    broadcast use vstd::seq_lib::group_to_multiset_ensures;

    if sorted.len() == 0 {
        assert(seq![e] =~= Seq::<EntryModel>::empty().push(e));
        assert(sorted =~= Seq::<EntryModel>::empty());
    } else if sorted.last().score >= e.score {
    } else {
        let rest = sorted.drop_last();
        assert(descending(rest));
        lemma_insert_keeps_order(rest, e);
        let inner = insert_ranked(rest, e);
        let out = inner.push(sorted.last());
        assert(sorted =~= rest.push(sorted.last()));
        assert forall|i: int, j: int| 0 <= i < j < out.len() implies out[i].score
            >= out[j].score by {
            if j == out.len() - 1 {
                // every member of `inner` is `e` or a member of `rest`
                assert(inner.to_multiset().count(inner[i]) > 0);
                if inner[i] != e {
                    assert(rest.to_multiset().count(inner[i]) > 0);
                    let k = choose|k: int| 0 <= k < rest.len() && rest[k] == inner[i];
                    assert(sorted[k] == rest[k]);
                    assert(sorted[k].score >= sorted[sorted.len() - 1].score);
                }
            }
        }
    }
}

/// A ranking is descending, as long as its entries, and holds exactly
/// its entries.
pub proof fn lemma_ranked_is_sorted(entries: Seq<EntryModel>)
    ensures
        descending(ranked(entries)),
        ranked(entries).len() == entries.len(),
        ranked(entries).to_multiset() == entries.to_multiset(),
    decreases entries.len(),
{
    broadcast use vstd::seq_lib::group_to_multiset_ensures;

    if entries.len() == 0 {
        assert(entries =~= Seq::<EntryModel>::empty());
    } else {
        lemma_ranked_is_sorted(entries.drop_last());
        lemma_insert_keeps_order(ranked(entries.drop_last()), entries.last());
        assert(entries =~= entries.drop_last().push(entries.last()));
    }
}

/// The candidates of a sequence as mathematical values.
pub open spec fn entry_models(candidates: Seq<EntryCandidate>) -> Seq<EntryModel> {
    Seq::new(candidates.len(), |i: int| candidates[i]@)
}

/// The rejections of a sequence as mathematical values.
pub open spec fn rejection_models(rejected: Seq<RejectedSignal>) -> Seq<RejectionModel> {
    Seq::new(rejected.len(), |i: int| rejected[i]@)
}

/// Puts `e` into the ranking `sorted`.
pub fn insert_candidate(sorted: &mut Vec<EntryCandidate>, e: EntryCandidate)
    ensures
        entry_models(final(sorted)@) == insert_ranked(entry_models(old(sorted)@), e@),
        final(sorted)@.len() == old(sorted)@.len() + 1,
        forall|i: int|
            0 <= i < final(sorted)@.len() ==> (#[trigger] final(sorted)@[i] == e || exists|k: int|
                0 <= k < old(sorted)@.len() && old(sorted)@[k] == final(sorted)@[i]),
{
    let mut pos: usize = sorted.len();
    while pos > 0 && sorted[pos - 1].score < e.score
        invariant
            pos <= sorted.len(),
            sorted@ == old(sorted)@,
            forall|k: int| pos <= k < sorted@.len() ==> sorted@[k].score < e.score,
        decreases pos,
    {
        pos -= 1;
    }
    proof {
        let models = entry_models(sorted@);
        lemma_insert_at(models, e@, pos as int);
    }
    let ghost before = sorted@;
    let ghost model = e@;
    sorted.insert(pos, e);
    assert(entry_models(sorted@) =~= entry_models(before).take(pos as int).push(model)
        + entry_models(before).skip(pos as int));
    assert forall|i: int| 0 <= i < sorted@.len() implies (#[trigger] sorted@[i] == e || exists|
        k: int,
    |
        0 <= k < before.len() && before[k] == sorted@[i]) by {
        if i < pos {
            assert(before[i] == sorted@[i]);
        } else if i > pos {
            assert(before[i - 1] == sorted@[i]);
        }
    }
}

/// Files an assessment: an exit among the intents, an entry into the
/// ranking, a rejection among the rejections.
fn file_assessment(
    a: Assessment,
    ticker: &String,
    intents: &mut Vec<OrderIntent>,
    candidates: &mut Vec<EntryCandidate>,
    rejected: &mut Vec<RejectedSignal>,
)
    requires
        intent_of(a@) matches Some(i) ==> intent_valid(i),
        forall|k: int| 0 <= k < old(intents)@.len() ==> intent_valid((#[trigger] old(intents)@[k])@),
        forall|k: int|
            0 <= k < old(candidates)@.len() ==> intent_valid(
                (#[trigger] old(candidates)@[k])@.intent,
            ),
    ensures
        crate::types::intent_models(final(intents)@) == (match a@ {
            AssessmentModel::Exit(i) => crate::types::intent_models(old(intents)@).push(i),
            _ => crate::types::intent_models(old(intents)@),
        }),
        entry_models(final(candidates)@) == (match a@ {
            AssessmentModel::Entry(e) => insert_ranked(entry_models(old(candidates)@), e),
            _ => entry_models(old(candidates)@),
        }),
        rejection_models(final(rejected)@) == (match a@ {
            AssessmentModel::Reject(r) => rejection_models(old(rejected)@).push(
                RejectionModel { ticker: ticker@, reason: reject_text(r) },
            ),
            _ => rejection_models(old(rejected)@),
        }),
        forall|k: int|
            0 <= k < final(intents)@.len() ==> intent_valid((#[trigger] final(intents)@[k])@),
        forall|k: int|
            0 <= k < final(candidates)@.len() ==> intent_valid(
                (#[trigger] final(candidates)@[k])@.intent,
            ),
{
    match a {
        Assessment::Skip => {},
        Assessment::Reject(r) => {
            let ghost before = rejection_models(rejected@);
            let entry = RejectedSignal { ticker: ticker.clone(), reason: r.text() };
            let ghost model = entry@;
            rejected.push(entry);
            assert(rejection_models(rejected@) =~= before.push(model));
        },
        Assessment::Exit(intent) => {
            let ghost before = crate::types::intent_models(intents@);
            let ghost model = intent@;
            intents.push(intent);
            assert(crate::types::intent_models(intents@) =~= before.push(model));
        },
        Assessment::Entry(candidate) => {
            let ghost before = candidates@;
            let ghost model = candidate@;
            insert_candidate(candidates, candidate);
            assert forall|k: int| 0 <= k < candidates@.len() implies intent_valid(
                (#[trigger] candidates@[k])@.intent,
            ) by {
                if candidates@[k]@ != model {
                    let w = choose|w: int| 0 <= w < before.len() && before[w] == candidates@[k];
                    assert(intent_valid(before[w]@.intent));
                }
            }
        },
    }
}

/// The market at position `i` is listed again further on.
pub open spec fn listed_later(markets: Seq<MarketInfo>, i: int) -> bool {
    exists|j: int| i < j < markets.len() && (#[trigger] markets[j]).ticker@ == markets[i].ticker@
}

/// Of the first `k` markets, those that are not listed again further on,
/// in order.
pub open spec fn last_listings_upto(markets: Seq<MarketInfo>, k: int) -> Seq<MarketInfo>
    decreases k,
{
    if k <= 0 {
        Seq::empty()
    } else {
        let earlier = last_listings_upto(markets, k - 1);
        if listed_later(markets, k - 1) {
            earlier
        } else {
            earlier.push(markets[k - 1])
        }
    }
}

/// The markets as a map from ticker to market would hold them: where a
/// ticker is listed more than once, its last listing stands for it.
pub open spec fn last_listings(markets: Seq<MarketInfo>) -> Seq<MarketInfo> {
    last_listings_upto(markets, markets.len() as int)
}

/// No market among the first `k` listings that are kept shares its
/// ticker with a later listing or with another one that is kept.
pub proof fn lemma_last_listings_upto(markets: Seq<MarketInfo>, k: int)
    requires
        0 <= k <= markets.len(),
    ensures
        forall|a: int, j: int|
            0 <= a < last_listings_upto(markets, k).len() && k <= j < markets.len() ==> (
            #[trigger] last_listings_upto(markets, k)[a]).ticker@ != (#[trigger] markets[j]).ticker@,
        forall|a: int, b: int|
            0 <= a < b < last_listings_upto(markets, k).len() ==> (#[trigger] last_listings_upto(
                markets,
                k,
            )[a]).ticker@ != (#[trigger] last_listings_upto(markets, k)[b]).ticker@,
    decreases k,
{
    if k > 0 {
        lemma_last_listings_upto(markets, k - 1);
        let earlier = last_listings_upto(markets, k - 1);
        let now = last_listings_upto(markets, k);
        if !listed_later(markets, k - 1) {
            assert forall|a: int, j: int| 0 <= a < now.len() && k <= j < markets.len() implies (
            #[trigger] now[a]).ticker@ != (#[trigger] markets[j]).ticker@ by {
                if a < earlier.len() {
                    assert(now[a] == earlier[a]);
                } else {
                    assert(now[a] == markets[k - 1]);
                }
            }
            assert forall|a: int, b: int| 0 <= a < b < now.len() implies (#[trigger] now[a]).ticker@
                != (#[trigger] now[b]).ticker@ by {
                assert(now[a] == earlier[a]);
                if b < earlier.len() {
                    assert(now[b] == earlier[b]);
                } else {
                    assert(now[b] == markets[k - 1]);
                }
            }
        }
    }
}

/// Every ticker is assessed once: no two of the markets that an
/// evaluation looks at share a ticker.
pub proof fn lemma_one_listing_per_ticker(markets: Seq<MarketInfo>)
    ensures
        forall|a: int, b: int|
            0 <= a < b < last_listings(markets).len() ==> (#[trigger] last_listings(
                markets,
            )[a]).ticker@ != (#[trigger] last_listings(markets)[b]).ticker@,
{
    lemma_last_listings_upto(markets, markets.len() as int);
}

fn is_listed_later(markets: &[MarketInfo], i: usize) -> (r: bool)
    requires
        i < markets.len(),
    ensures
        r == listed_later(markets@, i as int),
{
    let mut j: usize = i + 1;
    while j < markets.len()
        invariant
            i < j <= markets.len(),
            forall|k: int| i < k < j ==> (#[trigger] markets@[k]).ticker@ != markets@[i as int].ticker@,
        decreases markets.len() - j,
    {
        if same_text(markets[j].ticker.as_str(), markets[i].ticker.as_str()) {
            return true;
        }
        j += 1;
    }
    false
}

/// The markets with each ticker once: where a ticker is listed more than
/// once, only its last listing is kept.
pub fn last_listed(markets: &[MarketInfo]) -> (kept: Vec<MarketInfo>)
    ensures
        kept@ == last_listings(markets@),
{
    let mut kept: Vec<MarketInfo> = Vec::new();
    let mut i: usize = 0;
    while i < markets.len()
        invariant
            i <= markets.len(),
            kept@ == last_listings_upto(markets@, i as int),
        decreases markets.len() - i,
    {
        if !is_listed_later(markets, i) {
            kept.push(markets[i].duplicate());
        }
        i += 1;
    }
    kept
}

/// What an evaluation is given.
pub struct Context {
    pub rules: Rules,
    pub book: Map<Seq<char>, PriceEntry>,
    pub cache: Map<Seq<char>, ForecastEntry>,
    pub positions: Seq<Position>,
    pub now: Moment,
}

/// The assessment of `market` in the context of an evaluation: with the
/// quote and the signal stored under its ticker and the position held in
/// it.
#[verifier::opaque]
pub open spec fn market_assessment(ctx: Context, market: MarketInfo) -> AssessmentModel {
    assessment(
        ctx.rules,
        facts_of(
            market,
            lookup(ctx.book, market.ticker@),
            lookup(ctx.cache, market.ticker@),
            held(ctx.positions, market.ticker@),
        ),
        ctx.now,
    )
}

/// The exits among the markets, in the order of the markets.
pub open spec fn exits_among(ctx: Context, markets: Seq<MarketInfo>) -> Seq<IntentModel>
    decreases markets.len(),
{
    if markets.len() == 0 {
        Seq::empty()
    } else {
        match market_assessment(ctx, markets.last()) {
            AssessmentModel::Exit(i) => exits_among(ctx, markets.drop_last()).push(i),
            _ => exits_among(ctx, markets.drop_last()),
        }
    }
}

/// The entries among the markets, in the order of the markets.
pub open spec fn entries_among(ctx: Context, markets: Seq<MarketInfo>) -> Seq<EntryModel>
    decreases markets.len(),
{
    if markets.len() == 0 {
        Seq::empty()
    } else {
        match market_assessment(ctx, markets.last()) {
            AssessmentModel::Entry(e) => entries_among(ctx, markets.drop_last()).push(e),
            _ => entries_among(ctx, markets.drop_last()),
        }
    }
}

/// The rejections among the markets, in the order of the markets.
pub open spec fn rejections_among(ctx: Context, markets: Seq<MarketInfo>) -> Seq<RejectionModel>
    decreases markets.len(),
{
    if markets.len() == 0 {
        Seq::empty()
    } else {
        match market_assessment(ctx, markets.last()) {
            AssessmentModel::Reject(r) => rejections_among(ctx, markets.drop_last()).push(
                RejectionModel { ticker: markets.last().ticker@, reason: reject_text(r) },
            ),
            _ => rejections_among(ctx, markets.drop_last()),
        }
    }
}

/// The intents of a sequence of entries.
pub open spec fn entry_intents(entries: Seq<EntryModel>) -> Seq<IntentModel> {
    Seq::new(entries.len(), |i: int| entries[i].intent)
}

/// The intents of an evaluation: every exit, in the order of the
/// markets, then the entries ranked by score and cut to the cap.
pub open spec fn evaluation_intents(ctx: Context, markets: Seq<MarketInfo>) -> Seq<IntentModel> {
    exits_among(ctx, markets) + entry_intents(
        capped(ranked(entries_among(ctx, markets)), ctx.rules.strategy.max_trades_per_run as nat),
    )
}

/// The intents of an evaluation of markets as they are listed: a ticker
/// that is listed more than once is assessed once, by its last listing.
pub open spec fn listed_intents(ctx: Context, markets: Seq<MarketInfo>) -> Seq<IntentModel> {
    evaluation_intents(ctx, last_listings(markets))
}

/// The rejections of an evaluation of markets as they are listed.
pub open spec fn listed_rejections(ctx: Context, markets: Seq<MarketInfo>) -> Seq<RejectionModel> {
    rejections_among(ctx, last_listings(markets))
}

impl StrategyEngine {
    /// The context of an evaluation by this engine.
    pub open spec fn context(
        &self,
        prices: &QuoteBook,
        forecasts: &ForecastCache,
        positions: Seq<Position>,
        now: Moment,
    ) -> Context {
        Context { rules: self.rules(), book: prices@, cache: forecasts@, positions, now }
    }

    /// Assesses `market` with the quote and the signal stored under its
    /// ticker and the position held in it.
    pub fn assess_in_context(
        &self,
        market: &MarketInfo,
        prices: &QuoteBook,
        forecasts: &ForecastCache,
        positions: &[Position],
        now: Moment,
    ) -> (a: Assessment)
        ensures
            a@ == market_assessment(self.context(prices, forecasts, positions@, now), *market),
            intent_of(a@) matches Some(i) ==> intent_valid(i),
    {
        reveal(market_assessment);
        let price = prices.get(market.ticker.as_str());
        let signal = forecasts.get(market.ticker.as_str());
        let position = held_position(positions, market.ticker.as_str());
        self.assess_market(market, price, signal, position, now)
    }

    /// Evaluates every market and returns the intents alone.
    pub fn evaluate(
        &self,
        markets: &[MarketInfo],
        prices: &QuoteBook,
        forecasts: &ForecastCache,
        positions: &[Position],
        now: Moment,
    ) -> (intents: Vec<OrderIntent>)
        ensures
            crate::types::intent_models(intents@) == listed_intents(
                self.context(prices, forecasts, positions@, now),
                markets@,
            ),
            forall|i: int| 0 <= i < intents@.len() ==> intent_valid((#[trigger] intents@[i])@),
    {
        self.evaluate_with_diagnostics(markets, prices, forecasts, positions, now).intents
    }

    /// Evaluates every market: the intents to act on, and for every market
    /// passed over the reason. Each ticker is assessed once: where a
    /// ticker is listed more than once its last listing counts, and where
    /// it has more than one position the last one counts.
    pub fn evaluate_with_diagnostics(
        &self,
        markets: &[MarketInfo],
        prices: &QuoteBook,
        forecasts: &ForecastCache,
        positions: &[Position],
        now: Moment,
    ) -> (result: EvaluationResult)
        ensures
            crate::types::intent_models(result.intents@) == listed_intents(
                self.context(prices, forecasts, positions@, now),
                markets@,
            ),
            rejection_models(result.rejected@) == listed_rejections(
                self.context(prices, forecasts, positions@, now),
                markets@,
            ),
            forall|i: int|
                0 <= i < result.intents@.len() ==> intent_valid((#[trigger] result.intents@[i])@),
    {
        let listed = last_listed(markets);
        self.evaluate_listed(listed.as_slice(), prices, forecasts, positions, now)
    }

    /// Evaluates the markets one by one, in order.
    fn evaluate_listed(
        &self,
        markets: &[MarketInfo],
        prices: &QuoteBook,
        forecasts: &ForecastCache,
        positions: &[Position],
        now: Moment,
    ) -> (result: EvaluationResult)
        ensures
            crate::types::intent_models(result.intents@) == evaluation_intents(
                self.context(prices, forecasts, positions@, now),
                markets@,
            ),
            rejection_models(result.rejected@) == rejections_among(
                self.context(prices, forecasts, positions@, now),
                markets@,
            ),
            forall|i: int|
                0 <= i < result.intents@.len() ==> intent_valid((#[trigger] result.intents@[i])@),
    {
        let ghost ctx = self.context(prices, forecasts, positions@, now);
        let mut rejected: Vec<RejectedSignal> = Vec::new();
        let mut intents: Vec<OrderIntent> = Vec::new();
        let mut candidates: Vec<EntryCandidate> = Vec::new();
        let mut i: usize = 0;
        assert(crate::types::intent_models(intents@) =~= Seq::<IntentModel>::empty());
        assert(entry_models(candidates@) =~= Seq::<EntryModel>::empty());
        assert(rejection_models(rejected@) =~= Seq::<RejectionModel>::empty());
        while i < markets.len()
            invariant
                i <= markets.len(),
                ctx == self.context(prices, forecasts, positions@, now),
                crate::types::intent_models(intents@) == exits_among(ctx, markets@.take(i as int)),
                entry_models(candidates@) == ranked(entries_among(ctx, markets@.take(i as int))),
                rejection_models(rejected@) == rejections_among(ctx, markets@.take(i as int)),
                forall|k: int| 0 <= k < intents@.len() ==> intent_valid((#[trigger] intents@[k])@),
                forall|k: int|
                    0 <= k < candidates@.len() ==> intent_valid((#[trigger] candidates@[k])@.intent),
            decreases markets.len() - i,
        {
            let market = &markets[i];
            proof {
                let next = markets@.take(i + 1);
                assert(next.drop_last() =~= markets@.take(i as int));
                assert(next.last() == markets@[i as int]);
            }
            let a = self.assess_in_context(market, prices, forecasts, positions, now);
            proof {
                let earlier = entries_among(ctx, markets@.take(i as int));
                match a@ {
                    AssessmentModel::Entry(e) => {
                        assert(earlier.push(e).drop_last() =~= earlier);
                    },
                    _ => {},
                }
            }
            file_assessment(a, &market.ticker, &mut intents, &mut candidates, &mut rejected);
            i += 1;
        }
        assert(markets@.take(markets@.len() as int) =~= markets@);
        let cap: usize = self.config.strategy.max_trades_per_run;
        let keep: usize = if cap > 0 && candidates.len() > cap {
            cap
        } else {
            candidates.len()
        };
        let ghost exits = crate::types::intent_models(intents@);
        let ghost chosen = capped(entry_models(candidates@), cap as nat);
        assert(chosen.len() == keep);
        let mut k: usize = 0;
        while k < keep
            invariant
                k <= keep <= candidates.len(),
                chosen == capped(entry_models(candidates@), cap as nat),
                chosen.len() == keep,
                crate::types::intent_models(intents@) == exits + entry_intents(chosen).take(k as int),
                forall|j: int| 0 <= j < intents@.len() ==> intent_valid((#[trigger] intents@[j])@),
                forall|j: int|
                    0 <= j < candidates@.len() ==> intent_valid((#[trigger] candidates@[j])@.intent),
            decreases keep - k,
        {
            let ghost before = crate::types::intent_models(intents@);
            let copy = candidates[k].intent.duplicate();
            let ghost model = copy@;
            assert(chosen[k as int] == candidates@[k as int]@);
            assert(model == entry_intents(chosen)[k as int]);
            intents.push(copy);
            assert(crate::types::intent_models(intents@) =~= before.push(model));
            assert(entry_intents(chosen).take(k + 1) =~= entry_intents(chosen).take(k as int).push(
                model,
            ));
            assert(exits + entry_intents(chosen).take(k as int).push(model) =~= (exits
                + entry_intents(chosen).take(k as int)).push(model));
            k += 1;
        }
        assert(entry_intents(chosen).take(keep as int) =~= entry_intents(chosen));
        EvaluationResult { intents, rejected }
    }
}

/// The city that a ticker names when no configured prefix occurs in it.
pub open spec fn fallback_city(upper_ticker: Seq<char>) -> Option<Seq<char>> {
    if contains_text(upper_ticker, "NYC"@) || contains_text(upper_ticker, "NEWYORK"@) {
        Some("New York City"@)
    } else if contains_text(upper_ticker, "CHI"@) || contains_text(upper_ticker, "CHICAGO"@) {
        Some("Chicago"@)
    } else if contains_text(upper_ticker, "SEA"@) || contains_text(upper_ticker, "SEATTLE"@) {
        Some("Seattle"@)
    } else if contains_text(upper_ticker, "ATL"@) || contains_text(upper_ticker, "ATLANTA"@) {
        Some("Atlanta"@)
    } else if contains_text(upper_ticker, "DAL"@) || contains_text(upper_ticker, "DALLAS"@) {
        Some("Dallas"@)
    } else {
        None
    }
}

/// The name of the first city, from position `from` on, whose prefix
/// occurs in the ticker; failing that, the fallback.
pub open spec fn city_from(
    upper_ticker: Seq<char>,
    upper_prefixes: Seq<Seq<char>>,
    names: Seq<Seq<char>>,
    from: int,
) -> Option<Seq<char>>
    decreases upper_prefixes.len() - from,
{
    if from < 0 || from >= upper_prefixes.len() || from >= names.len() {
        fallback_city(upper_ticker)
    } else if contains_text(upper_ticker, upper_prefixes[from]) {
        Some(names[from])
    } else {
        city_from(upper_ticker, upper_prefixes, names, from + 1)
    }
}

/// The prefixes of the cities in upper case.
pub open spec fn upper_prefixes(cities: Seq<crate::config::CityConfig>) -> Seq<Seq<char>> {
    Seq::new(cities.len(), |i: int| crate::text::uppercase(cities[i].series_prefix@))
}

/// The names of the cities.
pub open spec fn city_names(cities: Seq<crate::config::CityConfig>) -> Seq<Seq<char>> {
    Seq::new(cities.len(), |i: int| cities[i].name@)
}

/// The city whose forecast prices a ticker, given the ticker and the
/// prefixes in upper case.
pub fn city_for_upper(upper_ticker: &str, upper_prefixes: &Vec<String>, names: &Vec<String>) -> (city:
    Option<String>)
    requires
        upper_prefixes.len() == names.len(),
    ensures
        crate::types::optional_text(city) == city_from(
            upper_ticker@,
            crate::text::texts(upper_prefixes@),
            crate::text::texts(names@),
            0,
        ),
{
    let hay = crate::text::chars_of(upper_ticker);
    let mut i: usize = 0;
    while i < upper_prefixes.len()
        invariant
            i <= upper_prefixes.len(),
            upper_prefixes.len() == names.len(),
            hay@ == upper_ticker@,
            city_from(
                upper_ticker@,
                crate::text::texts(upper_prefixes@),
                crate::text::texts(names@),
                0,
            ) == city_from(
                upper_ticker@,
                crate::text::texts(upper_prefixes@),
                crate::text::texts(names@),
                i as int,
            ),
        decreases upper_prefixes.len() - i,
    {
        let needle = crate::text::chars_of(upper_prefixes[i].as_str());
        if crate::text::contains_chars(&hay, &needle) {
            return Some(names[i].clone());
        }
        i += 1;
    }
    if crate::text::contains_chars(&hay, &crate::text::chars_of("NYC"))
        || crate::text::contains_chars(&hay, &crate::text::chars_of("NEWYORK")) {
        Some(String::from_str("New York City"))
    } else if crate::text::contains_chars(&hay, &crate::text::chars_of("CHI"))
        || crate::text::contains_chars(&hay, &crate::text::chars_of("CHICAGO")) {
        Some(String::from_str("Chicago"))
    } else if crate::text::contains_chars(&hay, &crate::text::chars_of("SEA"))
        || crate::text::contains_chars(&hay, &crate::text::chars_of("SEATTLE")) {
        Some(String::from_str("Seattle"))
    } else if crate::text::contains_chars(&hay, &crate::text::chars_of("ATL"))
        || crate::text::contains_chars(&hay, &crate::text::chars_of("ATLANTA")) {
        Some(String::from_str("Atlanta"))
    } else if crate::text::contains_chars(&hay, &crate::text::chars_of("DAL"))
        || crate::text::contains_chars(&hay, &crate::text::chars_of("DALLAS")) {
        Some(String::from_str("Dallas"))
    } else {
        None
    }
}

impl StrategyEngine {
    /// The city whose forecast prices `ticker`: the first configured city
    /// whose prefix occurs in the ticker, capitals and small letters alike,
    /// or else a city that the ticker names by a well-known abbreviation.
    pub fn ticker_to_city(&self, ticker: &str) -> (city: Option<String>)
        ensures
            crate::types::optional_text(city) == city_from(
                crate::text::uppercase(ticker@),
                upper_prefixes(self.config.cities@),
                city_names(self.config.cities@),
                0,
            ),
    {
        let upper = crate::text::to_uppercase(ticker);
        let mut prefixes: Vec<String> = Vec::new();
        let mut names: Vec<String> = Vec::new();
        let mut i: usize = 0;
        while i < self.config.cities.len()
            invariant
                i <= self.config.cities.len(),
                prefixes@.len() == i,
                names@.len() == i,
                forall|k: int|
                    0 <= k < i ==> (#[trigger] prefixes@[k])@ == crate::text::uppercase(
                        self.config.cities@[k].series_prefix@,
                    ),
                forall|k: int| 0 <= k < i ==> (#[trigger] names@[k])@ == self.config.cities@[k].name@,
            decreases self.config.cities.len() - i,
        {
            prefixes.push(crate::text::to_uppercase(self.config.cities[i].series_prefix.as_str()));
            names.push(self.config.cities[i].name.clone());
            i += 1;
        }
        assert(crate::text::texts(prefixes@) =~= upper_prefixes(self.config.cities@));
        assert(crate::text::texts(names@) =~= city_names(self.config.cities@));
        city_for_upper(upper.as_str(), &prefixes, &names)
    }
}

} // verus!
