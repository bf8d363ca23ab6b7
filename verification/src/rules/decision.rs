//! The decision engine of the rules strategy: from a deterministic
//! signal, and research where there is any, to an approved trade or a
//! typed veto.
//!
//! Probabilities are whole millionths; edges are whole millionths of a
//! cent.

use crate::fees::{fee_cents, FeeSchedule};
use crate::rules::research::{risk_level_name, risk_rank, ResearchResponse, RiskLevel};
use crate::text::{
    decimal, fixed2, fixed3, push_decimal, push_fixed2, push_fixed3, push_text, round_div,
    rounded_div, texts,
};
use crate::types::{valid_order_price, Action, Side};
use crate::weather::sizing::clamp;
use vstd::prelude::*;
use vstd::string::StringExecFns;

verus! {

/// A trade that the engine approves.
#[derive(Clone, Debug)]
pub struct TradeIntent {
    pub ticker: String,
    pub side: Side,
    pub action: Action,
    pub price_cents: i64,
    pub size_contracts: i64,
    /// Edge after fees and penalties, in millionths of a cent.
    pub edge_micro_cents: i64,
    pub confidence_ppm: i64,
    pub reasons: Vec<String>,
}

/// Why the engine declines a market.
#[derive(Clone, Debug)]
pub struct VetoReason {
    pub ticker: String,
    pub reason: String,
}

/// The engine's decision on one market.
#[derive(Clone, Debug)]
pub enum Decision {
    Approve(TradeIntent),
    Veto(VetoReason),
}

/// The deterministic signal for the side that looks best.
#[derive(Clone, Debug)]
pub struct DeterministicInput {
    pub ticker: String,
    pub target_side: Side,
    pub target_price_cents: i64,
    pub p_det_target_ppm: i64,
    pub best_edge_micro_cents: i64,
}

/// A trade intent as a mathematical value.
pub struct TradeModel {
    pub ticker: Seq<char>,
    pub side: Side,
    pub action: Action,
    pub price_cents: int,
    pub size_contracts: int,
    pub edge_micro_cents: int,
    pub confidence_ppm: int,
    pub reasons: Seq<Seq<char>>,
}

/// A decision as a mathematical value.
pub enum DecisionModel {
    Approve(TradeModel),
    Veto { ticker: Seq<char>, reason: Seq<char> },
}

impl View for TradeIntent {
    type V = TradeModel;

    open spec fn view(&self) -> TradeModel {
        TradeModel {
            ticker: self.ticker@,
            side: self.side,
            action: self.action,
            price_cents: self.price_cents as int,
            size_contracts: self.size_contracts as int,
            edge_micro_cents: self.edge_micro_cents as int,
            confidence_ppm: self.confidence_ppm as int,
            reasons: texts(self.reasons@),
        }
    }
}

impl View for Decision {
    type V = DecisionModel;

    open spec fn view(&self) -> DecisionModel {
        match self {
            Decision::Approve(t) => DecisionModel::Approve(t@),
            Decision::Veto(v) => DecisionModel::Veto { ticker: v.ticker@, reason: v.reason@ },
        }
    }
}

/// The settings of the engine.
#[derive(Clone, Copy, Debug, PartialEq, Eq, Structural)]
pub struct DecisionEngine {
    fee_schedule: FeeSchedule,
    min_edge_cents: i64,
    max_position_size: i64,
    live_min_size_contracts: i64,
    kelly_fraction_ppm: i64,
    max_uncertainty_ppm: i64,
    rules_risk_veto_level: RiskLevel,
}

/// The settings of the engine as a mathematical value.
pub struct EngineModel {
    pub coeff_bp: int,
    pub min_edge_cents: int,
    pub max_position_size: int,
    pub live_min_size_contracts: int,
    pub kelly_fraction_ppm: int,
    pub max_uncertainty_ppm: int,
    pub rules_risk_veto_level: RiskLevel,
}

/// The signal is one the engine can price: a price from 1 to 99 cents
/// and a probability between zero and one.
pub open spec fn input_priceable(price_cents: int, p_ppm: int) -> bool {
    valid_order_price(price_cents) && 0 <= p_ppm <= 1_000_000
}

/// The edge of buying at `price_cents` with probability `p_ppm`, after
/// the taker fee, in millionths of a cent.
pub open spec fn edge_after_fees_micro(coeff_bp: int, p_ppm: int, price_cents: int) -> int {
    100 * p_ppm - 1_000_000 * price_cents - 1_000_000 * fee_cents(coeff_bp, 1, price_cents)
}

/// The cents that a level of rule risk takes off the edge.
pub open spec fn risk_penalty_cents(level: RiskLevel) -> int {
    match level {
        RiskLevel::Low => 0,
        RiskLevel::Medium => 1,
        RiskLevel::High => 3,
        RiskLevel::Critical => 5,
    }
}

/// The cents that full uncertainty takes off the edge.
pub const UNCERTAINTY_PENALTY_CENTS: i64 = 5;

/// The edge after the penalties for rule risk and for uncertainty, in
/// millionths of a cent.
pub open spec fn penalized_edge_micro(base_micro: int, level: RiskLevel, uncertainty_ppm: int) -> int {
    base_micro - 1_000_000 * risk_penalty_cents(level) - 5 * uncertainty_ppm
}

/// `a / b` rounded up, for a dividend that is not negative.
pub open spec fn ceil_div(a: int, b: int) -> int {
    (a + b - 1) / b
}

/// The size in contracts: the Kelly fraction `(p - price) / (1 - price)`,
/// never negative, scaled by the configured share, held to at most one,
/// times the largest position, rounded up.
pub open spec fn kelly_position(kelly_ppm: int, p_ppm: int, price_cents: int, max_position: int) -> int {
    let price_ppm = clamp(price_cents * 10_000, 10_000, 990_000);
    let denominator = 1_000_000 * (1_000_000 - price_ppm);
    let excess = if p_ppm > price_ppm {
        p_ppm - price_ppm
    } else {
        0
    };
    let share = clamp(kelly_ppm * excess, 0, denominator);
    if max_position <= 0 {
        0
    } else {
        clamp(ceil_div(share * max_position, denominator), 0, max_position)
    }
}

/// The smallest size that may be approved: the configured minimum, and
/// never less than one contract.
pub open spec fn least_size(live_min: int) -> int {
    if live_min < 1 {
        1
    } else {
        live_min
    }
}

/// The text that goes with an approval after research.
pub open spec fn research_reason(penalized: int, base: int, uncertainty_penalty: int, risk_penalty: int) -> Seq<
    char,
> {
    "edge_penalized="@ + fixed2(rounded_div(penalized, 10_000)) + " base="@ + fixed2(
        rounded_div(base, 10_000),
    ) + " uncertainty_penalty="@ + fixed2(rounded_div(uncertainty_penalty, 10_000))
        + " risk_penalty="@ + fixed2(100 * risk_penalty)
}

/// The text of a veto for uncertainty.
pub open spec fn uncertainty_veto_text(uncertainty_ppm: int, max_ppm: int) -> Seq<char> {
    "High uncertainty: "@ + fixed3(rounded_div(uncertainty_ppm, 1000)) + " > "@ + fixed3(
        rounded_div(max_ppm, 1000),
    )
}

/// The text of a veto for rule risk.
pub open spec fn risk_veto_text(level: RiskLevel, veto_level: RiskLevel) -> Seq<char> {
    "Rules-risk veto: "@ + risk_level_name(level) + " >= "@ + risk_level_name(veto_level)
}

/// The text of a veto for a thin edge.
pub open spec fn edge_veto_text(penalized: int, min_edge_cents: int) -> Seq<char> {
    "Edge below threshold after penalties: "@ + fixed2(rounded_div(penalized, 10_000)) + " < "@
        + decimal(min_edge_cents)
}

/// The text of a veto for a small size.
pub open spec fn size_veto_text(size: int, least: int) -> Seq<char> {
    "Size below live minimum: "@ + decimal(size) + " < "@ + decimal(least)
}

/// The text of a veto for a thin edge without research.
pub open spec fn fallback_edge_text(edge: int, min_edge_cents: int, why: Seq<char>) -> Seq<char> {
    "Deterministic fallback edge below threshold: "@ + fixed2(rounded_div(edge, 10_000)) + " < "@
        + decimal(min_edge_cents) + " ("@ + why + ")"@
}

/// The text of a veto for a small size without research.
pub open spec fn fallback_size_text(size: int, least: int) -> Seq<char> {
    "Deterministic fallback size below minimum: "@ + decimal(size) + " < "@ + decimal(least)
}

/// The decision on a signal with research.
///
/// The vetoes, in order: a signal that cannot be priced; uncertainty
/// above the maximum; rule risk at or above the veto level; an edge after
/// penalties below the minimum; a size below the minimum.
pub open spec fn research_decision(
    e: EngineModel,
    ticker: Seq<char>,
    side: Side,
    price_cents: int,
    p_ppm: int,
    level: RiskLevel,
    confidence_ppm: int,
    uncertainty_ppm: int,
) -> DecisionModel {
    let base = edge_after_fees_micro(e.coeff_bp, p_ppm, price_cents);
    let penalized = penalized_edge_micro(base, level, uncertainty_ppm);
    let size = kelly_position(e.kelly_fraction_ppm, p_ppm, price_cents, e.max_position_size);
    if !input_priceable(price_cents, p_ppm) || !(0 <= uncertainty_ppm <= 1_000_000) {
        DecisionModel::Veto { ticker, reason: "Invalid signal: price or probability out of range"@ }
    } else if uncertainty_ppm > e.max_uncertainty_ppm {
        DecisionModel::Veto {
            ticker,
            reason: uncertainty_veto_text(uncertainty_ppm, e.max_uncertainty_ppm),
        }
    } else if risk_rank(level) >= risk_rank(e.rules_risk_veto_level) {
        DecisionModel::Veto { ticker, reason: risk_veto_text(level, e.rules_risk_veto_level) }
    } else if penalized < 1_000_000 * e.min_edge_cents {
        DecisionModel::Veto { ticker, reason: edge_veto_text(penalized, e.min_edge_cents) }
    } else if size < least_size(e.live_min_size_contracts) {
        DecisionModel::Veto {
            ticker,
            reason: size_veto_text(size, least_size(e.live_min_size_contracts)),
        }
    } else {
        DecisionModel::Approve(
            TradeModel {
                ticker,
                side,
                action: Action::Buy,
                price_cents,
                size_contracts: size,
                edge_micro_cents: penalized,
                confidence_ppm,
                reasons: seq![
                    research_reason(
                        penalized,
                        base,
                        5 * uncertainty_ppm,
                        risk_penalty_cents(level),
                    ),
                ],
            },
        )
    }
}

/// The decision on a signal without research, for the stated reason.
pub open spec fn fallback_decision(
    e: EngineModel,
    ticker: Seq<char>,
    side: Side,
    price_cents: int,
    p_ppm: int,
    why: Seq<char>,
) -> DecisionModel {
    let edge = edge_after_fees_micro(e.coeff_bp, p_ppm, price_cents);
    let size = kelly_position(e.kelly_fraction_ppm, p_ppm, price_cents, e.max_position_size);
    if !input_priceable(price_cents, p_ppm) {
        DecisionModel::Veto { ticker, reason: "Invalid signal: price or probability out of range"@ }
    } else if edge < 1_000_000 * e.min_edge_cents {
        DecisionModel::Veto { ticker, reason: fallback_edge_text(edge, e.min_edge_cents, why) }
    } else if size < least_size(e.live_min_size_contracts) {
        DecisionModel::Veto {
            ticker,
            reason: fallback_size_text(size, least_size(e.live_min_size_contracts)),
        }
    } else {
        DecisionModel::Approve(
            TradeModel {
                ticker,
                side,
                action: Action::Buy,
                price_cents,
                size_contracts: size,
                edge_micro_cents: edge,
                confidence_ppm: 500_000,
                reasons: seq!["deterministic_fallback: "@ + why],
            },
        )
    }
}

/// Every approval carries a price from 1 to 99 cents, at least one
/// contract and at least the configured minimum size, and an edge after
/// fees and penalties of at least the minimum edge.
pub proof fn lemma_approval_sound(
    e: EngineModel,
    ticker: Seq<char>,
    side: Side,
    price_cents: int,
    p_ppm: int,
    level: RiskLevel,
    confidence_ppm: int,
    uncertainty_ppm: int,
    why: Seq<char>,
)
    ensures
        research_decision(
            e,
            ticker,
            side,
            price_cents,
            p_ppm,
            level,
            confidence_ppm,
            uncertainty_ppm,
        ) matches DecisionModel::Approve(t) ==> {
            &&& valid_order_price(t.price_cents)
            &&& t.size_contracts >= 1
            &&& t.size_contracts >= e.live_min_size_contracts
            &&& t.edge_micro_cents >= 1_000_000 * e.min_edge_cents
            &&& risk_rank(level) < risk_rank(e.rules_risk_veto_level)
            &&& uncertainty_ppm <= e.max_uncertainty_ppm
        },
        fallback_decision(e, ticker, side, price_cents, p_ppm, why) matches DecisionModel::Approve(
            t,
        ) ==> {
            &&& valid_order_price(t.price_cents)
            &&& t.size_contracts >= 1
            &&& t.size_contracts >= e.live_min_size_contracts
            &&& t.edge_micro_cents >= 1_000_000 * e.min_edge_cents
        },
{
}

fn write_uncertainty_veto(uncertainty_ppm: i64, max_ppm: i64) -> (m: String)
    ensures
        m@ == uncertainty_veto_text(uncertainty_ppm as int, max_ppm as int),
{
    let mut m = String::from_str("High uncertainty: ");
    push_fixed3(&mut m, round_div(uncertainty_ppm as i128, 1000));
    push_text(&mut m, " > ");
    push_fixed3(&mut m, round_div(max_ppm as i128, 1000));
    m
}

fn write_risk_veto(level: RiskLevel, veto_level: RiskLevel) -> (m: String)
    ensures
        m@ == risk_veto_text(level, veto_level),
{
    let mut m = String::from_str("Rules-risk veto: ");
    push_text(&mut m, level.name());
    push_text(&mut m, " >= ");
    push_text(&mut m, veto_level.name());
    m
}

fn write_edge_veto(penalized: i64, min_edge_cents: i64) -> (m: String)
    ensures
        m@ == edge_veto_text(penalized as int, min_edge_cents as int),
{
    let mut m = String::from_str("Edge below threshold after penalties: ");
    push_fixed2(&mut m, round_div(penalized as i128, 10_000));
    push_text(&mut m, " < ");
    push_decimal(&mut m, min_edge_cents as i128);
    m
}

fn write_size_veto(size: i64, least: i64) -> (m: String)
    ensures
        m@ == size_veto_text(size as int, least as int),
{
    let mut m = String::from_str("Size below live minimum: ");
    push_decimal(&mut m, size as i128);
    push_text(&mut m, " < ");
    push_decimal(&mut m, least as i128);
    m
}

fn write_fallback_edge(edge: i64, min_edge_cents: i64, why: &str) -> (m: String)
    ensures
        m@ == fallback_edge_text(edge as int, min_edge_cents as int, why@),
{
    let mut m = String::from_str("Deterministic fallback edge below threshold: ");
    push_fixed2(&mut m, round_div(edge as i128, 10_000));
    push_text(&mut m, " < ");
    push_decimal(&mut m, min_edge_cents as i128);
    push_text(&mut m, " (");
    push_text(&mut m, why);
    push_text(&mut m, ")");
    m
}

fn write_fallback_size(size: i64, least: i64) -> (m: String)
    ensures
        m@ == fallback_size_text(size as int, least as int),
{
    let mut m = String::from_str("Deterministic fallback size below minimum: ");
    push_decimal(&mut m, size as i128);
    push_text(&mut m, " < ");
    push_decimal(&mut m, least as i128);
    m
}

fn write_research_reason(penalized: i64, base: i64, uncertainty_penalty: i64, risk_penalty: i64) -> (reasons:
    Vec<String>)
    requires
        0 <= risk_penalty <= 5,
    ensures
        texts(reasons@) == seq![
            research_reason(
                penalized as int,
                base as int,
                uncertainty_penalty as int,
                risk_penalty as int,
            ),
        ],
{
    let mut reason = String::from_str("edge_penalized=");
    push_fixed2(&mut reason, round_div(penalized as i128, 10_000));
    push_text(&mut reason, " base=");
    push_fixed2(&mut reason, round_div(base as i128, 10_000));
    push_text(&mut reason, " uncertainty_penalty=");
    push_fixed2(&mut reason, round_div(uncertainty_penalty as i128, 10_000));
    push_text(&mut reason, " risk_penalty=");
    push_fixed2(&mut reason, 100 * risk_penalty as i128);
    let mut reasons: Vec<String> = Vec::new();
    let ghost text = reason@;
    reasons.push(reason);
    assert(texts(reasons@) =~= seq![text]);
    reasons
}

fn write_fallback_reason(why: &str) -> (reasons: Vec<String>)
    ensures
        texts(reasons@) == seq!["deterministic_fallback: "@ + why@],
{
    let mut text = String::from_str("deterministic_fallback: ");
    push_text(&mut text, why);
    let mut reasons: Vec<String> = Vec::new();
    let ghost shown = text@;
    reasons.push(text);
    assert(texts(reasons@) =~= seq![shown]);
    reasons
}

fn veto(ticker: &String, reason: String) -> (d: Decision)
    ensures
        d@ == (DecisionModel::Veto { ticker: ticker@, reason: reason@ }),
{
    Decision::Veto(VetoReason { ticker: ticker.clone(), reason })
}

impl View for DecisionEngine {
    type V = EngineModel;

    closed spec fn view(&self) -> EngineModel {
        EngineModel {
            coeff_bp: self.fee_schedule.taker_coeff_bp as int,
            min_edge_cents: self.min_edge_cents as int,
            max_position_size: self.max_position_size as int,
            live_min_size_contracts: self.live_min_size_contracts as int,
            kelly_fraction_ppm: self.kelly_fraction_ppm as int,
            max_uncertainty_ppm: self.max_uncertainty_ppm as int,
            rules_risk_veto_level: self.rules_risk_veto_level,
        }
    }
}

impl DecisionEngine {
    /// An engine with the standard fee schedule.
    pub fn new(
        min_edge_cents: i64,
        max_position_size: i64,
        live_min_size_contracts: i64,
        kelly_fraction_ppm: i64,
        max_uncertainty_ppm: i64,
        rules_risk_veto_level: RiskLevel,
    ) -> (e: DecisionEngine)
        ensures
            e@ == (EngineModel {
                coeff_bp: 700,
                min_edge_cents: min_edge_cents as int,
                max_position_size: max_position_size as int,
                live_min_size_contracts: live_min_size_contracts as int,
                kelly_fraction_ppm: kelly_fraction_ppm as int,
                max_uncertainty_ppm: max_uncertainty_ppm as int,
                rules_risk_veto_level,
            }),
    {
        DecisionEngine {
            fee_schedule: FeeSchedule::default(),
            min_edge_cents,
            max_position_size,
            live_min_size_contracts,
            kelly_fraction_ppm,
            max_uncertainty_ppm,
            rules_risk_veto_level,
        }
    }

    /// The size in contracts for probability `p_hat_ppm` at `price_cents`.
    pub fn size_from_kelly(&self, p_hat_ppm: i64, price_cents: i64) -> (size: i64)
        ensures
            size == kelly_position(
                self@.kelly_fraction_ppm,
                p_hat_ppm as int,
                price_cents as int,
                self@.max_position_size,
            ),
            0 <= size,
    {
        let price_ppm: i128 = if price_cents < 1 {
            10_000
        } else if price_cents > 99 {
            990_000
        } else {
            price_cents as i128 * 10_000
        };
        let denominator: i128 = 1_000_000 * (1_000_000 - price_ppm);
        let excess: i128 = if p_hat_ppm as i128 > price_ppm {
            p_hat_ppm as i128 - price_ppm
        } else {
            0
        };
        let kelly: i128 = self.kelly_fraction_ppm as i128;
        let ghost raw = kelly * excess;
        let share: i128 = if kelly <= 0 || excess <= 0 {
            assert(raw <= 0) by (nonlinear_arith)
                requires
                    raw == kelly * excess,
                    kelly <= 0 || excess <= 0,
                    excess >= 0,
            ;
            0
        } else if kelly >= denominator || excess >= denominator {
            assert(raw >= denominator) by (nonlinear_arith)
                requires
                    raw == kelly * excess,
                    kelly >= 1,
                    excess >= 1,
                    kelly >= denominator || excess >= denominator,
            ;
            denominator
        } else {
            assert(0 < kelly * excess < 1_000_000_000_000 * 1_000_000_000_000) by (nonlinear_arith)
                requires
                    0 < kelly < 1_000_000_000_000,
                    0 < excess < 1_000_000_000_000,
            ;
            let product: i128 = kelly * excess;
            if product > denominator {
                denominator
            } else {
                product
            }
        };
        assert(share == clamp(raw, 0, denominator as int));
        if self.max_position_size <= 0 {
            return 0;
        }
        assert(0 <= share * self.max_position_size <= 1_000_000_000_000 * 0x7fff_ffff_ffff_ffff)
            by (nonlinear_arith)
            requires
                0 <= share <= 1_000_000_000_000,
                0 < self.max_position_size <= 0x7fff_ffff_ffff_ffff,
        ;
        let staked: i128 = share * self.max_position_size as i128;
        let contracts: i128 = (staked + denominator - 1) / denominator;
        if contracts < 0 {
            0
        } else if contracts > self.max_position_size as i128 {
            self.max_position_size
        } else {
            contracts as i64
        }
    }

    fn edge_after_fees(&self, p_ppm: i64, price_cents: i64) -> (edge: i64)
        requires
            input_priceable(price_cents as int, p_ppm as int),
        ensures
            edge == edge_after_fees_micro(self@.coeff_bp, p_ppm as int, price_cents as int),
            -0x1000_0000_0000_0000 < edge <= 100_000_000,
    {
        let fee: i64 = self.fee_schedule.per_contract_taker_fee(price_cents);
        proof {
            crate::fees::lemma_fee_small(self.fee_schedule.taker_coeff_bp as int, price_cents as int);
        }
        100 * p_ppm - 1_000_000 * price_cents - 1_000_000 * fee
    }

    /// Decides on a signal in the light of research.
    pub fn evaluate_with_research(&self, input: &DeterministicInput, research: &ResearchResponse) -> (d:
        Decision)
        ensures
            d@ == research_decision(
                self@,
                input.ticker@,
                input.target_side,
                input.target_price_cents as int,
                input.p_det_target_ppm as int,
                research.risk_of_misresolution,
                research.confidence_ppm as int,
                research.uncertainty_ppm as int,
            ),
            d@ matches DecisionModel::Approve(t) ==> valid_order_price(t.price_cents)
                && t.size_contracts >= 1 && t.edge_micro_cents >= 1_000_000 * self@.min_edge_cents,
    {
        let price = input.target_price_cents;
        let p = input.p_det_target_ppm;
        let uncertainty = research.uncertainty_ppm;
        if price < 1 || price > 99 || p < 0 || p > 1_000_000 || uncertainty < 0 || uncertainty
            > 1_000_000 {
            return veto(
                &input.ticker,
                String::from_str("Invalid signal: price or probability out of range"),
            );
        }
        if uncertainty > self.max_uncertainty_ppm {
            return veto(&input.ticker, write_uncertainty_veto(uncertainty, self.max_uncertainty_ppm));
        }
        let level = research.risk_of_misresolution;
        if level.rank() >= self.rules_risk_veto_level.rank() {
            return veto(&input.ticker, write_risk_veto(level, self.rules_risk_veto_level));
        }
        let base: i64 = self.edge_after_fees(p, price);
        let risk_penalty: i64 = match level {
            RiskLevel::Low => 0,
            RiskLevel::Medium => 1,
            RiskLevel::High => 3,
            RiskLevel::Critical => 5,
        };
        let uncertainty_penalty: i64 = UNCERTAINTY_PENALTY_CENTS * uncertainty;
        let penalized: i64 = base - 1_000_000 * risk_penalty - uncertainty_penalty;
        if (penalized as i128) < 1_000_000 * self.min_edge_cents as i128 {
            return veto(&input.ticker, write_edge_veto(penalized, self.min_edge_cents));
        }
        let size: i64 = self.size_from_kelly(p, price);
        let least: i64 = if self.live_min_size_contracts < 1 {
            1
        } else {
            self.live_min_size_contracts
        };
        if size < least {
            return veto(&input.ticker, write_size_veto(size, least));
        }
        let reasons = write_research_reason(penalized, base, uncertainty_penalty, risk_penalty);
        Decision::Approve(
            TradeIntent {
                ticker: input.ticker.clone(),
                side: input.target_side,
                action: Action::Buy,
                price_cents: price,
                size_contracts: size,
                edge_micro_cents: penalized,
                confidence_ppm: research.confidence_ppm,
                reasons,
            },
        )
    }

    /// Decides on a signal without research; `reason` says why there is
    /// none.
    pub fn evaluate_deterministic(&self, input: &DeterministicInput, reason: &str) -> (d: Decision)
        ensures
            d@ == fallback_decision(
                self@,
                input.ticker@,
                input.target_side,
                input.target_price_cents as int,
                input.p_det_target_ppm as int,
                reason@,
            ),
            d@ matches DecisionModel::Approve(t) ==> valid_order_price(t.price_cents)
                && t.size_contracts >= 1 && t.edge_micro_cents >= 1_000_000 * self@.min_edge_cents,
    {
        let price = input.target_price_cents;
        let p = input.p_det_target_ppm;
        if price < 1 || price > 99 || p < 0 || p > 1_000_000 {
            return veto(
                &input.ticker,
                String::from_str("Invalid signal: price or probability out of range"),
            );
        }
        let edge: i64 = self.edge_after_fees(p, price);
        if (edge as i128) < 1_000_000 * self.min_edge_cents as i128 {
            return veto(&input.ticker, write_fallback_edge(edge, self.min_edge_cents, reason));
        }
        let size: i64 = self.size_from_kelly(p, price);
        let least: i64 = if self.live_min_size_contracts < 1 {
            1
        } else {
            self.live_min_size_contracts
        };
        if size < least {
            return veto(&input.ticker, write_fallback_size(size, least));
        }
        let reasons = write_fallback_reason(reason);
        Decision::Approve(
            TradeIntent {
                ticker: input.ticker.clone(),
                side: input.target_side,
                action: Action::Buy,
                price_cents: price,
                size_contracts: size,
                edge_micro_cents: edge,
                confidence_ppm: 500_000,
                reasons,
            },
        )
    }
}

} // verus!
