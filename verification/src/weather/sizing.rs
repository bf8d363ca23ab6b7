//! The arithmetic of an entry: fair value, edges, expected value, the
//! fractional Kelly size and the score by which entries are ranked.
//!
//! Probabilities are whole millionths and money is whole cents, so every
//! quantity here is an exact integer: expected values and scores are in
//! millionths of a cent.

use crate::config::QualityMode;
use vstd::prelude::*;

verus! {

/// Most contracts that one entry may ask for.
pub const MAX_ENTRY_CONTRACTS: i64 = 10;

/// Fewest contracts that one entry asks for.
pub const MIN_ENTRY_CONTRACTS: i64 = 1;

/// `value` held between `low` and `high`.
pub open spec fn clamp(value: int, low: int, high: int) -> int {
    if value < low {
        low
    } else if value > high {
        high
    } else {
        value
    }
}

/// The fair value in cents: `100 * p` rounded down, less the safety
/// margin.
pub open spec fn fair_cents(p_ppm: int, safety_margin: int) -> int {
    p_ppm / 10_000 - safety_margin
}

/// The edge left after the round-trip fee and the slippage buffer.
pub open spec fn net_edge(fair: int, ask: int, round_trip_fee: int, slippage: int) -> int {
    fair - ask - round_trip_fee - slippage
}

/// The expected value of buying at `ask` with probability `p_ppm` of a
/// payout of 100, in millionths of a cent per contract:
/// `p * (100 - ask - friction) - (1 - p) * (ask + friction)`.
pub open spec fn expected_value_micro(p_ppm: int, ask: int, friction: int) -> int {
    p_ppm * (100 - ask - friction) - (1_000_000 - p_ppm) * (ask + friction)
}

/// The share of the full Kelly bet that a mode stakes, in percent.
pub open spec fn kelly_percent(mode: QualityMode) -> int {
    match mode {
        QualityMode::UltraSafe => 20,
        QualityMode::Balanced => 50,
        QualityMode::Aggressive => 75,
    }
}

/// The Kelly numerator `p * payout - (1 - p) * cost`, in millionths of a
/// cent, with `p` held between 1% and 99%.
pub open spec fn kelly_numerator(p_ppm: int, ask: int, friction: int) -> int {
    let p = clamp(p_ppm, 10_000, 990_000);
    p * (100 - ask - friction) - (1_000_000 - p) * (ask + friction)
}

/// The number of contracts to buy.
///
/// With `cost = ask + friction` and `payout = 100 - cost`, the full Kelly
/// fraction is `f = (p * b - (1 - p)) / b` for odds `b = payout / cost`.
/// The size is `kelly_fraction * f * max_position / cost`, rounded down and
/// held between 1 and 10. Where there is nothing to win or nothing to
/// stake, the size is the minimum.
pub open spec fn kelly_contracts(
    p_ppm: int,
    ask: int,
    max_position_cents: int,
    friction: int,
    mode: QualityMode,
) -> int {
    let cost = ask + friction;
    let payout = 100 - cost;
    let numerator = kelly_numerator(p_ppm, ask, friction);
    if payout <= 0 || cost <= 0 || numerator <= 0 || max_position_cents <= 0 {
        1
    } else {
        clamp(
            (kelly_percent(mode) * numerator * max_position_cents) / (100_000_000 * payout * cost),
            1,
            10,
        )
    }
}

/// How far apart two estimates lie, in millionths.
pub open spec fn gap_ppm(a: int, b: int) -> int {
    if a >= b {
        a - b
    } else {
        b - a
    }
}

/// The smaller of two numbers.
pub open spec fn min_int(a: int, b: int) -> int {
    if a <= b {
        a
    } else {
        b
    }
}

/// The score of an entry, in millionths: twice the conservative edge,
/// plus the conservative expected value, plus ten times the agreement of
/// the sources, plus liquidity, where volume counts up to 500 and open
/// interest up to 250, each for at most one point.
pub open spec fn quality_score_micro(
    conservative_edge: int,
    ev_micro: int,
    source_gap_ppm: int,
    volume_24h: int,
    open_interest: int,
) -> int {
    2_000_000 * conservative_edge + ev_micro + 10 * clamp(1_000_000 - source_gap_ppm, 0, 1_000_000)
        + 2_000 * min_int(volume_24h, 500) + 4_000 * min_int(open_interest, 250)
}

/// The share of the full Kelly bet that `mode` stakes, in percent.
pub fn kelly_fraction_percent(mode: QualityMode) -> (pct: i64)
    ensures
        pct == kelly_percent(mode),
{
    match mode {
        QualityMode::UltraSafe => 20,
        QualityMode::Balanced => 50,
        QualityMode::Aggressive => 75,
    }
}

/// The number of contracts to buy at `ask_cents` with probability `p_ppm`
/// under a friction of `fee_per_contract` cents.
pub fn kelly_size(
    p_ppm: i64,
    ask_cents: i64,
    max_position_cents: i64,
    fee_per_contract: i64,
    mode: QualityMode,
) -> (size: i64)
    ensures
        size == kelly_contracts(
            p_ppm as int,
            ask_cents as int,
            max_position_cents as int,
            fee_per_contract as int,
            mode,
        ),
        1 <= size <= 10,
{
    let p: i128 = if p_ppm < 10_000 {
        10_000
    } else if p_ppm > 990_000 {
        990_000
    } else {
        p_ppm as i128
    };
    let cost: i128 = ask_cents as i128 + fee_per_contract as i128;
    let payout: i128 = 100 - cost;
    if payout <= 0 || cost <= 0 || max_position_cents <= 0 {
        return 1;
    }
    assert(0 < cost < 100 && 0 < payout < 100);
    assert(0 <= p * payout <= 99_000_000) by (nonlinear_arith)
        requires
            10_000 <= p <= 990_000,
            0 < payout < 100,
    ;
    assert(0 <= (1_000_000 - p) * cost <= 99_000_000) by (nonlinear_arith)
        requires
            10_000 <= p <= 990_000,
            0 < cost < 100,
    ;
    let numerator: i128 = p * payout - (1_000_000 - p) * cost;
    if numerator <= 0 {
        return 1;
    }
    let pct: i128 = kelly_fraction_percent(mode) as i128;
    assert(0 < pct * numerator <= 7_425_000_000) by (nonlinear_arith)
        requires
            20 <= pct <= 75,
            0 < numerator <= 99_000_000,
    ;
    assert(0 < pct * numerator * max_position_cents <= 7_425_000_000 * 0x7fff_ffff_ffff_ffff)
        by (nonlinear_arith)
        requires
            0 < pct * numerator <= 7_425_000_000,
            0 < max_position_cents <= 0x7fff_ffff_ffff_ffff,
    ;
    assert(0 < 100_000_000 * payout * cost <= 1_000_000_000_000) by (nonlinear_arith)
        requires
            0 < cost < 100,
            0 < payout < 100,
    ;
    let staked: i128 = pct * numerator * (max_position_cents as i128);
    let per_contract: i128 = 100_000_000 * payout * cost;
    let contracts: i128 = staked / per_contract;
    if contracts < 1 {
        1
    } else if contracts > 10 {
        10
    } else {
        contracts as i64
    }
}

} // verus!
