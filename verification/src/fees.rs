//! The exchange's fee schedule.
//!
//! A fee is `coeff * C * P * (1 - P)` dollars for `C` contracts at price
//! `P` dollars, rounded up to the next cent. Coefficients are held in basis
//! points and prices in cents, so every fee is an exact integer computation.

use vstd::prelude::*;

verus! {

/// Taker coefficient of the standard schedule: 0.07, in basis points.
pub const TAKER_COEFF_BP: u32 = 700;

/// Maker coefficient of the standard schedule: 0.0175, in basis points.
pub const MAKER_COEFF_BP: u32 = 175;

/// Fee coefficients, in basis points (700 stands for 0.07).
#[derive(Clone, Copy, Debug, PartialEq, Eq, Structural)]
pub struct FeeSchedule {
    pub taker_coeff_bp: u32,
    pub maker_coeff_bp: u32,
}

/// `P * (100 - P)`: the price term of the fee, in squared cents.
pub open spec fn price_term(price_cents: int) -> int {
    price_cents * (100 - price_cents)
}

/// The fee before rounding, in millionths of a cent.
pub open spec fn fee_micro_cents(coeff_bp: int, count: int, price_cents: int) -> int {
    coeff_bp * count * price_term(price_cents)
}

/// `value` held to the range of an `i64`.
pub open spec fn clamp_i64(value: int) -> int {
    if value > i64::MAX {
        i64::MAX as int
    } else if value < i64::MIN {
        i64::MIN as int
    } else {
        value
    }
}

/// The fee in cents: the exact fee rounded up to a whole cent, never
/// negative, and held to what an `i64` can carry.
pub open spec fn fee_cents(coeff_bp: int, count: int, price_cents: int) -> int {
    let micro = fee_micro_cents(coeff_bp, count, price_cents);
    if micro <= 0 {
        0
    } else {
        clamp_i64((micro + 999_999) / 1_000_000)
    }
}

/// Taker entry plus taker exit for `count` contracts.
pub open spec fn round_trip_fee(coeff_bp: int, count: int, entry_cents: int, exit_cents: int) -> int {
    clamp_i64(fee_cents(coeff_bp, count, entry_cents) + fee_cents(coeff_bp, count, exit_cents))
}

proof fn lemma_price_term_bound(p: int)
    requires
        i64::MIN <= p <= i64::MAX,
    ensures
        -0x4000_0000_0000_0064_0000_0000_0000_0000 <= price_term(p) <= 2500,
{
    assert(price_term(p) <= 2500) by (nonlinear_arith)
        requires
            price_term(p) == p * (100 - p),
    {
        assert((p - 50) * (p - 50) >= 0);
        assert(p * (100 - p) == 2500 - (p - 50) * (p - 50));
    }
    assert(price_term(p) >= -0x4000_0000_0000_0064_0000_0000_0000_0000) by (nonlinear_arith)
        requires
            price_term(p) == p * (100 - p),
            -0x8000_0000_0000_0000 <= p <= 0x7fff_ffff_ffff_ffff,
    {
        if p >= 0 {
            assert(p * (100 - p) >= p * (100 - 0x7fff_ffff_ffff_ffff));
            assert(p * (100 - 0x7fff_ffff_ffff_ffff) >= 0x7fff_ffff_ffff_ffff * (100
                - 0x7fff_ffff_ffff_ffff));
        } else {
            assert((-p) * (100 - p) <= 0x8000_0000_0000_0000 * (100 - p));
            assert(0x8000_0000_0000_0000 * (100 - p) <= 0x8000_0000_0000_0000 * (100
                + 0x8000_0000_0000_0000));
            assert(p * (100 - p) == -((-p) * (100 - p)));
        }
    }
}

impl FeeSchedule {
    /// The schedule that applies to every market of the exchange.
    pub fn weather() -> (s: FeeSchedule)
        ensures
            s.taker_coeff_bp == 700,
            s.maker_coeff_bp == 175,
            4 * s.maker_coeff_bp == s.taker_coeff_bp,
    {
        FeeSchedule { taker_coeff_bp: TAKER_COEFF_BP, maker_coeff_bp: MAKER_COEFF_BP }
    }

    /// Taker fee in cents for `count` contracts at `price_cents`.
    pub fn taker_fee_cents(&self, count: i64, price_cents: i64) -> (fee: i64)
        ensures
            fee == fee_cents(self.taker_coeff_bp as int, count as int, price_cents as int),
    {
        fee_for(self.taker_coeff_bp, count, price_cents)
    }

    /// Maker fee in cents for `count` contracts at `price_cents`.
    pub fn maker_fee_cents(&self, count: i64, price_cents: i64) -> (fee: i64)
        ensures
            fee == fee_cents(self.maker_coeff_bp as int, count as int, price_cents as int),
    {
        fee_for(self.maker_coeff_bp, count, price_cents)
    }

    /// Taker fee on entry plus taker fee on exit.
    pub fn round_trip_fee_cents(&self, count: i64, entry_cents: i64, exit_cents: i64) -> (fee: i64)
        ensures
            fee == round_trip_fee(
                self.taker_coeff_bp as int,
                count as int,
                entry_cents as int,
                exit_cents as int,
            ),
    {
        let entry: i64 = fee_for(self.taker_coeff_bp, count, entry_cents);
        let exit: i64 = fee_for(self.taker_coeff_bp, count, exit_cents);
        let sum: i128 = entry as i128 + exit as i128;
        if sum > i64::MAX as i128 {
            i64::MAX
        } else {
            sum as i64
        }
    }

    /// Taker fee for one contract, rounded up to a whole cent.
    pub fn per_contract_taker_fee(&self, price_cents: i64) -> (fee: i64)
        ensures
            fee == fee_cents(self.taker_coeff_bp as int, 1, price_cents as int),
    {
        fee_for(self.taker_coeff_bp, 1, price_cents)
    }
}

impl Default for FeeSchedule {
    fn default() -> (s: FeeSchedule)
        ensures
            s.taker_coeff_bp == 700,
            s.maker_coeff_bp == 175,
    {
        FeeSchedule::weather()
    }
}

/// The fee in cents under coefficient `coeff_bp`.
fn fee_for(coeff_bp: u32, count: i64, price_cents: i64) -> (fee: i64)
    ensures
        fee == fee_cents(coeff_bp as int, count as int, price_cents as int),
{
    proof {
        lemma_price_term_bound(price_cents as int);
    }
    let term: i128 = (price_cents as i128) * (100 - price_cents as i128);
    assert(-0x8000_0000_0000_0000_0000_0000 <= coeff_bp * count <= 0x8000_0000_0000_0000_0000_0000)
        by (nonlinear_arith)
        requires
            0 <= coeff_bp <= 0xffff_ffff,
            -0x8000_0000_0000_0000 <= count <= 0x7fff_ffff_ffff_ffff,
    {
        if count >= 0 {
            assert(coeff_bp * count <= 0xffff_ffff * count);
            assert(0 <= coeff_bp * count);
        } else {
            assert(coeff_bp * (-count) <= 0xffff_ffff * (-count));
            assert(0 <= coeff_bp * (-count));
            assert(coeff_bp * count == -(coeff_bp * (-count)));
        }
    }
    let scale: i128 = (coeff_bp as i128) * (count as i128);
    assert(fee_micro_cents(coeff_bp as int, count as int, price_cents as int) == scale * term);
    if term == 0 || scale == 0 {
        assert(scale * term == 0) by (nonlinear_arith)
            requires
                term == 0 || scale == 0,
        ;
        return 0;
    }
    if (term > 0) != (scale > 0) {
        assert(scale * term < 0) by (nonlinear_arith)
            requires
                term != 0,
                scale != 0,
                (term > 0) != (scale > 0),
        ;
        return 0;
    }
    assert(scale * term > 0) by (nonlinear_arith)
        requires
            term != 0,
            scale != 0,
            (term > 0) == (scale > 0),
    ;
    match scale.checked_mul(term) {
        Some(micro) => {
            if micro > i128::MAX - 999_999 {
                i64::MAX
            } else {
                let cents: i128 = (micro + 999_999) / 1_000_000;
                if cents > i64::MAX as i128 {
                    i64::MAX
                } else {
                    cents as i64
                }
            }
        },
        None => i64::MAX,
    }
}

/// The fee at a price equals the fee at the complementary price.
pub proof fn lemma_fee_symmetric(coeff_bp: int, count: int, price_cents: int)
    ensures
        fee_cents(coeff_bp, count, price_cents) == fee_cents(coeff_bp, count, 100 - price_cents),
{
    assert(price_term(price_cents) == price_term(100 - price_cents)) by (nonlinear_arith)
        requires
            price_term(price_cents) == price_cents * (100 - price_cents),
            price_term(100 - price_cents) == (100 - price_cents) * (100 - (100 - price_cents)),
    ;
}

/// The standard maker coefficient is exactly a quarter of the taker one.
pub proof fn lemma_maker_is_quarter_of_taker()
    ensures
        4 * MAKER_COEFF_BP == TAKER_COEFF_BP,
        TAKER_COEFF_BP % 4 == 0,
        MAKER_COEFF_BP == TAKER_COEFF_BP / 4,
{
}

/// The fee on one contract at a price from 0 to 100 cents is at most the
/// coefficient in basis points times 2500 millionths of a cent, rounded
/// up.
pub proof fn lemma_fee_small(coeff_bp: int, price_cents: int)
    requires
        0 <= coeff_bp <= 0xffff_ffff,
        0 <= price_cents <= 100,
    ensures
        0 <= fee_cents(coeff_bp, 1, price_cents) <= 10_737_419,
{
    let term = price_term(price_cents);
    assert(0 <= term <= 2500) by (nonlinear_arith)
        requires
            term == price_cents * (100 - price_cents),
            0 <= price_cents <= 100,
    {
        assert((price_cents - 50) * (price_cents - 50) >= 0);
    }
    assert(0 <= coeff_bp * 1 * term <= 0xffff_ffff * 2500) by (nonlinear_arith)
        requires
            0 <= coeff_bp <= 0xffff_ffff,
            0 <= term <= 2500,
    ;
}

/// No fee is negative.
pub proof fn lemma_fee_nonnegative(coeff_bp: int, count: int, price_cents: int)
    ensures
        0 <= fee_cents(coeff_bp, count, price_cents) <= i64::MAX,
{
}

} // verus!
