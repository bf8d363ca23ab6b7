//! Sums over the positions of a portfolio.

use crate::text::same_text;
use crate::types::Position;
use vstd::prelude::*;

verus! {

/// The size of an amount, whatever its sign.
pub open spec fn magnitude(x: int) -> int {
    if x < 0 {
        -x
    } else {
        x
    }
}

/// The exposure of the whole portfolio: the sizes of the market exposures
/// added up. It is never negative.
pub open spec fn total_exposure(positions: Seq<Position>) -> int
    decreases positions.len(),
{
    if positions.len() == 0 {
        0
    } else {
        total_exposure(positions.drop_last()) + magnitude(positions.last().market_exposure as int)
    }
}

/// The exposure in `ticker`: that of the first position listed for it,
/// zero when none is.
pub open spec fn ticker_exposure(positions: Seq<Position>, ticker: Seq<char>) -> int
    decreases positions.len(),
{
    if positions.len() == 0 {
        0
    } else if positions[0].ticker@ == ticker {
        magnitude(positions[0].market_exposure as int)
    } else {
        ticker_exposure(positions.drop_first(), ticker)
    }
}

/// Some position in `ticker` is long.
pub open spec fn holds_long(positions: Seq<Position>, ticker: Seq<char>) -> bool {
    exists|i: int|
        0 <= i < positions.len() && (#[trigger] positions[i]).ticker@ == ticker
            && positions[i].yes_count > 0
}

/// The total exposure is never negative and grows by at most `2^63` with
/// each position.
pub proof fn lemma_total_exposure_bounds(positions: Seq<Position>)
    ensures
        0 <= total_exposure(positions) <= positions.len() * 0x8000_0000_0000_0000,
    decreases positions.len(),
{
    if positions.len() > 0 {
        lemma_total_exposure_bounds(positions.drop_last());
    }
}

/// The size of an exposure.
pub fn exposure_size(exposure: i64) -> (size: i128)
    ensures
        size == magnitude(exposure as int),
        0 <= size <= 0x8000_0000_0000_0000,
{
    if exposure < 0 {
        -(exposure as i128)
    } else {
        exposure as i128
    }
}

/// The exposure of the whole portfolio.
pub fn sum_exposure(positions: &[Position]) -> (sum: i128)
    ensures
        sum == total_exposure(positions@),
        sum >= 0,
{
    let mut sum: i128 = 0;
    let mut i: usize = 0;
    while i < positions.len()
        invariant
            i <= positions.len(),
            sum == total_exposure(positions@.take(i as int)),
            0 <= sum <= i * 0x8000_0000_0000_0000,
        decreases positions.len() - i,
    {
        proof {
            let next = positions@.take(i + 1);
            assert(next.drop_last() =~= positions@.take(i as int));
            assert(next.last() == positions@[i as int]);
        }
        sum = sum + exposure_size(positions[i].market_exposure);
        i += 1;
    }
    assert(positions@.take(positions@.len() as int) =~= positions@);
    sum
}

/// The exposure in `ticker`.
pub fn exposure_in(positions: &[Position], ticker: &str) -> (size: i128)
    ensures
        size == ticker_exposure(positions@, ticker@),
        0 <= size <= 0x8000_0000_0000_0000,
{
    let mut i: usize = 0;
    assert(positions@.skip(0) =~= positions@);
    while i < positions.len()
        invariant
            i <= positions.len(),
            ticker_exposure(positions@, ticker@) == ticker_exposure(
                positions@.skip(i as int),
                ticker@,
            ),
        decreases positions.len() - i,
    {
        assert(positions@.skip(i as int)[0] == positions@[i as int]);
        assert(positions@.skip(i as int).drop_first() =~= positions@.skip(i + 1));
        if same_text(positions[i].ticker.as_str(), ticker) {
            return exposure_size(positions[i].market_exposure);
        }
        i += 1;
    }
    0
}

/// Whether some position in `ticker` is long.
pub fn has_long_position(positions: &[Position], ticker: &str) -> (r: bool)
    ensures
        r == holds_long(positions@, ticker@),
{
    let mut i: usize = 0;
    while i < positions.len()
        invariant
            i <= positions.len(),
            forall|k: int|
                0 <= k < i ==> !((#[trigger] positions@[k]).ticker@ == ticker@
                    && positions@[k].yes_count > 0),
        decreases positions.len() - i,
    {
        if same_text(positions[i].ticker.as_str(), ticker) && positions[i].yes_count > 0 {
            return true;
        }
        i += 1;
    }
    false
}

} // verus!
