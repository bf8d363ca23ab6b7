//! Cost and revenue of trading a complete set, fees and slippage included.

use crate::arb::quotes::{quote_models, MarketQuote, QuoteModel};
use crate::fees::{fee_cents, fee_micro_cents, price_term, FeeSchedule};
use vstd::prelude::*;

verus! {

/// Largest number of legs that a set is priced for.
pub const MAX_LEGS: usize = 1_000;

/// Largest quantity, in contracts per leg, that a set is priced for.
pub const MAX_QTY: i64 = 1_000_000_000;

/// Largest size, in cents, of a slippage buffer or a profit threshold.
pub const MAX_BUFFER_CENTS: i64 = 1_000_000;

/// Largest fee coefficient, in basis points: the whole notional.
pub const MAX_COEFF_BP: u32 = 10_000;

/// The schedule of fees together with the slippage allowed per leg.
#[derive(Clone, Copy, Debug, PartialEq, Eq, Structural)]
pub struct ArbFeeModel {
    pub schedule: FeeSchedule,
    /// Slippage buffer in cents per leg.
    pub slippage_buffer: i64,
}

/// Both prices of the quote lie between 0 and 100 cents.
pub open spec fn quote_in_range(q: QuoteModel) -> bool {
    0 <= q.yes_bid <= 100 && 0 <= q.yes_ask <= 100
}

/// The working range of the pricing functions: within it every amount
/// fits the machine integers with room to spare.
pub open spec fn priceable(model: ArbFeeModel, quotes: Seq<QuoteModel>, qty: int) -> bool {
    &&& quotes.len() <= 1_000
    &&& 0 < qty <= 1_000_000_000
    &&& -1_000_000 <= model.slippage_buffer <= 1_000_000
    &&& model.schedule.taker_coeff_bp <= 10_000
    &&& forall|i: int| 0 <= i < quotes.len() ==> quote_in_range(#[trigger] quotes[i])
}

/// What it costs to buy `qty` contracts of one leg at `price`: the price
/// paid plus the taker fee.
pub open spec fn leg_cost(coeff_bp: int, qty: int, price: int) -> int {
    price * qty + fee_cents(coeff_bp, qty, price)
}

/// What comes in from selling `qty` contracts of one leg at `price`: the
/// price received less the taker fee.
pub open spec fn leg_revenue(coeff_bp: int, qty: int, price: int) -> int {
    price * qty - fee_cents(coeff_bp, qty, price)
}

/// Cost of buying YES on every leg, each ask raised by the slippage.
pub open spec fn buy_set_cost(coeff_bp: int, slippage: int, qty: int, quotes: Seq<QuoteModel>) -> int
    decreases quotes.len(),
{
    if quotes.len() == 0 {
        0
    } else {
        buy_set_cost(coeff_bp, slippage, qty, quotes.drop_last()) + leg_cost(
            coeff_bp,
            qty,
            quotes.last().yes_ask + slippage,
        )
    }
}

/// Every leg can be sold at a positive price after slippage.
pub open spec fn sellable(slippage: int, quotes: Seq<QuoteModel>) -> bool {
    forall|i: int| 0 <= i < quotes.len() ==> (#[trigger] quotes[i]).yes_bid - slippage > 0
}

/// Revenue of selling YES on every leg, each bid lowered by the slippage.
pub open spec fn sell_set_sum(coeff_bp: int, slippage: int, qty: int, quotes: Seq<QuoteModel>) -> int
    decreases quotes.len(),
{
    if quotes.len() == 0 {
        0
    } else {
        sell_set_sum(coeff_bp, slippage, qty, quotes.drop_last()) + leg_revenue(
            coeff_bp,
            qty,
            quotes.last().yes_bid - slippage,
        )
    }
}

/// Revenue of selling the set, or nothing when some leg has no positive
/// price left after slippage.
pub open spec fn sell_set_revenue(coeff_bp: int, slippage: int, qty: int, quotes: Seq<QuoteModel>) -> Option<
    int,
> {
    if sellable(slippage, quotes) {
        Some(sell_set_sum(coeff_bp, slippage, qty, quotes))
    } else {
        None
    }
}

/// The payout of a set, in cents, discounted by the chance `p_void_ppm`
/// (in millionths) that no outcome pays.
pub open spec fn discounted_payout(p_void_ppm: int) -> int {
    (100 * (1_000_000 - p_void_ppm)) / 1_000_000
}

/// Within the working range one leg moves at most two thousand million
/// million cents, fee included.
pub proof fn lemma_leg_bounds(coeff_bp: int, qty: int, price: int)
    requires
        0 <= coeff_bp <= 10_000,
        0 < qty <= 1_000_000_000,
        -1_000_000 <= price <= 1_000_100,
    ensures
        -1_000_000_000_000_000 <= price * qty <= 1_000_100_000_000_000,
        0 <= fee_cents(coeff_bp, qty, price) <= 25_000_000_001,
        -2_000_000_000_000_000 <= leg_cost(coeff_bp, qty, price) <= 2_000_000_000_000_000,
        -2_000_000_000_000_000 <= leg_revenue(coeff_bp, qty, price)
            <= 2_000_000_000_000_000,
{
    assert(-1_000_000_000_000_000 <= price * qty <= 1_000_100_000_000_000) by (nonlinear_arith)
        requires
            0 < qty <= 1_000_000_000,
            -1_000_000 <= price <= 1_000_100,
    ;
    let term = price_term(price);
    assert(term <= 2500) by (nonlinear_arith)
        requires
            term == price * (100 - price),
    {
        assert((price - 50) * (price - 50) >= 0);
    }
    let micro = fee_micro_cents(coeff_bp, qty, price);
    assert(micro <= 25_000_000_000_000_000) by (nonlinear_arith)
        requires
            micro == coeff_bp * qty * term,
            term <= 2500,
            0 <= coeff_bp <= 10_000,
            0 < qty <= 1_000_000_000,
    {
        assert(0 <= coeff_bp * qty <= 10_000_000_000_000);
        if term >= 0 {
            assert(coeff_bp * qty * term <= 10_000_000_000_000 * term);
        } else {
            assert(coeff_bp * qty * term <= 0);
        }
    }
}

/// Within the working range the cost of a set stays within the legs'
/// bounds added up.
pub proof fn lemma_buy_set_bounds(model: ArbFeeModel, quotes: Seq<QuoteModel>, qty: int)
    requires
        priceable(model, quotes, qty),
    ensures
        -2_000_000_000_000_000 * quotes.len() <= buy_set_cost(
            model.schedule.taker_coeff_bp as int,
            model.slippage_buffer as int,
            qty,
            quotes,
        ) <= 2_000_000_000_000_000 * quotes.len(),
        -2_000_000_000_000_000 * quotes.len() <= sell_set_sum(
            model.schedule.taker_coeff_bp as int,
            model.slippage_buffer as int,
            qty,
            quotes,
        ) <= 2_000_000_000_000_000 * quotes.len(),
    decreases quotes.len(),
{
    if quotes.len() > 0 {
        let rest = quotes.drop_last();
        assert forall|i: int| 0 <= i < rest.len() implies quote_in_range(#[trigger] rest[i]) by {
            assert(rest[i] == quotes[i]);
        }
        lemma_buy_set_bounds(model, rest, qty);
        assert(quote_in_range(quotes[quotes.len() - 1]));
        lemma_leg_bounds(
            model.schedule.taker_coeff_bp as int,
            qty,
            quotes.last().yes_ask + model.slippage_buffer,
        );
        lemma_leg_bounds(
            model.schedule.taker_coeff_bp as int,
            qty,
            quotes.last().yes_bid - model.slippage_buffer,
        );
    }
}

impl ArbFeeModel {
    /// The standard schedule with the given slippage buffer per leg.
    pub fn new(slippage_buffer: i64) -> (m: ArbFeeModel)
        ensures
            m.slippage_buffer == slippage_buffer,
            m.schedule.taker_coeff_bp == 700,
            m.schedule.maker_coeff_bp == 175,
    {
        ArbFeeModel { schedule: FeeSchedule::weather(), slippage_buffer }
    }

    /// Whether the request lies in the working range of the pricing
    /// functions.
    pub fn can_price(&self, quotes: &[MarketQuote], qty: i64) -> (ok: bool)
        ensures
            ok == priceable(*self, quote_models(quotes@), qty as int),
    {
        if quotes.len() > MAX_LEGS || qty <= 0 || qty > MAX_QTY || self.slippage_buffer
            < -MAX_BUFFER_CENTS || self.slippage_buffer > MAX_BUFFER_CENTS
            || self.schedule.taker_coeff_bp > MAX_COEFF_BP {
            return false;
        }
        let mut i: usize = 0;
        while i < quotes.len()
            invariant
                i <= quotes.len(),
                forall|j: int| 0 <= j < i ==> quote_in_range(#[trigger] quote_models(quotes@)[j]),
            decreases quotes.len() - i,
        {
            let q = &quotes[i];
            if q.yes_bid < 0 || q.yes_bid > 100 || q.yes_ask < 0 || q.yes_ask > 100 {
                assert(!quote_in_range(quote_models(quotes@)[i as int]));
                return false;
            }
            i += 1;
        }
        true
    }

    /// Net cost, in cents, of buying YES on every leg.
    pub fn net_buy_set_cost(&self, quotes: &[MarketQuote], qty: i64) -> (cost: i64)
        requires
            priceable(*self, quote_models(quotes@), qty as int),
        ensures
            cost == buy_set_cost(
                self.schedule.taker_coeff_bp as int,
                self.slippage_buffer as int,
                qty as int,
                quote_models(quotes@),
            ),
    {
        let ghost models = quote_models(quotes@);
        let ghost coeff = self.schedule.taker_coeff_bp as int;
        let ghost slip = self.slippage_buffer as int;
        let mut total: i64 = 0;
        let mut i: usize = 0;
        while i < quotes.len()
            invariant
                i <= quotes.len(),
                models == quote_models(quotes@),
                coeff == self.schedule.taker_coeff_bp as int,
                slip == self.slippage_buffer as int,
                priceable(*self, models, qty as int),
                total == buy_set_cost(coeff, slip, qty as int, models.take(i as int)),
            decreases quotes.len() - i,
        {
            let q = &quotes[i];
            proof {
                let next = models.take(i + 1);
                assert(next.drop_last() =~= models.take(i as int));
                assert(next.last() == models[i as int]);
                assert(quote_in_range(models[i as int]));
                assert forall|j: int| 0 <= j < next.len() implies quote_in_range(
                    #[trigger] next[j],
                ) by {
                    assert(next[j] == models[j]);
                }
                lemma_buy_set_bounds(*self, next, qty as int);
                lemma_leg_bounds(coeff, qty as int, q.yes_ask + slip);
            }
            let effective_ask: i64 = q.yes_ask + self.slippage_buffer;
            let fee: i64 = self.schedule.taker_fee_cents(qty, effective_ask);
            total = total + (effective_ask * qty + fee);
            i += 1;
        }
        assert(models.take(quotes.len() as int) =~= models);
        total
    }

    /// Net revenue, in cents, of selling YES on every leg, or `None` when
    /// some leg has no positive price left after slippage.
    pub fn net_sell_set_revenue(&self, quotes: &[MarketQuote], qty: i64) -> (revenue: Option<i64>)
        requires
            priceable(*self, quote_models(quotes@), qty as int),
        ensures
            match revenue {
                Some(r) => sell_set_revenue(
                    self.schedule.taker_coeff_bp as int,
                    self.slippage_buffer as int,
                    qty as int,
                    quote_models(quotes@),
                ) == Some(r as int),
                None => sell_set_revenue(
                    self.schedule.taker_coeff_bp as int,
                    self.slippage_buffer as int,
                    qty as int,
                    quote_models(quotes@),
                ) is None,
            },
    {
        let ghost models = quote_models(quotes@);
        let ghost coeff = self.schedule.taker_coeff_bp as int;
        let ghost slip = self.slippage_buffer as int;
        let mut total: i64 = 0;
        let mut i: usize = 0;
        while i < quotes.len()
            invariant
                i <= quotes.len(),
                models == quote_models(quotes@),
                coeff == self.schedule.taker_coeff_bp as int,
                slip == self.slippage_buffer as int,
                priceable(*self, models, qty as int),
                sellable(slip, models.take(i as int)),
                total == sell_set_sum(coeff, slip, qty as int, models.take(i as int)),
            decreases quotes.len() - i,
        {
            let q = &quotes[i];
            proof {
                let next = models.take(i + 1);
                assert(next.drop_last() =~= models.take(i as int));
                assert(next.last() == models[i as int]);
                assert(quote_in_range(models[i as int]));
                assert forall|j: int| 0 <= j < next.len() implies quote_in_range(
                    #[trigger] next[j],
                ) by {
                    assert(next[j] == models[j]);
                }
                lemma_buy_set_bounds(*self, next, qty as int);
                lemma_leg_bounds(coeff, qty as int, q.yes_bid - slip);
            }
            let effective_bid: i64 = q.yes_bid - self.slippage_buffer;
            if effective_bid <= 0 {
                assert(models[i as int].yes_bid - slip <= 0);
                return None;
            }
            let fee: i64 = self.schedule.taker_fee_cents(qty, effective_bid);
            total = total + (effective_bid * qty - fee);
            proof {
                let next = models.take(i + 1);
                assert forall|j: int| 0 <= j < next.len() implies (#[trigger] next[j]).yes_bid
                    - slip > 0 by {
                    if j < i {
                        assert(next[j] == models.take(i as int)[j]);
                    }
                }
            }
            i += 1;
        }
        assert(models.take(quotes.len() as int) =~= models);
        Some(total)
    }

    /// Net cost per contract of buying the complete set.
    pub fn per_contract_buy_cost(&self, quotes: &[MarketQuote]) -> (cost: i64)
        requires
            priceable(*self, quote_models(quotes@), 1),
        ensures
            cost == buy_set_cost(
                self.schedule.taker_coeff_bp as int,
                self.slippage_buffer as int,
                1,
                quote_models(quotes@),
            ),
    {
        self.net_buy_set_cost(quotes, 1)
    }

    /// Net revenue per contract of selling the complete set, or `None` when
    /// some leg has no positive price left after slippage.
    pub fn per_contract_sell_revenue(&self, quotes: &[MarketQuote]) -> (revenue: Option<i64>)
        requires
            priceable(*self, quote_models(quotes@), 1),
        ensures
            match revenue {
                Some(r) => sell_set_revenue(
                    self.schedule.taker_coeff_bp as int,
                    self.slippage_buffer as int,
                    1,
                    quote_models(quotes@),
                ) == Some(r as int),
                None => sell_set_revenue(
                    self.schedule.taker_coeff_bp as int,
                    self.slippage_buffer as int,
                    1,
                    quote_models(quotes@),
                ) is None,
            },
    {
        self.net_sell_set_revenue(quotes, 1)
    }

    /// The payout of a set that pays nothing with probability `p_void_ppm`
    /// millionths: `100 * (1 - p_void)`, rounded down to a whole cent.
    pub fn ev_discounted_payout(p_void_ppm: u32) -> (payout: i64)
        ensures
            payout == discounted_payout(p_void_ppm as int),
    {
        let scaled: i64 = 100 * (1_000_000 - p_void_ppm as i64);
        if scaled >= 0 {
            scaled / 1_000_000
        } else {
            let up: i64 = (-scaled + 999_999) / 1_000_000;
            -up
        }
    }
}

} // verus!
