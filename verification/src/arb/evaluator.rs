//! The arbitrage evaluator: decides whether a group of quotes can be
//! bought, or sold, as a complete set at a profit after fees.

use crate::arb::fees::{
    buy_set_cost, discounted_payout, leg_cost, lemma_buy_set_bounds, lemma_leg_bounds, priceable,
    sell_set_revenue, ArbFeeModel, MAX_COEFF_BP, MAX_QTY,
};
use crate::arb::opportunity::{ArbDirection, ArbLeg, ArbOpportunity, LegModel, OpportunityModel};
use crate::arb::quotes::{
    age_at, group_snapshot, quote_at, quote_models, quotes_fresh, MarketQuote, PriceEntry,
    QuoteBook, QuoteModel,
};
use crate::arb::universe::{ArbGroup, EdgeCase};
use crate::fees::fee_cents;
use crate::text::{decimal, fixed2, hundredths, push_decimal, push_fixed2, push_ratio, push_text, texts};
use crate::types::Side;
use vstd::prelude::*;
use vstd::string::StringExecFns;

verus! {

/// The chance, in millionths, that a set with the given flaw pays nothing.
/// These are working estimates, not measured frequencies.
pub open spec fn void_probability_ppm(edge_case: Option<EdgeCase>) -> int {
    match edge_case {
        Some(EdgeCase::TiePossible) => 50_000,
        Some(EdgeCase::VoidPossible) => 20_000,
        Some(EdgeCase::PartialSet) => 100_000,
        None => 0,
    }
}

/// The profit per contract that an opportunity must show: at least a cent.
pub open spec fn required_profit(min_profit: int) -> int {
    if min_profit < 1 {
        1
    } else {
        min_profit
    }
}

/// The settings of one evaluation.
pub struct EvalSettings {
    pub min_profit: int,
    pub ev_mode: bool,
    pub guaranteed_only: bool,
    pub tie_buffer: int,
    pub max_age_secs: u64,
    pub qty: int,
}

/// The working range of the single-market path, which reads neither the
/// slippage buffer nor any threshold but the profit asked for: a quantity
/// from one to a thousand million, a fee coefficient of at most one, and
/// both prices of the quote between 0 and 100 cents.
pub open spec fn single_priceable(fees: ArbFeeModel, q: QuoteModel, qty: int) -> bool {
    &&& 0 < qty <= 1_000_000_000
    &&& fees.schedule.taker_coeff_bp <= 10_000
    &&& crate::arb::fees::quote_in_range(q)
}

/// The working range of the evaluator, in which every amount fits the
/// machine integers: for a single market that of its own path, for a set
/// that of the pricing functions. No threshold narrows it.
pub open spec fn evaluable(fees: ArbFeeModel, quotes: Seq<QuoteModel>, s: EvalSettings) -> bool {
    if quotes.len() == 1 {
        single_priceable(fees, quotes[0], s.qty)
    } else {
        priceable(fees, quotes, s.qty)
    }
}

/// Text of the reason of a single-market opportunity.
pub open spec fn single_reason(yes_ask: int, no_ask: int, fees_per_contract: int, net: int) -> Seq<
    char,
> {
    "SINGLE-MKT ARB: Yes("@ + decimal(yes_ask) + "¢)+No("@ + decimal(no_ask) + "¢)+Fees("@
        + decimal(fees_per_contract) + "¢) < 100¢; net="@ + decimal(net)
}

/// Text of the reason of a buy-set opportunity.
pub open spec fn buy_reason(cost: int, qty: int, payout: int, net: int) -> Seq<char> {
    "BUY-SET: cost ("@ + fixed2(hundredths(cost, qty)) + "/c) < payout ("@ + fixed2(100 * payout)
        + "/c); net="@ + decimal(net) + "¢"@
}

/// Text of the reason of a sell-set opportunity.
pub open spec fn sell_reason(revenue: int, qty: int, payout: int, net: int) -> Seq<char> {
    "SELL-SET: revenue ("@ + fixed2(hundredths(revenue, qty)) + "/c) > liability ("@ + fixed2(
        100 * payout,
    ) + "/c); net="@ + decimal(net) + "¢"@
}

/// A single market: YES and NO of the same market are bought together.
/// The NO side is taken at `100 - yes_bid`; both legs pay the taker fee,
/// and the pair pays out 100 cents per contract.
pub open spec fn single_market(
    coeff_bp: int,
    event: Seq<char>,
    q: QuoteModel,
    s: EvalSettings,
) -> Option<OpportunityModel> {
    let no_ask = 100 - q.yes_bid;
    let total_cost = leg_cost(coeff_bp, s.qty, q.yes_ask) + leg_cost(coeff_bp, s.qty, no_ask);
    let payout = 100 * s.qty;
    let net = payout - total_cost;
    if net >= required_profit(s.min_profit) * s.qty {
        Some(
            OpportunityModel {
                group_event_ticker: event,
                direction: ArbDirection::BuySet,
                qty: s.qty,
                gross_edge_cents: payout - (q.yes_ask * s.qty + no_ask * s.qty),
                net_edge_cents: net,
                legs: seq![
                    LegModel { ticker: q.ticker, price_cents: q.yes_ask, side: Side::Yes },
                    LegModel { ticker: q.ticker, price_cents: no_ask, side: Side::No },
                ],
                reason: single_reason(
                    q.yes_ask,
                    no_ask,
                    (fee_cents(coeff_bp, s.qty, q.yes_ask) + fee_cents(coeff_bp, s.qty, no_ask))
                        / s.qty,
                    net,
                ),
            },
        )
    } else {
        None
    }
}

/// One YES leg per quote at the ask.
pub open spec fn ask_legs(quotes: Seq<QuoteModel>) -> Seq<LegModel> {
    Seq::new(
        quotes.len(),
        |i: int| LegModel { ticker: quotes[i].ticker, price_cents: quotes[i].yes_ask, side: Side::Yes },
    )
}

/// One YES leg per quote at the bid.
pub open spec fn bid_legs(quotes: Seq<QuoteModel>) -> Seq<LegModel> {
    Seq::new(
        quotes.len(),
        |i: int| LegModel { ticker: quotes[i].ticker, price_cents: quotes[i].yes_bid, side: Side::Yes },
    )
}

/// What a set pays per contract and the extra profit asked of it, or
/// nothing when sets of this kind are not traded under the settings.
pub open spec fn payout_target(exhaustive: bool, edge_case: Option<EdgeCase>, s: EvalSettings) -> Option<
    (int, int),
> {
    if exhaustive {
        Some((100, 0))
    } else if s.guaranteed_only || !s.ev_mode {
        None
    } else {
        Some((discounted_payout(void_probability_ppm(edge_case)), s.tie_buffer))
    }
}

/// A set of several markets: first the buy side is tried, then the sell
/// side.
pub open spec fn multi_market(
    fees: ArbFeeModel,
    event: Seq<char>,
    exhaustive: bool,
    edge_case: Option<EdgeCase>,
    quotes: Seq<QuoteModel>,
    s: EvalSettings,
) -> Option<OpportunityModel> {
    let coeff = fees.schedule.taker_coeff_bp as int;
    let slip = fees.slippage_buffer as int;
    match payout_target(exhaustive, edge_case, s) {
        None => None,
        Some((payout, buffer)) => {
            let threshold = (required_profit(s.min_profit) + buffer) * s.qty;
            let buy_cost = buy_set_cost(coeff, slip, s.qty, quotes);
            let buy_net = payout * s.qty - buy_cost;
            if buy_net >= threshold {
                Some(
                    OpportunityModel {
                        group_event_ticker: event,
                        direction: ArbDirection::BuySet,
                        qty: s.qty,
                        gross_edge_cents: buy_net,
                        net_edge_cents: buy_net,
                        legs: ask_legs(quotes),
                        reason: buy_reason(buy_cost, s.qty, payout, buy_net),
                    },
                )
            } else {
                match sell_set_revenue(coeff, slip, s.qty, quotes) {
                    None => None,
                    Some(revenue) => {
                        let sell_net = revenue - payout * s.qty;
                        if sell_net >= threshold {
                            Some(
                                OpportunityModel {
                                    group_event_ticker: event,
                                    direction: ArbDirection::SellSet,
                                    qty: s.qty,
                                    gross_edge_cents: sell_net,
                                    net_edge_cents: sell_net,
                                    legs: bid_legs(quotes),
                                    reason: sell_reason(revenue, s.qty, payout, sell_net),
                                },
                            )
                        } else {
                            None
                        }
                    },
                }
            }
        },
    }
}

/// The evaluation of a snapshot of quotes. Nothing is reported for a
/// request outside the working range, for stale quotes, or for a partial
/// set.
pub open spec fn evaluation(
    fees: ArbFeeModel,
    event: Seq<char>,
    exhaustive: bool,
    edge_case: Option<EdgeCase>,
    quotes: Seq<QuoteModel>,
    s: EvalSettings,
) -> Option<OpportunityModel> {
    if !evaluable(fees, quotes, s) {
        None
    } else if !quotes_fresh(quotes, s.max_age_secs) {
        None
    } else if edge_case == Some(EdgeCase::PartialSet) {
        None
    } else if quotes.len() == 1 {
        single_market(fees.schedule.taker_coeff_bp as int, event, quotes[0], s)
    } else {
        multi_market(fees, event, exhaustive, edge_case, quotes, s)
    }
}

/// The evaluation of a group against the quote book at time `now`.
pub open spec fn book_evaluation(
    fees: ArbFeeModel,
    book: Map<Seq<char>, PriceEntry>,
    event: Seq<char>,
    tickers: Seq<Seq<char>>,
    exhaustive: bool,
    edge_case: Option<EdgeCase>,
    s: EvalSettings,
    now: u64,
) -> Option<OpportunityModel> {
    match group_snapshot(book, tickers, now) {
        None => None,
        Some(quotes) => evaluation(fees, event, exhaustive, edge_case, quotes, s),
    }
}

/// A partial set never yields an opportunity, whatever the settings.
pub proof fn lemma_partial_set_never_trades(
    fees: ArbFeeModel,
    event: Seq<char>,
    exhaustive: bool,
    quotes: Seq<QuoteModel>,
    s: EvalSettings,
)
    ensures
        evaluation(fees, event, exhaustive, Some(EdgeCase::PartialSet), quotes, s) is None,
{
}

/// What both sides of a single market cost for `qty` contracts each: YES
/// at the ask and NO at `100 - yes_bid`, each with its taker fee.
pub open spec fn single_market_cost(coeff_bp: int, q: QuoteModel, qty: int) -> int {
    leg_cost(coeff_bp, qty, q.yes_ask) + leg_cost(coeff_bp, qty, 100 - q.yes_bid)
}

/// A single market whose two sides cost less than the payout by the
/// required profit yields a buy of the set with two legs on that market:
/// YES at the ask and NO at `100 - yes_bid`, for the quantity asked, with
/// the payout less the cost as its net edge.
pub proof fn lemma_single_market_fires(
    fees: ArbFeeModel,
    event: Seq<char>,
    exhaustive: bool,
    edge_case: Option<EdgeCase>,
    q: QuoteModel,
    s: EvalSettings,
)
    requires
        single_priceable(fees, q, s.qty),
        q.age_ms <= s.max_age_secs * 1000,
        edge_case != Some(EdgeCase::PartialSet),
        100 * s.qty - single_market_cost(fees.schedule.taker_coeff_bp as int, q, s.qty)
            >= required_profit(s.min_profit) * s.qty,
    ensures
        evaluation(fees, event, exhaustive, edge_case, seq![q], s) matches Some(o) && {
            &&& o.group_event_ticker == event
            &&& o.direction == ArbDirection::BuySet
            &&& o.qty == s.qty
            &&& o.legs == seq![
                LegModel { ticker: q.ticker, price_cents: q.yes_ask, side: Side::Yes },
                LegModel { ticker: q.ticker, price_cents: 100 - q.yes_bid, side: Side::No },
            ]
            &&& o.net_edge_cents == 100 * s.qty - single_market_cost(
                fees.schedule.taker_coeff_bp as int,
                q,
                s.qty,
            )
            &&& o.net_edge_cents >= s.qty
        },
{
    assert(required_profit(s.min_profit) * s.qty >= s.qty) by (nonlinear_arith)
        requires
            required_profit(s.min_profit) >= 1,
            s.qty > 0,
    ;
    assert(seq![q][0] == q);
}

/// The same of a group of one ticker against the quote book: where the
/// ticker has a fresh quote whose two sides cost less than the payout by
/// the required profit, the evaluation of the group is that purchase,
/// whatever the other settings are.
pub proof fn lemma_single_market_book_fires(
    fees: ArbFeeModel,
    book: Map<Seq<char>, PriceEntry>,
    event: Seq<char>,
    ticker: Seq<char>,
    exhaustive: bool,
    edge_case: Option<EdgeCase>,
    s: EvalSettings,
    now: u64,
)
    requires
        book.contains_key(ticker),
        single_priceable(fees, quote_at(ticker, book[ticker], now), s.qty),
        age_at(book[ticker], now) <= s.max_age_secs * 1000,
        edge_case != Some(EdgeCase::PartialSet),
        100 * s.qty - single_market_cost(
            fees.schedule.taker_coeff_bp as int,
            quote_at(ticker, book[ticker], now),
            s.qty,
        ) >= required_profit(s.min_profit) * s.qty,
    ensures
        book_evaluation(fees, book, event, seq![ticker], exhaustive, edge_case, s, now)
            == evaluation(
            fees,
            event,
            exhaustive,
            edge_case,
            seq![quote_at(ticker, book[ticker], now)],
            s,
        ),
        book_evaluation(fees, book, event, seq![ticker], exhaustive, edge_case, s, now) matches Some(
            o,
        ) && {
            &&& o.group_event_ticker == event
            &&& o.direction == ArbDirection::BuySet
            &&& o.qty == s.qty
            &&& o.legs == seq![
                LegModel { ticker: ticker, price_cents: book[ticker].yes_ask as int, side: Side::Yes },
                LegModel {
                    ticker: ticker,
                    price_cents: 100 - book[ticker].yes_bid,
                    side: Side::No,
                },
            ]
            &&& o.net_edge_cents == 100 * s.qty - single_market_cost(
                fees.schedule.taker_coeff_bp as int,
                quote_at(ticker, book[ticker], now),
                s.qty,
            )
        },
{
    let q = quote_at(ticker, book[ticker], now);
    let tickers = seq![ticker];
    assert(tickers[0] == ticker);
    assert(group_snapshot(book, tickers, now) is Some);
    assert(group_snapshot(book, tickers, now)->0 =~= seq![q]);
    lemma_single_market_fires(fees, event, exhaustive, edge_case, q, s);
}

/// Scans groups for mispricing against a book of quotes.
pub struct ArbEvaluator<'a> {
    fees: &'a ArbFeeModel,
    quotes: &'a QuoteBook,
}

fn yes_legs(quotes: &[MarketQuote], at_ask: bool) -> (legs: Vec<ArbLeg>)
    ensures
        Seq::new(legs@.len(), |i: int| legs@[i]@) == (if at_ask {
            ask_legs(quote_models(quotes@))
        } else {
            bid_legs(quote_models(quotes@))
        }),
{
    let mut legs: Vec<ArbLeg> = Vec::new();
    let mut i: usize = 0;
    while i < quotes.len()
        invariant
            i <= quotes.len(),
            legs@.len() == i,
            forall|j: int|
                0 <= j < i ==> (#[trigger] legs@[j])@ == (LegModel {
                    ticker: quotes@[j].ticker@,
                    price_cents: if at_ask {
                        quotes@[j].yes_ask as int
                    } else {
                        quotes@[j].yes_bid as int
                    },
                    side: Side::Yes,
                }),
        decreases quotes.len() - i,
    {
        let q = &quotes[i];
        let price: i64 = if at_ask {
            q.yes_ask
        } else {
            q.yes_bid
        };
        legs.push(ArbLeg { ticker: q.ticker.clone(), price_cents: price, side: Side::Yes });
        i += 1;
    }
    if at_ask {
        assert(Seq::new(legs@.len(), |i: int| legs@[i]@) =~= ask_legs(quote_models(quotes@)));
    } else {
        assert(Seq::new(legs@.len(), |i: int| legs@[i]@) =~= bid_legs(quote_models(quotes@)));
    }
    legs
}

/// The settings of an evaluation, as a mathematical value.
pub open spec fn settings(
    min_profit: i64,
    ev_mode: bool,
    guaranteed_only: bool,
    tie_buffer: i64,
    max_age_secs: u64,
    qty: i64,
) -> EvalSettings {
    EvalSettings {
        min_profit: min_profit as int,
        ev_mode,
        guaranteed_only,
        tie_buffer: tie_buffer as int,
        max_age_secs,
        qty: qty as int,
    }
}

impl<'a> ArbEvaluator<'a> {
    /// An evaluator over a fee model and a quote book.
    pub fn new(fees: &'a ArbFeeModel, quotes: &'a QuoteBook) -> (e: Self)
        ensures
            *e.fee_model() == *fees,
            e.book()@ == quotes@,
    {
        ArbEvaluator { fees, quotes }
    }

    /// The fee model the evaluator prices with.
    pub closed spec fn fee_model(&self) -> &ArbFeeModel {
        self.fees
    }

    /// The quote book the evaluator reads.
    pub closed spec fn book(&self) -> &QuoteBook {
        self.quotes
    }

    /// Evaluates one group against the quote book at time `now_ms`.
    pub fn evaluate(
        &self,
        group: &ArbGroup,
        min_profit: i64,
        ev_mode: bool,
        guaranteed_only: bool,
        tie_buffer: i64,
        max_age_secs: u64,
        qty: i64,
        now_ms: u64,
    ) -> (r: Option<ArbOpportunity>)
        ensures
            match r {
                Some(o) => book_evaluation(
                    *self.fee_model(),
                    self.book()@,
                    group.event_ticker@,
                    texts(group.tickers@),
                    group.is_exhaustive,
                    group.edge_case,
                    settings(min_profit, ev_mode, guaranteed_only, tie_buffer, max_age_secs, qty),
                    now_ms,
                ) == Some(o@),
                None => book_evaluation(
                    *self.fee_model(),
                    self.book()@,
                    group.event_ticker@,
                    texts(group.tickers@),
                    group.is_exhaustive,
                    group.edge_case,
                    settings(min_profit, ev_mode, guaranteed_only, tie_buffer, max_age_secs, qty),
                    now_ms,
                ) is None,
            },
    {
        match self.quotes.group_quotes(group.tickers.as_slice(), now_ms) {
            None => None,
            Some(market_quotes) => Self::assess(
                self.fees,
                group,
                market_quotes.as_slice(),
                min_profit,
                ev_mode,
                guaranteed_only,
                tie_buffer,
                max_age_secs,
                qty,
            ),
        }
    }

    /// Evaluates one group on a snapshot of its quotes.
    pub fn assess(
        fees: &ArbFeeModel,
        group: &ArbGroup,
        market_quotes: &[MarketQuote],
        min_profit: i64,
        ev_mode: bool,
        guaranteed_only: bool,
        tie_buffer: i64,
        max_age_secs: u64,
        qty: i64,
    ) -> (r: Option<ArbOpportunity>)
        ensures
            match r {
                Some(o) => evaluation(
                    *fees,
                    group.event_ticker@,
                    group.is_exhaustive,
                    group.edge_case,
                    quote_models(market_quotes@),
                    settings(min_profit, ev_mode, guaranteed_only, tie_buffer, max_age_secs, qty),
                ) == Some(o@),
                None => evaluation(
                    *fees,
                    group.event_ticker@,
                    group.is_exhaustive,
                    group.edge_case,
                    quote_models(market_quotes@),
                    settings(min_profit, ev_mode, guaranteed_only, tie_buffer, max_age_secs, qty),
                ) is None,
            },
    {
        let ghost s = settings(min_profit, ev_mode, guaranteed_only, tie_buffer, max_age_secs, qty);
        let ghost models = quote_models(market_quotes@);
        let ghost coeff = fees.schedule.taker_coeff_bp as int;
        if market_quotes.len() == 1 {
            let quote = &market_quotes[0];
            assert(models[0] == quote@);
            if qty <= 0 || qty > MAX_QTY || fees.schedule.taker_coeff_bp > MAX_COEFF_BP
                || quote.yes_bid < 0 || quote.yes_bid > 100 || quote.yes_ask < 0 || quote.yes_ask
                > 100 {
                return None;
            }
        } else if !fees.can_price(market_quotes, qty) {
            return None;
        }
        if !QuoteBook::all_fresh(market_quotes, max_age_secs) {
            return None;
        }
        match group.edge_case {
            Some(EdgeCase::PartialSet) => {
                return None;
            },
            _ => {},
        }
        let required: i128 = if min_profit < 1 {
            1
        } else {
            min_profit as i128
        };
        if market_quotes.len() == 1 {
            let quote = &market_quotes[0];
            assert(models[0] == quote@);
            assert(crate::arb::fees::quote_in_range(models[0]));
            let no_ask: i64 = 100 - quote.yes_bid;
            proof {
                lemma_leg_bounds(coeff, qty as int, quote.yes_ask as int);
                lemma_leg_bounds(coeff, qty as int, no_ask as int);
                assert(0 < required * qty <= 0x8000_0000_0000_0000 * 1_000_000_000)
                    by (nonlinear_arith)
                    requires
                        1 <= required <= 0x8000_0000_0000_0000,
                        0 < qty <= 1_000_000_000,
                ;
            }
            let yes_fee: i64 = fees.schedule.taker_fee_cents(qty, quote.yes_ask);
            let no_fee: i64 = fees.schedule.taker_fee_cents(qty, no_ask);
            let yes_cost: i64 = yes_fee + quote.yes_ask * qty;
            let no_cost: i64 = no_fee + no_ask * qty;
            let total_cost: i64 = yes_cost + no_cost;
            let payout: i64 = 100 * qty;
            let net_profit: i64 = payout - total_cost;
            if net_profit as i128 >= required * qty as i128 {
                let mut reason = String::from_str("SINGLE-MKT ARB: Yes(");
                push_decimal(&mut reason, quote.yes_ask as i128);
                push_text(&mut reason, "¢)+No(");
                push_decimal(&mut reason, no_ask as i128);
                push_text(&mut reason, "¢)+Fees(");
                push_decimal(&mut reason, ((yes_fee + no_fee) / qty) as i128);
                push_text(&mut reason, "¢) < 100¢; net=");
                push_decimal(&mut reason, net_profit as i128);
                let mut legs: Vec<ArbLeg> = Vec::new();
                legs.push(
                    ArbLeg { ticker: quote.ticker.clone(), price_cents: quote.yes_ask, side: Side::Yes },
                );
                legs.push(
                    ArbLeg { ticker: quote.ticker.clone(), price_cents: no_ask, side: Side::No },
                );
                let o = ArbOpportunity {
                    group_event_ticker: group.event_ticker.clone(),
                    direction: ArbDirection::BuySet,
                    qty,
                    gross_edge_cents: payout - (quote.yes_ask * qty + no_ask * qty),
                    net_edge_cents: net_profit,
                    legs,
                    reason,
                };
                proof {
                    let expected = single_market(coeff, group.event_ticker@, models[0], s);
                    assert(expected is Some);
                    assert(o@.legs =~= expected->0.legs);
                    assert(o@ == expected->0);
                }
                return Some(o);
            }
            return None;
        }
        let (payout, required_buffer): (i64, i64) = if group.is_exhaustive {
            (100, 0)
        } else {
            if guaranteed_only {
                return None;
            }
            if !ev_mode {
                return None;
            }
            let p: u32 = match group.edge_case {
                Some(EdgeCase::TiePossible) => 50_000,
                Some(EdgeCase::VoidPossible) => 20_000,
                Some(EdgeCase::PartialSet) => 100_000,
                None => 0,
            };
            (ArbFeeModel::ev_discounted_payout(p), tie_buffer)
        };
        assert(payout_target(group.is_exhaustive, group.edge_case, s) == Some(
            (payout as int, required_buffer as int),
        ));
        assert(0 <= payout <= 100);
        proof {
            lemma_buy_set_bounds(*fees, models, qty as int);
            assert(-0x8000_0000_0000_0000 * 1_000_000_000 <= (required + required_buffer) * qty
                <= 0x1_0000_0000_0000_0000 * 1_000_000_000) by (nonlinear_arith)
                requires
                    1 <= required <= 0x8000_0000_0000_0000,
                    -0x8000_0000_0000_0000 <= required_buffer <= 0x8000_0000_0000_0000,
                    0 < qty <= 1_000_000_000,
            ;
            assert(0 <= payout * qty <= 100_000_000_000) by (nonlinear_arith)
                requires
                    0 <= payout <= 100,
                    0 < qty <= 1_000_000_000,
            ;
        }
        let threshold: i128 = (required + required_buffer as i128) * qty as i128;
        let buy_cost: i64 = fees.net_buy_set_cost(market_quotes, qty);
        let buy_revenue: i64 = payout * qty;
        let buy_net_profit: i64 = buy_revenue - buy_cost;
        if buy_net_profit as i128 >= threshold {
            let mut reason = String::from_str("BUY-SET: cost (");
            push_ratio(&mut reason, buy_cost, qty);
            push_text(&mut reason, "/c) < payout (");
            push_fixed2(&mut reason, 100 * (payout as i128));
            push_text(&mut reason, "/c); net=");
            push_decimal(&mut reason, buy_net_profit as i128);
            push_text(&mut reason, "¢");
            let legs = yes_legs(market_quotes, true);
            let o = ArbOpportunity {
                group_event_ticker: group.event_ticker.clone(),
                direction: ArbDirection::BuySet,
                qty,
                gross_edge_cents: buy_net_profit,
                net_edge_cents: buy_net_profit,
                legs,
                reason,
            };
            return Some(o);
        }
        let sell_revenue: i64 = match fees.net_sell_set_revenue(market_quotes, qty) {
            Some(rev) => rev,
            None => {
                return None;
            },
        };
        let sell_cost: i64 = payout * qty;
        let sell_net_profit: i64 = sell_revenue - sell_cost;
        if sell_net_profit as i128 >= threshold {
            let mut reason = String::from_str("SELL-SET: revenue (");
            push_ratio(&mut reason, sell_revenue, qty);
            push_text(&mut reason, "/c) > liability (");
            push_fixed2(&mut reason, 100 * (payout as i128));
            push_text(&mut reason, "/c); net=");
            push_decimal(&mut reason, sell_net_profit as i128);
            push_text(&mut reason, "¢");
            let legs = yes_legs(market_quotes, false);
            let o = ArbOpportunity {
                group_event_ticker: group.event_ticker.clone(),
                direction: ArbDirection::SellSet,
                qty,
                gross_edge_cents: sell_net_profit,
                net_edge_cents: sell_net_profit,
                legs,
                reason,
            };
            return Some(o);
        }
        None
    }
}

} // verus!
