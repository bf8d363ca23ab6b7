//! What the evaluator emits: an opportunity and its legs.

use crate::types::Side;
use vstd::prelude::*;

verus! {

/// Whether the complete set is bought or sold.
#[derive(Clone, Copy, Debug, PartialEq, Eq, Structural)]
pub enum ArbDirection {
    BuySet,
    SellSet,
}

/// One order of an opportunity.
#[derive(Clone, Debug)]
pub struct ArbLeg {
    pub ticker: String,
    pub price_cents: i64,
    pub side: Side,
}

/// A mispriced complete set, with the orders that capture it.
#[derive(Clone, Debug)]
pub struct ArbOpportunity {
    pub group_event_ticker: String,
    pub direction: ArbDirection,
    /// Contracts per leg.
    pub qty: i64,
    /// Informational only: an approximation of the profit before fees.
    pub gross_edge_cents: i64,
    /// Profit after fees, for the whole quantity.
    pub net_edge_cents: i64,
    pub legs: Vec<ArbLeg>,
    pub reason: String,
}

/// A leg as a mathematical value.
pub struct LegModel {
    pub ticker: Seq<char>,
    pub price_cents: int,
    pub side: Side,
}

/// An opportunity as a mathematical value.
pub struct OpportunityModel {
    pub group_event_ticker: Seq<char>,
    pub direction: ArbDirection,
    pub qty: int,
    pub gross_edge_cents: int,
    pub net_edge_cents: int,
    pub legs: Seq<LegModel>,
    pub reason: Seq<char>,
}

impl View for ArbLeg {
    type V = LegModel;

    open spec fn view(&self) -> LegModel {
        LegModel { ticker: self.ticker@, price_cents: self.price_cents as int, side: self.side }
    }
}

impl View for ArbOpportunity {
    type V = OpportunityModel;

    open spec fn view(&self) -> OpportunityModel {
        OpportunityModel {
            group_event_ticker: self.group_event_ticker@,
            direction: self.direction,
            qty: self.qty as int,
            gross_edge_cents: self.gross_edge_cents as int,
            net_edge_cents: self.net_edge_cents as int,
            legs: Seq::new(self.legs@.len(), |i: int| self.legs@[i]@),
            reason: self.reason@,
        }
    }
}

/// The name of a direction, as written to the journal.
pub fn direction_label(direction: ArbDirection) -> (label: &'static str)
    ensures
        label@ == (if direction == ArbDirection::BuySet {
            "buy_set"@
        } else {
            "sell_set"@
        }),
{
    match direction {
        ArbDirection::BuySet => "buy_set",
        ArbDirection::SellSet => "sell_set",
    }
}

} // verus!
