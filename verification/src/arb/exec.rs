//! The executor: turns an opportunity into one batch of limit orders,
//! classifies what the exchange did with it, and recovers from a partial
//! fill by cancelling what rests and flattening what filled.
//!
//! The executor performs no I/O. It is a state machine: the caller hands
//! it what happened and is told what to do next.

use crate::arb::config::ExecutionConfig;
use crate::arb::fees::ArbFeeModel;
use crate::arb::opportunity::{ArbDirection, ArbLeg, ArbOpportunity, LegModel, OpportunityModel};
use crate::ids::fresh_order_id;
use crate::text::same_text;
use crate::types::{
    opposite_action, order_models, request_models, valid_order_price, Action, BatchOrderEntry,
    CreateOrderRequest, OrderInfo, OrderModel, OrderType, RequestModel, Side,
};
use vstd::prelude::*;
use vstd::string::StringExecFns;

verus! {

/// How an execution ended.
#[derive(Clone, Copy, Debug, PartialEq, Eq, Structural)]
pub enum ExecutionOutcome {
    CompleteFill,
    NoFill,
    PartialFillUnwound,
    PartialFillUnwindFailed,
    Rejected,
    Failed,
}

/// What to do with the filled legs of a partial fill.
#[derive(Clone, Copy, Debug, PartialEq, Eq, Structural)]
pub enum UnwindPolicy {
    /// Sell or buy back at market.
    CrossSpread,
    /// Cancel what rests and leave the fills for manual reconciliation.
    CancelOnly,
}

/// Attempts made to cancel one resting order.
pub const CANCEL_RETRIES: u32 = 3;

/// Attempts made to flatten one filled leg.
pub const UNWIND_RETRIES: u32 = 3;

/// Pause before a cancel is tried again, in milliseconds.
pub const CANCEL_BACKOFF_MS: u64 = 100;

/// Pause before an unwind is tried again, in milliseconds.
pub const UNWIND_BACKOFF_MS: u64 = 150;

/// Pause after each leg of an unwind, in milliseconds.
pub const UNWIND_PACING_MS: u64 = 50;

/// The name of an outcome, as written to the journal.
pub fn outcome_label(outcome: ExecutionOutcome) -> (label: &'static str)
    ensures
        label@ == match outcome {
            ExecutionOutcome::CompleteFill => "complete_fill"@,
            ExecutionOutcome::NoFill => "no_fill"@,
            ExecutionOutcome::PartialFillUnwound => "partial_fill_unwound"@,
            ExecutionOutcome::PartialFillUnwindFailed => "partial_fill_unwind_failed"@,
            ExecutionOutcome::Rejected => "rejected"@,
            ExecutionOutcome::Failed => "failed"@,
        },
{
    match outcome {
        ExecutionOutcome::CompleteFill => "complete_fill",
        ExecutionOutcome::NoFill => "no_fill",
        ExecutionOutcome::PartialFillUnwound => "partial_fill_unwound",
        ExecutionOutcome::PartialFillUnwindFailed => "partial_fill_unwind_failed",
        ExecutionOutcome::Rejected => "rejected",
        ExecutionOutcome::Failed => "failed",
    }
}

/// The limit of a leg: its price moved against the trader by the slippage
/// buffer.
pub open spec fn limit_price(direction: ArbDirection, price_cents: int, slippage: int) -> int {
    match direction {
        ArbDirection::BuySet => price_cents + slippage,
        ArbDirection::SellSet => price_cents - slippage,
    }
}

/// An opportunity can be submitted: the quantity is positive, there is a
/// leg, and every limit is a price the exchange takes. One bad limit spoils
/// the whole opportunity.
pub open spec fn executable(opp: OpportunityModel, slippage: int) -> bool {
    &&& opp.qty > 0
    &&& opp.legs.len() > 0
    &&& forall|i: int|
        0 <= i < opp.legs.len() ==> valid_order_price(
            limit_price(opp.direction, (#[trigger] opp.legs[i]).price_cents, slippage),
        )
}

/// The action that a direction takes on every leg.
pub open spec fn leg_action(direction: ArbDirection) -> Action {
    match direction {
        ArbDirection::BuySet => Action::Buy,
        ArbDirection::SellSet => Action::Sell,
    }
}

/// The fill-or-kill limit order of one leg, under identifier `id`.
pub open spec fn planned_request(
    opp: OpportunityModel,
    leg: LegModel,
    slippage: int,
    id: Seq<char>,
) -> RequestModel {
    let limit = limit_price(opp.direction, leg.price_cents, slippage);
    RequestModel {
        ticker: leg.ticker,
        side: leg.side,
        action: leg_action(opp.direction),
        client_order_id: id,
        count: opp.qty,
        order_type: OrderType::Limit,
        yes_price: if leg.side == Side::Yes {
            Some(limit)
        } else {
            None
        },
        no_price: if leg.side == Side::No {
            Some(limit)
        } else {
            None
        },
        expiration_ts: None,
        time_in_force: Some("fill_or_kill"@),
    }
}

/// `requests` is the batch of `opp`: one planned request per leg, in
/// order, each under an identifier of its own choosing.
pub open spec fn is_batch_of(requests: Seq<RequestModel>, opp: OpportunityModel, slippage: int) -> bool {
    &&& requests.len() == opp.legs.len()
    &&& forall|i: int|
        0 <= i < requests.len() ==> #[trigger] requests[i] == planned_request(
            opp,
            opp.legs[i],
            slippage,
            requests[i].client_order_id,
        )
}

/// The market order that flattens a filled order, under identifier `id`.
pub open spec fn unwind_request(order: OrderModel, id: Seq<char>) -> RequestModel {
    RequestModel {
        ticker: order.ticker,
        side: order.side,
        action: opposite_action(order.action),
        client_order_id: id,
        count: order.fill_count,
        order_type: OrderType::Market,
        yes_price: None,
        no_price: None,
        expiration_ts: None,
        time_in_force: None,
    }
}

/// A status after which an order no longer rests.
pub open spec fn terminal_status(status: Seq<char>) -> bool {
    status == "executed"@ || status == "canceled"@ || status == "cancelled"@ || status
        == "expired"@ || status == "rejected"@
}

/// The order counts as a filled leg: the exchange says it executed, or
/// it filled at least the quantity asked for.
pub open spec fn is_filled(order: OrderModel, qty: int) -> bool {
    order.status == "executed"@ || order.fill_count >= qty
}

/// The order still rests on the book.
pub open spec fn is_open(order: OrderModel) -> bool {
    order.remaining_count > 0 && !terminal_status(order.status)
}

/// The order rests and can be named in a cancel.
pub open spec fn is_cancellable(order: OrderModel) -> bool {
    is_open(order) && order.order_id.len() > 0
}

/// The order counts as filled and has a fill to flatten.
pub open spec fn is_unwindable(order: OrderModel, qty: int) -> bool {
    is_filled(order, qty) && order.fill_count > 0
}

/// The entry carries an order and no error.
pub open spec fn entry_ok(entry: BatchOrderEntry) -> bool {
    entry.error is None && entry.order is Some
}

/// The orders of the entries that carry one and no error, in order.
pub open spec fn accepted_orders(entries: Seq<BatchOrderEntry>) -> Seq<OrderModel>
    decreases entries.len(),
{
    if entries.len() == 0 {
        Seq::empty()
    } else if entry_ok(entries.last()) {
        accepted_orders(entries.drop_last()).push(entries.last().order->0@)
    } else {
        accepted_orders(entries.drop_last())
    }
}

/// The orders that count as filled legs, in order.
pub open spec fn filled_among(orders: Seq<OrderModel>, qty: int) -> Seq<OrderModel>
    decreases orders.len(),
{
    if orders.len() == 0 {
        Seq::empty()
    } else if is_filled(orders.last(), qty) {
        filled_among(orders.drop_last(), qty).push(orders.last())
    } else {
        filled_among(orders.drop_last(), qty)
    }
}

/// The filled legs that have a fill to flatten, in order.
pub open spec fn unwindable_among(orders: Seq<OrderModel>, qty: int) -> Seq<OrderModel>
    decreases orders.len(),
{
    if orders.len() == 0 {
        Seq::empty()
    } else if is_unwindable(orders.last(), qty) {
        unwindable_among(orders.drop_last(), qty).push(orders.last())
    } else {
        unwindable_among(orders.drop_last(), qty)
    }
}

/// The orders that rest and can be cancelled, in order.
pub open spec fn cancellable_among(orders: Seq<OrderModel>) -> Seq<OrderModel>
    decreases orders.len(),
{
    if orders.len() == 0 {
        Seq::empty()
    } else if is_cancellable(orders.last()) {
        cancellable_among(orders.drop_last()).push(orders.last())
    } else {
        cancellable_among(orders.drop_last())
    }
}

/// How the exchange's answer to a batch is read.
#[derive(Clone, Copy, Debug, PartialEq, Eq, Structural)]
pub enum BatchVerdict {
    /// No entry carried an order.
    Failed,
    /// Every entry carried an order that filled.
    Complete,
    /// Some entry carried an order, and no order filled.
    NoFill,
    /// Some orders filled, and some entry carried an error or an order
    /// that did not fill.
    Partial,
}

/// The reading of a batch answer for a quantity of `qty` per leg. The
/// filled legs are held against all entries of the answer, so that an
/// entry with an error counts as a leg that did not fill.
pub open spec fn batch_verdict(entries: Seq<BatchOrderEntry>, qty: int) -> BatchVerdict {
    let orders = accepted_orders(entries);
    let filled = filled_among(orders, qty);
    if orders.len() == 0 {
        BatchVerdict::Failed
    } else if filled.len() == entries.len() {
        BatchVerdict::Complete
    } else if filled.len() == 0 {
        BatchVerdict::NoFill
    } else {
        BatchVerdict::Partial
    }
}

/// Filled legs never outnumber the orders.
pub proof fn lemma_filled_bounded(orders: Seq<OrderModel>, qty: int)
    ensures
        filled_among(orders, qty).len() <= orders.len(),
        unwindable_among(orders, qty).len() <= filled_among(orders, qty).len(),
        cancellable_among(orders).len() <= orders.len(),
    decreases orders.len(),
{
    if orders.len() > 0 {
        lemma_filled_bounded(orders.drop_last(), qty);
    }
}

/// Whether `status` is one after which an order no longer rests.
pub fn is_terminal_status(status: &str) -> (r: bool)
    ensures
        r == terminal_status(status@),
{
    same_text(status, "executed") || same_text(status, "canceled") || same_text(
        status,
        "cancelled",
    ) || same_text(status, "expired") || same_text(status, "rejected")
}

fn order_is_filled(order: &OrderInfo, qty: i64) -> (r: bool)
    ensures
        r == is_filled(order@, qty as int),
{
    same_text(order.status.as_str(), "executed") || order.fill_count >= qty
}

fn order_is_open(order: &OrderInfo) -> (r: bool)
    ensures
        r == is_open(order@),
{
    order.remaining_count > 0 && !is_terminal_status(order.status.as_str())
}

/// What a batch answer comes to: its verdict, the resting orders to
/// cancel and the filled legs to flatten.
pub struct BatchAssessment {
    pub verdict: BatchVerdict,
    pub to_cancel: Vec<OrderInfo>,
    pub to_unwind: Vec<OrderInfo>,
    /// Entries that carried an error, or neither an order nor an error.
    pub errored: usize,
}

/// Reads the exchange's answer to a batch of `qty` contracts per leg.
pub fn assess_batch(entries: &[BatchOrderEntry], qty: i64) -> (a: BatchAssessment)
    ensures
        a.verdict == batch_verdict(entries@, qty as int),
        order_models(a.to_cancel@) == cancellable_among(accepted_orders(entries@)),
        order_models(a.to_unwind@) == unwindable_among(accepted_orders(entries@), qty as int),
        a.errored == entries@.len() - accepted_orders(entries@).len(),
{
    let mut to_cancel: Vec<OrderInfo> = Vec::new();
    let mut to_unwind: Vec<OrderInfo> = Vec::new();
    let mut accepted: usize = 0;
    let mut filled: usize = 0;
    let mut i: usize = 0;
    while i < entries.len()
        invariant
            i <= entries.len(),
            accepted == accepted_orders(entries@.take(i as int)).len(),
            accepted <= i,
            filled == filled_among(accepted_orders(entries@.take(i as int)), qty as int).len(),
            filled <= accepted,
            order_models(to_cancel@) == cancellable_among(
                accepted_orders(entries@.take(i as int)),
            ),
            order_models(to_unwind@) == unwindable_among(
                accepted_orders(entries@.take(i as int)),
                qty as int,
            ),
        decreases entries.len() - i,
    {
        let entry = &entries[i];
        let ghost before = accepted_orders(entries@.take(i as int));
        proof {
            let next = entries@.take(i + 1);
            assert(next.drop_last() =~= entries@.take(i as int));
            assert(next.last() == entries@[i as int]);
        }
        if entry.error.is_none() {
            match &entry.order {
                Some(order) => {
                    let ghost after = before.push(order@);
                    assert(accepted_orders(entries@.take(i + 1)) == after);
                    assert(after.drop_last() =~= before);
                    accepted += 1;
                    if order_is_filled(order, qty) {
                        filled += 1;
                        if order.fill_count > 0 {
                            let ghost old_models = order_models(to_unwind@);
                            to_unwind.push(order.duplicate());
                            assert(order_models(to_unwind@) =~= old_models.push(order@));
                        }
                    }
                    if order_is_open(order) && !order.order_id.as_str().is_empty() {
                        let ghost old_models = order_models(to_cancel@);
                        to_cancel.push(order.duplicate());
                        assert(order_models(to_cancel@) =~= old_models.push(order@));
                    }
                },
                None => {},
            }
        }
        i += 1;
    }
    assert(entries@.take(entries@.len() as int) =~= entries@);
    let verdict = if accepted == 0 {
        BatchVerdict::Failed
    } else if filled == entries.len() {
        BatchVerdict::Complete
    } else if filled == 0 {
        BatchVerdict::NoFill
    } else {
        BatchVerdict::Partial
    };
    BatchAssessment { verdict, to_cancel, to_unwind, errored: entries.len() - accepted }
}

/// The batch of `opp`, or `None` when the opportunity cannot be
/// submitted. Each request gets a fresh identifier.
pub fn build_orders(opp: &ArbOpportunity, slippage_buffer: i64) -> (r: Option<Vec<CreateOrderRequest>>)
    ensures
        r is Some <==> executable(opp@, slippage_buffer as int),
        r matches Some(requests) ==> is_batch_of(
            request_models(requests@),
            opp@,
            slippage_buffer as int,
        ),
{
    if opp.qty <= 0 || opp.legs.len() == 0 {
        return None;
    }
    let mut requests: Vec<CreateOrderRequest> = Vec::new();
    let mut i: usize = 0;
    while i < opp.legs.len()
        invariant
            i <= opp.legs.len(),
            requests@.len() == i,
            opp.qty > 0,
            forall|j: int|
                0 <= j < i ==> valid_order_price(
                    limit_price(
                        opp@.direction,
                        (#[trigger] opp@.legs[j]).price_cents,
                        slippage_buffer as int,
                    ),
                ),
            forall|j: int|
                0 <= j < i ==> (#[trigger] requests@[j])@ == planned_request(
                    opp@,
                    opp@.legs[j],
                    slippage_buffer as int,
                    requests@[j].client_order_id@,
                ),
        decreases opp.legs.len() - i,
    {
        let leg = &opp.legs[i];
        assert(opp@.legs[i as int] == leg@);
        let limit: i128 = match opp.direction {
            ArbDirection::BuySet => leg.price_cents as i128 + slippage_buffer as i128,
            ArbDirection::SellSet => leg.price_cents as i128 - slippage_buffer as i128,
        };
        if limit < 1 || limit > 99 {
            return None;
        }
        let action = match opp.direction {
            ArbDirection::BuySet => Action::Buy,
            ArbDirection::SellSet => Action::Sell,
        };
        let (yes_price, no_price): (Option<i64>, Option<i64>) = match leg.side {
            Side::Yes => (Some(limit as i64), None),
            Side::No => (None, Some(limit as i64)),
        };
        requests.push(
            CreateOrderRequest {
                ticker: leg.ticker.clone(),
                side: leg.side,
                action,
                client_order_id: fresh_order_id(),
                count: opp.qty,
                order_type: OrderType::Limit,
                yes_price,
                no_price,
                expiration_ts: None,
                time_in_force: Some(String::from_str("fill_or_kill")),
            },
        );
        i += 1;
    }
    assert(request_models(requests@).len() == opp@.legs.len());
    Some(requests)
}

/// The market order that flattens `order`, under a fresh identifier.
pub fn build_unwind(order: &OrderInfo) -> (r: CreateOrderRequest)
    ensures
        r@ == unwind_request(order@, r.client_order_id@),
{
    CreateOrderRequest {
        ticker: order.ticker.clone(),
        side: order.side,
        action: order.action.opposite(),
        client_order_id: fresh_order_id(),
        count: order.fill_count,
        order_type: OrderType::Market,
        yes_price: None,
        no_price: None,
        expiration_ts: None,
        time_in_force: None,
    }
}

/// An unwind went through: the exchange says the order executed, or it
/// filled at least the count asked for.
pub open spec fn unwind_done(status: Seq<char>, fill_count: int, requested: int) -> bool {
    fill_count >= requested || status == "executed"@
}

/// How a partial fill ends: unwound only if every cancel and every
/// unwind went through.
pub open spec fn partial_outcome(cancels_ok: bool, unwinds_ok: bool) -> ExecutionOutcome {
    if cancels_ok && unwinds_ok {
        ExecutionOutcome::PartialFillUnwound
    } else {
        ExecutionOutcome::PartialFillUnwindFailed
    }
}

/// Where an execution stands.
#[derive(Clone, Copy, Debug, PartialEq, Eq, Structural)]
pub enum Phase {
    /// The batch is with the exchange.
    Submitted,
    /// A cancel is with the exchange.
    Cancelling,
    /// Pausing before a cancel is tried again.
    CancelPause,
    /// An unwind order is with the exchange.
    Unwinding,
    /// Pausing before an unwind is tried again.
    UnwindPause,
    /// Pausing after a leg of the unwind.
    UnwindPacing,
    /// The outcome has been given.
    Finished,
}

/// What the caller reports to the executor.
pub enum ExecEvent {
    /// The exchange answered the batch with these entries.
    BatchAnswered(Vec<BatchOrderEntry>),
    /// The batch could not be delivered.
    BatchFailed,
    /// The exchange answered a cancel; `true` when the order is gone.
    CancelAnswered(bool),
    /// A pause has passed.
    Waited,
    /// The exchange answered an unwind with the status and fill count of
    /// its first order (`unknown` and zero when it named none).
    UnwindAnswered { status: String, fill_count: i64 },
    /// The unwind could not be delivered.
    UnwindFailed,
}

/// What the executor asks the caller to do.
pub enum ExecAction {
    /// Submit these requests as one batch.
    Submit(Vec<CreateOrderRequest>),
    /// Cancel the order with this identifier.
    Cancel(String),
    /// Pause for this many milliseconds.
    Wait(u64),
    /// Submit this market order as a batch of one.
    Unwind(CreateOrderRequest),
    /// Stop: this is the outcome.
    Done(ExecutionOutcome),
}

/// An action as the transition function names it.
pub enum Step {
    Cancel(Seq<char>),
    Wait(u64),
    Unwind(OrderModel),
    Done(ExecutionOutcome),
}

/// An execution as a mathematical value.
pub struct ExecutionModel {
    pub phase: Phase,
    pub policy: UnwindPolicy,
    /// Contracts asked for per leg.
    pub qty: int,
    /// Resting orders to cancel, in order.
    pub to_cancel: Seq<OrderModel>,
    /// Filled legs to flatten, in order.
    pub to_unwind: Seq<OrderModel>,
    /// Position in the list that is being worked.
    pub cursor: int,
    /// Number of the attempt in flight on the current item, from 1.
    pub attempt: int,
    pub cancels_ok: bool,
    pub unwinds_ok: bool,
    /// Whether some, but not all, legs filled.
    pub partial: bool,
}

/// What holds of every execution in flight.
pub open spec fn execution_invariant(m: ExecutionModel) -> bool {
    &&& (m.phase == Phase::Cancelling || m.phase == Phase::CancelPause) ==> 0 <= m.cursor
        < m.to_cancel.len() && 1 <= m.attempt <= 3
    &&& m.phase == Phase::CancelPause ==> m.attempt < 3
    &&& (m.phase == Phase::Unwinding || m.phase == Phase::UnwindPause || m.phase
        == Phase::UnwindPacing) ==> 0 <= m.cursor < m.to_unwind.len() && 1 <= m.attempt <= 3
    &&& m.phase == Phase::UnwindPause ==> m.attempt < 3
    &&& m.to_cancel.len() <= usize::MAX
    &&& m.to_unwind.len() <= usize::MAX
}

/// The execution ends with `outcome`.
pub open spec fn finish(m: ExecutionModel, outcome: ExecutionOutcome) -> (ExecutionModel, Step) {
    (ExecutionModel { phase: Phase::Finished, ..m }, Step::Done(outcome))
}

/// Moves on to the filled leg at position `k`, or ends the execution when
/// every leg has been dealt with.
pub open spec fn next_unwind(m: ExecutionModel, k: int) -> (ExecutionModel, Step) {
    if 0 <= k < m.to_unwind.len() {
        (
            ExecutionModel { phase: Phase::Unwinding, cursor: k, attempt: 1, ..m },
            Step::Unwind(m.to_unwind[k]),
        )
    } else {
        finish(m, partial_outcome(m.cancels_ok, m.unwinds_ok))
    }
}

/// What follows the cancels: nothing more after a batch without fills;
/// after a partial fill the unwind, unless the policy leaves the fills
/// alone, in which case the execution counts as not unwound.
pub open spec fn after_cancels(m: ExecutionModel) -> (ExecutionModel, Step) {
    if !m.partial {
        finish(m, ExecutionOutcome::NoFill)
    } else if m.policy == UnwindPolicy::CancelOnly {
        finish(m, ExecutionOutcome::PartialFillUnwindFailed)
    } else {
        next_unwind(m, 0)
    }
}

/// Moves on to the resting order at position `k`, or to what follows the
/// cancels when every order has been dealt with.
pub open spec fn next_cancel(m: ExecutionModel, k: int) -> (ExecutionModel, Step) {
    if 0 <= k < m.to_cancel.len() {
        (
            ExecutionModel { phase: Phase::Cancelling, cursor: k, attempt: 1, ..m },
            Step::Cancel(m.to_cancel[k].order_id),
        )
    } else {
        after_cancels(m)
    }
}

/// An unwind attempt did not go through: pause and try again, or after the
/// third attempt give the leg up.
pub open spec fn unwind_missed(m: ExecutionModel) -> (ExecutionModel, Step) {
    if m.attempt < 3 {
        (ExecutionModel { phase: Phase::UnwindPause, ..m }, Step::Wait(150))
    } else {
        (ExecutionModel { phase: Phase::UnwindPacing, unwinds_ok: false, ..m }, Step::Wait(50))
    }
}

/// The executor's reaction to an event. An event that does not fit the
/// phase ends the execution as failed.
pub open spec fn transition(m: ExecutionModel, event: ExecEvent) -> (ExecutionModel, Step) {
    match (m.phase, event) {
        (Phase::Submitted, ExecEvent::BatchFailed) => finish(m, ExecutionOutcome::Failed),
        (Phase::Submitted, ExecEvent::BatchAnswered(entries)) => {
            let sorted = ExecutionModel {
                to_cancel: cancellable_among(accepted_orders(entries@)),
                to_unwind: unwindable_among(accepted_orders(entries@), m.qty),
                ..m
            };
            match batch_verdict(entries@, m.qty) {
                BatchVerdict::Failed => finish(m, ExecutionOutcome::Failed),
                BatchVerdict::Complete => finish(m, ExecutionOutcome::CompleteFill),
                BatchVerdict::NoFill => next_cancel(ExecutionModel { partial: false, ..sorted }, 0),
                BatchVerdict::Partial => next_cancel(ExecutionModel { partial: true, ..sorted }, 0),
            }
        },
        (Phase::Cancelling, ExecEvent::CancelAnswered(gone)) => {
            if gone {
                next_cancel(m, m.cursor + 1)
            } else if m.attempt < 3 {
                (ExecutionModel { phase: Phase::CancelPause, ..m }, Step::Wait(100))
            } else {
                next_cancel(ExecutionModel { cancels_ok: false, ..m }, m.cursor + 1)
            }
        },
        (Phase::CancelPause, ExecEvent::Waited) => (
            ExecutionModel { phase: Phase::Cancelling, attempt: m.attempt + 1, ..m },
            Step::Cancel(m.to_cancel[m.cursor].order_id),
        ),
        (Phase::Unwinding, ExecEvent::UnwindAnswered { status, fill_count }) => {
            if unwind_done(status@, fill_count as int, m.to_unwind[m.cursor].fill_count) {
                (ExecutionModel { phase: Phase::UnwindPacing, ..m }, Step::Wait(50))
            } else {
                unwind_missed(m)
            }
        },
        (Phase::Unwinding, ExecEvent::UnwindFailed) => unwind_missed(m),
        (Phase::UnwindPause, ExecEvent::Waited) => (
            ExecutionModel { phase: Phase::Unwinding, attempt: m.attempt + 1, ..m },
            Step::Unwind(m.to_unwind[m.cursor]),
        ),
        (Phase::UnwindPacing, ExecEvent::Waited) => next_unwind(m, m.cursor + 1),
        _ => finish(m, ExecutionOutcome::Failed),
    }
}

/// `action` is what `step` names: the same kind with the same content. An
/// unwind order carries an identifier of its own choosing.
pub open spec fn performs(action: ExecAction, step: Step) -> bool {
    match (action, step) {
        (ExecAction::Cancel(id), Step::Cancel(expected)) => id@ == expected,
        (ExecAction::Wait(ms), Step::Wait(expected)) => ms == expected,
        (ExecAction::Unwind(request), Step::Unwind(order)) => request@ == unwind_request(
            order,
            request.client_order_id@,
        ),
        (ExecAction::Done(outcome), Step::Done(expected)) => outcome == expected,
        _ => false,
    }
}

/// Every reaction keeps the invariant, and no item is ever tried more than
/// three times.
pub proof fn lemma_transition_keeps_invariant(m: ExecutionModel, event: ExecEvent)
    requires
        execution_invariant(m),
        event matches ExecEvent::BatchAnswered(entries) ==> entries@.len() <= usize::MAX,
    ensures
        execution_invariant(transition(m, event).0),
        transition(m, event).0.attempt <= 3 || transition(m, event).0.attempt == m.attempt,
{
    match event {
        ExecEvent::BatchAnswered(entries) => {
            lemma_filled_bounded(accepted_orders(entries@), m.qty);
            lemma_accepted_bounded(entries@);
        },
        _ => {},
    }
}

/// Accepted orders never outnumber the entries.
pub proof fn lemma_accepted_bounded(entries: Seq<BatchOrderEntry>)
    ensures
        accepted_orders(entries).len() <= entries.len(),
    decreases entries.len(),
{
    if entries.len() > 0 {
        lemma_accepted_bounded(entries.drop_last());
    }
}

/// An entry that carries an error, or no order, leaves the accepted
/// orders fewer than the entries.
pub proof fn lemma_errored_entry_counts(entries: Seq<BatchOrderEntry>, at: int)
    requires
        0 <= at < entries.len(),
        !entry_ok(entries[at]),
    ensures
        accepted_orders(entries).len() < entries.len(),
    decreases entries.len(),
{
    lemma_accepted_bounded(entries.drop_last());
    if at < entries.len() - 1 {
        assert(entries.drop_last()[at] == entries[at]);
        lemma_errored_entry_counts(entries.drop_last(), at);
    }
}

/// A batch with an entry that carries an error is never a complete fill:
/// where an order filled it is a partial fill, and the filled legs are
/// cancelled around and unwound.
pub proof fn lemma_error_entry_is_never_complete(
    m: ExecutionModel,
    entries: Vec<BatchOrderEntry>,
    at: int,
)
    requires
        m.phase == Phase::Submitted,
        0 <= at < entries@.len(),
        !entry_ok(entries@[at]),
    ensures
        batch_verdict(entries@, m.qty) != BatchVerdict::Complete,
        transition(m, ExecEvent::BatchAnswered(entries)).1 != Step::Done(
            ExecutionOutcome::CompleteFill,
        ),
        filled_among(accepted_orders(entries@), m.qty).len() > 0 ==> batch_verdict(
            entries@,
            m.qty,
        ) == BatchVerdict::Partial && transition(m, ExecEvent::BatchAnswered(entries)).0.partial,
{
    lemma_errored_entry_counts(entries@, at);
    lemma_filled_bounded(accepted_orders(entries@), m.qty);
    let sorted = ExecutionModel {
        to_cancel: cancellable_among(accepted_orders(entries@)),
        to_unwind: unwindable_among(accepted_orders(entries@), m.qty),
        ..m
    };
    lemma_cancel_keeps_partial(ExecutionModel { partial: true, ..sorted }, 0);
    lemma_cancel_keeps_partial(ExecutionModel { partial: false, ..sorted }, 0);
}

/// Moving on to a cancel, or past the cancels, never ends in a complete
/// fill and leaves the mark of a partial fill as it is.
pub proof fn lemma_cancel_keeps_partial(m: ExecutionModel, k: int)
    ensures
        next_cancel(m, k).0.partial == m.partial,
        next_cancel(m, k).1 != Step::Done(ExecutionOutcome::CompleteFill),
{
}

/// What is cancelled rests on the book, and what is unwound is a filled
/// leg with a fill: an order that the exchange reports as executed is
/// never named in a cancel, and an order without a fill is never unwound.
pub proof fn lemma_sorted_orders(orders: Seq<OrderModel>, qty: int)
    ensures
        forall|k: int|
            0 <= k < cancellable_among(orders).len() ==> is_cancellable(
                #[trigger] cancellable_among(orders)[k],
            ) && cancellable_among(orders)[k].status != "executed"@,
        forall|k: int|
            0 <= k < unwindable_among(orders, qty).len() ==> is_unwindable(
                #[trigger] unwindable_among(orders, qty)[k],
                qty,
            ),
    decreases orders.len(),
{
    if orders.len() > 0 {
        lemma_sorted_orders(orders.drop_last(), qty);
        let earlier = unwindable_among(orders.drop_last(), qty);
        let all = unwindable_among(orders, qty);
        assert forall|k: int| 0 <= k < all.len() implies is_unwindable(#[trigger] all[k], qty) by {
            if k < earlier.len() {
                assert(all[k] == earlier[k]);
            }
        }
        let resting = cancellable_among(orders.drop_last());
        let cancels = cancellable_among(orders);
        assert forall|k: int| 0 <= k < cancels.len() implies is_cancellable(#[trigger] cancels[k])
            && cancels[k].status != "executed"@ by {
            if k < resting.len() {
                assert(cancels[k] == resting[k]);
            }
        }
    }
}

/// A batch of two legs of which the first is reported as executed, with
/// a fill, and the second rests unfilled on the book: the fill is
/// partial, the resting order alone is to be cancelled and the filled
/// order alone is to be unwound, and the first thing asked for is the
/// cancel of the resting order.
pub proof fn lemma_one_filled_one_resting(
    m: ExecutionModel,
    entries: Vec<BatchOrderEntry>,
    filled: OrderInfo,
    resting: OrderInfo,
)
    requires
        m.phase == Phase::Submitted,
        m.qty > 0,
        entries@.len() == 2,
        entry_ok(entries@[0]) && entries@[0].order == Some(filled),
        entry_ok(entries@[1]) && entries@[1].order == Some(resting),
        filled@.status == "executed"@ && filled@.fill_count > 0,
        is_cancellable(resting@) && !is_filled(resting@, m.qty),
    ensures
        batch_verdict(entries@, m.qty) == BatchVerdict::Partial,
        transition(m, ExecEvent::BatchAnswered(entries)).0 == (ExecutionModel {
            phase: Phase::Cancelling,
            to_cancel: seq![resting@],
            to_unwind: seq![filled@],
            cursor: 0,
            attempt: 1,
            partial: true,
            ..m
        }),
        transition(m, ExecEvent::BatchAnswered(entries)).1 == Step::Cancel(resting@.order_id),
{
    reveal_with_fuel(accepted_orders, 3);
    reveal_with_fuel(filled_among, 3);
    reveal_with_fuel(cancellable_among, 3);
    reveal_with_fuel(unwindable_among, 3);
    let one = entries@.drop_last();
    assert(one.len() == 1);
    assert(one.last() == entries@[0]);
    assert(one.drop_last().len() == 0);
    let orders = accepted_orders(entries@);
    assert(orders =~= seq![filled@, resting@]);
    let first = orders.drop_last();
    assert(first =~= seq![filled@]);
    assert(first.drop_last().len() == 0);
    assert(filled_among(orders, m.qty) =~= seq![filled@]);
    assert(cancellable_among(orders) =~= seq![resting@]);
    assert(unwindable_among(orders, m.qty) =~= seq![filled@]);
}

/// A cancel that did not go through is tried again after a pause of 100
/// milliseconds, the same order each time, three times in all; after
/// the third miss, or once the order is gone, the executor moves on to
/// the next order and never comes back to this one.
pub proof fn lemma_cancel_is_tried_three_times(m: ExecutionModel)
    requires
        execution_invariant(m),
        m.phase == Phase::Cancelling,
    ensures
        transition(m, ExecEvent::CancelAnswered(true)) == next_cancel(m, m.cursor + 1),
        m.attempt < 3 ==> transition(m, ExecEvent::CancelAnswered(false)) == (
            ExecutionModel { phase: Phase::CancelPause, ..m },
            Step::Wait(100),
        ) && transition(ExecutionModel { phase: Phase::CancelPause, ..m }, ExecEvent::Waited) == (
            ExecutionModel { attempt: m.attempt + 1, ..m },
            Step::Cancel(m.to_cancel[m.cursor].order_id),
        ),
        m.attempt >= 3 ==> transition(m, ExecEvent::CancelAnswered(false)) == next_cancel(
            ExecutionModel { cancels_ok: false, ..m },
            m.cursor + 1,
        ),
        m.attempt <= 3,
{
}

/// An unwind is a market order without a price, for the fill count of
/// the filled order, on its side, in the opposite action.
pub proof fn lemma_unwind_order(order: OrderModel, id: Seq<char>)
    ensures
        unwind_request(order, id).ticker == order.ticker,
        unwind_request(order, id).side == order.side,
        unwind_request(order, id).action != order.action,
        unwind_request(order, id).count == order.fill_count,
        unwind_request(order, id).order_type == OrderType::Market,
        unwind_request(order, id).yes_price is None,
        unwind_request(order, id).no_price is None,
{
}

/// An unwind stops once an answer is reported as executed or has filled
/// the count asked for. One that did not go through is tried again after
/// a pause of 150 milliseconds, the same leg each time, three times in
/// all; after the third miss the leg is given up and the execution
/// counts as not unwound.
pub proof fn lemma_unwind_is_tried_three_times(m: ExecutionModel, status: String, fill_count: i64)
    requires
        execution_invariant(m),
        m.phase == Phase::Unwinding,
    ensures
        unwind_done(status@, fill_count as int, m.to_unwind[m.cursor].fill_count) ==> transition(
            m,
            ExecEvent::UnwindAnswered { status, fill_count },
        ) == (ExecutionModel { phase: Phase::UnwindPacing, ..m }, Step::Wait(50)),
        !unwind_done(status@, fill_count as int, m.to_unwind[m.cursor].fill_count) ==> transition(
            m,
            ExecEvent::UnwindAnswered { status, fill_count },
        ) == transition(m, ExecEvent::UnwindFailed),
        m.attempt < 3 ==> transition(m, ExecEvent::UnwindFailed) == (
            ExecutionModel { phase: Phase::UnwindPause, ..m },
            Step::Wait(150),
        ) && transition(ExecutionModel { phase: Phase::UnwindPause, ..m }, ExecEvent::Waited) == (
            ExecutionModel { attempt: m.attempt + 1, ..m },
            Step::Unwind(m.to_unwind[m.cursor]),
        ),
        m.attempt >= 3 ==> transition(m, ExecEvent::UnwindFailed) == (
            ExecutionModel { phase: Phase::UnwindPacing, unwinds_ok: false, ..m },
            Step::Wait(50),
        ),
        m.attempt <= 3,
        transition(ExecutionModel { phase: Phase::UnwindPacing, ..m }, ExecEvent::Waited)
            == next_unwind(ExecutionModel { phase: Phase::UnwindPacing, ..m }, m.cursor + 1),
{
}

/// The event is one that the phase awaits.
pub open spec fn awaited(phase: Phase, event: ExecEvent) -> bool {
    match (phase, event) {
        (Phase::Submitted, ExecEvent::BatchAnswered(_)) => true,
        (Phase::Submitted, ExecEvent::BatchFailed) => true,
        (Phase::Cancelling, ExecEvent::CancelAnswered(_)) => true,
        (Phase::CancelPause, ExecEvent::Waited) => true,
        (Phase::Unwinding, ExecEvent::UnwindAnswered { .. }) => true,
        (Phase::Unwinding, ExecEvent::UnwindFailed) => true,
        (Phase::UnwindPause, ExecEvent::Waited) => true,
        (Phase::UnwindPacing, ExecEvent::Waited) => true,
        _ => false,
    }
}

/// After a partial fill the execution ends as a partial fill: as
/// unwound where every cancel and every unwind went through, and as not
/// unwound otherwise; never as a complete fill, as no fill or as
/// rejected. A miss is never forgotten: once a cancel or an unwind has
/// been given up, the execution cannot end as unwound.
pub proof fn lemma_partial_fill_ends_partial(m: ExecutionModel, event: ExecEvent)
    requires
        execution_invariant(m),
        m.partial,
        m.phase != Phase::Submitted,
        awaited(m.phase, event),
    ensures
        transition(m, event).0.partial,
        !m.cancels_ok ==> !transition(m, event).0.cancels_ok,
        !m.unwinds_ok ==> !transition(m, event).0.unwinds_ok,
        transition(m, event).1 matches Step::Done(outcome) ==> outcome == partial_outcome(
            transition(m, event).0.cancels_ok,
            transition(m, event).0.unwinds_ok,
        ) || (outcome == ExecutionOutcome::PartialFillUnwindFailed && m.policy
            == UnwindPolicy::CancelOnly),
{
}

/// A batch in which every entry carried an order that filled ends as a
/// complete fill, one in which none filled ends, cancels done, as no
/// fill, and one that carried no order at all ends as failed.
pub proof fn lemma_batch_classification(m: ExecutionModel, entries: Vec<BatchOrderEntry>)
    requires
        m.phase == Phase::Submitted,
    ensures
        batch_verdict(entries@, m.qty) == BatchVerdict::Complete ==> transition(
            m,
            ExecEvent::BatchAnswered(entries),
        ).1 == Step::Done(ExecutionOutcome::CompleteFill),
        batch_verdict(entries@, m.qty) == BatchVerdict::Failed ==> transition(
            m,
            ExecEvent::BatchAnswered(entries),
        ).1 == Step::Done(ExecutionOutcome::Failed),
        batch_verdict(entries@, m.qty) == BatchVerdict::NoFill && cancellable_among(
            accepted_orders(entries@),
        ).len() == 0 ==> transition(m, ExecEvent::BatchAnswered(entries)).1 == Step::Done(
            ExecutionOutcome::NoFill,
        ),
{
}

/// One execution in flight.
pub struct ArbExecution {
    phase: Phase,
    policy: UnwindPolicy,
    qty: i64,
    to_cancel: Vec<OrderInfo>,
    to_unwind: Vec<OrderInfo>,
    cursor: usize,
    attempt: u32,
    cancels_ok: bool,
    unwinds_ok: bool,
    partial: bool,
}

impl View for ArbExecution {
    type V = ExecutionModel;

    closed spec fn view(&self) -> ExecutionModel {
        ExecutionModel {
            phase: self.phase,
            policy: self.policy,
            qty: self.qty as int,
            to_cancel: order_models(self.to_cancel@),
            to_unwind: order_models(self.to_unwind@),
            cursor: self.cursor as int,
            attempt: self.attempt as int,
            cancels_ok: self.cancels_ok,
            unwinds_ok: self.unwinds_ok,
            partial: self.partial,
        }
    }
}

impl ArbExecution {
    /// The invariant of an execution in flight.
    pub open spec fn wf(&self) -> bool {
        execution_invariant(self@)
    }

    /// Whether the execution has given its outcome.
    pub fn is_finished(&self) -> (r: bool)
        ensures
            r == (self@.phase == Phase::Finished),
    {
        self.phase == Phase::Finished
    }

    fn finish(&mut self, outcome: ExecutionOutcome) -> (action: ExecAction)
        ensures
            final(self)@ == finish(old(self)@, outcome).0,
            performs(action, finish(old(self)@, outcome).1),
    {
        self.phase = Phase::Finished;
        ExecAction::Done(outcome)
    }

    fn next_unwind(&mut self, k: usize) -> (action: ExecAction)
        ensures
            final(self)@ == next_unwind(old(self)@, k as int).0,
            performs(action, next_unwind(old(self)@, k as int).1),
    {
        if k < self.to_unwind.len() {
            self.phase = Phase::Unwinding;
            self.cursor = k;
            self.attempt = 1;
            let request = build_unwind(&self.to_unwind[k]);
            ExecAction::Unwind(request)
        } else {
            let outcome = if self.cancels_ok && self.unwinds_ok {
                ExecutionOutcome::PartialFillUnwound
            } else {
                ExecutionOutcome::PartialFillUnwindFailed
            };
            self.finish(outcome)
        }
    }

    fn after_cancels(&mut self) -> (action: ExecAction)
        ensures
            final(self)@ == after_cancels(old(self)@).0,
            performs(action, after_cancels(old(self)@).1),
    {
        if !self.partial {
            self.finish(ExecutionOutcome::NoFill)
        } else if self.policy == UnwindPolicy::CancelOnly {
            self.finish(ExecutionOutcome::PartialFillUnwindFailed)
        } else {
            self.next_unwind(0)
        }
    }

    fn next_cancel(&mut self, k: usize) -> (action: ExecAction)
        ensures
            final(self)@ == next_cancel(old(self)@, k as int).0,
            performs(action, next_cancel(old(self)@, k as int).1),
    {
        if k < self.to_cancel.len() {
            self.phase = Phase::Cancelling;
            self.cursor = k;
            self.attempt = 1;
            ExecAction::Cancel(self.to_cancel[k].order_id.clone())
        } else {
            self.after_cancels()
        }
    }

    fn unwind_missed(&mut self) -> (action: ExecAction)
        ensures
            final(self)@ == unwind_missed(old(self)@).0,
            performs(action, unwind_missed(old(self)@).1),
    {
        if self.attempt < UNWIND_RETRIES {
            self.phase = Phase::UnwindPause;
            ExecAction::Wait(UNWIND_BACKOFF_MS)
        } else {
            self.phase = Phase::UnwindPacing;
            self.unwinds_ok = false;
            ExecAction::Wait(UNWIND_PACING_MS)
        }
    }

    /// Reads the answer to the batch and says what to do next.
    fn take_answer(&mut self, entries: Vec<BatchOrderEntry>) -> (action: ExecAction)
        requires
            old(self).wf(),
            old(self)@.phase == Phase::Submitted,
        ensures
            final(self).wf(),
            final(self)@ == transition(old(self)@, ExecEvent::BatchAnswered(entries)).0,
            performs(action, transition(old(self)@, ExecEvent::BatchAnswered(entries)).1),
    {
        proof {
            lemma_filled_bounded(accepted_orders(entries@), self@.qty);
            lemma_accepted_bounded(entries@);
            assert(entries@.len() == entries.len());
        }
        let assessment = assess_batch(entries.as_slice(), self.qty);
        match assessment.verdict {
            BatchVerdict::Failed => self.finish(ExecutionOutcome::Failed),
            BatchVerdict::Complete => self.finish(ExecutionOutcome::CompleteFill),
            BatchVerdict::NoFill => {
                self.to_cancel = assessment.to_cancel;
                self.to_unwind = assessment.to_unwind;
                self.partial = false;
                self.next_cancel(0)
            },
            BatchVerdict::Partial => {
                self.to_cancel = assessment.to_cancel;
                self.to_unwind = assessment.to_unwind;
                self.partial = true;
                self.next_cancel(0)
            },
        }
    }

    /// Takes what happened and says what to do next.
    pub fn step(&mut self, event: ExecEvent) -> (action: ExecAction)
        requires
            old(self).wf(),
        ensures
            final(self).wf(),
            final(self)@ == transition(old(self)@, event).0,
            performs(action, transition(old(self)@, event).1),
    {
        match event {
            ExecEvent::BatchFailed => {
                if self.phase == Phase::Submitted {
                    self.finish(ExecutionOutcome::Failed)
                } else {
                    self.finish(ExecutionOutcome::Failed)
                }
            },
            ExecEvent::BatchAnswered(entries) => {
                if self.phase == Phase::Submitted {
                    self.take_answer(entries)
                } else {
                    self.finish(ExecutionOutcome::Failed)
                }
            },
            ExecEvent::CancelAnswered(gone) => {
                if self.phase == Phase::Cancelling {
                    if gone {
                        self.next_cancel(self.cursor + 1)
                    } else if self.attempt < CANCEL_RETRIES {
                        self.phase = Phase::CancelPause;
                        ExecAction::Wait(CANCEL_BACKOFF_MS)
                    } else {
                        self.cancels_ok = false;
                        self.next_cancel(self.cursor + 1)
                    }
                } else {
                    self.finish(ExecutionOutcome::Failed)
                }
            },
            ExecEvent::Waited => {
                if self.phase == Phase::CancelPause {
                    self.phase = Phase::Cancelling;
                    self.attempt = self.attempt + 1;
                    ExecAction::Cancel(self.to_cancel[self.cursor].order_id.clone())
                } else if self.phase == Phase::UnwindPause {
                    self.phase = Phase::Unwinding;
                    self.attempt = self.attempt + 1;
                    ExecAction::Unwind(build_unwind(&self.to_unwind[self.cursor]))
                } else if self.phase == Phase::UnwindPacing {
                    self.next_unwind(self.cursor + 1)
                } else {
                    self.finish(ExecutionOutcome::Failed)
                }
            },
            ExecEvent::UnwindAnswered { status, fill_count } => {
                if self.phase == Phase::Unwinding {
                    let requested: i64 = self.to_unwind[self.cursor].fill_count;
                    if fill_count >= requested || same_text(status.as_str(), "executed") {
                        self.phase = Phase::UnwindPacing;
                        ExecAction::Wait(UNWIND_PACING_MS)
                    } else {
                        self.unwind_missed()
                    }
                } else {
                    self.finish(ExecutionOutcome::Failed)
                }
            },
            ExecEvent::UnwindFailed => {
                if self.phase == Phase::Unwinding {
                    self.unwind_missed()
                } else {
                    self.finish(ExecutionOutcome::Failed)
                }
            },
        }
    }
}

/// The policy named by a configuration: `cancel_only`, in any mix of ASCII
/// capitals and small letters, and crossing the spread for anything else.
pub open spec fn policy_of(name: Seq<char>) -> UnwindPolicy {
    if crate::text::ascii_lower(name) == crate::text::ascii_lower("cancel_only"@) {
        UnwindPolicy::CancelOnly
    } else {
        UnwindPolicy::CrossSpread
    }
}

/// What `execute` hands back: the batch to submit with the execution that
/// awaits its answer, or a rejection.
pub open spec fn started(
    run: ArbExecution,
    action: ExecAction,
    opp: OpportunityModel,
    slippage: int,
    policy: UnwindPolicy,
) -> bool {
    &&& run@.policy == policy
    &&& run@.qty == opp.qty
    &&& run@.cancels_ok && run@.unwinds_ok && !run@.partial
    &&& run@.to_cancel.len() == 0 && run@.to_unwind.len() == 0
    &&& if executable(opp, slippage) {
        run@.phase == Phase::Submitted && (action matches ExecAction::Submit(requests)
            && is_batch_of(request_models(requests@), opp, slippage))
    } else {
        run@.phase == Phase::Finished && action matches ExecAction::Done(
            ExecutionOutcome::Rejected,
        )
    }
}

/// Places batches and recovers from partial fills.
pub struct ArbExecutor {
    fees: ArbFeeModel,
    unwind_policy: UnwindPolicy,
}

impl ArbExecutor {
    /// An executor with the slippage buffer of `fees` and the unwind
    /// policy that `execution` names; any name but `cancel_only` means
    /// crossing the spread.
    pub fn new(fees: &ArbFeeModel, execution: &ExecutionConfig) -> (e: ArbExecutor)
        ensures
            e.fee_model() == *fees,
            e.policy() == policy_of(execution.unwind_policy@),
    {
        let unwind_policy = if crate::text::eq_ignore_ascii_case(
            execution.unwind_policy.as_str(),
            "cancel_only",
        ) {
            UnwindPolicy::CancelOnly
        } else {
            UnwindPolicy::CrossSpread
        };
        ArbExecutor { fees: *fees, unwind_policy }
    }

    /// The fee model whose slippage buffer sets the limits.
    pub closed spec fn fee_model(&self) -> ArbFeeModel {
        self.fees
    }

    /// The policy for partial fills.
    pub closed spec fn policy(&self) -> UnwindPolicy {
        self.unwind_policy
    }

    /// Begins the execution of `opp`. An opportunity with a limit outside
    /// 1 to 99 cents, without legs or without a positive quantity is
    /// rejected and nothing is submitted.
    pub fn execute(&self, opp: &ArbOpportunity) -> (r: (ArbExecution, ExecAction))
        ensures
            r.0.wf(),
            started(r.0, r.1, opp@, self.fee_model().slippage_buffer as int, self.policy()),
    {
        let mut run = ArbExecution {
            phase: Phase::Submitted,
            policy: self.unwind_policy,
            qty: opp.qty,
            to_cancel: Vec::new(),
            to_unwind: Vec::new(),
            cursor: 0,
            attempt: 1,
            cancels_ok: true,
            unwinds_ok: true,
            partial: false,
        };
        match build_orders(opp, self.fees.slippage_buffer) {
            Some(requests) => (run, ExecAction::Submit(requests)),
            None => {
                run.phase = Phase::Finished;
                (run, ExecAction::Done(ExecutionOutcome::Rejected))
            },
        }
    }
}

/// A buy whose limit after slippage exceeds 99 cents on any leg rejects
/// the whole opportunity: nothing is submitted for the other legs either.
pub proof fn lemma_one_bad_leg_rejects_all(opp: OpportunityModel, slippage: int, i: int)
    requires
        0 <= i < opp.legs.len(),
        opp.direction == ArbDirection::BuySet,
        opp.legs[i].price_cents + slippage > 99,
    ensures
        !executable(opp, slippage),
{
}

} // verus!
