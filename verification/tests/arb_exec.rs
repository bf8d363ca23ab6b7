use kalshi_core::arb::config::ExecutionConfig;
use kalshi_core::arb::cycle::{
    apply_outcome, balance_is_stale, balance_refresh_due, heartbeat_due, is_new_opportunity,
    same_opportunity,
};
use kalshi_core::arb::config::ArbRiskConfig;
use kalshi_core::arb::exec::{
    assess_batch, build_orders, build_unwind, is_terminal_status, outcome_label, ArbExecutor,
    BatchVerdict, ExecAction, ExecEvent, ExecutionOutcome,
};
use kalshi_core::arb::fees::ArbFeeModel;
use kalshi_core::arb::opportunity::{ArbDirection, ArbLeg, ArbOpportunity};
use kalshi_core::arb::risk::ArbRiskManager;
use kalshi_core::types::{
    Action, BatchOrderEntry, BatchOrderError, OrderInfo, OrderType, Side,
};

fn opp(direction: ArbDirection, legs: &[(&str, i64, Side)], qty: i64) -> ArbOpportunity {
    ArbOpportunity {
        group_event_ticker: "EVT".into(),
        direction,
        qty,
        gross_edge_cents: 10,
        net_edge_cents: 5,
        legs: legs
            .iter()
            .map(|(t, p, s)| ArbLeg { ticker: t.to_string(), price_cents: *p, side: *s })
            .collect(),
        reason: "test".into(),
    }
}

fn order(id: &str, ticker: &str, status: &str, fill: i64, remaining: i64) -> OrderInfo {
    OrderInfo {
        order_id: id.into(),
        client_order_id: String::new(),
        ticker: ticker.into(),
        side: Side::Yes,
        action: Action::Buy,
        order_type: OrderType::Limit,
        status: status.into(),
        yes_price: 40,
        no_price: 0,
        fill_count: fill,
        remaining_count: remaining,
        initial_count: fill + remaining,
        taker_fees: 0,
        maker_fees: 0,
    }
}

fn entry(o: OrderInfo) -> BatchOrderEntry {
    BatchOrderEntry { client_order_id: None, order: Some(o), error: None }
}

fn failed_entry() -> BatchOrderEntry {
    BatchOrderEntry {
        client_order_id: Some("c".into()),
        order: None,
        error: Some(BatchOrderError { code: Some("bad".into()), message: None }),
    }
}

fn executor(policy: &str, slippage: i64) -> ArbExecutor {
    ArbExecutor::new(
        &ArbFeeModel::new(slippage),
        &ExecutionConfig { time_in_force: "fok".into(), unwind_policy: policy.into() },
    )
}

fn done(action: &ExecAction) -> Option<ExecutionOutcome> {
    match action {
        ExecAction::Done(o) => Some(*o),
        _ => None,
    }
}

#[test]
fn batch_carries_slippage_and_fresh_identifiers() {
    let o = opp(ArbDirection::BuySet, &[("A", 40, Side::Yes), ("B", 55, Side::No)], 7);
    let orders = build_orders(&o, 2).expect("batch");
    assert_eq!(orders.len(), 2);
    assert_eq!(orders[0].ticker, "A");
    assert_eq!(orders[0].action, Action::Buy);
    assert_eq!(orders[0].side, Side::Yes);
    assert_eq!(orders[0].count, 7);
    assert_eq!(orders[0].order_type, OrderType::Limit);
    assert_eq!(orders[0].yes_price, Some(42));
    assert_eq!(orders[0].no_price, None);
    assert_eq!(orders[0].expiration_ts, None);
    assert_eq!(orders[0].time_in_force.as_deref(), Some("fill_or_kill"));
    assert_eq!(orders[1].yes_price, None);
    assert_eq!(orders[1].no_price, Some(57));
    assert_eq!(orders[0].client_order_id.len(), 36);
    assert_ne!(orders[0].client_order_id, orders[1].client_order_id);
    let s = opp(ArbDirection::SellSet, &[("A", 40, Side::Yes)], 3);
    let orders = build_orders(&s, 2).expect("batch");
    assert_eq!(orders[0].action, Action::Sell);
    assert_eq!(orders[0].yes_price, Some(38));
}

#[test]
fn one_bad_limit_rejects_the_whole_opportunity() {
    let o = opp(ArbDirection::BuySet, &[("A", 40, Side::Yes), ("B", 98, Side::Yes)], 7);
    assert!(build_orders(&o, 1).is_some());
    assert!(build_orders(&o, 2).is_none());
    let (run, action) = executor("cross_spread", 2).execute(&o);
    assert_eq!(done(&action), Some(ExecutionOutcome::Rejected));
    assert!(run.is_finished());
    let s = opp(ArbDirection::SellSet, &[("A", 2, Side::Yes)], 7);
    assert!(build_orders(&s, 1).is_some());
    assert!(build_orders(&s, 2).is_none());
    assert!(build_orders(&opp(ArbDirection::BuySet, &[("A", 40, Side::Yes)], 0), 0).is_none());
    assert!(build_orders(&opp(ArbDirection::BuySet, &[], 1), 0).is_none());
    assert!(build_orders(&opp(ArbDirection::BuySet, &[("A", i64::MAX, Side::Yes)], 1), i64::MAX).is_none());
}

#[test]
fn terminal_statuses() {
    for s in ["executed", "canceled", "cancelled", "expired", "rejected"] {
        assert!(is_terminal_status(s));
    }
    for s in ["resting", "pending", "", "Executed", "open"] {
        assert!(!is_terminal_status(s));
    }
}

#[test]
fn batch_answers_are_classified() {
    let all = vec![entry(order("1", "A", "executed", 5, 0)), entry(order("2", "B", "resting", 5, 0))];
    assert_eq!(assess_batch(&all, 5).verdict, BatchVerdict::Complete);
    let none = vec![entry(order("1", "A", "resting", 0, 5)), entry(order("2", "B", "canceled", 0, 5))];
    let a = assess_batch(&none, 5);
    assert_eq!(a.verdict, BatchVerdict::NoFill);
    assert_eq!(a.to_cancel.len(), 1);
    assert_eq!(a.to_cancel[0].order_id, "1");
    assert_eq!(a.to_unwind.len(), 0);
    let some = vec![
        entry(order("1", "A", "executed", 5, 0)),
        entry(order("", "B", "resting", 0, 5)),
        failed_entry(),
        BatchOrderEntry { client_order_id: None, order: None, error: None },
    ];
    let a = assess_batch(&some, 5);
    assert_eq!(a.verdict, BatchVerdict::Partial);
    assert_eq!(a.errored, 2);
    // a resting order without an identifier cannot be cancelled
    assert_eq!(a.to_cancel.len(), 0);
    assert_eq!(a.to_unwind.len(), 1);
    assert_eq!(assess_batch(&[failed_entry()], 5).verdict, BatchVerdict::Failed);
    assert_eq!(assess_batch(&[], 5).verdict, BatchVerdict::Failed);
    // an entry with both an order and an error counts as an error
    let both = BatchOrderEntry {
        client_order_id: None,
        order: Some(order("1", "A", "executed", 5, 0)),
        error: Some(BatchOrderError { code: None, message: None }),
    };
    assert_eq!(assess_batch(&[both], 5).verdict, BatchVerdict::Failed);
}

#[test]
fn complete_fill_and_failures_end_at_once() {
    let o = opp(ArbDirection::BuySet, &[("A", 40, Side::Yes), ("B", 55, Side::Yes)], 5);
    let ex = executor("cross_spread", 1);
    let (mut run, action) = ex.execute(&o);
    assert!(matches!(action, ExecAction::Submit(ref orders) if orders.len() == 2));
    assert!(!run.is_finished());
    let answer = vec![entry(order("1", "A", "executed", 5, 0)), entry(order("2", "B", "executed", 5, 0))];
    assert_eq!(done(&run.step(ExecEvent::BatchAnswered(answer))), Some(ExecutionOutcome::CompleteFill));
    assert!(run.is_finished());
    // nothing more is accepted once the outcome is out
    assert_eq!(done(&run.step(ExecEvent::Waited)), Some(ExecutionOutcome::Failed));

    let (mut run, _) = ex.execute(&o);
    assert_eq!(done(&run.step(ExecEvent::BatchFailed)), Some(ExecutionOutcome::Failed));
    let (mut run, _) = ex.execute(&o);
    assert_eq!(
        done(&run.step(ExecEvent::BatchAnswered(vec![failed_entry(), failed_entry()]))),
        Some(ExecutionOutcome::Failed)
    );
    let (mut run, _) = ex.execute(&o);
    assert_eq!(done(&run.step(ExecEvent::CancelAnswered(true))), Some(ExecutionOutcome::Failed));
}

#[test]
fn no_fill_cancels_what_rests() {
    let o = opp(ArbDirection::BuySet, &[("A", 40, Side::Yes), ("B", 55, Side::Yes)], 5);
    let (mut run, _) = executor("cross_spread", 1).execute(&o);
    let answer = vec![entry(order("r1", "A", "resting", 0, 5)), entry(order("r2", "B", "resting", 0, 5))];
    let a = run.step(ExecEvent::BatchAnswered(answer));
    assert!(matches!(a, ExecAction::Cancel(ref id) if id == "r1"));
    // first cancel fails twice, then goes through
    assert!(matches!(run.step(ExecEvent::CancelAnswered(false)), ExecAction::Wait(100)));
    assert!(matches!(run.step(ExecEvent::Waited), ExecAction::Cancel(ref id) if id == "r1"));
    assert!(matches!(run.step(ExecEvent::CancelAnswered(false)), ExecAction::Wait(100)));
    assert!(matches!(run.step(ExecEvent::Waited), ExecAction::Cancel(ref id) if id == "r1"));
    assert!(matches!(run.step(ExecEvent::CancelAnswered(true)), ExecAction::Cancel(ref id) if id == "r2"));
    // the second fails three times: no fourth attempt, and still no fill
    assert!(matches!(run.step(ExecEvent::CancelAnswered(false)), ExecAction::Wait(100)));
    assert!(matches!(run.step(ExecEvent::Waited), ExecAction::Cancel(_)));
    assert!(matches!(run.step(ExecEvent::CancelAnswered(false)), ExecAction::Wait(100)));
    assert!(matches!(run.step(ExecEvent::Waited), ExecAction::Cancel(_)));
    assert_eq!(done(&run.step(ExecEvent::CancelAnswered(false))), Some(ExecutionOutcome::NoFill));
}

#[test]
fn partial_fill_is_cancelled_and_unwound() {
    let o = opp(ArbDirection::BuySet, &[("A", 40, Side::Yes), ("B", 55, Side::Yes)], 5);
    let (mut run, _) = executor("cross_spread", 1).execute(&o);
    let answer = vec![entry(order("f1", "A", "executed", 5, 0)), entry(order("r2", "B", "resting", 0, 5))];
    assert!(matches!(run.step(ExecEvent::BatchAnswered(answer)), ExecAction::Cancel(ref id) if id == "r2"));
    let a = run.step(ExecEvent::CancelAnswered(true));
    match a {
        ExecAction::Unwind(req) => {
            assert_eq!(req.ticker, "A");
            assert_eq!(req.side, Side::Yes);
            assert_eq!(req.action, Action::Sell);
            assert_eq!(req.count, 5);
            assert_eq!(req.order_type, OrderType::Market);
            assert_eq!(req.yes_price, None);
            assert_eq!(req.no_price, None);
            assert_eq!(req.time_in_force, None);
            assert_eq!(req.client_order_id.len(), 36);
        }
        other => panic!("expected an unwind, got {:?}", done(&other)),
    }
    assert!(matches!(
        run.step(ExecEvent::UnwindAnswered { status: "executed".into(), fill_count: 0 }),
        ExecAction::Wait(50)
    ));
    assert_eq!(done(&run.step(ExecEvent::Waited)), Some(ExecutionOutcome::PartialFillUnwound));
    assert!(run.is_finished());
}

#[test]
fn unwind_is_tried_three_times() {
    let o = opp(ArbDirection::BuySet, &[("A", 40, Side::Yes), ("B", 55, Side::Yes)], 5);
    let (mut run, _) = executor("cross_spread", 1).execute(&o);
    let answer = vec![entry(order("f1", "A", "executed", 5, 0)), entry(order("x", "B", "canceled", 0, 5))];
    assert!(matches!(run.step(ExecEvent::BatchAnswered(answer)), ExecAction::Unwind(_)));
    assert!(matches!(run.step(ExecEvent::UnwindFailed), ExecAction::Wait(150)));
    assert!(matches!(run.step(ExecEvent::Waited), ExecAction::Unwind(_)));
    assert!(matches!(
        run.step(ExecEvent::UnwindAnswered { status: "resting".into(), fill_count: 4 }),
        ExecAction::Wait(150)
    ));
    assert!(matches!(run.step(ExecEvent::Waited), ExecAction::Unwind(_)));
    // the third miss gives the leg up: only the pacing pause is left
    assert!(matches!(run.step(ExecEvent::UnwindFailed), ExecAction::Wait(50)));
    assert_eq!(done(&run.step(ExecEvent::Waited)), Some(ExecutionOutcome::PartialFillUnwindFailed));
}

#[test]
fn unwind_counts_a_full_fill_as_done() {
    let o = opp(ArbDirection::SellSet, &[("A", 40, Side::Yes), ("B", 55, Side::Yes)], 5);
    let (mut run, _) = executor("CROSS_SPREAD", 1).execute(&o);
    let mut sold = order("f1", "A", "resting", 5, 0);
    sold.action = Action::Sell;
    let answer = vec![entry(sold), entry(order("x", "B", "expired", 0, 5))];
    match run.step(ExecEvent::BatchAnswered(answer)) {
        ExecAction::Unwind(req) => assert_eq!(req.action, Action::Buy),
        _ => panic!("expected an unwind"),
    }
    assert!(matches!(
        run.step(ExecEvent::UnwindAnswered { status: "unknown".into(), fill_count: 5 }),
        ExecAction::Wait(50)
    ));
    assert_eq!(done(&run.step(ExecEvent::Waited)), Some(ExecutionOutcome::PartialFillUnwound));
}

#[test]
fn failed_cancel_spoils_a_clean_unwind() {
    let o = opp(ArbDirection::BuySet, &[("A", 40, Side::Yes), ("B", 55, Side::Yes)], 5);
    let (mut run, _) = executor("cross_spread", 1).execute(&o);
    let answer = vec![entry(order("f1", "A", "executed", 5, 0)), entry(order("r2", "B", "resting", 0, 5))];
    run.step(ExecEvent::BatchAnswered(answer));
    run.step(ExecEvent::CancelAnswered(false));
    run.step(ExecEvent::Waited);
    run.step(ExecEvent::CancelAnswered(false));
    run.step(ExecEvent::Waited);
    assert!(matches!(run.step(ExecEvent::CancelAnswered(false)), ExecAction::Unwind(_)));
    run.step(ExecEvent::UnwindAnswered { status: "executed".into(), fill_count: 5 });
    assert_eq!(done(&run.step(ExecEvent::Waited)), Some(ExecutionOutcome::PartialFillUnwindFailed));
}

#[test]
fn cancel_only_leaves_the_fills() {
    let o = opp(ArbDirection::BuySet, &[("A", 40, Side::Yes), ("B", 55, Side::Yes)], 5);
    let (mut run, _) = executor("Cancel_Only", 1).execute(&o);
    let answer = vec![entry(order("f1", "A", "executed", 5, 0)), entry(order("r2", "B", "resting", 0, 5))];
    assert!(matches!(run.step(ExecEvent::BatchAnswered(answer)), ExecAction::Cancel(_)));
    assert_eq!(
        done(&run.step(ExecEvent::CancelAnswered(true))),
        Some(ExecutionOutcome::PartialFillUnwindFailed)
    );
}

#[test]
fn unwind_order_mirrors_the_fill() {
    let mut filled = order("f1", "A", "executed", 3, 2);
    filled.side = Side::No;
    let req = build_unwind(&filled);
    assert_eq!(req.side, Side::No);
    assert_eq!(req.action, Action::Sell);
    assert_eq!(req.count, 3);
    assert_eq!(req.ticker, "A");
}

#[test]
fn outcome_labels() {
    assert_eq!(outcome_label(ExecutionOutcome::CompleteFill), "complete_fill");
    assert_eq!(outcome_label(ExecutionOutcome::NoFill), "no_fill");
    assert_eq!(outcome_label(ExecutionOutcome::PartialFillUnwound), "partial_fill_unwound");
    assert_eq!(
        outcome_label(ExecutionOutcome::PartialFillUnwindFailed),
        "partial_fill_unwind_failed"
    );
    assert_eq!(outcome_label(ExecutionOutcome::Rejected), "rejected");
    assert_eq!(outcome_label(ExecutionOutcome::Failed), "failed");
}

#[test]
fn timers_of_the_loop() {
    assert!(!balance_refresh_due(1_000, 30_999));
    assert!(balance_refresh_due(1_000, 31_000));
    assert!(!balance_refresh_due(31_000, 1_000));
    assert!(heartbeat_due(0, 30_000));
    assert!(!heartbeat_due(0, 29_999));
    assert!(!balance_is_stale(None, u64::MAX));
    assert!(!balance_is_stale(Some(1_000), 121_000));
    assert!(balance_is_stale(Some(1_000), 121_001));
}

#[test]
fn opportunities_are_compared_by_what_they_trade() {
    let a = opp(ArbDirection::BuySet, &[("A", 40, Side::Yes), ("B", 55, Side::No)], 5);
    let mut b = opp(ArbDirection::BuySet, &[("A", 40, Side::Yes), ("B", 55, Side::No)], 5);
    b.reason = "another text".into();
    b.gross_edge_cents = 99;
    assert!(same_opportunity(&a, &b));
    let mut c = opp(ArbDirection::BuySet, &[("A", 40, Side::Yes), ("B", 56, Side::No)], 5);
    assert!(!same_opportunity(&a, &c));
    c.legs[1].price_cents = 55;
    c.legs[1].side = Side::Yes;
    assert!(!same_opportunity(&a, &c));
    let d = opp(ArbDirection::SellSet, &[("A", 40, Side::Yes), ("B", 55, Side::No)], 5);
    assert!(!same_opportunity(&a, &d));
    assert!(is_new_opportunity(&a, &vec![c, d]));
    assert!(!is_new_opportunity(&a, &vec![opp(ArbDirection::BuySet, &[], 1), b]));
    assert!(is_new_opportunity(&a, &Vec::new()));
}

#[test]
fn outcomes_settle_into_the_risk_manager() {
    let config = ArbRiskConfig {
        max_exposure_per_event_cents: 1_000,
        max_total_exposure_cents: 5_000,
        max_attempts_per_group_per_min: 100,
        max_unwind_loss_cents: 100,
        kill_switch_disconnect_count: 2,
        max_orders_per_minute: 100,
        min_balance_cents: 100,
        max_daily_loss_cents: 200,
    };
    let mut risk = ArbRiskManager::new(config);
    risk.update_balance(1_000).unwrap();
    let o = opp(ArbDirection::BuySet, &[("A", 40, Side::Yes)], 6);
    // a failure counts, a clean outcome clears the count
    assert!(apply_outcome(&mut risk, &o, ExecutionOutcome::Failed).is_ok());
    assert!(apply_outcome(&mut risk, &o, ExecutionOutcome::NoFill).is_ok());
    assert!(apply_outcome(&mut risk, &o, ExecutionOutcome::Failed).is_ok());
    assert!(!risk.kill_switch_engaged());
    // a complete fill records 600 cents of exposure: a second trade of 600 would
    // exceed the cap of 1000 per event
    assert!(apply_outcome(&mut risk, &o, ExecutionOutcome::CompleteFill).is_ok());
    let err = risk.check_at(&o, 0, 0).unwrap_err();
    assert_eq!(
        err.to_string(),
        "Risk check failed: Event exposure limit: 600 + 600 > 1000"
    );
    // two failures in a row engage the kill switch
    assert!(apply_outcome(&mut risk, &o, ExecutionOutcome::PartialFillUnwindFailed).is_ok());
    let err = apply_outcome(&mut risk, &o, ExecutionOutcome::Failed).unwrap_err();
    assert_eq!(
        err.to_string(),
        "Risk check failed: Kill switch engaged after 2 consecutive critical failures"
    );
    assert!(risk.kill_switch_engaged());
}

#[test]
fn an_errored_leg_beside_a_filled_one_is_a_partial_fill() {
    let answer = vec![entry(order("1", "A", "executed", 5, 0)), failed_entry()];
    let a = assess_batch(&answer, 5);
    assert_eq!(a.verdict, BatchVerdict::Partial);
    assert_eq!(a.errored, 1);
    assert_eq!(a.to_cancel.len(), 0);
    assert_eq!(a.to_unwind.len(), 1);
    assert_eq!(a.to_unwind[0].order_id, "1");

    let two = opp(ArbDirection::BuySet, &[("A", 40, Side::Yes), ("B", 50, Side::Yes)], 5);
    let (mut run, first) = executor("cross_spread", 1).execute(&two);
    assert!(matches!(first, ExecAction::Submit(_)));
    // nothing rests, so the filled leg is unwound at once
    match run.step(ExecEvent::BatchAnswered(answer)) {
        ExecAction::Unwind(request) => {
            assert_eq!(request.ticker, "A");
            assert_eq!(request.action, Action::Sell);
            assert_eq!(request.count, 5);
            assert_eq!(request.order_type, OrderType::Market);
            assert_eq!(request.yes_price, None);
            assert_eq!(request.no_price, None);
        }
        _ => panic!("the filled leg is unwound"),
    }
    assert!(matches!(
        run.step(ExecEvent::UnwindAnswered { status: "executed".into(), fill_count: 5 }),
        ExecAction::Wait(50)
    ));
    assert_eq!(
        done(&run.step(ExecEvent::Waited)),
        Some(ExecutionOutcome::PartialFillUnwound)
    );

    // an entry without order and error counts against a complete fill as well
    let hollow = BatchOrderEntry { client_order_id: None, order: None, error: None };
    assert_eq!(
        assess_batch(&[entry(order("1", "A", "executed", 5, 0)), hollow], 5).verdict,
        BatchVerdict::Partial
    );
    // errors beside orders that did not fill: no fill
    assert_eq!(
        assess_batch(&[entry(order("1", "A", "resting", 0, 5)), failed_entry()], 5).verdict,
        BatchVerdict::NoFill
    );
}
