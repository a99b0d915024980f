use reservations::loadgen::{
    dispatch, pay_outcome, plan_payment, reservation_body_expected, reserve_outcome,
    resolve_events, Dispatch, Outcome, PaymentPlan, Stats,
};

#[test]
fn default_events_are_the_seeded_ones() {
    let events = resolve_events(&Vec::new());
    assert_eq!(
        events,
        vec![
            0xa0000000_0000_0000_0000_000000000001u128,
            0xa0000000_0000_0000_0000_000000000002,
            0xa0000000_0000_0000_0000_000000000003,
            0xa0000000_0000_0000_0000_000000000004,
        ]
    );
    assert_eq!(resolve_events(&vec![7, 8]), vec![7, 8]);
}

#[test]
fn dispatcher_decisions() {
    let events = vec![1u128, 2, 3];
    assert_eq!(dispatch(false, true, &events), Dispatch::Stop);
    assert_eq!(dispatch(true, false, &events), Dispatch::SkipTick);
    for _ in 0..50 {
        match dispatch(true, true, &events) {
            Dispatch::Launch { event_id } => assert!(events.contains(&event_id)),
            other => panic!("unexpected {:?}", other),
        }
    }
}

#[test]
fn payment_plans() {
    assert_eq!(plan_payment(false, 10_000), PaymentPlan::Abandon);
    assert_eq!(plan_payment(true, 0), PaymentPlan::Pay { delay_ms: 0 });
    for _ in 0..50 {
        match plan_payment(true, 20) {
            PaymentPlan::Pay { delay_ms } => assert!(delay_ms <= 20),
            other => panic!("unexpected {:?}", other),
        }
    }
}

#[test]
fn reservation_outcomes() {
    assert!(reservation_body_expected(201));
    assert!(!reservation_body_expected(202));
    assert_eq!(reserve_outcome(None, None, 0), (Outcome::ReserveNetworkError, None));
    assert_eq!(
        reserve_outcome(Some(201), Some(9), 12),
        (Outcome::ReserveHeld { latency_ms: 12 }, Some(9))
    );
    assert_eq!(reserve_outcome(Some(201), None, 12), (Outcome::ReserveError { latency_ms: 12 }, None));
    assert_eq!(
        reserve_outcome(Some(202), None, 3),
        (Outcome::ReserveWaitlisted { latency_ms: 3 }, None)
    );
    assert_eq!(reserve_outcome(Some(500), None, 4), (Outcome::ReserveError { latency_ms: 4 }, None));
}

#[test]
fn payment_outcomes() {
    assert_eq!(pay_outcome(Some(200), 5), Outcome::PayOk { latency_ms: 5 });
    assert_eq!(pay_outcome(Some(403), 5), Outcome::PayExpired { latency_ms: 5 });
    assert_eq!(pay_outcome(Some(409), 5), Outcome::PayConflict { latency_ms: 5 });
    assert_eq!(pay_outcome(Some(404), 5), Outcome::PayError { latency_ms: 5 });
    assert_eq!(pay_outcome(None, 5), Outcome::PayNetworkError);
}

#[test]
fn outcome_latencies() {
    assert_eq!(Outcome::ReserveHeld { latency_ms: 4 }.latency_ms(), Some(4));
    assert_eq!(Outcome::PayError { latency_ms: 9 }.latency_ms(), Some(9));
    assert_eq!(Outcome::Abandoned.latency_ms(), None);
    assert_eq!(Outcome::ReserveNetworkError.latency_ms(), None);
    assert_eq!(Outcome::PayNetworkError.latency_ms(), None);
}

#[test]
fn stats_count_and_average() {
    let mut s = Stats::default();
    assert_eq!(s.avg_latency_ms(), 0);
    assert_eq!(s.sessions(), 0);
    for o in [
        Outcome::ReserveHeld { latency_ms: 10 },
        Outcome::ReserveWaitlisted { latency_ms: 30 },
        Outcome::ReserveNetworkError,
        Outcome::Abandoned,
        Outcome::PayOk { latency_ms: 5 },
        Outcome::PayConflict { latency_ms: 20 },
    ] {
        assert!(s.has_room_for(&o));
        s.record(o);
    }
    assert_eq!(s.sessions(), 3);
    assert_eq!(s.latency_count, 4);
    assert_eq!(s.latency_min_ms, Some(5));
    assert_eq!(s.latency_max_ms, 30);
    assert_eq!(s.latency_sum_ms, 65);
    assert_eq!(s.avg_latency_ms(), 16);
    assert_eq!(s.abandoned, 1);
    let line = s.log(42, "summary");
    assert_eq!(line.kind, "summary");
    assert_eq!(line.elapsed_s, 42);
    assert_eq!(line.sessions, 3);
    assert_eq!(line.latency_min_ms, 5);
    assert_eq!(line.latency_avg_ms, 16);
    assert_eq!(line.latency_max_ms, 30);
    assert_eq!(line.pay_conflict, 1);
    assert_eq!(Stats::default().log(0, "snapshot").latency_min_ms, 0);
}

#[test]
fn stats_refuse_overflow() {
    let mut s = Stats::default();
    s.abandoned = u64::MAX;
    assert!(!s.has_room_for(&Outcome::Abandoned));
    assert!(s.has_room_for(&Outcome::PayOk { latency_ms: 1 }));
    s.latency_sum_ms = u128::MAX;
    assert!(!s.has_room_for(&Outcome::PayOk { latency_ms: 1 }));
    assert!(s.has_room_for(&Outcome::PayOk { latency_ms: 0 }) == (s.latency_count < u64::MAX));
}

#[test]
fn average_lies_between_extremes_and_counts_add_up() {
    let mut s = Stats::default();
    let outcomes = [
        Outcome::ReserveError { latency_ms: 7 },
        Outcome::PayExpired { latency_ms: 1000 },
        Outcome::PayNetworkError,
        Outcome::ReserveHeld { latency_ms: 3 },
    ];
    for o in outcomes {
        s.record(o);
        let min = s.latency_min_ms.unwrap();
        let avg = s.avg_latency_ms();
        assert!(min <= avg && avg <= s.latency_max_ms);
    }
    let total = s.reserve_held + s.reserve_waitlisted + s.reserve_error + s.reserve_network_error
        + s.abandoned + s.pay_ok + s.pay_expired + s.pay_conflict + s.pay_error + s.pay_network_error;
    assert_eq!(total, 4);
    assert_eq!(s.latency_count, 3);
    assert_eq!(s.sessions(), 2);
    assert_eq!(s.avg_latency_ms(), 336);
}

#[test]
fn payment_delays_are_drawn_not_fixed() {
    let mut seen = std::collections::HashSet::new();
    for _ in 0..200 {
        if let PaymentPlan::Pay { delay_ms } = plan_payment(true, 1000) {
            assert!(delay_ms <= 1000);
            seen.insert(delay_ms);
        }
    }
    assert!(seen.len() > 1);
    let mut picked = std::collections::HashSet::new();
    let events = vec![10u128, 20, 30, 40];
    for _ in 0..200 {
        if let Dispatch::Launch { event_id } = dispatch(true, true, &events) {
            picked.insert(event_id);
        }
    }
    assert!(picked.len() > 1);
}

#[test]
fn run_totals_and_order_of_records() {
    let outcomes = [
        Outcome::ReserveHeld { latency_ms: 40 },
        Outcome::ReserveHeld { latency_ms: 2 },
        Outcome::Abandoned,
        Outcome::PayOk { latency_ms: 9 },
        Outcome::PayNetworkError,
        Outcome::ReserveWaitlisted { latency_ms: 17 },
    ];
    let mut forward = Stats::default();
    for o in outcomes {
        forward.record(o);
    }
    let mut backward = Stats::default();
    for o in outcomes.iter().rev() {
        backward.record(*o);
    }
    assert_eq!(forward, backward);
    assert_eq!(forward.reserve_held, 2);
    assert_eq!(forward.reserve_waitlisted, 1);
    assert_eq!(forward.abandoned, 1);
    assert_eq!(forward.pay_ok, 1);
    assert_eq!(forward.pay_network_error, 1);
    assert_eq!(forward.latency_count, 4);
    assert_eq!(forward.latency_sum_ms, 68);
    assert_eq!(forward.latency_min_ms, Some(2));
    assert_eq!(forward.latency_max_ms, 40);
    let empty = Stats::default();
    assert_eq!(empty.latency_min_ms, None);
    assert_eq!(empty.latency_max_ms, 0);
}
