use reservations::booking::{
    judge_payment, sweep_error_report, sweep_report, HoldRow, PayAction, PayEvent, PayStage,
    Payment, Refusal, ReserveAction, ReserveEvent, ReserveReply, ReserveRequest, ReserveStage,
    Reservation, Sweep, SweepAction, SweepEvent, SweepOutcome, SweepStage, HOLD_DURATION_SECS,
    SWEEP_INTERVAL_SECS,
};
use reservations::messages::{PaymentRequest, PaymentResponse, ReservationResponse, WaitlistResponse};
use reservations::seats::SeatStatus;

const EVENT: u128 = 0xa000_0000_0000_0000_0000_0000_0000_0001;
const USER: u128 = 0x1111_2222_3333_4444_5555_6666_7777_8888;
const OTHER: u128 = 0x9999;

#[test]
fn reservation_with_free_seat_is_held_and_answered_201() {
    let (mut r, first) = Reservation::start(EVENT, ReserveRequest { user_id: USER, seat_id: None });
    assert_eq!(first, ReserveAction::BeginTransaction);
    assert_eq!(r.step(ReserveEvent::TransactionBegun), ReserveAction::CheckEvent { event_id: EVENT });
    assert_eq!(
        r.step(ReserveEvent::EventChecked(true)),
        ReserveAction::LockAvailableSeat { event_id: EVENT }
    );
    assert_eq!(
        r.step(ReserveEvent::SeatLocked(Some(7))),
        ReserveAction::HoldSeat { seat_id: 7, user_id: USER }
    );
    assert_eq!(
        r.step(ReserveEvent::SeatHeld),
        ReserveAction::InsertReservation { seat_id: 7, user_id: USER }
    );
    assert_eq!(r.step(ReserveEvent::ReservationInserted(42)), ReserveAction::Commit);
    let reply = r.step(ReserveEvent::Committed);
    assert_eq!(
        reply,
        ReserveAction::Respond(Ok(ReserveReply::Reserved(ReservationResponse {
            reservation_id: 42,
            seat_id: 7
        })))
    );
    if let ReserveAction::Respond(Ok(ok)) = reply {
        assert_eq!(ok.status_code(), 201);
    }
    assert_eq!(r.stage, ReserveStage::Done);
}

#[test]
fn reservation_of_named_seat_locks_that_seat() {
    let (mut r, _) = Reservation::start(EVENT, ReserveRequest { user_id: USER, seat_id: Some(9) });
    r.step(ReserveEvent::TransactionBegun);
    assert_eq!(
        r.step(ReserveEvent::EventChecked(true)),
        ReserveAction::LockRequestedSeat { seat_id: 9, event_id: EVENT }
    );
}

#[test]
fn reservation_without_free_seat_joins_queue_202() {
    let (mut r, _) = Reservation::start(EVENT, ReserveRequest { user_id: USER, seat_id: None });
    r.step(ReserveEvent::TransactionBegun);
    r.step(ReserveEvent::EventChecked(true));
    assert_eq!(
        r.step(ReserveEvent::SeatLocked(None)),
        ReserveAction::InsertWaitlistEntry { event_id: EVENT, user_id: USER }
    );
    assert_eq!(r.step(ReserveEvent::WaitlistEntryInserted(5)), ReserveAction::Commit);
    let reply = r.step(ReserveEvent::Committed);
    assert_eq!(
        reply,
        ReserveAction::Respond(Ok(ReserveReply::Waitlisted(WaitlistResponse { waitlist_id: 5 })))
    );
    if let ReserveAction::Respond(Ok(ok)) = reply {
        assert_eq!(ok.status_code(), 202);
    }
}

#[test]
fn reservation_for_missing_event_is_404() {
    let (mut r, _) = Reservation::start(EVENT, ReserveRequest { user_id: USER, seat_id: None });
    r.step(ReserveEvent::TransactionBegun);
    assert_eq!(
        r.step(ReserveEvent::EventChecked(false)),
        ReserveAction::Respond(Err(Refusal::NotFound))
    );
    assert_eq!(Refusal::NotFound.status_code(), 404);
}

#[test]
fn reservation_database_error_is_500() {
    let (mut r, _) = Reservation::start(EVENT, ReserveRequest { user_id: USER, seat_id: None });
    r.step(ReserveEvent::TransactionBegun);
    r.step(ReserveEvent::EventChecked(true));
    assert_eq!(r.step(ReserveEvent::Failed), ReserveAction::Respond(Err(Refusal::Internal)));
    assert_eq!(Refusal::Internal.status_code(), 500);
    // an answer that does not fit the last action ends the request too
    let (mut q, _) = Reservation::start(EVENT, ReserveRequest { user_id: USER, seat_id: None });
    assert_eq!(q.step(ReserveEvent::Committed), ReserveAction::Respond(Err(Refusal::Internal)));
}

fn row(status: SeatStatus, held_by: Option<u128>, expired: bool) -> Option<HoldRow> {
    Some(HoldRow { seat_id: 7, status, held_by, expired: Some(expired) })
}

// A sold or released seat has no end of hold: the expiry comparison is NULL.
fn cleared(status: SeatStatus) -> Option<HoldRow> {
    Some(HoldRow { seat_id: 7, status, held_by: None, expired: None })
}

#[test]
fn payment_verdicts() {
    assert_eq!(judge_payment(None, USER), Err(Refusal::NotFound));
    assert_eq!(judge_payment(row(SeatStatus::Held, Some(USER), false), USER), Ok(7));
    assert_eq!(judge_payment(row(SeatStatus::Held, Some(OTHER), false), USER), Err(Refusal::Conflict));
    assert_eq!(judge_payment(cleared(SeatStatus::Sold), USER), Err(Refusal::Internal));
    assert_eq!(judge_payment(row(SeatStatus::Available, None, false), USER), Err(Refusal::Conflict));
    assert_eq!(judge_payment(row(SeatStatus::Held, Some(USER), true), USER), Err(Refusal::Forbidden));
    // someone else's expired hold is a conflict, not an expiry
    assert_eq!(judge_payment(row(SeatStatus::Held, Some(OTHER), true), USER), Err(Refusal::Conflict));
    assert_eq!(Refusal::Conflict.status_code(), 409);
    assert_eq!(Refusal::Forbidden.status_code(), 403);
}

#[test]
fn payment_by_holder_sells_seat() {
    let (mut p, first) = Payment::start(42, PaymentRequest { user_id: USER });
    assert_eq!(first, PayAction::BeginTransaction);
    assert_eq!(p.step(PayEvent::TransactionBegun), PayAction::LoadHold { reservation_id: 42 });
    assert_eq!(
        p.step(PayEvent::HoldLoaded(row(SeatStatus::Held, Some(USER), false))),
        PayAction::MarkSold { seat_id: 7 }
    );
    assert_eq!(p.step(PayEvent::SeatSold), PayAction::Commit);
    assert_eq!(
        p.step(PayEvent::Committed),
        PayAction::Respond(Ok(PaymentResponse { reservation_id: 42, seat_id: 7 }))
    );
    assert_eq!(p.stage, PayStage::Done);
}

#[test]
fn second_payment_of_sold_seat_is_refused() {
    let (mut p, _) = Payment::start(42, PaymentRequest { user_id: USER });
    p.step(PayEvent::TransactionBegun);
    assert_eq!(
        p.step(PayEvent::HoldLoaded(cleared(SeatStatus::Sold))),
        PayAction::Respond(Err(Refusal::Internal))
    );
}

#[test]
fn sweep_hands_seat_to_first_in_line_then_releases_and_stops() {
    let (mut s, first) = Sweep::start();
    assert_eq!(first, SweepAction::BeginTransaction);
    assert_eq!(s.step(SweepEvent::TransactionBegun), SweepAction::FindExpiredHold);
    assert_eq!(
        s.step(SweepEvent::ExpiredHoldFound(Some((7, EVENT)))),
        SweepAction::FindNextInLine { event_id: EVENT }
    );
    assert_eq!(
        s.step(SweepEvent::NextInLineFound(Some((3, USER)))),
        SweepAction::ReassignSeat { seat_id: 7, user_id: USER }
    );
    assert_eq!(
        s.step(SweepEvent::Written),
        SweepAction::TransferReservation { seat_id: 7, user_id: USER }
    );
    assert_eq!(s.step(SweepEvent::Written), SweepAction::RemoveWaitlistEntry { waitlist_id: 3 });
    assert_eq!(s.step(SweepEvent::Written), SweepAction::Commit);
    assert_eq!(s.step(SweepEvent::Committed), SweepAction::BeginTransaction);
    assert_eq!(s.swept, 1);
    // second expired hold, nobody waiting
    s.step(SweepEvent::TransactionBegun);
    s.step(SweepEvent::ExpiredHoldFound(Some((8, EVENT))));
    assert_eq!(s.step(SweepEvent::NextInLineFound(None)), SweepAction::ReleaseSeat { seat_id: 8 });
    assert_eq!(s.step(SweepEvent::Written), SweepAction::DeleteReservation { seat_id: 8 });
    assert_eq!(s.step(SweepEvent::Written), SweepAction::Commit);
    assert_eq!(s.step(SweepEvent::Committed), SweepAction::BeginTransaction);
    // nothing more expired
    s.step(SweepEvent::TransactionBegun);
    assert_eq!(s.step(SweepEvent::ExpiredHoldFound(None)), SweepAction::Commit);
    assert_eq!(s.step(SweepEvent::Committed), SweepAction::Finish(SweepOutcome::Swept(2)));
    assert_eq!(s.stage, SweepStage::Finished);
}

#[test]
fn sweep_error_fails_the_sweep() {
    let (mut s, _) = Sweep::start();
    s.step(SweepEvent::TransactionBegun);
    assert_eq!(s.step(SweepEvent::Failed), SweepAction::Finish(SweepOutcome::Failed));
    assert!(s.has_room());
}

#[test]
fn sweeper_report_lines() {
    assert_eq!(sweep_report(1, 250), "[sweeper] sweeped 1 reservation in 250us");
    assert_eq!(sweep_report(0, 7), "[sweeper] sweeped 0 reservations in 7us");
    assert_eq!(sweep_report(12, 1000), "[sweeper] sweeped 12 reservations in 1000us");
    assert_eq!(sweep_error_report("boom"), "[sweeper] error: boom");
}

#[test]
fn constants() {
    assert_eq!(HOLD_DURATION_SECS, 30);
    assert_eq!(SWEEP_INTERVAL_SECS, 5);
}

#[test]
fn seat_status_texts() {
    assert_eq!(SeatStatus::from_text("held"), SeatStatus::Held);
    assert_eq!(SeatStatus::from_text("available"), SeatStatus::Available);
    assert_eq!(SeatStatus::from_text("sold"), SeatStatus::Sold);
    assert_eq!(SeatStatus::from_text("hel"), SeatStatus::Unknown);
    assert_eq!(SeatStatus::from_text(""), SeatStatus::Unknown);
}

#[test]
fn queued_user_gets_the_seat_and_can_pay_for_it() {
    // the sweeper hands an expired seat to the first in line
    let (mut s, _) = Sweep::start();
    s.step(SweepEvent::TransactionBegun);
    s.step(SweepEvent::ExpiredHoldFound(Some((7, EVENT))));
    let write = s.step(SweepEvent::NextInLineFound(Some((3, USER))));
    let holder = match write {
        SweepAction::ReassignSeat { user_id, .. } => user_id,
        other => panic!("unexpected {:?}", other),
    };
    // the new holder can pay while the hold lasts; the previous one cannot
    let held = row(SeatStatus::Held, Some(holder), false);
    assert_eq!(judge_payment(held, USER), Ok(7));
    assert_eq!(judge_payment(held, OTHER), Err(Refusal::Conflict));
    // after the sale nobody can pay again
    assert_eq!(judge_payment(cleared(SeatStatus::Sold), USER), Err(Refusal::Internal));
    // a released seat's reservation is deleted: the payment finds nothing
    assert_eq!(judge_payment(None, USER), Err(Refusal::NotFound));
}

#[test]
fn reserving_user_can_pay_for_the_held_seat() {
    let (mut r, _) = Reservation::start(EVENT, ReserveRequest { user_id: USER, seat_id: None });
    r.step(ReserveEvent::TransactionBegun);
    r.step(ReserveEvent::EventChecked(true));
    let write = r.step(ReserveEvent::SeatLocked(Some(7)));
    let holder = match write {
        ReserveAction::HoldSeat { user_id, .. } => user_id,
        other => panic!("unexpected {:?}", other),
    };
    assert_eq!(judge_payment(row(SeatStatus::Held, Some(holder), false), USER), Ok(7));
    assert_eq!(judge_payment(row(SeatStatus::Held, Some(holder), false), OTHER), Err(Refusal::Conflict));
    assert_eq!(judge_payment(row(SeatStatus::Held, Some(holder), true), USER), Err(Refusal::Forbidden));
}
