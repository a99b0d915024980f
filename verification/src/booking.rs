//! The booking server's rules. Each request is a short conversation with
//! the database inside one transaction: the server decides the next
//! statement from the answer to the last one. The types here make those
//! decisions; the server runs the statements and hands back the answers.

use vstd::prelude::*;
use crate::messages::{PaymentRequest, PaymentResponse, ReservationResponse, WaitlistResponse};
use crate::seats::SeatStatus;
use crate::text::{decimal, owned, push_decimal};
use vstd::string::*;

verus! {

/// How long a seat stays held for its user before the sweeper takes it back.
pub const HOLD_DURATION_SECS: u64 = 30;

/// Why a request was turned down.
#[derive(Clone, Copy, Debug, PartialEq, Eq, Structural)]
pub enum Refusal {
    /// The event or the reservation does not exist.
    NotFound,
    /// The seat is not held by the paying user.
    Conflict,
    /// The hold ran out before the payment arrived.
    Forbidden,
    /// The database failed, or returned a row that the server cannot read.
    Internal,
}

impl Refusal {
    /// The HTTP status of a refusal.
    pub open spec fn code(self) -> u16 {
        match self {
            Refusal::NotFound => 404,
            Refusal::Conflict => 409,
            Refusal::Forbidden => 403,
            Refusal::Internal => 500,
        }
    }

    /// The HTTP status that answers a refused request.
    pub fn status_code(&self) -> (c: u16)
        ensures
            c == self.code(),
    {
        match self {
            Refusal::NotFound => 404,
            Refusal::Conflict => 409,
            Refusal::Forbidden => 403,
            Refusal::Internal => 500,
        }
    }
}

// ---------------------------------------------------------------------------
// Reserving a seat
// ---------------------------------------------------------------------------

/// The body of a reservation: who asks, and which seat if any in particular.
#[derive(Clone, Copy, Debug, PartialEq, Eq, Structural)]
pub struct ReserveRequest {
    pub user_id: u128,
    pub seat_id: Option<u128>,
}

/// A granted reservation: a held seat (201 Created) or a place in the
/// event's queue (202 Accepted).
#[derive(Clone, Copy, Debug, PartialEq, Eq, Structural)]
pub enum ReserveReply {
    Reserved(ReservationResponse),
    Waitlisted(WaitlistResponse),
}

impl ReserveReply {
    pub open spec fn code(self) -> u16 {
        match self {
            ReserveReply::Reserved(_) => 201,
            ReserveReply::Waitlisted(_) => 202,
        }
    }

    /// The HTTP status of a granted reservation.
    pub fn status_code(&self) -> (c: u16)
        ensures
            c == self.code(),
    {
        match self {
            ReserveReply::Reserved(_) => 201,
            ReserveReply::Waitlisted(_) => 202,
        }
    }
}

/// Where a reservation stands in its transaction.
#[derive(Clone, Copy, Debug, PartialEq, Eq, Structural)]
pub enum ReserveStage {
    Begin,
    CheckEvent,
    LockSeat,
    HoldSeat { seat_id: u128 },
    RecordReservation { seat_id: u128 },
    JoinWaitlist,
    CommitReservation { reservation_id: u128, seat_id: u128 },
    CommitWaitlist { waitlist_id: u128 },
    Done,
}

/// The next thing that the server does for a reservation.
#[derive(Clone, Copy, Debug, PartialEq, Eq)]
pub enum ReserveAction {
    BeginTransaction,
    /// Ask whether the event exists.
    CheckEvent { event_id: u128 },
    /// Lock the asked-for seat if it belongs to the event and is available.
    LockRequestedSeat { seat_id: u128, event_id: u128 },
    /// Lock some available seat of the event, skipping locked ones.
    LockAvailableSeat { event_id: u128 },
    /// Mark the seat held by the user for `HOLD_DURATION_SECS` from now.
    HoldSeat { seat_id: u128, user_id: u128 },
    /// Insert the user's reservation of the seat, returning its id.
    InsertReservation { seat_id: u128, user_id: u128 },
    /// Put the user at the end of the event's queue, returning the entry's id.
    InsertWaitlistEntry { event_id: u128, user_id: u128 },
    Commit,
    /// Answer the client; the transaction is over.
    Respond(Result<ReserveReply, Refusal>),
}

/// The answer of the database to the last action.
#[derive(Clone, Copy, Debug, PartialEq, Eq, Structural)]
pub enum ReserveEvent {
    TransactionBegun,
    EventChecked(bool),
    SeatLocked(Option<u128>),
    SeatHeld,
    ReservationInserted(u128),
    WaitlistEntryInserted(u128),
    Committed,
    /// The database returned an error.
    Failed,
}

/// One reservation request on its way through the database.
#[derive(Clone, Copy, Debug, PartialEq, Eq, Structural)]
pub struct Reservation {
    pub event_id: u128,
    pub user_id: u128,
    pub requested_seat: Option<u128>,
    pub stage: ReserveStage,
}

impl Reservation {
    /// The step of a reservation: from its stage and the database's answer to
    /// the next stage and action. Any error, or an answer that does not fit
    /// the last action, ends the request with a 500.
    pub open spec fn next(self, event: ReserveEvent) -> (Reservation, ReserveAction) {
        let done = Reservation { stage: ReserveStage::Done, ..self };
        let internal = ReserveAction::Respond(Err(Refusal::Internal));
        match (self.stage, event) {
            (ReserveStage::Begin, ReserveEvent::TransactionBegun) => (
                Reservation { stage: ReserveStage::CheckEvent, ..self },
                ReserveAction::CheckEvent { event_id: self.event_id },
            ),
            (ReserveStage::CheckEvent, ReserveEvent::EventChecked(exists)) => if !exists {
                (done, ReserveAction::Respond(Err(Refusal::NotFound)))
            } else {
                (
                    Reservation { stage: ReserveStage::LockSeat, ..self },
                    match self.requested_seat {
                        Some(seat_id) => ReserveAction::LockRequestedSeat {
                            seat_id,
                            event_id: self.event_id,
                        },
                        None => ReserveAction::LockAvailableSeat { event_id: self.event_id },
                    },
                )
            },
            (ReserveStage::LockSeat, ReserveEvent::SeatLocked(found)) => match found {
                Some(seat_id) => (
                    Reservation { stage: ReserveStage::HoldSeat { seat_id }, ..self },
                    ReserveAction::HoldSeat { seat_id, user_id: self.user_id },
                ),
                None => (
                    Reservation { stage: ReserveStage::JoinWaitlist, ..self },
                    ReserveAction::InsertWaitlistEntry {
                        event_id: self.event_id,
                        user_id: self.user_id,
                    },
                ),
            },
            (ReserveStage::HoldSeat { seat_id }, ReserveEvent::SeatHeld) => (
                Reservation { stage: ReserveStage::RecordReservation { seat_id }, ..self },
                ReserveAction::InsertReservation { seat_id, user_id: self.user_id },
            ),
            (
                ReserveStage::RecordReservation { seat_id },
                ReserveEvent::ReservationInserted(reservation_id),
            ) => (
                Reservation {
                    stage: ReserveStage::CommitReservation { reservation_id, seat_id },
                    ..self
                },
                ReserveAction::Commit,
            ),
            (ReserveStage::JoinWaitlist, ReserveEvent::WaitlistEntryInserted(waitlist_id)) => (
                Reservation { stage: ReserveStage::CommitWaitlist { waitlist_id }, ..self },
                ReserveAction::Commit,
            ),
            (
                ReserveStage::CommitReservation { reservation_id, seat_id },
                ReserveEvent::Committed,
            ) => (
                done,
                ReserveAction::Respond(
                    Ok(ReserveReply::Reserved(ReservationResponse { reservation_id, seat_id })),
                ),
            ),
            (ReserveStage::CommitWaitlist { waitlist_id }, ReserveEvent::Committed) => (
                done,
                ReserveAction::Respond(
                    Ok(ReserveReply::Waitlisted(WaitlistResponse { waitlist_id })),
                ),
            ),
            _ => (done, internal),
        }
    }

    /// A new reservation of a seat of `event_id`; its first action opens the
    /// transaction.
    pub fn start(event_id: u128, request: ReserveRequest) -> (r: (Reservation, ReserveAction))
        ensures
            r.0 == (Reservation {
                event_id,
                user_id: request.user_id,
                requested_seat: request.seat_id,
                stage: ReserveStage::Begin,
            }),
            r.1 == ReserveAction::BeginTransaction,
    {
        (
            Reservation {
                event_id,
                user_id: request.user_id,
                requested_seat: request.seat_id,
                stage: ReserveStage::Begin,
            },
            ReserveAction::BeginTransaction,
        )
    }

    /// Takes the database's answer to the last action and gives the next one.
    pub fn step(&mut self, event: ReserveEvent) -> (a: ReserveAction)
        ensures
            (*final(self), a) == old(self).next(event),
    {
        let internal = ReserveAction::Respond(Err(Refusal::Internal));
        let (stage, action) = match (self.stage, event) {
            (ReserveStage::Begin, ReserveEvent::TransactionBegun) => (
                ReserveStage::CheckEvent,
                ReserveAction::CheckEvent { event_id: self.event_id },
            ),
            (ReserveStage::CheckEvent, ReserveEvent::EventChecked(exists)) => if !exists {
                (ReserveStage::Done, ReserveAction::Respond(Err(Refusal::NotFound)))
            } else {
                let lock = match self.requested_seat {
                    Some(seat_id) => ReserveAction::LockRequestedSeat {
                        seat_id,
                        event_id: self.event_id,
                    },
                    None => ReserveAction::LockAvailableSeat { event_id: self.event_id },
                };
                (ReserveStage::LockSeat, lock)
            },
            (ReserveStage::LockSeat, ReserveEvent::SeatLocked(found)) => match found {
                Some(seat_id) => (
                    ReserveStage::HoldSeat { seat_id },
                    ReserveAction::HoldSeat { seat_id, user_id: self.user_id },
                ),
                None => (
                    ReserveStage::JoinWaitlist,
                    ReserveAction::InsertWaitlistEntry {
                        event_id: self.event_id,
                        user_id: self.user_id,
                    },
                ),
            },
            (ReserveStage::HoldSeat { seat_id }, ReserveEvent::SeatHeld) => (
                ReserveStage::RecordReservation { seat_id },
                ReserveAction::InsertReservation { seat_id, user_id: self.user_id },
            ),
            (
                ReserveStage::RecordReservation { seat_id },
                ReserveEvent::ReservationInserted(reservation_id),
            ) => (ReserveStage::CommitReservation { reservation_id, seat_id }, ReserveAction::Commit),
            (ReserveStage::JoinWaitlist, ReserveEvent::WaitlistEntryInserted(waitlist_id)) => (
                ReserveStage::CommitWaitlist { waitlist_id },
                ReserveAction::Commit,
            ),
            (
                ReserveStage::CommitReservation { reservation_id, seat_id },
                ReserveEvent::Committed,
            ) => (
                ReserveStage::Done,
                ReserveAction::Respond(
                    Ok(ReserveReply::Reserved(ReservationResponse { reservation_id, seat_id })),
                ),
            ),
            (ReserveStage::CommitWaitlist { waitlist_id }, ReserveEvent::Committed) => (
                ReserveStage::Done,
                ReserveAction::Respond(
                    Ok(ReserveReply::Waitlisted(WaitlistResponse { waitlist_id })),
                ),
            ),
            _ => (ReserveStage::Done, internal),
        };
        self.stage = stage;
        action
    }
}

/// The actions that a reservation takes when the database gives `events`
/// one after another.
pub open spec fn reserve_run(r: Reservation, events: Seq<ReserveEvent>) -> Seq<ReserveAction>
    decreases events.len(),
{
    if events.len() == 0 {
        Seq::empty()
    } else {
        let (r2, a) = r.next(events[0]);
        seq![a] + reserve_run(r2, events.drop_first())
    }
}

/// The answers of a database that raises no error: whether the event
/// exists, which seat it locked if any, and the ids that it gave the new
/// rows.
pub open spec fn reserve_answers(
    exists: bool,
    found: Option<u128>,
    reservation_id: u128,
    waitlist_id: u128,
) -> Seq<ReserveEvent> {
    if !exists {
        seq![ReserveEvent::TransactionBegun, ReserveEvent::EventChecked(false)]
    } else {
        match found {
            Some(_) => seq![
                ReserveEvent::TransactionBegun,
                ReserveEvent::EventChecked(true),
                ReserveEvent::SeatLocked(found),
                ReserveEvent::SeatHeld,
                ReserveEvent::ReservationInserted(reservation_id),
                ReserveEvent::Committed,
            ],
            None => seq![
                ReserveEvent::TransactionBegun,
                ReserveEvent::EventChecked(true),
                ReserveEvent::SeatLocked(None),
                ReserveEvent::WaitlistEntryInserted(waitlist_id),
                ReserveEvent::Committed,
            ],
        }
    }
}

/// The seat lock that a reservation asks for.
pub open spec fn seat_lock(event_id: u128, requested: Option<u128>) -> ReserveAction {
    match requested {
        Some(seat_id) => ReserveAction::LockRequestedSeat { seat_id, event_id },
        None => ReserveAction::LockAvailableSeat { event_id },
    }
}

/// A reservation without database errors: the event is looked up first,
/// and a missing event is answered 404 with nothing written. Otherwise a
/// seat is locked (the asked-for one, if the request names one); a locked
/// seat is held for the asking user, the reservation recorded, the
/// transaction committed, and the reply is 201 with the reservation and
/// that seat. Without a seat the user joins the event's queue, and the reply
/// is 202 with the queue entry.
pub proof fn lemma_reserve_conversation(
    event_id: u128,
    request: ReserveRequest,
    exists: bool,
    found: Option<u128>,
    reservation_id: u128,
    waitlist_id: u128,
)
    ensures
        ({
            let r = Reservation {
                event_id,
                user_id: request.user_id,
                requested_seat: request.seat_id,
                stage: ReserveStage::Begin,
            };
            let user_id = request.user_id;
            let actions = reserve_run(
                r,
                reserve_answers(exists, found, reservation_id, waitlist_id),
            );
            &&& !exists ==> actions == seq![
                ReserveAction::CheckEvent { event_id },
                ReserveAction::Respond(Err(Refusal::NotFound)),
            ]
            &&& exists && found is Some ==> actions == seq![
                ReserveAction::CheckEvent { event_id },
                seat_lock(event_id, request.seat_id),
                ReserveAction::HoldSeat { seat_id: found->0, user_id },
                ReserveAction::InsertReservation { seat_id: found->0, user_id },
                ReserveAction::Commit,
                ReserveAction::Respond(
                    Ok(
                        ReserveReply::Reserved(
                            ReservationResponse { reservation_id, seat_id: found->0 },
                        ),
                    ),
                ),
            ]
            &&& exists && found is None ==> actions == seq![
                ReserveAction::CheckEvent { event_id },
                seat_lock(event_id, request.seat_id),
                ReserveAction::InsertWaitlistEntry { event_id, user_id },
                ReserveAction::Commit,
                ReserveAction::Respond(Ok(ReserveReply::Waitlisted(WaitlistResponse { waitlist_id }))),
            ]
        }),
{
    reveal_with_fuel(reserve_run, 7);
}

/// A database error at any point of a reservation ends it with a 500.
pub proof fn lemma_reserve_failure(r: Reservation)
    ensures
        r.next(ReserveEvent::Failed) == (
            Reservation { stage: ReserveStage::Done, ..r },
            ReserveAction::Respond(Err(Refusal::Internal)),
        ),
{
}

// ---------------------------------------------------------------------------
// Paying for a held seat
// ---------------------------------------------------------------------------

/// What the database holds about the seat of a reservation: its id, its
/// status, who holds it, and whether the hold ran out before the payment
/// arrived. `expired` is none where the seat has no end of hold (a sold or
/// released seat): the comparison is then NULL, which the server cannot
/// read as a boolean.
#[derive(Clone, Copy, Debug, PartialEq, Eq, Structural)]
pub struct HoldRow {
    pub seat_id: u128,
    pub status: SeatStatus,
    pub held_by: Option<u128>,
    pub expired: Option<bool>,
}

/// Whether a payment by `user_id` may sell the seat in `row`: a missing
/// reservation is 404; a row without an end of hold cannot be read, which
/// is 500; a seat that is not held, or held by someone else, 409; a hold
/// that ran out, 403; otherwise the seat is sold.
pub open spec fn payment_verdict(row: Option<HoldRow>, user_id: u128) -> Result<u128, Refusal> {
    match row {
        None => Err(Refusal::NotFound),
        Some(r) => match r.expired {
            None => Err(Refusal::Internal),
            Some(expired) => if r.status != SeatStatus::Held || r.held_by != Some(user_id) {
                Err(Refusal::Conflict)
            } else if expired {
                Err(Refusal::Forbidden)
            } else {
                Ok(r.seat_id)
            },
        },
    }
}

/// Decides a payment from the row of its seat.
pub fn judge_payment(row: Option<HoldRow>, user_id: u128) -> (v: Result<u128, Refusal>)
    ensures
        v == payment_verdict(row, user_id),
{
    match row {
        None => Err(Refusal::NotFound),
        Some(r) => match r.expired {
            None => Err(Refusal::Internal),
            Some(expired) => {
                let held_by_payer = match r.held_by {
                    Some(holder) => holder == user_id,
                    None => false,
                };
                if r.status != SeatStatus::Held || !held_by_payer {
                    Err(Refusal::Conflict)
                } else if expired {
                    Err(Refusal::Forbidden)
                } else {
                    Ok(r.seat_id)
                }
            },
        },
    }
}

/// Where a payment stands in its transaction.
#[derive(Clone, Copy, Debug, PartialEq, Eq, Structural)]
pub enum PayStage {
    Begin,
    LoadHold,
    MarkSold { seat_id: u128 },
    Commit { seat_id: u128 },
    Done,
}

/// The next thing that the server does for a payment.
#[derive(Clone, Copy, Debug, PartialEq, Eq)]
pub enum PayAction {
    BeginTransaction,
    /// Read and lock the seat of the reservation, and compare its hold with
    /// the time at which the payment arrived.
    LoadHold { reservation_id: u128 },
    /// Mark the seat sold and clear its hold.
    MarkSold { seat_id: u128 },
    Commit,
    /// Answer the client; the transaction is over.
    Respond(Result<PaymentResponse, Refusal>),
}

/// The answer of the database to the last action of a payment.
#[derive(Clone, Copy, Debug, PartialEq, Eq, Structural)]
pub enum PayEvent {
    TransactionBegun,
    HoldLoaded(Option<HoldRow>),
    SeatSold,
    Committed,
    Failed,
}

/// One payment on its way through the database.
#[derive(Clone, Copy, Debug, PartialEq, Eq, Structural)]
pub struct Payment {
    pub reservation_id: u128,
    pub user_id: u128,
    pub stage: PayStage,
}

impl Payment {
    /// The step of a payment, from its stage and the database's answer.
    pub open spec fn next(self, event: PayEvent) -> (Payment, PayAction) {
        let done = Payment { stage: PayStage::Done, ..self };
        match (self.stage, event) {
            (PayStage::Begin, PayEvent::TransactionBegun) => (
                Payment { stage: PayStage::LoadHold, ..self },
                PayAction::LoadHold { reservation_id: self.reservation_id },
            ),
            (PayStage::LoadHold, PayEvent::HoldLoaded(row)) => match payment_verdict(
                row,
                self.user_id,
            ) {
                Ok(seat_id) => (
                    Payment { stage: PayStage::MarkSold { seat_id }, ..self },
                    PayAction::MarkSold { seat_id },
                ),
                Err(refusal) => (done, PayAction::Respond(Err(refusal))),
            },
            (PayStage::MarkSold { seat_id }, PayEvent::SeatSold) => (
                Payment { stage: PayStage::Commit { seat_id }, ..self },
                PayAction::Commit,
            ),
            (PayStage::Commit { seat_id }, PayEvent::Committed) => (
                done,
                PayAction::Respond(
                    Ok(PaymentResponse { reservation_id: self.reservation_id, seat_id }),
                ),
            ),
            _ => (done, PayAction::Respond(Err(Refusal::Internal))),
        }
    }

    /// A new payment for `reservation_id`; its first action opens the
    /// transaction.
    pub fn start(reservation_id: u128, request: PaymentRequest) -> (r: (Payment, PayAction))
        ensures
            r.0 == (Payment { reservation_id, user_id: request.user_id, stage: PayStage::Begin }),
            r.1 == PayAction::BeginTransaction,
    {
        (
            Payment { reservation_id, user_id: request.user_id, stage: PayStage::Begin },
            PayAction::BeginTransaction,
        )
    }

    /// Takes the database's answer to the last action and gives the next one.
    pub fn step(&mut self, event: PayEvent) -> (a: PayAction)
        ensures
            (*final(self), a) == old(self).next(event),
    {
        let (stage, action) = match (self.stage, event) {
            (PayStage::Begin, PayEvent::TransactionBegun) => (
                PayStage::LoadHold,
                PayAction::LoadHold { reservation_id: self.reservation_id },
            ),
            (PayStage::LoadHold, PayEvent::HoldLoaded(row)) => match judge_payment(
                row,
                self.user_id,
            ) {
                Ok(seat_id) => (PayStage::MarkSold { seat_id }, PayAction::MarkSold { seat_id }),
                Err(refusal) => (PayStage::Done, PayAction::Respond(Err(refusal))),
            },
            (PayStage::MarkSold { seat_id }, PayEvent::SeatSold) => (
                PayStage::Commit { seat_id },
                PayAction::Commit,
            ),
            (PayStage::Commit { seat_id }, PayEvent::Committed) => (
                PayStage::Done,
                PayAction::Respond(
                    Ok(PaymentResponse { reservation_id: self.reservation_id, seat_id }),
                ),
            ),
            _ => (PayStage::Done, PayAction::Respond(Err(Refusal::Internal))),
        };
        self.stage = stage;
        action
    }
}

/// The actions that a payment takes when the database gives `events` one
/// after another.
pub open spec fn pay_run(p: Payment, events: Seq<PayEvent>) -> Seq<PayAction>
    decreases events.len(),
{
    if events.len() == 0 {
        Seq::empty()
    } else {
        let (p2, a) = p.next(events[0]);
        seq![a] + pay_run(p2, events.drop_first())
    }
}

/// A payment without database errors: the seat of the reservation is read
/// first; a refused payment is answered with its refusal and nothing is
/// written; an accepted one marks the seat sold, commits, and replies 200
/// with the reservation and the seat.
pub proof fn lemma_pay_conversation(
    reservation_id: u128,
    request: PaymentRequest,
    row: Option<HoldRow>,
)
    ensures
        ({
            let p = Payment { reservation_id, user_id: request.user_id, stage: PayStage::Begin };
            let verdict = payment_verdict(row, request.user_id);
            &&& verdict is Err ==> pay_run(
                p,
                seq![PayEvent::TransactionBegun, PayEvent::HoldLoaded(row)],
            ) == seq![
                PayAction::LoadHold { reservation_id },
                PayAction::Respond(Err(verdict->Err_0)),
            ]
            &&& verdict is Ok ==> pay_run(
                p,
                seq![
                    PayEvent::TransactionBegun,
                    PayEvent::HoldLoaded(row),
                    PayEvent::SeatSold,
                    PayEvent::Committed,
                ],
            ) == seq![
                PayAction::LoadHold { reservation_id },
                PayAction::MarkSold { seat_id: verdict->Ok_0 },
                PayAction::Commit,
                PayAction::Respond(
                    Ok(PaymentResponse { reservation_id, seat_id: verdict->Ok_0 }),
                ),
            ]
        }),
{
    reveal_with_fuel(pay_run, 5);
}

/// A database error at any point of a payment ends it with a 500.
pub proof fn lemma_pay_failure(p: Payment)
    ensures
        p.next(PayEvent::Failed) == (
            Payment { stage: PayStage::Done, ..p },
            PayAction::Respond(Err(Refusal::Internal)),
        ),
{
}

// ---------------------------------------------------------------------------
// What the writes leave in a seat, and what a payment then finds
// ---------------------------------------------------------------------------

/// The state that a write leaves in a seat: its status, its holder, and
/// whether it set an end of hold (a hold sets one, a sale or a release
/// clears it).
#[derive(Clone, Copy, Debug, PartialEq, Eq, Structural)]
pub struct SeatWrite {
    pub status: SeatStatus,
    pub held_by: Option<u128>,
    pub hold_set: bool,
}

/// The row of a seat as a payment reads it after `write`, where `expired`
/// says whether a hold that the write set has run out by then.
pub open spec fn row_after(seat_id: u128, write: SeatWrite, expired: bool) -> HoldRow {
    HoldRow {
        seat_id,
        status: write.status,
        held_by: write.held_by,
        expired: if write.hold_set { Some(expired) } else { None },
    }
}

/// The state that a hold for `user_id` leaves in a seat.
pub open spec fn hold_for(user_id: u128) -> SeatWrite {
    SeatWrite { status: SeatStatus::Held, held_by: Some(user_id), hold_set: true }
}

/// A seat that a reservation or the sweeper has just held for a user can be
/// paid for by that user while the hold lasts, and by no one else; once the
/// hold has run out the payment is refused with 403.
pub proof fn lemma_holder_can_pay(seat_id: u128, holder: u128, payer: u128, expired: bool)
    ensures
        payment_verdict(Some(row_after(seat_id, hold_for(holder), expired)), payer)
            == if payer != holder {
            Err::<u128, Refusal>(Refusal::Conflict)
        } else if expired {
            Err(Refusal::Forbidden)
        } else {
            Ok(seat_id)
        },
{
}

// ---------------------------------------------------------------------------
// Sweeping expired holds
// ---------------------------------------------------------------------------

/// Where a sweep stands. A sweep takes expired holds back one transaction at
/// a time, until a transaction finds none.
#[derive(Clone, Copy, Debug, PartialEq, Eq, Structural)]
pub enum SweepStage {
    Begin,
    FindExpired,
    FindNextInLine { seat_id: u128 },
    Reassign { seat_id: u128, waitlist_id: u128, user_id: u128 },
    TransferReservation { seat_id: u128, waitlist_id: u128, user_id: u128 },
    Dequeue { waitlist_id: u128 },
    Release { seat_id: u128 },
    DropReservation { seat_id: u128 },
    CommitSwept,
    CommitIdle,
    Finished,
}

/// How a sweep ended: the number of holds taken back, or a database error.
#[derive(Clone, Copy, Debug, PartialEq, Eq, Structural)]
pub enum SweepOutcome {
    Swept(u64),
    Failed,
}

/// The next thing that the sweeper does.
#[derive(Clone, Copy, Debug, PartialEq, Eq, Structural)]
pub enum SweepAction {
    BeginTransaction,
    /// Lock some held seat whose hold ran out, skipping locked ones; returns
    /// the seat and its event.
    FindExpiredHold,
    /// Lock the earliest entry of the event's queue, skipping locked ones;
    /// returns the entry and its user.
    FindNextInLine { event_id: u128 },
    /// Hold the seat for the user for `HOLD_DURATION_SECS` from now.
    ReassignSeat { seat_id: u128, user_id: u128 },
    /// Hand the seat's reservation to the user, confirmed now.
    TransferReservation { seat_id: u128, user_id: u128 },
    /// Delete the queue entry.
    RemoveWaitlistEntry { waitlist_id: u128 },
    /// Make the seat available again and clear its hold.
    ReleaseSeat { seat_id: u128 },
    /// Delete the seat's reservation.
    DeleteReservation { seat_id: u128 },
    Commit,
    /// The sweep is over.
    Finish(SweepOutcome),
}

/// The answer of the database to the sweeper's last action.
#[derive(Clone, Copy, Debug, PartialEq, Eq)]
pub enum SweepEvent {
    TransactionBegun,
    /// The seat and the event of an expired hold, if there is one.
    ExpiredHoldFound(Option<(u128, u128)>),
    /// The queue entry and the user first in line, if anyone waits.
    NextInLineFound(Option<(u128, u128)>),
    Written,
    Committed,
    Failed,
}

/// One sweep, with the number of holds taken back so far.
#[derive(Clone, Copy, Debug, PartialEq, Eq, Structural)]
pub struct Sweep {
    pub swept: u64,
    pub stage: SweepStage,
}

impl Sweep {
    /// The step of a sweep, from its stage and the database's answer. An
    /// expired hold goes to the first user in the event's queue, or else
    /// the seat becomes available and its reservation is deleted; each such
    /// transaction counts once and another one begins. A transaction that
    /// finds no expired hold ends the sweep.
    pub open spec fn next(self, event: SweepEvent) -> (Sweep, SweepAction) {
        let fail = (
            Sweep { stage: SweepStage::Finished, ..self },
            SweepAction::Finish(SweepOutcome::Failed),
        );
        match (self.stage, event) {
            (SweepStage::Begin, SweepEvent::TransactionBegun) => (
                Sweep { stage: SweepStage::FindExpired, ..self },
                SweepAction::FindExpiredHold,
            ),
            (SweepStage::FindExpired, SweepEvent::ExpiredHoldFound(found)) => match found {
                None => (Sweep { stage: SweepStage::CommitIdle, ..self }, SweepAction::Commit),
                Some((seat_id, event_id)) => (
                    Sweep { stage: SweepStage::FindNextInLine { seat_id }, ..self },
                    SweepAction::FindNextInLine { event_id },
                ),
            },
            (SweepStage::FindNextInLine { seat_id }, SweepEvent::NextInLineFound(next)) => match next {
                Some((waitlist_id, user_id)) => (
                    Sweep { stage: SweepStage::Reassign { seat_id, waitlist_id, user_id }, ..self },
                    SweepAction::ReassignSeat { seat_id, user_id },
                ),
                None => (
                    Sweep { stage: SweepStage::Release { seat_id }, ..self },
                    SweepAction::ReleaseSeat { seat_id },
                ),
            },
            (SweepStage::Reassign { seat_id, waitlist_id, user_id }, SweepEvent::Written) => (
                Sweep {
                    stage: SweepStage::TransferReservation { seat_id, waitlist_id, user_id },
                    ..self
                },
                SweepAction::TransferReservation { seat_id, user_id },
            ),
            (
                SweepStage::TransferReservation { seat_id, waitlist_id, user_id },
                SweepEvent::Written,
            ) => (
                Sweep { stage: SweepStage::Dequeue { waitlist_id }, ..self },
                SweepAction::RemoveWaitlistEntry { waitlist_id },
            ),
            (SweepStage::Dequeue { waitlist_id }, SweepEvent::Written) => (
                Sweep { stage: SweepStage::CommitSwept, ..self },
                SweepAction::Commit,
            ),
            (SweepStage::Release { seat_id }, SweepEvent::Written) => (
                Sweep { stage: SweepStage::DropReservation { seat_id }, ..self },
                SweepAction::DeleteReservation { seat_id },
            ),
            (SweepStage::DropReservation { seat_id }, SweepEvent::Written) => (
                Sweep { stage: SweepStage::CommitSwept, ..self },
                SweepAction::Commit,
            ),
            (SweepStage::CommitSwept, SweepEvent::Committed) => (
                Sweep { swept: (self.swept + 1) as u64, stage: SweepStage::Begin },
                SweepAction::BeginTransaction,
            ),
            (SweepStage::CommitIdle, SweepEvent::Committed) => (
                Sweep { stage: SweepStage::Finished, ..self },
                SweepAction::Finish(SweepOutcome::Swept(self.swept)),
            ),
            _ => fail,
        }
    }

    /// A new sweep; its first action opens a transaction.
    pub fn start() -> (r: (Sweep, SweepAction))
        ensures
            r.0 == (Sweep { swept: 0, stage: SweepStage::Begin }),
            r.1 == SweepAction::BeginTransaction,
    {
        (Sweep { swept: 0, stage: SweepStage::Begin }, SweepAction::BeginTransaction)
    }

    /// Whether `event` completes a transaction that took a hold back, so
    /// that the count grows by one.
    pub open spec fn counts_next(self, event: SweepEvent) -> bool {
        self.stage == SweepStage::CommitSwept && event is Committed
    }

    /// Whether `event` completes a transaction that took a hold back.
    pub fn counts(&self, event: &SweepEvent) -> (b: bool)
        ensures
            b == self.counts_next(*event),
    {
        match (self.stage, event) {
            (SweepStage::CommitSwept, SweepEvent::Committed) => true,
            _ => false,
        }
    }

    /// Whether the count can take one more hold.
    pub open spec fn can_count(self) -> bool {
        self.swept < u64::MAX
    }

    /// Whether the count can take one more hold.
    pub fn has_room(&self) -> (b: bool)
        ensures
            b == self.can_count(),
    {
        self.swept < u64::MAX
    }

    /// Takes the database's answer to the last action and gives the next one.
    pub fn step(&mut self, event: SweepEvent) -> (a: SweepAction)
        requires
            old(self).counts_next(event) ==> old(self).can_count(),
        ensures
            (*final(self), a) == old(self).next(event),
    {
        let (swept, stage, action) = match (self.stage, event) {
            (SweepStage::Begin, SweepEvent::TransactionBegun) => (
                self.swept,
                SweepStage::FindExpired,
                SweepAction::FindExpiredHold,
            ),
            (SweepStage::FindExpired, SweepEvent::ExpiredHoldFound(found)) => match found {
                None => (self.swept, SweepStage::CommitIdle, SweepAction::Commit),
                Some((seat_id, event_id)) => (
                    self.swept,
                    SweepStage::FindNextInLine { seat_id },
                    SweepAction::FindNextInLine { event_id },
                ),
            },
            (SweepStage::FindNextInLine { seat_id }, SweepEvent::NextInLineFound(next)) => match next {
                Some((waitlist_id, user_id)) => (
                    self.swept,
                    SweepStage::Reassign { seat_id, waitlist_id, user_id },
                    SweepAction::ReassignSeat { seat_id, user_id },
                ),
                None => (
                    self.swept,
                    SweepStage::Release { seat_id },
                    SweepAction::ReleaseSeat { seat_id },
                ),
            },
            (SweepStage::Reassign { seat_id, waitlist_id, user_id }, SweepEvent::Written) => (
                self.swept,
                SweepStage::TransferReservation { seat_id, waitlist_id, user_id },
                SweepAction::TransferReservation { seat_id, user_id },
            ),
            (
                SweepStage::TransferReservation { seat_id, waitlist_id, user_id },
                SweepEvent::Written,
            ) => (
                self.swept,
                SweepStage::Dequeue { waitlist_id },
                SweepAction::RemoveWaitlistEntry { waitlist_id },
            ),
            (SweepStage::Dequeue { waitlist_id }, SweepEvent::Written) => (
                self.swept,
                SweepStage::CommitSwept,
                SweepAction::Commit,
            ),
            (SweepStage::Release { seat_id }, SweepEvent::Written) => (
                self.swept,
                SweepStage::DropReservation { seat_id },
                SweepAction::DeleteReservation { seat_id },
            ),
            (SweepStage::DropReservation { seat_id }, SweepEvent::Written) => (
                self.swept,
                SweepStage::CommitSwept,
                SweepAction::Commit,
            ),
            (SweepStage::CommitSwept, SweepEvent::Committed) => (
                self.swept + 1,
                SweepStage::Begin,
                SweepAction::BeginTransaction,
            ),
            (SweepStage::CommitIdle, SweepEvent::Committed) => (
                self.swept,
                SweepStage::Finished,
                SweepAction::Finish(SweepOutcome::Swept(self.swept)),
            ),
            _ => (self.swept, SweepStage::Finished, SweepAction::Finish(SweepOutcome::Failed)),
        };
        self.swept = swept;
        self.stage = stage;
        action
    }
}

/// The actions that a sweep takes when the database gives `events` one
/// after another.
pub open spec fn sweep_run(s: Sweep, events: Seq<SweepEvent>) -> Seq<SweepAction>
    decreases events.len(),
{
    if events.len() == 0 {
        Seq::empty()
    } else {
        let (s2, a) = s.next(events[0]);
        seq![a] + sweep_run(s2, events.drop_first())
    }
}

/// The sweep after `events`.
pub open spec fn sweep_after(s: Sweep, events: Seq<SweepEvent>) -> Sweep
    decreases events.len(),
{
    if events.len() == 0 {
        s
    } else {
        sweep_after(s.next(events[0]).0, events.drop_first())
    }
}

/// One transaction of a sweep, without database errors. With no expired hold
/// the transaction commits and the sweep ends with its count. An expired hold
/// whose event has a queue goes to the user first in line: the seat is held
/// for them, the reservation handed over, their queue entry deleted; with no
/// queue the seat becomes available and its reservation is deleted. Either
/// way the transaction commits, the count grows by one, and the next
/// transaction begins.
pub proof fn lemma_sweep_round(
    swept: u64,
    expired: Option<(u128, u128)>,
    next_in_line: Option<(u128, u128)>,
)
    requires
        swept < u64::MAX,
    ensures
        ({
            let s = Sweep { swept, stage: SweepStage::Begin };
            let (seat_id, event_id) = expired.unwrap();
            let (waitlist_id, user_id) = next_in_line.unwrap();
            let idle = seq![
                SweepEvent::TransactionBegun,
                SweepEvent::ExpiredHoldFound(None),
                SweepEvent::Committed,
            ];
            let handed_over = seq![
                SweepEvent::TransactionBegun,
                SweepEvent::ExpiredHoldFound(expired),
                SweepEvent::NextInLineFound(next_in_line),
                SweepEvent::Written,
                SweepEvent::Written,
                SweepEvent::Written,
                SweepEvent::Committed,
            ];
            let released = seq![
                SweepEvent::TransactionBegun,
                SweepEvent::ExpiredHoldFound(expired),
                SweepEvent::NextInLineFound(None),
                SweepEvent::Written,
                SweepEvent::Written,
                SweepEvent::Committed,
            ];
            &&& expired is None ==> sweep_run(s, idle) == seq![
                SweepAction::FindExpiredHold,
                SweepAction::Commit,
                SweepAction::Finish(SweepOutcome::Swept(swept)),
            ]
            &&& expired is Some && next_in_line is Some ==> {
                &&& sweep_run(s, handed_over) == seq![
                    SweepAction::FindExpiredHold,
                    SweepAction::FindNextInLine { event_id },
                    SweepAction::ReassignSeat { seat_id, user_id },
                    SweepAction::TransferReservation { seat_id, user_id },
                    SweepAction::RemoveWaitlistEntry { waitlist_id },
                    SweepAction::Commit,
                    SweepAction::BeginTransaction,
                ]
                &&& sweep_after(s, handed_over) == (Sweep {
                    swept: (swept + 1) as u64,
                    stage: SweepStage::Begin,
                })
            }
            &&& expired is Some && next_in_line is None ==> {
                &&& sweep_run(s, released) == seq![
                    SweepAction::FindExpiredHold,
                    SweepAction::FindNextInLine { event_id },
                    SweepAction::ReleaseSeat { seat_id },
                    SweepAction::DeleteReservation { seat_id },
                    SweepAction::Commit,
                    SweepAction::BeginTransaction,
                ]
                &&& sweep_after(s, released) == (Sweep {
                    swept: (swept + 1) as u64,
                    stage: SweepStage::Begin,
                })
            }
        }),
{
    reveal_with_fuel(sweep_run, 8);
    reveal_with_fuel(sweep_after, 8);
}

/// The answers of the database to one transaction that takes back the
/// expired hold of `seat` (a seat and its event), given to `next` (a queue
/// entry and its user) or released when nobody waits.
pub open spec fn round_answers(seat: (u128, u128), next: Option<(u128, u128)>) -> Seq<SweepEvent> {
    match next {
        Some(_) => seq![
            SweepEvent::TransactionBegun,
            SweepEvent::ExpiredHoldFound(Some(seat)),
            SweepEvent::NextInLineFound(next),
            SweepEvent::Written,
            SweepEvent::Written,
            SweepEvent::Written,
            SweepEvent::Committed,
        ],
        None => seq![
            SweepEvent::TransactionBegun,
            SweepEvent::ExpiredHoldFound(Some(seat)),
            SweepEvent::NextInLineFound(None),
            SweepEvent::Written,
            SweepEvent::Written,
            SweepEvent::Committed,
        ],
    }
}

/// The answers of the database to a whole sweep without errors: one
/// transaction per expired hold in `rounds`, then one that finds none.
pub open spec fn sweep_answers(rounds: Seq<((u128, u128), Option<(u128, u128)>)>) -> Seq<SweepEvent>
    decreases rounds.len(),
{
    if rounds.len() == 0 {
        seq![
            SweepEvent::TransactionBegun,
            SweepEvent::ExpiredHoldFound(None),
            SweepEvent::Committed,
        ]
    } else {
        round_answers(rounds[0].0, rounds[0].1) + sweep_answers(rounds.drop_first())
    }
}

proof fn lemma_sweep_run_concat(s: Sweep, a: Seq<SweepEvent>, b: Seq<SweepEvent>)
    ensures
        sweep_run(s, a + b) == sweep_run(s, a) + sweep_run(sweep_after(s, a), b),
    decreases a.len(),
{
    if a.len() == 0 {
        assert(a + b =~= b);
        assert(sweep_run(s, a) =~= Seq::<SweepAction>::empty());
        assert(sweep_run(s, a) + sweep_run(sweep_after(s, a), b) =~= sweep_run(s, b));
    } else {
        let (s2, x) = s.next(a[0]);
        assert((a + b).drop_first() =~= a.drop_first() + b);
        assert((a + b)[0] == a[0]);
        lemma_sweep_run_concat(s2, a.drop_first(), b);
        assert(sweep_run(s, a + b) == seq![x] + sweep_run(s2, a.drop_first() + b));
        assert(sweep_run(s, a) == seq![x] + sweep_run(s2, a.drop_first()));
        assert(sweep_after(s, a) == sweep_after(s2, a.drop_first()));
        assert(seq![x] + (sweep_run(s2, a.drop_first()) + sweep_run(sweep_after(s2, a.drop_first()), b))
            =~= (seq![x] + sweep_run(s2, a.drop_first())) + sweep_run(sweep_after(s2, a.drop_first()), b));
    }
}

proof fn lemma_sweep_round_count(swept: u64, seat: (u128, u128), next: Option<(u128, u128)>)
    requires
        swept < u64::MAX,
    ensures
        sweep_after(Sweep { swept, stage: SweepStage::Begin }, round_answers(seat, next)) == (Sweep {
            swept: (swept + 1) as u64,
            stage: SweepStage::Begin,
        }),
{
    reveal_with_fuel(sweep_after, 8);
}

/// A sweep counts what it takes back: a sweep without database errors that
/// finds `rounds.len()` expired holds, one transaction each, ends with a
/// count of exactly that many (on top of `swept`).
pub proof fn lemma_sweep_counts_holds(swept: u64, rounds: Seq<((u128, u128), Option<(u128, u128)>)>)
    requires
        swept + rounds.len() <= u64::MAX,
    ensures
        ({
            let actions = sweep_run(Sweep { swept, stage: SweepStage::Begin }, sweep_answers(rounds));
            &&& actions.len() > 0
            &&& actions.last() == SweepAction::Finish(SweepOutcome::Swept((swept + rounds.len()) as u64))
        }),
    decreases rounds.len(),
{
    let s = Sweep { swept, stage: SweepStage::Begin };
    if rounds.len() == 0 {
        reveal_with_fuel(sweep_run, 4);
    } else {
        let first = round_answers(rounds[0].0, rounds[0].1);
        let rest = sweep_answers(rounds.drop_first());
        lemma_sweep_run_concat(s, first, rest);
        lemma_sweep_round_count(swept, rounds[0].0, rounds[0].1);
        lemma_sweep_counts_holds((swept + 1) as u64, rounds.drop_first());
        let tail = sweep_run(Sweep { swept: (swept + 1) as u64, stage: SweepStage::Begin }, rest);
        assert(sweep_run(s, sweep_answers(rounds)) == sweep_run(s, first) + tail);
        assert((sweep_run(s, first) + tail).last() == tail.last());
    }
}

/// A database error at any point of a sweep ends it as failed.
pub proof fn lemma_sweep_failure(s: Sweep)
    ensures
        s.next(SweepEvent::Failed) == (
            Sweep { stage: SweepStage::Finished, ..s },
            SweepAction::Finish(SweepOutcome::Failed),
        ),
{
}

// ---------------------------------------------------------------------------
// Writes to a seat, across requests
// ---------------------------------------------------------------------------

/// The state that a reservation's write leaves in its seat.
pub open spec fn reserve_write(a: ReserveAction) -> Option<SeatWrite> {
    match a {
        ReserveAction::HoldSeat { seat_id, user_id } => Some(hold_for(user_id)),
        _ => None,
    }
}

/// The state that a payment's write leaves in its seat: sold, with the hold
/// cleared.
pub open spec fn pay_write(a: PayAction) -> Option<SeatWrite> {
    match a {
        PayAction::MarkSold { seat_id } => Some(
            SeatWrite { status: SeatStatus::Sold, held_by: None, hold_set: false },
        ),
        _ => None,
    }
}

/// The state that the sweeper's write leaves in its seat: held for a new
/// user, or available with the hold cleared.
pub open spec fn sweep_write(a: SweepAction) -> Option<SeatWrite> {
    match a {
        SweepAction::ReassignSeat { seat_id, user_id } => Some(hold_for(user_id)),
        SweepAction::ReleaseSeat { seat_id } => Some(
            SeatWrite { status: SeatStatus::Available, held_by: None, hold_set: false },
        ),
        _ => None,
    }
}

/// What the queue promises: when the sweeper takes back an expired hold of
/// an event with a queue, the seat is held for the user first in line, who
/// can then pay for it before the new hold runs out, while the user whose
/// hold expired, or anyone else, is refused with 409. With no queue, the
/// seat is released and its reservation deleted, so a later payment for
/// that reservation finds nothing and is answered 404.
pub proof fn lemma_queue_gets_the_seat(
    swept: u64,
    seat_id: u128,
    event_id: u128,
    waitlist_id: u128,
    first_in_line: u128,
    payer: u128,
)
    requires
        swept < u64::MAX,
    ensures
        ({
            let s = Sweep { swept, stage: SweepStage::Begin };
            let expired = Some((seat_id, event_id));
            let handed = sweep_run(
                s,
                seq![
                    SweepEvent::TransactionBegun,
                    SweepEvent::ExpiredHoldFound(expired),
                    SweepEvent::NextInLineFound(Some((waitlist_id, first_in_line))),
                ],
            );
            let released = sweep_run(
                s,
                seq![
                    SweepEvent::TransactionBegun,
                    SweepEvent::ExpiredHoldFound(expired),
                    SweepEvent::NextInLineFound(None),
                    SweepEvent::Written,
                ],
            );
            &&& sweep_write(handed[2]) == Some(hold_for(first_in_line))
            &&& payment_verdict(Some(row_after(seat_id, hold_for(first_in_line), false)), payer)
                == if payer == first_in_line {
                Ok::<u128, Refusal>(seat_id)
            } else {
                Err(Refusal::Conflict)
            }
            &&& sweep_write(released[2]) is Some
            &&& sweep_write(released[2]).unwrap().status == SeatStatus::Available
            &&& released[3] == SweepAction::DeleteReservation { seat_id }
            &&& payment_verdict(None, payer) == Err::<u128, Refusal>(Refusal::NotFound)
        }),
{
    reveal_with_fuel(sweep_run, 5);
}

/// What a reservation promises: the seat that it holds can be paid for by
/// the user who reserved it while the hold lasts, and by no one else.
pub proof fn lemma_reserved_seat_payable(
    event_id: u128,
    request: ReserveRequest,
    seat_id: u128,
    payer: u128,
)
    ensures
        ({
            let r = Reservation {
                event_id,
                user_id: request.user_id,
                requested_seat: request.seat_id,
                stage: ReserveStage::Begin,
            };
            let actions = reserve_run(
                r,
                seq![
                    ReserveEvent::TransactionBegun,
                    ReserveEvent::EventChecked(true),
                    ReserveEvent::SeatLocked(Some(seat_id)),
                ],
            );
            &&& reserve_write(actions[2]) == Some(hold_for(request.user_id))
            &&& payment_verdict(Some(row_after(seat_id, hold_for(request.user_id), false)), payer)
                == if payer == request.user_id {
                Ok::<u128, Refusal>(seat_id)
            } else {
                Err(Refusal::Conflict)
            }
        }),
{
    reveal_with_fuel(reserve_run, 4);
}

/// A paid seat cannot be paid for again: the sale leaves the seat sold with
/// its hold cleared, and a later payment for the reservation reads a row
/// without an end of hold, which the server answers with 500; it never
/// sells the seat a second time.
pub proof fn lemma_sale_is_final(
    reservation_id: u128,
    request: PaymentRequest,
    row: HoldRow,
    later_payer: u128,
    expired: bool,
)
    requires
        payment_verdict(Some(row), request.user_id) is Ok,
    ensures
        ({
            let p = Payment { reservation_id, user_id: request.user_id, stage: PayStage::Begin };
            let actions = pay_run(p, seq![PayEvent::TransactionBegun, PayEvent::HoldLoaded(Some(row))]);
            let write = pay_write(actions[1]).unwrap();
            &&& pay_write(actions[1]) is Some
            &&& write.status == SeatStatus::Sold
            &&& payment_verdict(Some(row_after(row.seat_id, write, expired)), later_payer) == Err::<
                u128,
                Refusal,
            >(Refusal::Internal)
        }),
{
    reveal_with_fuel(pay_run, 3);
}

// ---------------------------------------------------------------------------
// The life of a seat, across requests
// ---------------------------------------------------------------------------

/// A committed change to one seat, by the request that made it: a
/// reservation's hold, a payment's sale, the sweeper handing the seat to the
/// first user in line, or the sweeper releasing it.
pub enum SeatChange {
    Reserve { user_id: u128 },
    Sell { payer: u128 },
    HandOver { user_id: u128 },
    Release,
}

/// What a reservation writes to the seat's reservation rows: a new row.
pub open spec fn reserve_reservation_write(a: ReserveAction) -> Option<bool> {
    match a {
        ReserveAction::InsertReservation { .. } => Some(true),
        _ => None,
    }
}

/// What the sweeper writes to the seat's reservation rows: the row handed to
/// the next user (still there), or the row deleted.
pub open spec fn sweep_reservation_write(a: SweepAction) -> Option<bool> {
    match a {
        SweepAction::TransferReservation { .. } => Some(true),
        SweepAction::DeleteReservation { .. } => Some(false),
        _ => None,
    }
}

/// A seat together with whether a reservation row names it.
pub struct SeatLife {
    pub seat: SeatWrite,
    pub reserved: bool,
}

/// The seat and its reservation after a change, as the requests' writes give
/// them: a reservation holds the seat and inserts its row; a payment sells
/// the seat and leaves the row; the sweeper either holds the seat for the
/// next user and hands the row over, or releases the seat and deletes the row.
pub open spec fn changed(seat_id: u128, c: SeatChange) -> SeatLife {
    match c {
        SeatChange::Reserve { user_id } => SeatLife {
            seat: reserve_write(ReserveAction::HoldSeat { seat_id, user_id }).unwrap(),
            reserved: reserve_reservation_write(
                ReserveAction::InsertReservation { seat_id, user_id },
            ).unwrap(),
        },
        SeatChange::Sell { payer } => SeatLife {
            seat: pay_write(PayAction::MarkSold { seat_id }).unwrap(),
            reserved: true,
        },
        SeatChange::HandOver { user_id } => SeatLife {
            seat: sweep_write(SweepAction::ReassignSeat { seat_id, user_id }).unwrap(),
            reserved: sweep_reservation_write(
                SweepAction::TransferReservation { seat_id, user_id },
            ).unwrap(),
        },
        SeatChange::Release => SeatLife {
            seat: sweep_write(SweepAction::ReleaseSeat { seat_id }).unwrap(),
            reserved: sweep_reservation_write(SweepAction::DeleteReservation { seat_id }).unwrap(),
        },
    }
}

/// Whether a request makes the change to a seat in state `l`, where
/// `expired` says whether a hold on it has run out: a reservation locks only
/// an available seat, and the sweeper only a held seat whose hold ran out
/// (the conditions of their queries, which lock the row); a payment reads
/// the seat through its reservation and sells only where its verdict on
/// that row is a sale.
pub open spec fn change_allowed(seat_id: u128, l: SeatLife, c: SeatChange, expired: bool) -> bool {
    match c {
        SeatChange::Reserve { .. } => l.seat.status == SeatStatus::Available,
        SeatChange::Sell { payer } => l.reserved && payment_verdict(
            Some(row_after(seat_id, l.seat, expired)),
            payer,
        ) is Ok,
        SeatChange::HandOver { .. } => l.seat.status == SeatStatus::Held && l.seat.hold_set
            && expired,
        SeatChange::Release => l.seat.status == SeatStatus::Held && l.seat.hold_set && expired,
    }
}

/// A seat in a state that the requests keep: a known status; a holder and
/// an end of hold exactly while the seat is held; and one reservation row
/// exactly while the seat is held or sold.
pub open spec fn seat_consistent(l: SeatLife) -> bool {
    &&& l.seat.status != SeatStatus::Unknown
    &&& (l.seat.status == SeatStatus::Held) == (l.seat.held_by is Some)
    &&& (l.seat.status == SeatStatus::Held) == l.seat.hold_set
    &&& l.reserved == (l.seat.status == SeatStatus::Held || l.seat.status == SeatStatus::Sold)
}

/// The moves of a seat's status: available to held (a reservation), held to
/// sold (a payment), held to held with a new holder or held to available
/// (the sweeper).
pub open spec fn status_move(before: SeatStatus, after: SeatStatus) -> bool {
    ||| before == SeatStatus::Available && after == SeatStatus::Held
    ||| before == SeatStatus::Held && after == SeatStatus::Sold
    ||| before == SeatStatus::Held && after == SeatStatus::Held
    ||| before == SeatStatus::Held && after == SeatStatus::Available
}

/// One committed change keeps a consistent seat consistent, and moves its
/// status along one of the four moves; a sold seat takes no change at all.
pub proof fn lemma_seat_change(seat_id: u128, l: SeatLife, c: SeatChange, expired: bool)
    requires
        seat_consistent(l),
    ensures
        change_allowed(seat_id, l, c, expired) ==> seat_consistent(changed(seat_id, c))
            && status_move(l.seat.status, changed(seat_id, c).seat.status),
        l.seat.status == SeatStatus::Sold ==> !change_allowed(seat_id, l, c, expired),
{
}

/// The seat after `changes` (each with whether a hold had run out when it
/// was made), committed in order from `l`.
pub open spec fn seat_after(seat_id: u128, l: SeatLife, changes: Seq<(SeatChange, bool)>) -> SeatLife {
    if changes.len() == 0 {
        l
    } else {
        changed(seat_id, changes.last().0)
    }
}

/// Whether each of `changes` is made by its request on the seat it finds.
pub open spec fn changes_allowed(seat_id: u128, l: SeatLife, changes: Seq<(SeatChange, bool)>) -> bool
    decreases changes.len(),
{
    changes.len() == 0 || (changes_allowed(seat_id, l, changes.drop_last()) && change_allowed(
        seat_id,
        seat_after(seat_id, l, changes.drop_last()),
        changes.last().0,
        changes.last().1,
    ))
}

/// Across requests in any interleaving (the row lock orders their commits,
/// and each request reads the seat as the last commit left it), a seat that
/// starts consistent stays consistent (status, holder, end of hold and
/// reservation row agree), each commit moves its status along one of the
/// four moves, and once sold it is never changed again.
pub proof fn lemma_seat_life(seat_id: u128, l: SeatLife, changes: Seq<(SeatChange, bool)>)
    requires
        seat_consistent(l),
        changes_allowed(seat_id, l, changes),
    ensures
        seat_consistent(seat_after(seat_id, l, changes)),
        changes.len() > 0 ==> status_move(
            seat_after(seat_id, l, changes.drop_last()).seat.status,
            seat_after(seat_id, l, changes).seat.status,
        ),
        forall|i: int|
            0 <= i < changes.len() ==> (#[trigger] seat_after(seat_id, l, changes.take(i))).seat.status
                != SeatStatus::Sold,
    decreases changes.len(),
{
    if changes.len() > 0 {
        let prev = changes.drop_last();
        lemma_seat_life(seat_id, l, prev);
        let before = seat_after(seat_id, l, prev);
        lemma_seat_change(seat_id, before, changes.last().0, changes.last().1);
        assert forall|i: int| 0 <= i < changes.len() implies (#[trigger] seat_after(
            seat_id,
            l,
            changes.take(i),
        )).seat.status != SeatStatus::Sold by {
            if i < prev.len() {
                assert(changes.take(i) =~= prev.take(i));
                assert(seat_after(seat_id, l, prev.take(i)).seat.status != SeatStatus::Sold);
            } else {
                assert(changes.take(i) =~= prev);
            }
        }
    }
}

// ---------------------------------------------------------------------------
// The sweeper's log
// ---------------------------------------------------------------------------

/// How often the sweeper looks for expired holds.
pub const SWEEP_INTERVAL_SECS: u64 = 5;

/// The line that the sweeper prints after a sweep: how many reservations it
/// took back (with the plural where the count is not one) and how long the
/// sweep took in microseconds.
pub open spec fn sweep_report_text(count: nat, micros: nat) -> Seq<char> {
    "[sweeper] sweeped "@ + decimal(count) + " reservation"@ + (if count == 1 {
        Seq::<char>::empty()
    } else {
        "s"@
    }) + " in "@ + decimal(micros) + "us"@
}

/// The sweeper's line after a sweep.
pub fn sweep_report(count: u64, micros: u128) -> (line: String)
    ensures
        line@ == sweep_report_text(count as nat, micros as nat),
{
    let mut line = owned("[sweeper] sweeped ");
    push_decimal(&mut line, count as u128);
    line.append(" reservation");
    if count != 1 {
        line.append("s");
    }
    line.append(" in ");
    push_decimal(&mut line, micros);
    line.append("us");
    proof {
        assert(line@ =~= sweep_report_text(count as nat, micros as nat));
    }
    line
}

/// The sweeper's line after a failed sweep, with the database's error.
pub fn sweep_error_report(detail: &str) -> (line: String)
    ensures
        line@ == "[sweeper] error: "@ + detail@,
{
    let mut line = owned("[sweeper] error: ");
    line.append(detail);
    line
}

} // verus!
