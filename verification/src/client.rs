//! The dashboard's side of the conversation with the booking server: the
//! records that it reads, the replies that it tells apart, and the messages
//! that it shows when a call fails.

use vstd::prelude::*;
use vstd::string::*;
use crate::messages::{PaymentResponse, ReservationResponse, WaitlistResponse};
use crate::text::{owned, push_decimal, decimal};

verus! {

/// An event with its seat counts, as the server lists it.
#[derive(Clone, Debug, PartialEq, Eq)]
pub struct Event {
    pub id: u128,
    pub name: String,
    pub date: String,
    pub venue: String,
    pub total_seats: i32,
    pub available_seats: i64,
    pub held_seats: i64,
    pub sold_seats: i64,
    pub waitlist_count: i64,
}

/// A seat of an event, as the server lists it. `status` is `available`,
/// `held` or `sold`; while held, the seat names its holder, the end of the
/// hold (seconds since the epoch, kept as the bits of the server's
/// floating-point number) and its reservation.
#[derive(Clone, Debug, PartialEq, Eq)]
pub struct Seat {
    pub id: u128,
    pub label: Option<String>,
    pub status: String,
    pub held_until_epoch_bits: Option<u64>,
    pub held_by_user_id: Option<u128>,
    pub reservation_id: Option<u128>,
}

/// The body of a reservation sent by the dashboard: who asks.
#[derive(Clone, Copy, Debug, PartialEq, Eq, Structural)]
pub struct ReserveRequest {
    pub user_id: u128,
}

/// A reservation that the server granted: a held seat or a place in the queue.
#[derive(Clone, Copy, Debug, PartialEq, Eq, Structural)]
pub enum ReserveResult {
    Reserved(ReservationResponse),
    Waitlisted(WaitlistResponse),
}

/// How the dashboard reads the status of a reservation's answer.
#[derive(Clone, Copy, Debug, PartialEq, Eq, Structural)]
pub enum ReplyKind {
    /// 201: a seat is held; the body is a reservation.
    Reserved,
    /// 202: the user is in the queue; the body is a queue entry.
    Waitlisted,
    /// Anything else: the reservation failed.
    Refused,
}

/// Tells the answers to a reservation apart by their status.
pub fn reserve_reply_kind(status: u16) -> (k: ReplyKind)
    ensures
        k == (if status == 201 {
            ReplyKind::Reserved
        } else if status == 202 {
            ReplyKind::Waitlisted
        } else {
            ReplyKind::Refused
        }),
{
    if status == 201 {
        ReplyKind::Reserved
    } else if status == 202 {
        ReplyKind::Waitlisted
    } else {
        ReplyKind::Refused
    }
}

/// Whether a payment's answer reports success: only 200 does.
pub fn payment_accepted(status: u16) -> (b: bool)
    ensures
        b == (status == 200),
{
    status == 200
}

/// The step at which a call to the server failed.
#[derive(Clone, Copy, Debug, PartialEq, Eq, Structural)]
pub enum Failure {
    Network,
    Serialize,
    ParseEvents,
    ParseSeats,
    ParseReservation,
    ParseWaitlist,
    ParsePayment,
}

impl Failure {
    /// The words in front of the error's own text.
    pub open spec fn prefix(self) -> Seq<char> {
        match self {
            Failure::Network => "Network error: "@,
            Failure::Serialize => "Serialize error: "@,
            Failure::ParseEvents => "Failed to parse events: "@,
            Failure::ParseSeats => "Failed to parse seats: "@,
            Failure::ParseReservation => "Parse reservation response error: "@,
            Failure::ParseWaitlist => "Parse waitlist response error: "@,
            Failure::ParsePayment => "Parse payment response error: "@,
        }
    }

    /// The message of a failed call, from the error's own text.
    pub fn describe(&self, detail: &str) -> (m: String)
        ensures
            m@ == self.prefix() + detail@,
    {
        let mut m = match self {
            Failure::Network => owned("Network error: "),
            Failure::Serialize => owned("Serialize error: "),
            Failure::ParseEvents => owned("Failed to parse events: "),
            Failure::ParseSeats => owned("Failed to parse seats: "),
            Failure::ParseReservation => owned("Parse reservation response error: "),
            Failure::ParseWaitlist => owned("Parse waitlist response error: "),
            Failure::ParsePayment => owned("Parse payment response error: "),
        };
        m.append(detail);
        m
    }
}

/// The message of a reservation that the server refused, with its status
/// and the body of its answer.
pub fn reservation_refused(status: u16, body: &str) -> (m: String)
    ensures
        m@ == "Error reservation status "@ + decimal(status as nat) + ": "@ + body@,
{
    let mut m = owned("Error reservation status ");
    push_decimal(&mut m, status as u128);
    m.append(": ");
    m.append(body);
    m
}

/// The message of a payment that the server refused, with its status and
/// the body of its answer.
pub fn payment_refused(status: u16, body: &str) -> (m: String)
    ensures
        m@ == "Payment failed ("@ + decimal(status as nat) + ") - "@ + body@,
{
    let mut m = owned("Payment failed (");
    push_decimal(&mut m, status as u128);
    m.append(") - ");
    m.append(body);
    m
}

} // verus!
