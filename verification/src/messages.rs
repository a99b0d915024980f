//! The bodies that the booking server and its clients exchange.

use vstd::prelude::*;

verus! {

/// A held seat: the reply to a reservation that got a seat.
#[derive(Clone, Copy, Debug, PartialEq, Eq, Structural)]
pub struct ReservationResponse {
    pub reservation_id: u128,
    pub seat_id: u128,
}

/// A place in the queue: the reply to a reservation that found no free seat.
#[derive(Clone, Copy, Debug, PartialEq, Eq, Structural)]
pub struct WaitlistResponse {
    pub waitlist_id: u128,
}

/// The body of a payment: who pays.
#[derive(Clone, Copy, Debug, PartialEq, Eq, Structural)]
pub struct PaymentRequest {
    pub user_id: u128,
}

/// The reply to a payment that went through: the reservation and the seat sold.
#[derive(Clone, Copy, Debug, PartialEq, Eq, Structural)]
pub struct PaymentResponse {
    pub reservation_id: u128,
    pub seat_id: u128,
}

} // verus!
