//! Seat reservations with a waitlist: the rules of the booking server, the
//! decisions of the web dashboard and the bookkeeping of the load generator.

pub mod text;
pub mod ids;
pub mod messages;
pub mod seats;
pub mod booking;
pub mod endpoints;
pub mod loadgen;
pub mod client;
pub mod dashboard;
