//! The addresses of the booking server's endpoints, as its clients build them.

use vstd::prelude::*;
use vstd::string::*;
use crate::ids::{hyphenated, uuid_text};
use crate::text::owned;

verus! {

/// Where the dashboard finds the booking server.
pub const BASE_URL: &'static str = "http://localhost:3000";

/// The list of events.
pub open spec fn events_path(base: Seq<char>) -> Seq<char> {
    base + "/events"@
}

/// The seats of an event.
pub open spec fn seats_path(base: Seq<char>, event_id: u128) -> Seq<char> {
    base + "/events/"@ + hyphenated(event_id) + "/seats"@
}

/// Where reservations of an event's seats are posted.
pub open spec fn reservations_path(base: Seq<char>, event_id: u128) -> Seq<char> {
    base + "/events/"@ + hyphenated(event_id) + "/reservations"@
}

/// Where the payment of a reservation is posted.
pub open spec fn payment_path(base: Seq<char>, reservation_id: u128) -> Seq<char> {
    base + "/reservations/"@ + hyphenated(reservation_id) + "/payment"@
}

/// The address of the list of events.
pub fn events_url(base: &str) -> (url: String)
    ensures
        url@ == events_path(base@),
{
    let mut url = owned(base);
    url.append("/events");
    url
}

/// The address of an event's seats.
pub fn seats_url(base: &str, event_id: u128) -> (url: String)
    ensures
        url@ == seats_path(base@, event_id),
{
    let mut url = owned(base);
    url.append("/events/");
    url.append(uuid_text(event_id).as_str());
    url.append("/seats");
    url
}

/// The address at which a seat of an event is reserved.
pub fn reservations_url(base: &str, event_id: u128) -> (url: String)
    ensures
        url@ == reservations_path(base@, event_id),
{
    let mut url = owned(base);
    url.append("/events/");
    url.append(uuid_text(event_id).as_str());
    url.append("/reservations");
    url
}

/// The address at which a reservation is paid for.
pub fn payment_url(base: &str, reservation_id: u128) -> (url: String)
    ensures
        url@ == payment_path(base@, reservation_id),
{
    let mut url = owned(base);
    url.append("/reservations/");
    url.append(uuid_text(reservation_id).as_str());
    url.append("/payment");
    url
}

} // verus!
