//! The states that a seat goes through, as the database writes them.

use vstd::prelude::*;
use crate::text::text_equals;

verus! {

/// The state of a seat: free, held for a user for a while, or sold.
/// Any other text in the status column reads as `Unknown`.
#[derive(Clone, Copy, Debug, PartialEq, Eq, Structural)]
pub enum SeatStatus {
    Available,
    Held,
    Sold,
    Unknown,
}

/// The status that a status text names.
pub open spec fn status_of(text: Seq<char>) -> SeatStatus {
    if text == "available"@ {
        SeatStatus::Available
    } else if text == "held"@ {
        SeatStatus::Held
    } else if text == "sold"@ {
        SeatStatus::Sold
    } else {
        SeatStatus::Unknown
    }
}

impl SeatStatus {
    /// Reads the status column of a seat.
    pub fn from_text(text: &str) -> (s: SeatStatus)
        ensures
            s == status_of(text@),
    {
        if text_equals(text, "available") {
            SeatStatus::Available
        } else if text_equals(text, "held") {
            SeatStatus::Held
        } else if text_equals(text, "sold") {
            SeatStatus::Sold
        } else {
            SeatStatus::Unknown
        }
    }
}

} // verus!
