//! The dashboard's decisions: what it shows for the events, the seats and
//! the user's hold, which buttons it offers, the queue memberships it keeps,
//! and the notices it raises after each action.

use vstd::prelude::*;
use vstd::string::*;
use crate::ids::{hyphenated, parse_uuid, random_uuid, uuid_from_text, uuid_text, is_random_uuid};
use crate::text::{owned, push_two_digits, two_digits, push_signed_decimal, signed_decimal, text_equals};
use crate::seats::{SeatStatus, status_of};
use crate::client::{Event, Seat, ReserveResult};
use crate::messages::PaymentResponse;
use std::collections::HashSet;

verus! {

broadcast use vstd::std_specs::hash::group_hash_axioms;

// ---------------------------------------------------------------------------
// Notices
// ---------------------------------------------------------------------------

/// The kind of a notice, which sets its colour.
#[derive(Clone, Copy, Debug, PartialEq, Eq, Structural)]
pub enum ToastType {
    Success,
    Error,
    Warning,
}

/// A notice on screen, until its timeout removes it by its id.
#[derive(Clone, Debug, PartialEq, Eq)]
pub struct Toast {
    pub id: u128,
    pub message: String,
    pub toast_type: ToastType,
}

/// A notice to raise: its text and kind.
#[derive(Clone, Debug, PartialEq, Eq)]
pub struct Notice {
    pub message: String,
    pub kind: ToastType,
}

/// The style class of a notice of a kind.
pub open spec fn toast_class_text(kind: ToastType) -> Seq<char> {
    match kind {
        ToastType::Success => "toast toast-success"@,
        ToastType::Error => "toast toast-error"@,
        ToastType::Warning => "toast toast-warning"@,
    }
}

/// The style class of a notice.
pub fn toast_class(kind: ToastType) -> (c: &'static str)
    ensures
        c@ == toast_class_text(kind),
{
    match kind {
        ToastType::Success => "toast toast-success",
        ToastType::Error => "toast toast-error",
        ToastType::Warning => "toast toast-warning",
    }
}

/// The notices of `toasts` without those whose id is `id`, in their order.
pub open spec fn without_toast(toasts: Seq<Toast>, id: u128) -> Seq<Toast>
    decreases toasts.len(),
{
    if toasts.len() == 0 {
        toasts
    } else {
        let rest = without_toast(toasts.drop_first(), id);
        if toasts[0].id == id {
            rest
        } else {
            seq![toasts[0]] + rest
        }
    }
}

/// Whether a notice with the id is on screen.
pub open spec fn shows_toast(toasts: Seq<Toast>, id: u128) -> bool {
    exists|i: int| 0 <= i < toasts.len() && toasts[i].id == id
}

/// Puts a notice on screen under a fresh random id, which it returns for
/// the timeout that takes the notice down.
pub fn push_toast(toasts: &mut Vec<Toast>, notice: Notice) -> (id: u128)
    ensures
        final(toasts)@ == old(toasts)@.push(
            Toast { id, message: notice.message, toast_type: notice.kind },
        ),
        is_random_uuid(id),
{
    let id = random_uuid();
    toasts.push(Toast { id, message: notice.message, toast_type: notice.kind });
    id
}

proof fn lemma_without_toast_step(s: Seq<Toast>, i: int, id: u128)
    requires
        0 <= i < s.len(),
    ensures
        without_toast(s.subrange(i, s.len() as int), id) == if s[i].id == id {
            without_toast(s.subrange(i + 1, s.len() as int), id)
        } else {
            seq![s[i]] + without_toast(s.subrange(i + 1, s.len() as int), id)
        },
{
    let t = s.subrange(i, s.len() as int);
    assert(t.drop_first() =~= s.subrange(i + 1, s.len() as int));
}

/// Takes down the notices with the id, keeping the others in their order.
pub fn dismiss_toast(toasts: &mut Vec<Toast>, id: u128)
    ensures
        final(toasts)@ == without_toast(old(toasts)@, id),
{
    let ghost initial = toasts@;
    let mut i: usize = 0;
    assert(toasts@.subrange(0, toasts@.len() as int) =~= toasts@);
    while i < toasts.len()
        invariant
            i <= toasts@.len(),
            without_toast(initial, id) == toasts@.subrange(0, i as int) + without_toast(
                toasts@.subrange(i as int, toasts@.len() as int),
                id,
            ),
        decreases toasts@.len() - i,
    {
        let ghost before = toasts@;
        proof {
            lemma_without_toast_step(before, i as int, id);
        }
        if toasts[i].id == id {
            toasts.remove(i);
            assert(toasts@.subrange(0, i as int) =~= before.subrange(0, i as int));
            assert(toasts@.subrange(i as int, toasts@.len() as int) =~= before.subrange(
                i + 1,
                before.len() as int,
            ));
        } else {
            i = i + 1;
            assert(before.subrange(0, i as int) =~= before.subrange(0, i - 1) + seq![before[i - 1]]);
        }
    }
    assert(toasts@.subrange(i as int, toasts@.len() as int) =~= Seq::<Toast>::empty());
    assert(toasts@.subrange(0, i as int) =~= toasts@);
}

/// A notice that times out leaves the screen as it was before the notice
/// came, when no other notice had its id.
pub proof fn lemma_dismiss_undoes_push(toasts: Seq<Toast>, t: Toast)
    requires
        !shows_toast(toasts, t.id),
    ensures
        without_toast(toasts.push(t), t.id) == toasts,
    decreases toasts.len(),
{
    if toasts.len() == 0 {
        assert(toasts.push(t).drop_first() =~= toasts);
        assert(without_toast(toasts, t.id) == toasts);
    } else {
        let rest = toasts.drop_first();
        assert(toasts.push(t).drop_first() =~= rest.push(t));
        assert(!shows_toast(rest, t.id)) by {
            if shows_toast(rest, t.id) {
                let i = choose|i: int| 0 <= i < rest.len() && rest[i].id == t.id;
                assert(toasts[i + 1].id == t.id);
            }
        }
        lemma_dismiss_undoes_push(rest, t);
        assert(toasts[0].id != t.id) by {
            if toasts[0].id == t.id {
                assert(0 <= 0 < toasts.len() && toasts[0].id == t.id);
            }
        }
        assert(without_toast(toasts.push(t), t.id) == seq![toasts[0]] + without_toast(
            rest.push(t),
            t.id,
        ));
        assert(seq![toasts[0]] + rest =~= toasts);
    }
}

// ---------------------------------------------------------------------------
// Seats
// ---------------------------------------------------------------------------

/// Whether the seat is held by the user.
pub open spec fn is_hold_of(seat: Seat, user_id: u128) -> bool {
    seat.status@ == "held"@ && seat.held_by_user_id == Some(user_id)
}

/// Whether the seat is held by the user.
pub fn held_by(seat: &Seat, user_id: u128) -> (b: bool)
    ensures
        b == is_hold_of(*seat, user_id),
{
    let mine = match seat.held_by_user_id {
        Some(holder) => holder == user_id,
        None => false,
    };
    mine && text_equals(seat.status.as_str(), "held")
}

/// The user's hold: the first seat of the list held by the user.
pub fn active_hold(seats: &Vec<Seat>, user_id: u128) -> (found: Option<usize>)
    ensures
        match found {
            None => forall|i: int| 0 <= i < seats@.len() ==> !is_hold_of(#[trigger] seats@[i], user_id),
            Some(i) => {
                &&& i < seats@.len()
                &&& is_hold_of(seats@[i as int], user_id)
                &&& forall|j: int| 0 <= j < i ==> !is_hold_of(#[trigger] seats@[j], user_id)
            },
        },
{
    let mut i: usize = 0;
    while i < seats.len()
        invariant
            i <= seats@.len(),
            forall|j: int| 0 <= j < i ==> !is_hold_of(#[trigger] seats@[j], user_id),
        decreases seats@.len() - i,
    {
        if held_by(&seats[i], user_id) {
            return Some(i);
        }
        i = i + 1;
    }
    None
}

/// The selected event: the first of the list with the selected id.
pub fn find_event(events: &Vec<Event>, selected: Option<u128>) -> (found: Option<usize>)
    ensures
        found is None ==> (selected is None || forall|i: int|
            0 <= i < events@.len() ==> (#[trigger] events@[i]).id != selected->0),
        found matches Some(i) ==> {
            &&& selected is Some
            &&& i < events@.len()
            &&& events@[i as int].id == selected->0
            &&& forall|j: int| 0 <= j < i ==> (#[trigger] events@[j]).id != selected->0
        },
{
    let id = match selected {
        Some(id) => id,
        None => return None,
    };
    let mut i: usize = 0;
    while i < events.len()
        invariant
            i <= events@.len(),
            selected == Some(id),
            forall|j: int| 0 <= j < i ==> (#[trigger] events@[j]).id != id,
        decreases events@.len() - i,
    {
        if events[i].id == id {
            return Some(i);
        }
        i = i + 1;
    }
    None
}

/// The style class of a seat in the grid.
pub open spec fn seat_class_text(status: Seq<char>, held_by_me: bool) -> Seq<char> {
    match status_of(status) {
        SeatStatus::Available => "seat seat-available"@,
        SeatStatus::Held => if held_by_me {
            "seat seat-held-by-me"@
        } else {
            "seat seat-held"@
        },
        SeatStatus::Sold => "seat seat-sold"@,
        SeatStatus::Unknown => "seat"@,
    }
}

/// The style class of a seat in the grid, from its status and whether the
/// user holds it.
pub fn seat_class(status: &str, held_by_me: bool) -> (c: &'static str)
    ensures
        c@ == seat_class_text(status@, held_by_me),
{
    match SeatStatus::from_text(status) {
        SeatStatus::Available => "seat seat-available",
        SeatStatus::Held => if held_by_me {
            "seat seat-held-by-me"
        } else {
            "seat seat-held"
        },
        SeatStatus::Sold => "seat seat-sold",
        SeatStatus::Unknown => "seat",
    }
}

/// The words that describe a seat's status in its tooltip.
pub open spec fn seat_status_words(status: Seq<char>, is_mine: bool) -> Seq<char> {
    match status_of(status) {
        SeatStatus::Available => "Wolne (Kliknij, aby zarezerwować)"@,
        SeatStatus::Held => if is_mine {
            "Twój hold (Kliknij 'Opłać bilet')"@
        } else {
            "Tymczasowa rezerwacja"@
        },
        SeatStatus::Sold => "Sprzedane"@,
        SeatStatus::Unknown => Seq::empty(),
    }
}

/// The tooltip of a seat: its label and what its status means for the user.
pub fn seat_title(label: &str, status: &str, is_mine: bool) -> (t: String)
    ensures
        t@ == "Seat #"@ + label@ + " - "@ + seat_status_words(status@, is_mine),
{
    let words = match SeatStatus::from_text(status) {
        SeatStatus::Available => "Wolne (Kliknij, aby zarezerwować)",
        SeatStatus::Held => if is_mine {
            "Twój hold (Kliknij 'Opłać bilet')"
        } else {
            "Tymczasowa rezerwacja"
        },
        SeatStatus::Sold => "Sprzedane",
        SeatStatus::Unknown => "",
    };
    proof {
        reveal_strlit("");
    }
    let mut t = owned("Seat #");
    t.append(label);
    t.append(" - ");
    t.append(words);
    t
}

/// Whether a click on a seat starts a reservation: only on an available
/// seat, while the user holds no seat and waits in no queue for the event.
pub open spec fn seat_click_reserves_spec(status: Seq<char>, has_hold: bool, on_waitlist: bool) -> bool {
    status == "available"@ && !has_hold && !on_waitlist
}

/// Whether a click on a seat starts a reservation.
pub fn seat_click_reserves(status: &str, has_hold: bool, on_waitlist: bool) -> (b: bool)
    ensures
        b == seat_click_reserves_spec(status@, has_hold, on_waitlist),
{
    text_equals(status, "available") && !has_hold && !on_waitlist
}

/// A click starts a reservation only on a seat whose status is exactly
/// `available` (never on a held, sold or unknown seat), and only while the
/// user holds no seat and waits in no queue for the event; on an available
/// seat, with no hold and no queue, it always does.
pub proof fn lemma_click_reserves_only_available(status: Seq<char>, has_hold: bool, on_waitlist: bool)
    ensures
        seat_click_reserves_spec(status, has_hold, on_waitlist) ==> status == "available"@
            && !has_hold && !on_waitlist,
        status != "available"@ ==> !seat_click_reserves_spec(status, has_hold, on_waitlist),
        status == "available"@ && !has_hold && !on_waitlist ==> seat_click_reserves_spec(
            status,
            has_hold,
            on_waitlist,
        ),
{
}

/// The label that a seat shows: its own, or nothing.
pub fn seat_label(seat: &Seat) -> (l: String)
    ensures
        l@ == match seat.label {
            Some(label) => label@,
            None => Seq::<char>::empty(),
        },
{
    match &seat.label {
        Some(label) => label.clone(),
        None => String::new(),
    }
}

/// The label of the held seat in the hold banner: `#` and the seat's
/// label, or `#?` for a seat without one.
pub fn hold_label(seat: &Seat) -> (l: String)
    ensures
        l@ == "#"@ + match seat.label {
            Some(label) => label@,
            None => "?"@,
        },
{
    let mut l = owned("#");
    match &seat.label {
        Some(label) => l.append(label.as_str()),
        None => l.append("?"),
    }
    l
}

// ---------------------------------------------------------------------------
// The hold countdown and the event panel
// ---------------------------------------------------------------------------

/// The time left on a hold as `MM:SS`, from the whole seconds left; a hold
/// with no time left shows `00:00`.
pub open spec fn countdown(secs: int) -> Seq<char> {
    if secs <= 0 {
        "00:00"@
    } else {
        two_digits((secs / 60) as nat) + ":"@ + two_digits((secs % 60) as nat)
    }
}

/// The countdown of a hold, from the whole seconds left.
pub fn countdown_text(secs: i32) -> (t: String)
    ensures
        t@ == countdown(secs as int),
{
    if secs <= 0 {
        owned("00:00")
    } else {
        let mut t = String::new();
        push_two_digits(&mut t, (secs / 60) as u128);
        t.append(":");
        push_two_digits(&mut t, (secs % 60) as u128);
        t
    }
}

/// The minutes and seconds of a countdown make up the seconds left, and the
/// seconds part is below a minute.
pub proof fn lemma_countdown_parts(secs: int)
    requires
        secs > 0,
    ensures
        (secs / 60) * 60 + secs % 60 == secs,
        0 <= secs % 60 < 60,
        countdown(secs) == two_digits((secs / 60) as nat) + ":"@ + two_digits((secs % 60) as nat),
{
}

/// The event selected once the events are loaded: the one already
/// selected, or else the first of the list, if any.
pub fn default_selection(current: Option<u128>, events: &Vec<Event>) -> (s: Option<u128>)
    ensures
        current is Some ==> s == current,
        current is None && events@.len() > 0 ==> s == Some(events@[0].id),
        current is None && events@.len() == 0 ==> s is None,
{
    match current {
        Some(id) => Some(id),
        None => if events.len() > 0 {
            Some(events[0].id)
        } else {
            None
        },
    }
}

/// The style class of an event's card in the list.
pub fn event_card_class(selected: bool) -> (c: &'static str)
    ensures
        c@ == if selected { "event-card event-card.active"@ } else { "event-card"@ },
{
    if selected {
        "event-card event-card.active"
    } else {
        "event-card"
    }
}

/// The availability line of an event: how many tickets are free, or that
/// only the queue is open.
pub open spec fn availability(available: int) -> Seq<char> {
    if available > 0 {
        "Dostępne "@ + signed_decimal(available) + " biletów"@
    } else {
        "Brak wolnych biletów. Dostępny zapis do kolejki."@
    }
}

/// The availability line of an event.
pub fn availability_text(available: i64) -> (t: String)
    ensures
        t@ == availability(available as int),
{
    if available > 0 {
        let mut t = owned("Dostępne ");
        push_signed_decimal(&mut t, available);
        t.append(" biletów");
        t
    } else {
        owned("Brak wolnych biletów. Dostępny zapis do kolejki.")
    }
}

/// The availability line names the free tickets whenever there is at least
/// one: for every count `n > 0` (one included) it is `Dostępne `, the decimal
/// digits of `n` and ` biletów`; the line that offers only the queue stands
/// exactly when no ticket is free (`n <= 0`), and it differs from every
/// line that names tickets.
pub proof fn lemma_availability_line(n: int)
    ensures
        n > 0 ==> availability(n) == "Dostępne "@ + crate::text::decimal(n as nat) + " biletów"@,
        n <= 0 ==> availability(n) == "Brak wolnych biletów. Dostępny zapis do kolejki."@,
        n > 0 ==> availability(n) != "Brak wolnych biletów. Dostępny zapis do kolejki."@,
{
    if n > 0 {
        reveal_strlit("Dostępne ");
        reveal_strlit("Brak wolnych biletów. Dostępny zapis do kolejki.");
        let line = availability(n);
        assert(line[0] == 'D');
        assert("Brak wolnych biletów. Dostępny zapis do kolejki."@[0] == 'B');
    }
}

/// The reservation button of the selected event.
#[derive(Clone, Copy, Debug, PartialEq, Eq, Structural)]
pub struct ReserveButton {
    /// No seat is free: the button joins the queue.
    pub is_full: bool,
}

/// Whether the dashboard offers a reservation button: only for a selected
/// event, while the user holds no seat and is not queued for the event.
/// The button of a sold-out event joins the queue.
pub fn reserve_button(
    has_hold: bool,
    selected: Option<&Event>,
    waitlisted: &HashSet<u128>,
) -> (b: Option<ReserveButton>)
    ensures
        b is Some <==> (!has_hold && selected is Some && !waitlisted@.contains(selected->0.id)),
        b matches Some(button) ==> button.is_full == (selected->0.available_seats == 0),
{
    if has_hold {
        return None;
    }
    match selected {
        None => None,
        Some(event) => if waitlisted.contains(&event.id) {
            None
        } else {
            Some(ReserveButton { is_full: event.available_seats == 0 })
        },
    }
}

impl ReserveButton {
    /// The style class of the button.
    pub fn class(&self) -> (c: &'static str)
        ensures
            c@ == if self.is_full { "btn btn-secondary"@ } else { "btn"@ },
    {
        if self.is_full {
            "btn btn-secondary"
        } else {
            "btn"
        }
    }

    /// The caption of the button.
    pub fn caption(&self) -> (c: &'static str)
        ensures
            c@ == if self.is_full {
                "Zapisz się do kolejki (Waitlist)"@
            } else {
                "Zarezerwuj wolny bilet"@
            },
    {
        if self.is_full {
            "Zapisz się do kolejki (Waitlist)"
        } else {
            "Zarezerwuj wolny bilet"
        }
    }
}

// ---------------------------------------------------------------------------
// Queue memberships
// ---------------------------------------------------------------------------

/// Whether the user waits in the queue of the selected event.
pub fn on_waitlist(waitlisted: &HashSet<u128>, selected: Option<u128>) -> (b: bool)
    ensures
        b == (selected matches Some(id) && waitlisted@.contains(id)),
{
    match selected {
        Some(id) => waitlisted.contains(&id),
        None => false,
    }
}

/// The notice that the user has left a queue.
pub open spec fn left_queue_message() -> Seq<char> {
    "Opuszczono waitlistę."@
}

/// Leaves the queue of an event, as the user asked.
pub fn leave_waitlist(waitlisted: &mut HashSet<u128>, event_id: u128) -> (n: Notice)
    ensures
        final(waitlisted)@ == old(waitlisted)@.remove(event_id),
        n.message@ == left_queue_message(),
        n.kind == ToastType::Warning,
{
    waitlisted.remove(&event_id);
    Notice { message: owned("Opuszczono waitlistę."), kind: ToastType::Warning }
}

/// The notice that a seat freed from the queue is now held for the user.
pub open spec fn promoted_message() -> Seq<char> {
    "Zwolniono miejsce z waitlisty! Miejsce zostało dla Ciebie zarezerwowane!"@
}

/// Once the user holds a seat of the selected event while queued for it,
/// the queue has done its work: the event leaves the user's queues and a
/// notice says that the seat is held. Otherwise nothing changes.
pub fn release_waitlist_on_hold(
    waitlisted: &mut HashSet<u128>,
    has_hold: bool,
    selected: Option<u128>,
) -> (n: Option<Notice>)
    ensures
        ({
            let promoted = has_hold && selected is Some && old(waitlisted)@.contains(selected->0);
            &&& n is Some == promoted
            &&& promoted ==> final(waitlisted)@ == old(waitlisted)@.remove(selected->0)
            &&& !promoted ==> final(waitlisted)@ == old(waitlisted)@
            &&& n matches Some(notice) ==> notice.message@ == promoted_message()
                && notice.kind == ToastType::Success
        }),
{
    if !has_hold {
        return None;
    }
    match selected {
        None => None,
        Some(event_id) => if waitlisted.contains(&event_id) {
            waitlisted.remove(&event_id);
            Some(
                Notice {
                    message: owned(
                        "Zwolniono miejsce z waitlisty! Miejsce zostało dla Ciebie zarezerwowane!",
                    ),
                    kind: ToastType::Success,
                },
            )
        } else {
            None
        },
    }
}

// ---------------------------------------------------------------------------
// After an action
// ---------------------------------------------------------------------------

/// What the dashboard does after a reservation or a payment: the notice to
/// raise, and whether to reload the seats and events now.
#[derive(Clone, Debug, PartialEq, Eq)]
pub struct Feedback {
    pub notice: Notice,
    pub reload: bool,
}

/// The notice of a held seat, which names the time left to pay.
pub open spec fn reserved_message() -> Seq<char> {
    "Zarezerwowano miejsce! Rozpoczęto 30s na opłacenie."@
}

/// The notice of a place in the queue.
pub open spec fn queued_message() -> Seq<char> {
    "Brak wolnych biletów. Zostałeś dodany do waitlisty (kolejki)!"@
}

/// After a reservation of a seat of `event_id`: a held seat is announced;
/// a place in the queue adds the event to the user's queues and is
/// announced as a warning; either reloads the seats and events. A failed
/// reservation shows its error and reloads nothing.
pub fn after_reservation(
    result: &Result<ReserveResult, String>,
    event_id: u128,
    waitlisted: &mut HashSet<u128>,
) -> (f: Feedback)
    ensures
        match result {
            Ok(ReserveResult::Reserved(_)) => {
                &&& f.notice.message@ == reserved_message()
                &&& f.notice.kind == ToastType::Success
                &&& f.reload
                &&& final(waitlisted)@ == old(waitlisted)@
            },
            Ok(ReserveResult::Waitlisted(_)) => {
                &&& f.notice.message@ == queued_message()
                &&& f.notice.kind == ToastType::Warning
                &&& f.reload
                &&& final(waitlisted)@ == old(waitlisted)@.insert(event_id)
            },
            Err(e) => {
                &&& f.notice.message@ == "Rezerwacja nieudana: "@ + e@
                &&& f.notice.kind == ToastType::Error
                &&& !f.reload
                &&& final(waitlisted)@ == old(waitlisted)@
            },
        },
{
    match result {
        Ok(ReserveResult::Reserved(_)) => Feedback {
            notice: Notice {
                message: owned("Zarezerwowano miejsce! Rozpoczęto 30s na opłacenie."),
                kind: ToastType::Success,
            },
            reload: true,
        },
        Ok(ReserveResult::Waitlisted(_)) => {
            waitlisted.insert(event_id);
            Feedback {
                notice: Notice {
                    message: owned("Brak wolnych biletów. Zostałeś dodany do waitlisty (kolejki)!"),
                    kind: ToastType::Warning,
                },
                reload: true,
            }
        },
        Err(e) => {
            let mut message = owned("Rezerwacja nieudana: ");
            message.append(e.as_str());
            Feedback { notice: Notice { message, kind: ToastType::Error }, reload: false }
        },
    }
}

/// The notice of a paid seat.
pub open spec fn paid_message() -> Seq<char> {
    "Płatność udana! Zakupiono bilet."@
}

/// After a payment: a paid seat is announced and the reload counters start
/// over (`reload`); a failed payment shows its error.
pub fn after_payment(result: &Result<PaymentResponse, String>) -> (f: Feedback)
    ensures
        match result {
            Ok(_) => f.notice.message@ == paid_message() && f.notice.kind == ToastType::Success
                && f.reload,
            Err(e) => f.notice.message@ == "Płatność nieudana: "@ + e@ && f.notice.kind
                == ToastType::Error && !f.reload,
        },
{
    match result {
        Ok(_) => Feedback {
            notice: Notice {
                message: owned("Płatność udana! Zakupiono bilet."),
                kind: ToastType::Success,
            },
            reload: true,
        },
        Err(e) => {
            let mut message = owned("Płatność nieudana: ");
            message.append(e.as_str());
            Feedback { notice: Notice { message, kind: ToastType::Error }, reload: false }
        },
    }
}

// ---------------------------------------------------------------------------
// The user's identity
// ---------------------------------------------------------------------------

/// The user id as the input box shows it.
pub fn user_id_text(user_id: u128) -> (t: String)
    ensures
        t@ == hyphenated(user_id),
{
    uuid_text(user_id)
}

/// A new random identity, with its notice.
pub fn new_identity() -> (r: (u128, Notice))
    ensures
        is_random_uuid(r.0),
        r.1.message@ == "Zmieniono tożsamość. Wygenerowano nowy User ID."@,
        r.1.kind == ToastType::Success,
{
    let id = random_uuid();
    (
        id,
        Notice {
            message: owned("Zmieniono tożsamość. Wygenerowano nowy User ID."),
            kind: ToastType::Success,
        },
    )
}

/// Saves a user id typed into the input box, once read: an id becomes the
/// user id, with a notice; a text that did not read as a UUID is refused
/// with an error notice and the id stays.
pub fn saved_user_id(parsed: Option<u128>) -> (r: (Option<u128>, Notice))
    ensures
        r.0 == parsed,
        r.0 is Some ==> r.1.message@ == "Zapisano User ID."@ && r.1.kind == ToastType::Success,
        r.0 is None ==> r.1.message@ == "Niepoprawny format UUID!"@ && r.1.kind
            == ToastType::Error,
{
    match parsed {
        Some(id) => (
            Some(id),
            Notice { message: owned("Zapisano User ID."), kind: ToastType::Success },
        ),
        None => (None, Notice { message: owned("Niepoprawny format UUID!"), kind: ToastType::Error }),
    }
}

/// Saves the user id typed into the input box: the text is read as a UUID,
/// and the result decided as `saved_user_id` does.
pub fn save_user_id(input: &str) -> (r: (Option<u128>, Notice))
    ensures
        r.0 == uuid_from_text(input@),
        forall|v: u128| input@ == #[trigger] hyphenated(v) ==> r.0 == Some(v),
        r.0 is Some ==> r.1.message@ == "Zapisano User ID."@ && r.1.kind == ToastType::Success,
        r.0 is None ==> r.1.message@ == "Niepoprawny format UUID!"@ && r.1.kind
            == ToastType::Error,
{
    saved_user_id(parse_uuid(input))
}

/// The identity that the dashboard starts with.
#[derive(Clone, Copy, Debug, PartialEq, Eq, Structural)]
pub struct StartIdentity {
    pub user_id: u128,
    /// Whether the id is to be written to the browser's storage.
    pub store: bool,
}

/// The identity at start, from whether the browser has a storage and the id
/// read from it (none where nothing was stored or the text was no UUID): a
/// stored id is kept; otherwise a fresh random id, written to the storage
/// when there is one.
pub fn identity_from(storage: bool, stored_id: Option<u128>) -> (s: StartIdentity)
    ensures
        storage && stored_id is Some ==> s.user_id == stored_id->0 && !s.store,
        !(storage && stored_id is Some) ==> is_random_uuid(s.user_id) && s.store == storage,
{
    if storage {
        if let Some(id) = stored_id {
            return StartIdentity { user_id: id, store: false };
        }
        StartIdentity { user_id: random_uuid(), store: true }
    } else {
        StartIdentity { user_id: random_uuid(), store: false }
    }
}

/// The identity at start: the text kept in the browser's storage, if any,
/// is read as a UUID, and the identity decided as `identity_from` does.
pub fn start_identity(storage: bool, stored: Option<&str>) -> (s: StartIdentity)
    ensures
        ({
            let kept = if storage && stored is Some { uuid_from_text(stored->0@) } else { None };
            &&& kept matches Some(id) ==> s.user_id == id && !s.store
            &&& kept is None ==> is_random_uuid(s.user_id) && s.store == storage
        }),
{
    let stored_id = if storage {
        match stored {
            Some(text) => parse_uuid(text),
            None => None,
        }
    } else {
        None
    };
    identity_from(storage, stored_id)
}

// ---------------------------------------------------------------------------
// The stored queue memberships
// ---------------------------------------------------------------------------

/// The set of UUIDs that `serde_json::from_str::<HashSet<uuid::Uuid>>` reads
/// from a text, or `None` where it refuses the text.
pub uninterp spec fn uuid_set_from_json(text: Seq<char>) -> Option<Set<u128>>;

/// Reads a JSON array of UUIDs with `serde_json::from_str` into a
/// `HashSet<uuid::Uuid>` (each UUID read by `uuid`'s `Deserialize`), then
/// converts each UUID to its number. The contract only names the result.
#[verifier::external_body]
fn parse_uuid_set_json(text: &str) -> (r: Option<HashSet<u128>>)
    ensures
        r is Some == uuid_set_from_json(text@) is Some,
        r matches Some(set) ==> uuid_set_from_json(text@) == Some(set@),
{
    match serde_json::from_str::<HashSet<uuid::Uuid>>(text) {
        Ok(set) => Some(set.into_iter().map(|u| u.as_u128()).collect()),
        Err(_) => None,
    }
}

/// Writes a set of UUIDs as JSON with `serde_json::to_string` on a
/// `HashSet<uuid::Uuid>`: an array of their hyphenated lowercase texts (as
/// `uuid`'s `Serialize` writes them for a readable format), in the order in
/// which the set is walked. `to_string` fails only for a failing `Serialize`
/// impl or a map with non-string keys, neither of which a set of UUIDs has,
/// so a text always comes back. The contract claims that, and that
/// `serde_json` reads the same set back from the text; the order of the
/// array, which the set's hasher decides, is left unsaid.
#[verifier::external_body]
fn uuid_set_json(set: &HashSet<u128>) -> (t: Option<String>)
    ensures
        t is Some,
        t matches Some(text) ==> uuid_set_from_json(text@) == Some(set@),
{
    let ids: HashSet<uuid::Uuid> = set.iter().map(|id| uuid::Uuid::from_u128(*id)).collect();
    serde_json::to_string(&ids).ok()
}

/// The queues that the user waits in, from the set read from the browser's
/// storage: that set, or none where nothing could be read.
pub fn waitlists_from(parsed: Option<HashSet<u128>>) -> (s: HashSet<u128>)
    ensures
        s@ == match parsed {
            Some(set) => set@,
            None => Set::<u128>::empty(),
        },
{
    match parsed {
        Some(set) => set,
        None => HashSet::new(),
    }
}

/// The queues that the user waits in, from the text kept in the browser's
/// storage (none where there is no storage or nothing was stored): the
/// UUIDs of a JSON array, or no queue where the text does not read as one.
pub fn stored_waitlists(stored: Option<&str>) -> (s: HashSet<u128>)
    ensures
        s@ == match stored {
            Some(text) => match uuid_set_from_json(text@) {
                Some(set) => set,
                None => Set::<u128>::empty(),
            },
            None => Set::<u128>::empty(),
        },
{
    match stored {
        Some(text) => waitlists_from(parse_uuid_set_json(text)),
        None => HashSet::new(),
    }
}

/// The text to keep in the browser's storage for the user's queues: always
/// a JSON array, from which `stored_waitlists` reads the same queues back.
pub fn waitlists_text(waitlisted: &HashSet<u128>) -> (t: Option<String>)
    ensures
        t is Some,
        t matches Some(text) ==> uuid_set_from_json(text@) == Some(waitlisted@),
{
    uuid_set_json(waitlisted)
}

} // verus!
