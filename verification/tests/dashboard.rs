use reservations::client::{
    payment_accepted, payment_refused, reservation_refused, reserve_reply_kind, Event, Failure,
    ReplyKind, ReserveResult, Seat,
};
use reservations::dashboard::{
    active_hold, after_payment, after_reservation, availability_text, countdown_text,
    default_selection, dismiss_toast, event_card_class, find_event, held_by, hold_label,
    leave_waitlist, new_identity, on_waitlist, push_toast, release_waitlist_on_hold,
    reserve_button, save_user_id, saved_user_id, seat_class, seat_click_reserves, seat_label,
    seat_title, identity_from, start_identity, stored_waitlists, toast_class, user_id_text,
    waitlists_from, waitlists_text, Notice, ToastType,
};
use reservations::endpoints::{events_url, payment_url, reservations_url, seats_url, BASE_URL};
use reservations::messages::{PaymentResponse, ReservationResponse, WaitlistResponse};
use std::collections::HashSet;

const ME: u128 = 0xa1a2a3a4_b1b2_c1c2_d1d2_d3d4d5d6d7d8;
const EVENT: u128 = 0xa000_0000_0000_0000_0000_0000_0000_0002;

fn seat(id: u128, status: &str, holder: Option<u128>, label: Option<&str>) -> Seat {
    Seat {
        id,
        label: label.map(|l| l.to_string()),
        status: status.to_string(),
        held_until_epoch_bits: None,
        held_by_user_id: holder,
        reservation_id: None,
    }
}

fn event(id: u128, available: i64) -> Event {
    Event {
        id,
        name: "Koncert".to_string(),
        date: "2026-06-01".to_string(),
        venue: "Hala".to_string(),
        total_seats: 10,
        available_seats: available,
        held_seats: 0,
        sold_seats: 10 - available,
        waitlist_count: 0,
    }
}

#[test]
fn urls_of_the_server() {
    assert_eq!(events_url(BASE_URL), "http://localhost:3000/events");
    assert_eq!(
        seats_url(BASE_URL, EVENT),
        "http://localhost:3000/events/a0000000-0000-0000-0000-000000000002/seats"
    );
    assert_eq!(
        reservations_url("http://h:1", ME),
        "http://h:1/events/a1a2a3a4-b1b2-c1c2-d1d2-d3d4d5d6d7d8/reservations"
    );
    assert_eq!(
        payment_url("http://h:1", 0xff),
        "http://h:1/reservations/00000000-0000-0000-0000-0000000000ff/payment"
    );
}

#[test]
fn user_id_text_and_save_round_trip() {
    let shown = user_id_text(ME);
    assert_eq!(shown, "a1a2a3a4-b1b2-c1c2-d1d2-d3d4d5d6d7d8");
    let (saved, notice) = save_user_id(&shown);
    assert_eq!(saved, Some(ME));
    assert_eq!(notice.message, "Zapisano User ID.");
    assert_eq!(notice.kind, ToastType::Success);
    let (bad, notice) = save_user_id("not-a-uuid");
    assert_eq!(bad, None);
    assert_eq!(notice.message, "Niepoprawny format UUID!");
    assert_eq!(notice.kind, ToastType::Error);
    // the simple form reads too
    assert_eq!(save_user_id("a1a2a3a4b1b2c1c2d1d2d3d4d5d6d7d8").0, Some(ME));
}

#[test]
fn new_identity_is_random_v4() {
    let (a, notice) = new_identity();
    let (b, _) = new_identity();
    assert_ne!(a, b);
    assert_eq!((a >> 76) & 0xf, 4);
    assert_eq!((a >> 62) & 0x3, 2);
    assert_eq!(notice.message, "Zmieniono tożsamość. Wygenerowano nowy User ID.");
}

#[test]
fn start_identity_prefers_stored_id() {
    let kept = start_identity(true, Some("a1a2a3a4-b1b2-c1c2-d1d2-d3d4d5d6d7d8"));
    assert_eq!(kept.user_id, ME);
    assert!(!kept.store);
    let fresh = start_identity(true, Some("garbage"));
    assert_ne!(fresh.user_id, ME);
    assert!(fresh.store);
    let none = start_identity(true, None);
    assert!(none.store);
    let no_storage = start_identity(false, Some("a1a2a3a4-b1b2-c1c2-d1d2-d3d4d5d6d7d8"));
    assert!(!no_storage.store);
    assert_ne!(no_storage.user_id, ME);
}

#[test]
fn active_hold_is_first_seat_held_by_user() {
    let seats = vec![
        seat(1, "available", None, Some("1")),
        seat(2, "held", Some(7), Some("2")),
        seat(3, "sold", Some(ME), Some("3")),
        seat(4, "held", Some(ME), Some("4")),
        seat(5, "held", Some(ME), Some("5")),
    ];
    assert_eq!(active_hold(&seats, ME), Some(3));
    assert_eq!(active_hold(&seats, 99), None);
    assert!(held_by(&seats[3], ME));
    assert!(!held_by(&seats[2], ME));
}

#[test]
fn selection_of_events() {
    let events = vec![event(1, 3), event(2, 0)];
    assert_eq!(find_event(&events, Some(2)), Some(1));
    assert_eq!(find_event(&events, Some(9)), None);
    assert_eq!(find_event(&events, None), None);
    assert_eq!(default_selection(None, &events), Some(1));
    assert_eq!(default_selection(Some(2), &events), Some(2));
    assert_eq!(default_selection(None, &Vec::new()), None);
    assert_eq!(event_card_class(true), "event-card event-card.active");
    assert_eq!(event_card_class(false), "event-card");
}

#[test]
fn countdown_formats_minutes_and_seconds() {
    assert_eq!(countdown_text(0), "00:00");
    assert_eq!(countdown_text(-5), "00:00");
    assert_eq!(countdown_text(29), "00:29");
    assert_eq!(countdown_text(75), "01:15");
    assert_eq!(countdown_text(600), "10:00");
    assert_eq!(countdown_text(6005), "100:05");
}

#[test]
fn availability_lines() {
    assert_eq!(availability_text(12), "Dostępne 12 biletów");
    assert_eq!(availability_text(0), "Brak wolnych biletów. Dostępny zapis do kolejki.");
    assert_eq!(availability_text(-1), "Brak wolnych biletów. Dostępny zapis do kolejki.");
}

#[test]
fn seat_grid_classes_titles_and_clicks() {
    assert_eq!(seat_class("available", false), "seat seat-available");
    assert_eq!(seat_class("held", true), "seat seat-held-by-me");
    assert_eq!(seat_class("held", false), "seat seat-held");
    assert_eq!(seat_class("sold", false), "seat seat-sold");
    assert_eq!(seat_class("weird", true), "seat");
    assert_eq!(seat_title("4", "available", false), "Seat #4 - Wolne (Kliknij, aby zarezerwować)");
    assert_eq!(seat_title("4", "held", true), "Seat #4 - Twój hold (Kliknij 'Opłać bilet')");
    assert_eq!(seat_title("4", "held", false), "Seat #4 - Tymczasowa rezerwacja");
    assert_eq!(seat_title("4", "sold", false), "Seat #4 - Sprzedane");
    assert_eq!(seat_title("4", "x", false), "Seat #4 - ");
    assert!(seat_click_reserves("available", false, false));
    assert!(!seat_click_reserves("available", true, false));
    assert!(!seat_click_reserves("available", false, true));
    assert!(!seat_click_reserves("held", false, false));
    assert_eq!(seat_label(&seat(1, "sold", None, Some("12"))), "12");
    assert_eq!(seat_label(&seat(1, "sold", None, None)), "");
    assert_eq!(hold_label(&seat(1, "held", None, Some("12"))), "#12");
    assert_eq!(hold_label(&seat(1, "held", None, None)), "#?");
}

#[test]
fn reserve_button_rules() {
    let mut queued = HashSet::new();
    let free = event(1, 3);
    let full = event(2, 0);
    let b = reserve_button(false, Some(&free), &queued).unwrap();
    assert!(!b.is_full);
    assert_eq!(b.class(), "btn");
    assert_eq!(b.caption(), "Zarezerwuj wolny bilet");
    let b = reserve_button(false, Some(&full), &queued).unwrap();
    assert!(b.is_full);
    assert_eq!(b.class(), "btn btn-secondary");
    assert_eq!(b.caption(), "Zapisz się do kolejki (Waitlist)");
    assert!(reserve_button(true, Some(&free), &queued).is_none());
    assert!(reserve_button(false, None, &queued).is_none());
    queued.insert(2u128);
    assert!(reserve_button(false, Some(&full), &queued).is_none());
}

#[test]
fn queue_membership_follows_reservations_and_holds() {
    let mut queued: HashSet<u128> = HashSet::new();
    let waitlisted: Result<ReserveResult, String> =
        Ok(ReserveResult::Waitlisted(WaitlistResponse { waitlist_id: 5 }));
    let f = after_reservation(&waitlisted, EVENT, &mut queued);
    assert!(queued.contains(&EVENT));
    assert!(f.reload);
    assert_eq!(f.notice.kind, ToastType::Warning);
    assert_eq!(f.notice.message, "Brak wolnych biletów. Zostałeś dodany do waitlisty (kolejki)!");
    assert!(on_waitlist(&queued, Some(EVENT)));
    assert!(!on_waitlist(&queued, None));
    // no hold yet: nothing changes
    assert!(release_waitlist_on_hold(&mut queued, false, Some(EVENT)).is_none());
    assert!(queued.contains(&EVENT));
    // the sweeper gave the user a seat
    let n = release_waitlist_on_hold(&mut queued, true, Some(EVENT)).unwrap();
    assert!(!queued.contains(&EVENT));
    assert_eq!(n.kind, ToastType::Success);
    assert_eq!(
        n.message,
        "Zwolniono miejsce z waitlisty! Miejsce zostało dla Ciebie zarezerwowane!"
    );
    // leaving by hand
    queued.insert(EVENT);
    let n = leave_waitlist(&mut queued, EVENT);
    assert!(queued.is_empty());
    assert_eq!(n.message, "Opuszczono waitlistę.");
}

#[test]
fn feedback_after_reservation_and_payment() {
    let mut queued: HashSet<u128> = HashSet::new();
    let reserved: Result<ReserveResult, String> =
        Ok(ReserveResult::Reserved(ReservationResponse { reservation_id: 1, seat_id: 2 }));
    let f = after_reservation(&reserved, EVENT, &mut queued);
    assert_eq!(f.notice.message, "Zarezerwowano miejsce! Rozpoczęto 30s na opłacenie.");
    assert!(f.reload && queued.is_empty());
    let failed: Result<ReserveResult, String> = Err("oops".to_string());
    let f = after_reservation(&failed, EVENT, &mut queued);
    assert_eq!(f.notice.message, "Rezerwacja nieudana: oops");
    assert_eq!(f.notice.kind, ToastType::Error);
    assert!(!f.reload);
    let paid: Result<PaymentResponse, String> =
        Ok(PaymentResponse { reservation_id: 1, seat_id: 2 });
    let f = after_payment(&paid);
    assert_eq!(f.notice.message, "Płatność udana! Zakupiono bilet.");
    assert!(f.reload);
    let f = after_payment(&Err("late".to_string()));
    assert_eq!(f.notice.message, "Płatność nieudana: late");
    assert!(!f.reload);
}

#[test]
fn toasts_come_and_go() {
    let mut toasts = Vec::new();
    let a = push_toast(&mut toasts, Notice { message: "a".to_string(), kind: ToastType::Success });
    let b = push_toast(&mut toasts, Notice { message: "b".to_string(), kind: ToastType::Error });
    let c = push_toast(&mut toasts, Notice { message: "c".to_string(), kind: ToastType::Warning });
    assert_eq!(toasts.len(), 3);
    dismiss_toast(&mut toasts, b);
    assert_eq!(toasts.iter().map(|t| t.id).collect::<Vec<_>>(), vec![a, c]);
    dismiss_toast(&mut toasts, c);
    dismiss_toast(&mut toasts, 12345);
    assert_eq!(toasts.len(), 1);
    assert_eq!(toasts[0].message, "a");
    assert_eq!(toast_class(ToastType::Success), "toast toast-success");
    assert_eq!(toast_class(ToastType::Error), "toast toast-error");
    assert_eq!(toast_class(ToastType::Warning), "toast toast-warning");
}

#[test]
fn client_replies_and_messages() {
    assert_eq!(reserve_reply_kind(201), ReplyKind::Reserved);
    assert_eq!(reserve_reply_kind(202), ReplyKind::Waitlisted);
    assert_eq!(reserve_reply_kind(404), ReplyKind::Refused);
    assert!(payment_accepted(200));
    assert!(!payment_accepted(201));
    assert_eq!(reservation_refused(404, "nope"), "Error reservation status 404: nope");
    assert_eq!(payment_refused(409, ""), "Payment failed (409) - ");
    assert_eq!(Failure::Network.describe("down"), "Network error: down");
    assert_eq!(Failure::Serialize.describe("x"), "Serialize error: x");
    assert_eq!(Failure::ParseEvents.describe("x"), "Failed to parse events: x");
    assert_eq!(Failure::ParseSeats.describe("x"), "Failed to parse seats: x");
    assert_eq!(Failure::ParseReservation.describe("x"), "Parse reservation response error: x");
    assert_eq!(Failure::ParseWaitlist.describe("x"), "Parse waitlist response error: x");
    assert_eq!(Failure::ParsePayment.describe("x"), "Parse payment response error: x");
}

#[test]
fn stored_queues_round_trip() {
    let mut queued: HashSet<u128> = HashSet::new();
    queued.insert(EVENT);
    queued.insert(ME);
    let text = waitlists_text(&queued).unwrap();
    assert!(text.contains("a0000000-0000-0000-0000-000000000002"));
    assert_eq!(stored_waitlists(Some(&text)), queued);
    assert_eq!(
        stored_waitlists(Some("[\"a1a2a3a4-b1b2-c1c2-d1d2-d3d4d5d6d7d8\"]")),
        [ME].into_iter().collect::<HashSet<u128>>()
    );
    assert!(stored_waitlists(Some("not json")).is_empty());
    assert!(stored_waitlists(Some("[\"nope\"]")).is_empty());
    assert!(stored_waitlists(None).is_empty());
    assert_eq!(waitlists_text(&HashSet::new()).unwrap(), "[]");
    assert!(waitlists_from(None).is_empty());
    assert_eq!(waitlists_from(Some(queued.clone())), queued);
}

#[test]
fn identity_and_saving_from_read_ids() {
    let kept = identity_from(true, Some(ME));
    assert_eq!(kept.user_id, ME);
    assert!(!kept.store);
    let fresh = identity_from(true, None);
    assert!(fresh.store);
    assert_eq!((fresh.user_id >> 76) & 0xf, 4);
    let no_storage = identity_from(false, Some(ME));
    assert!(!no_storage.store);
    assert_ne!(no_storage.user_id, ME);
    let (id, notice) = saved_user_id(Some(7));
    assert_eq!(id, Some(7));
    assert_eq!(notice.message, "Zapisano User ID.");
    let (id, notice) = saved_user_id(None);
    assert_eq!(id, None);
    assert_eq!(notice.kind, ToastType::Error);
}
