use reservations::text::{owned, push_decimal, push_signed_decimal, push_two_digits, text_equals};

fn decimal_text(n: u128) -> String {
    let mut s = String::new();
    push_decimal(&mut s, n);
    s
}

#[test]
fn decimal_numbers() {
    assert_eq!(decimal_text(0), "0");
    assert_eq!(decimal_text(7), "7");
    assert_eq!(decimal_text(10), "10");
    assert_eq!(decimal_text(1234567890), "1234567890");
    assert_eq!(decimal_text(u128::MAX), u128::MAX.to_string());
    let mut s = owned("x=");
    push_signed_decimal(&mut s, -42);
    assert_eq!(s, "x=-42");
    let mut s = String::new();
    push_signed_decimal(&mut s, i64::MIN);
    assert_eq!(s, i64::MIN.to_string());
    let mut s = String::new();
    push_two_digits(&mut s, 5);
    push_two_digits(&mut s, 59);
    push_two_digits(&mut s, 123);
    assert_eq!(s, "0559123");
}

#[test]
fn text_comparison() {
    assert!(text_equals("held", "held"));
    assert!(!text_equals("held", "hold"));
    assert!(!text_equals("held", "helds"));
    assert!(text_equals("", ""));
    assert!(text_equals("zażółć", "zażółć"));
}
