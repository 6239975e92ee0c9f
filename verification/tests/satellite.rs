use observer::decimal::push_decimal;
use observer::{Sat, Subscriber};

fn decimal_of(n: u64) -> String {
    let mut out = String::new();
    push_decimal(&mut out, n);
    out
}

#[test]
fn satellite_keeps_its_id() {
    assert_eq!(Sat::new(327).id, 327);
    assert_eq!(Sat::new(0).id, 0);
}

#[test]
fn update_reports_id_and_message() {
    let sat = Sat::new(327);
    assert_eq!(sat.update("Hello!"), "Satellite 327 received this message: Hello!");
    assert_eq!(sat.update("How is going?"), "Satellite 327 received this message: How is going?");
}

#[test]
fn update_with_smallest_and_largest_id() {
    assert_eq!(Sat::new(0).update("x"), "Satellite 0 received this message: x");
    assert_eq!(
        Sat::new(u64::MAX).update("x"),
        "Satellite 18446744073709551615 received this message: x"
    );
}

#[test]
fn update_keeps_the_message_as_it_is() {
    let sat = Sat::new(5);
    assert_eq!(sat.update(""), "Satellite 5 received this message: ");
    assert_eq!(sat.update("  two\nlines "), "Satellite 5 received this message:   two\nlines ");
    assert_eq!(sat.update("héllo ✓"), "Satellite 5 received this message: héllo ✓");
}

#[test]
fn decimal_of_single_digits() {
    assert_eq!(decimal_of(0), "0");
    assert_eq!(decimal_of(1), "1");
    assert_eq!(decimal_of(9), "9");
}

#[test]
fn decimal_of_longer_numbers() {
    assert_eq!(decimal_of(10), "10");
    assert_eq!(decimal_of(12), "12");
    assert_eq!(decimal_of(99), "99");
    assert_eq!(decimal_of(100), "100");
    assert_eq!(decimal_of(327), "327");
    assert_eq!(decimal_of(1_000_000), "1000000");
    assert_eq!(decimal_of(1_234_567_890), "1234567890");
    assert_eq!(decimal_of(u64::MAX), "18446744073709551615");
}

#[test]
fn decimal_agrees_with_the_standard_formatting() {
    let mut n: u64 = 1;
    for _ in 0..64 {
        assert_eq!(decimal_of(n), format!("{}", n));
        assert_eq!(decimal_of(n - 1), format!("{}", n - 1));
        n = n.wrapping_mul(3).wrapping_add(7);
        if n == 0 {
            n = 1;
        }
    }
}

#[test]
fn push_decimal_appends() {
    let mut out = String::from("id ");
    push_decimal(&mut out, 42);
    assert_eq!(out, "id 42");
    push_decimal(&mut out, 0);
    assert_eq!(out, "id 420");
}
