use std::time::Duration;

use sqlite_repros::text::{boolean_text, decimal_text, duration_text, millis_text, say};

#[test]
fn decimals_have_no_leading_zeros() {
    assert_eq!(decimal_text(0), "0");
    assert_eq!(decimal_text(7), "7");
    assert_eq!(decimal_text(10), "10");
    assert_eq!(decimal_text(1_203), "1203");
    assert_eq!(decimal_text(u64::MAX), "18446744073709551615");
}

#[test]
fn decimals_read_back() {
    for n in [0u64, 9, 10, 99, 100, 4_096, 1_000_000, u64::MAX] {
        assert_eq!(decimal_text(n).parse::<u64>(), Ok(n));
    }
}

#[test]
fn durations_in_each_unit() {
    assert_eq!(duration_text(0, 0), "0ns");
    assert_eq!(duration_text(0, 999), "999ns");
    assert_eq!(duration_text(0, 1_000), "1µs");
    assert_eq!(duration_text(0, 20_500), "20.5µs");
    assert_eq!(duration_text(0, 1_234_567), "1.234567ms");
    assert_eq!(duration_text(0, 1_000_001), "1.000001ms");
    assert_eq!(duration_text(2, 0), "2s");
    assert_eq!(duration_text(1, 500_000_000), "1.5s");
    assert_eq!(duration_text(20, 1), "20.000000001s");
}

#[test]
fn durations_agree_with_std() {
    let mut nanos: u32 = 1;
    while nanos < 1_000_000_000 {
        for n in [nanos - 1, nanos, nanos + 1, nanos / 7 * 5] {
            for secs in [0u64, 1, 61, u64::MAX] {
                let expected = format!("{:?}", Duration::new(secs, n));
                assert_eq!(duration_text(secs, n), expected);
            }
        }
        nanos = nanos.saturating_mul(3);
    }
    let longest = format!("{:?}", Duration::new(u64::MAX, 999_999_999));
    assert_eq!(duration_text(u64::MAX, 999_999_999), longest);
}

#[test]
fn fractions_are_exact_and_end_without_zero() {
    let text = duration_text(3, 140_000_000);
    assert_eq!(text, "3.14s");
    assert!(!duration_text(0, 500_500).ends_with("0µs"));
    assert_eq!(duration_text(0, 500_500), "500.5µs");
}

#[test]
fn timeouts_as_they_are_shown() {
    assert_eq!(millis_text(500), "500ms");
    assert_eq!(millis_text(750), "750ms");
    assert_eq!(millis_text(2_000), "2s");
    assert_eq!(millis_text(20_000), "20s");
    assert_eq!(millis_text(2_500), "2.5s");
    assert_eq!(millis_text(0), format!("{:?}", Duration::from_millis(0)));
    assert_eq!(millis_text(u64::MAX), format!("{:?}", Duration::from_millis(u64::MAX)));
}

#[test]
fn booleans_in_words() {
    assert_eq!(boolean_text(true), "true");
    assert_eq!(boolean_text(false), "false");
}

#[test]
fn saying_adds_one_line() {
    let mut lines = vec!["a".to_string()];
    say(&mut lines, "b");
    assert_eq!(lines, vec!["a".to_string(), "b".to_string()]);
}
