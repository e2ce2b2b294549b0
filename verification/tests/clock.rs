use http_relay::clock::{
    expires_at, is_expired, low_bits, timestamp_after, timestamp_of, unix_timestamp_millis,
};
use std::time::Duration;

#[test]
fn the_clock_reads_a_time_after_2020() {
    assert!(unix_timestamp_millis() > 1_577_836_800_000);
}

#[test]
fn the_clock_does_not_stand_still_for_a_century() {
    assert!(unix_timestamp_millis() < 4_102_444_800_000);
}

#[test]
fn a_lifetime_ends_after_its_milliseconds() {
    assert_eq!(expires_at(1_000, Duration::from_secs(60)), 61_000);
    assert_eq!(expires_at(-5, Duration::from_millis(5)), 0);
    assert_eq!(expires_at(7, Duration::from_micros(1_999)), 8);
    assert_eq!(expires_at(i64::MAX, Duration::from_millis(1)), i64::MIN);
    assert_eq!(expires_at(0, Duration::MAX), 18_446_744_073_709_551_615_999_u128 as i64);
}

#[test]
fn expiry_comes_at_the_very_time() {
    assert!(!is_expired(99, 100));
    assert!(is_expired(100, 100));
    assert!(is_expired(101, 100));
}

#[test]
fn a_lifetime_that_fits_is_exact() {
    let now: i64 = 1_700_000_000_000;
    let end: i64 = expires_at(now, Duration::from_secs(300));
    assert_eq!(end - now, 300_000);
    assert!(!is_expired(now + 299_999, end));
    assert!(is_expired(now + 300_000, end));
}

#[test]
fn readings_become_timestamps() {
    assert_eq!(timestamp_of(Some(1_700_000_000_000)), 1_700_000_000_000);
    assert_eq!(timestamp_of(Some(0)), 0);
    assert_eq!(timestamp_of(None), 0);
    assert_eq!(timestamp_of(Some(1 << 63)), i64::MAX);
    assert_eq!(low_bits(u128::MAX), -1);
    assert_eq!(low_bits(1 << 64), 0);
    assert_eq!(low_bits((1 << 63) - 1), i64::MAX);
}

#[test]
fn durations_since_the_epoch_become_milliseconds() {
    assert_eq!(timestamp_after(Some(Duration::from_secs(3))), 3_000);
    assert_eq!(timestamp_after(Some(Duration::from_micros(2_999))), 2);
    assert_eq!(timestamp_after(Some(Duration::MAX)), i64::MAX);
    assert_eq!(timestamp_after(None), 0);
}
