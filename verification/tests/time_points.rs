use leptos_oidc::time::{now, seconds_make_delta, MAX_DELTA_SECONDS, MAX_SECONDS, MIN_SECONDS};
use leptos_oidc::Timestamp;

fn ts(secs: i64, nanos: u32) -> Timestamp {
    Timestamp::new(secs, nanos).unwrap()
}

#[test]
fn timestamp_range_edges() {
    assert!(Timestamp::new(MAX_SECONDS, 999_999_999).is_some());
    assert!(Timestamp::new(MAX_SECONDS + 1, 0).is_none());
    assert!(Timestamp::new(MIN_SECONDS, 0).is_some());
    assert!(Timestamp::new(MIN_SECONDS - 1, 999_999_999).is_none());
    assert!(Timestamp::new(0, 1_000_000_000).is_none());
    let t = ts(12, 34);
    assert_eq!((t.secs(), t.nanos()), (12, 34));
}

#[test]
fn timestamp_range_matches_chrono() {
    let min = chrono::NaiveDateTime::MIN.and_utc();
    let max = chrono::NaiveDateTime::MAX.and_utc();
    assert_eq!(min.timestamp(), MIN_SECONDS);
    assert_eq!(max.timestamp(), MAX_SECONDS);
    assert_eq!(max.timestamp_subsec_nanos(), 999_999_999);
}

#[test]
fn order_is_by_seconds_then_nanos() {
    assert!(ts(5, 0).is_at_or_after(&ts(5, 0)));
    assert!(ts(5, 1).is_at_or_after(&ts(5, 0)));
    assert!(!ts(5, 0).is_at_or_after(&ts(5, 1)));
    assert!(ts(6, 0).is_at_or_after(&ts(5, 999_999_999)));
    assert!(!ts(-6, 5).is_at_or_after(&ts(-5, 0)));
}

#[test]
fn adding_seconds_keeps_nanos() {
    assert_eq!(ts(100, 7).checked_add_seconds(-40), Some(ts(60, 7)));
    assert_eq!(ts(0, 0).checked_add_seconds(86_400 * 365), Some(ts(31_536_000, 0)));
}

#[test]
fn adding_seconds_past_the_range_gives_none() {
    assert_eq!(ts(MAX_SECONDS, 0).checked_add_seconds(1), None);
    assert_eq!(ts(MIN_SECONDS, 0).checked_add_seconds(-1), None);
    assert_eq!(ts(MAX_SECONDS - 10, 3).checked_add_seconds(10), Some(ts(MAX_SECONDS, 3)));
    assert_eq!(ts(0, 0).checked_add_seconds(MAX_DELTA_SECONDS), None);
}

#[test]
fn whole_seconds_round_toward_zero() {
    assert_eq!(ts(10, 0).seconds_since(&ts(0, 500_000_000)), 9);
    assert_eq!(ts(0, 0).seconds_since(&ts(10, 500_000_000)), -10);
    assert_eq!(ts(7, 0).seconds_since(&ts(7, 0)), 0);
    assert_eq!(ts(0, 0).seconds_since(&ts(0, 1)), 0);
    assert_eq!(ts(MAX_SECONDS, 0).seconds_since(&ts(MIN_SECONDS, 0)), MAX_SECONDS - MIN_SECONDS);
}

#[test]
fn delta_range_is_that_of_time_delta() {
    assert!(seconds_make_delta(MAX_DELTA_SECONDS));
    assert!(seconds_make_delta(-MAX_DELTA_SECONDS));
    assert!(!seconds_make_delta(MAX_DELTA_SECONDS + 1));
    assert!(!seconds_make_delta(-MAX_DELTA_SECONDS - 1));
    assert!(!seconds_make_delta(i64::MIN));
    assert!(seconds_make_delta(0));
}

#[test]
fn clock_gives_a_recent_time() {
    let t = now();
    // after 2020-01-01
    assert!(t.secs() > 1_577_836_800);
}
