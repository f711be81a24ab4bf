//! Points in time (UTC, without leap seconds) and the few operations on them
//! that token handling needs: comparison, adding whole seconds and measuring
//! the whole seconds between two points.
//!
//! A `Timestamp` stands for a `chrono::NaiveDateTime` that is read as UTC: the
//! number of seconds since 1970-01-01T00:00:00 and the nanoseconds within that
//! second. Every value lies in the range that `NaiveDateTime` can represent.
use vstd::prelude::*;

use chrono::{DateTime, Local, TimeDelta, Utc};

verus! {

/// Seconds since the epoch of `NaiveDateTime::MIN` (-262143-01-01T00:00:00).
pub const MIN_SECONDS: i64 = -8_334_601_228_800i64;

/// Seconds since the epoch of `NaiveDateTime::MAX` (262142-12-31T23:59:59.999999999).
pub const MAX_SECONDS: i64 = 8_210_266_876_799i64;

/// The largest number of whole seconds a `chrono::TimeDelta` can hold
/// (`i64::MAX / 1000`); the smallest is its negation.
pub const MAX_DELTA_SECONDS: i64 = 9_223_372_036_854_775i64;

pub const NANOS_PER_SECOND: u32 = 1_000_000_000u32;

/// A point in time as (seconds since the epoch, nanoseconds in that second).
pub open spec fn in_time_range(v: (i64, u32)) -> bool {
    &&& MIN_SECONDS <= v.0 <= MAX_SECONDS
    &&& v.1 < NANOS_PER_SECOND
}

/// `a` is the same point as `b` or lies after it.
pub open spec fn at_or_after(a: (i64, u32), b: (i64, u32)) -> bool {
    a.0 > b.0 || (a.0 == b.0 && a.1 >= b.1)
}

/// A number of seconds that a `chrono::TimeDelta` can hold.
pub open spec fn delta_in_range(seconds: int) -> bool {
    -MAX_DELTA_SECONDS <= seconds <= MAX_DELTA_SECONDS
}

/// The exact distance from `earlier` to `later` in nanoseconds.
pub open spec fn nanos_between(later: (i64, u32), earlier: (i64, u32)) -> int {
    (later.0 - earlier.0) * 1_000_000_000 + (later.1 - earlier.1)
}

/// Integer division rounding toward zero.
pub open spec fn div_toward_zero(n: int, d: int) -> int
    recommends
        d > 0,
{
    if n >= 0 {
        n / d
    } else {
        -((-n) / d)
    }
}

/// The whole seconds from `earlier` to `later`, rounded toward zero.
pub open spec fn whole_seconds_between(later: (i64, u32), earlier: (i64, u32)) -> int {
    div_toward_zero(nanos_between(later, earlier), 1_000_000_000)
}

/// A point in time that `chrono::NaiveDateTime` can represent, read as UTC.
#[derive(Clone, Copy, Debug, PartialEq, Eq, Hash)]
pub struct Timestamp {
    secs: i64,
    nanos: u32,
}

impl View for Timestamp {
    type V = (i64, u32);

    closed spec fn view(&self) -> (i64, u32) {
        (self.secs, self.nanos)
    }
}

impl Timestamp {
    /// Every timestamp lies in the range of `NaiveDateTime` and is not a
    /// leap second.
    #[verifier::type_invariant]
    pub open spec fn inv(self) -> bool {
        in_time_range(self@)
    }

    /// Builds a timestamp from seconds since the epoch and the nanoseconds in
    /// that second; `None` outside the range of `NaiveDateTime` or for a
    /// nanosecond count of a whole second or more.
    pub fn new(secs: i64, nanos: u32) -> (r: Option<Timestamp>)
        ensures
            r is Some <==> in_time_range((secs, nanos)),
            r matches Some(t) ==> t@ == (secs, nanos),
    {
        if MIN_SECONDS <= secs && secs <= MAX_SECONDS && nanos < NANOS_PER_SECOND {
            Some(Timestamp { secs, nanos })
        } else {
            None
        }
    }

    /// Seconds since 1970-01-01T00:00:00.
    pub fn secs(&self) -> (r: i64)
        ensures
            r == self@.0,
            MIN_SECONDS <= r <= MAX_SECONDS,
    {
        proof {
            use_type_invariant(self);
        }
        self.secs
    }

    /// Nanoseconds within the second.
    pub fn nanos(&self) -> (r: u32)
        ensures
            r == self@.1,
            r < NANOS_PER_SECOND,
    {
        proof {
            use_type_invariant(self);
        }
        self.nanos
    }

    /// Whether `self` is the same point as `other` or lies after it; the
    /// order of `NaiveDateTime`.
    pub fn is_at_or_after(&self, other: &Timestamp) -> (r: bool)
        ensures
            r == at_or_after(self@, other@),
    {
        self.secs > other.secs || (self.secs == other.secs && self.nanos >= other.nanos)
    }

    /// `self` moved by `seconds` whole seconds; `None` where the result leaves
    /// the range of `NaiveDateTime`.
    pub fn checked_add_seconds(&self, seconds: i64) -> (r: Option<Timestamp>)
        requires
            delta_in_range(seconds as int),
        ensures
            r is Some <==> MIN_SECONDS <= self@.0 + seconds <= MAX_SECONDS,
            r matches Some(t) ==> t@.0 == self@.0 + seconds && t@.1 == self@.1,
    {
        proof {
            use_type_invariant(self);
        }
        chrono_checked_add(self, seconds)
    }

    /// The whole seconds from `earlier` to `self`, rounded toward zero (what
    /// `(self - earlier).num_seconds()` gives in chrono).
    pub fn seconds_since(&self, earlier: &Timestamp) -> (r: i64)
        ensures
            r == whole_seconds_between(self@, earlier@),
    {
        proof {
            use_type_invariant(self);
            use_type_invariant(earlier);
        }
        chrono_seconds_between(self, earlier)
    }
}

/// The current time (UTC) as the system clock gives it.
pub fn now() -> (r: Timestamp) {
    local_now_utc()
}

/// Whether `seconds` makes a `chrono::TimeDelta`.
pub fn seconds_make_delta(seconds: i64) -> (r: bool)
    ensures
        r == delta_in_range(seconds as int),
{
    chrono_try_seconds_is_some(seconds)
}

/// `chrono::TimeDelta::try_seconds`: per its source and documentation it is
/// `Some` exactly for `-i64::MAX / 1000 <= seconds <= i64::MAX / 1000`.
#[verifier::external_body]
fn chrono_try_seconds_is_some(seconds: i64) -> (r: bool)
    ensures
        r == delta_in_range(seconds as int),
{
    TimeDelta::try_seconds(seconds).is_some()
}

/// `chrono::NaiveDateTime::checked_add_signed` with a whole-second
/// `TimeDelta`, on the `NaiveDateTime` that `t` stands for. The source adds the
/// seconds to the time of day, carries whole days into the date and returns
/// `None` exactly where the date leaves `NaiveDate::MIN..=NaiveDate::MAX`; the
/// nanoseconds are kept.
#[verifier::external_body]
fn chrono_checked_add(t: &Timestamp, seconds: i64) -> (r: Option<Timestamp>)
    requires
        in_time_range(t@),
        delta_in_range(seconds as int),
    ensures
        r is Some <==> MIN_SECONDS <= t@.0 + seconds <= MAX_SECONDS,
        r matches Some(x) ==> x@.0 == t@.0 + seconds && x@.1 == t@.1,
{
    let base = DateTime::from_timestamp(t.secs, t.nanos).expect("in range").naive_utc();
    match base.checked_add_signed(TimeDelta::seconds(seconds)) {
        Some(n) => Some(Timestamp { secs: n.and_utc().timestamp(), nanos: n.and_utc().timestamp_subsec_nanos() }),
        None => None,
    }
}

/// `(later - earlier).num_seconds()` on the `NaiveDateTime`s that the two
/// timestamps stand for: `signed_duration_since` is exact for times that are
/// not leap seconds, and `num_seconds` rounds toward zero.
#[verifier::external_body]
fn chrono_seconds_between(later: &Timestamp, earlier: &Timestamp) -> (r: i64)
    requires
        in_time_range(later@),
        in_time_range(earlier@),
    ensures
        r == whole_seconds_between(later@, earlier@),
{
    let a = DateTime::from_timestamp(later.secs, later.nanos).expect("in range").naive_utc();
    let b = DateTime::from_timestamp(earlier.secs, earlier.nanos).expect("in range").naive_utc();
    (a - b).num_seconds()
}

/// `chrono::Utc::now().naive_utc()`: the current time as read from the
/// system clock. Nothing is promised of its value beyond it being a
/// representable point in time that is not a leap second.
#[verifier::external_body]
pub(crate) fn utc_now() -> (r: Timestamp) {
    let n = Utc::now().naive_utc();
    Timestamp { secs: n.and_utc().timestamp(), nanos: n.and_utc().timestamp_subsec_nanos() }
}

/// `chrono::Local::now().naive_utc()`: the current time as read from the
/// system clock, in UTC. Nothing is promised of its value beyond it being a
/// representable point in time that is not a leap second.
#[verifier::external_body]
pub(crate) fn local_now_utc() -> (r: Timestamp) {
    let n = Local::now().naive_utc();
    Timestamp { secs: n.and_utc().timestamp(), nanos: n.and_utc().timestamp_subsec_nanos() }
}

} // verus!
