//! Readings of the wall clock.

use crate::reading::{system_clock_said, utc_clock_said};
use vstd::prelude::*;

verus! {

/// Whole seconds from the Unix epoch to the present, from
/// `std::time::SystemTime::elapsed` of the epoch; `None` stands for its error, a
/// clock before the epoch. Of the number nothing is claimed; that it is the
/// clock's own holds by definition.
#[verifier::external_body]
fn seconds_since_epoch() -> (r: Option<u64>)
    ensures
        system_clock_said(r),
{
    match std::time::SystemTime::UNIX_EPOCH.elapsed() {
        Ok(elapsed) => Some(elapsed.as_secs()),
        Err(_) => None,
    }
}

/// The seconds that a clock reading stands for: a clock before the epoch
/// counts as the epoch.
pub fn seconds_or_epoch(reading: Option<u64>) -> (r: u64)
    ensures
        r == (match reading {
            Some(seconds) => seconds,
            None => 0,
        }),
{
    match reading {
        Some(seconds) => seconds,
        None => 0,
    }
}

/// Whether a second is what the system clock said: the seconds since the Unix
/// epoch, or the epoch itself for a clock before it.
pub open spec fn is_clock_second(second: u64) -> bool {
    ||| system_clock_said(Some(second))
    ||| second == 0 && system_clock_said(None)
}

/// The earliest second that a timestamp can stand for, counted from the Unix
/// epoch.
pub const MIN_TIMESTAMP: i64 = -8_334_601_228_800;

/// The latest second that a timestamp can stand for, counted from the Unix
/// epoch.
pub const MAX_TIMESTAMP: i64 = 8_210_266_876_799;

/// Nanoseconds in a second.
pub const SECOND: u128 = 1_000_000_000;

/// A moment in time.
#[derive(Clone, Copy, Debug, PartialEq, Eq, Structural)]
pub struct Timestamp {
    seconds: i64,
    nanos: u32,
}

impl Timestamp {
    #[verifier::type_invariant]
    spec fn in_range(self) -> bool {
        in_calendar(self.seconds, self.nanos)
    }

    /// Nanoseconds from the Unix epoch to this moment.
    pub closed spec fn since_epoch(self) -> int {
        nanos_of(self.seconds, self.nanos)
    }

    /// Whether the UTC clock said this moment.
    pub open spec fn is_present(self) -> bool {
        exists|seconds: i64, nanos: u32| #[trigger]
            utc_clock_said(seconds, nanos) && self.since_epoch() == nanos_of(seconds, nanos)
    }

    /// The moment `nanos` nanoseconds behind the second `seconds` of the Unix
    /// epoch. `None` outside the calendar, and for more than a second's worth of
    /// nanoseconds.
    pub fn new(seconds: i64, nanos: u32) -> (r: Option<Timestamp>)
        ensures
            r is Some <==> in_calendar(seconds, nanos),
            r matches Some(moment) ==> moment.since_epoch() == nanos_of(seconds, nanos),
    {
        if MIN_TIMESTAMP <= seconds && seconds <= MAX_TIMESTAMP && nanos < 1_000_000_000 {
            Some(Timestamp { seconds, nanos })
        } else {
            None
        }
    }

    /// The time from `now` to this moment in nanoseconds. `None` if the moment
    /// has passed.
    pub fn remaining(self, now: Timestamp) -> (r: Option<u128>)
        ensures
            r == time_left(self.since_epoch(), now.since_epoch()),
    {
        proof {
            use_type_invariant(&self);
            use_type_invariant(&now);
        }
        let (seconds, nanos) = signed_difference(self.seconds, self.nanos, now.seconds, now.nanos);
        if seconds < 0 || nanos < 0 {
            return None;
        }
        Some(seconds as u128 * SECOND + nanos as u128)
    }

    /// The present moment by the system clock. Whatever the clock says, it is a
    /// moment of the calendar.
    pub(crate) fn now() -> (r: Timestamp)
        ensures
            within_calendar(r.since_epoch()),
            r.is_present(),
    {
        let (seconds, nanos) = utc_now();
        Timestamp { seconds, nanos }
    }
}

/// Whether a second of the Unix epoch and nanoseconds behind it are a moment of
/// the calendar.
pub open spec fn in_calendar(seconds: i64, nanos: u32) -> bool {
    MIN_TIMESTAMP <= seconds <= MAX_TIMESTAMP && nanos < 1_000_000_000
}

/// Whether so many nanoseconds from the Unix epoch lead to a moment of the
/// calendar.
pub open spec fn within_calendar(since_epoch: int) -> bool {
    MIN_TIMESTAMP * 1_000_000_000 <= since_epoch < (MAX_TIMESTAMP + 1) * 1_000_000_000
}

/// The epoch itself is a moment of the calendar.
pub(crate) proof fn lemma_calendar_holds_a_moment() -> (r: Timestamp)
    ensures
        within_calendar(r.since_epoch()),
{
    Timestamp { seconds: 0, nanos: 0 }
}

/// Nanoseconds from the Unix epoch to a moment.
pub open spec fn nanos_of(seconds: i64, nanos: u32) -> int {
    seconds * 1_000_000_000 + nanos
}

/// The time that is left until a moment, if it has not passed.
pub open spec fn time_left(moment: int, now: int) -> Option<u128> {
    if moment < now {
        None
    } else {
        Some((moment - now) as u128)
    }
}

/// The present moment, from `chrono::Utc::now`, as whole seconds and
/// nanoseconds of the Unix epoch. It is claimed to be a moment of the calendar,
/// not which one; that it is the clock's own holds by definition. The call
/// panics on a system clock that stands before the Unix epoch.
#[verifier::external_body]
fn utc_now() -> (r: (i64, u32))
    ensures
        in_calendar(r.0, r.1),
        utc_clock_said(r.0, r.1),
{
    let now = chrono::Utc::now();
    (now.timestamp(), now.timestamp_subsec_nanos())
}

/// The time from the second moment to the first, from
/// `chrono::DateTime::signed_duration_since`, as whole seconds and the
/// nanoseconds beyond them. It is claimed that together they are the exact
/// difference, and that both have its sign.
#[verifier::external_body]
fn signed_difference(seconds: i64, nanos: u32, now_seconds: i64, now_nanos: u32) -> (r: (i64, i32))
    requires
        in_calendar(seconds, nanos),
        in_calendar(now_seconds, now_nanos),
    ensures
        r.0 * 1_000_000_000 + r.1 == nanos_of(seconds, nanos) - nanos_of(now_seconds, now_nanos),
        -1_000_000_000 < r.1 < 1_000_000_000,
        r.0 > 0 ==> r.1 >= 0,
        r.0 < 0 ==> r.1 <= 0,
{
    let moment = chrono::DateTime::<chrono::Utc>::from_timestamp(seconds, nanos).unwrap();
    let now = chrono::DateTime::<chrono::Utc>::from_timestamp(now_seconds, now_nanos).unwrap();
    let left = moment.signed_duration_since(now);
    (left.num_seconds(), left.subsec_nanos())
}

/// Seconds since the Unix epoch by the system clock.
pub(crate) fn unix_now() -> (r: u64)
    ensures
        is_clock_second(r),
{
    seconds_or_epoch(seconds_since_epoch())
}

} // verus!
