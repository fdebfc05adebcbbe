//! What holds of moments and of the time between them.

use crate::clock::{in_calendar, is_clock_second, nanos_of, time_left, within_calendar, Timestamp};
use crate::reading::{system_clock_said, utc_clock_said};
use vstd::prelude::*;

verus! {

/// The time that is left leads from the present to the moment exactly; of a
/// moment that has passed nothing is left.
pub proof fn the_time_left_leads_to_the_moment(moment: int, now: int)
    requires
        within_calendar(moment),
        within_calendar(now),
    ensures
        time_left(moment, now) is None <==> moment < now,
        time_left(moment, now) matches Some(left) ==> now + left == moment,
{
}

/// A moment is its seconds and the nanoseconds behind them; the calendar holds
/// whole seconds, and less than a second behind each.
pub proof fn a_moment_is_seconds_and_nanoseconds(seconds: i64, nanos: u32)
    ensures
        nanos_of(seconds, nanos) == seconds * 1_000_000_000 + nanos,
        in_calendar(seconds, nanos) <==> -8_334_601_228_800 <= seconds <= 8_210_266_876_799
            && nanos < 1_000_000_000,
        in_calendar(seconds, nanos) ==> within_calendar(nanos_of(seconds, nanos)),
        within_calendar(nanos_of(seconds, nanos)) && nanos < 1_000_000_000 ==> in_calendar(
            seconds,
            nanos,
        ),
{
}

/// The present is what a clock said, and nothing else: a second of the system
/// clock, with the epoch for a clock before it, and a moment of the UTC clock.
pub proof fn the_present_is_what_a_clock_said(second: u64, now: Timestamp)
    ensures
        is_clock_second(second) && second != 0 ==> system_clock_said(Some(second)),
        is_clock_second(0) ==> system_clock_said(Some(0)) || system_clock_said(None),
        now.is_present() ==> exists|seconds: i64, nanos: u32| #[trigger]
            utc_clock_said(seconds, nanos) && now.since_epoch() == seconds * 1_000_000_000 + nanos,
{
}

} // verus!
