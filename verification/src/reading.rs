//! Where a reading of a clock comes from.
//!
//! What is said here of a reading holds of every reading, but that is known in
//! this file alone. Everywhere else a reading is a clock's only where the
//! function that asked the clock says so: no other moment can take its place.

use crate::clock::in_calendar;
use vstd::prelude::*;

verus! {

/// Whether the system clock said so many seconds since the Unix epoch; `None`
/// stands for a clock before the epoch.
pub closed spec fn system_clock_said(reading: Option<u64>) -> bool {
    match reading {
        Some(seconds) => 0 <= seconds <= u64::MAX,
        None => true,
    }
}

/// Whether the UTC clock said this second of the Unix epoch and these
/// nanoseconds behind it.
pub closed spec fn utc_clock_said(seconds: i64, nanos: u32) -> bool {
    in_calendar(seconds, nanos)
}

} // verus!
