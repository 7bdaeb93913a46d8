//! The two clocks the services read.

use vstd::prelude::*;

verus! {

/// Seconds in the lifetime of a token, and microseconds in that of an invitation.
pub const DAY_SECONDS: i64 = 86_400;

pub const DAY_MICROS: i64 = 86_400_000_000;

/// Calls `chrono::Local::now` and `DateTime::timestamp`: the seconds since the
/// Unix epoch at the moment of the call. Nothing is claimed of the value.
#[verifier::external_body]
pub(crate) fn unix_seconds_now() -> (now: i64) {
    chrono::Local::now().timestamp()
}

/// Calls `chrono::Local::now` and `DateTime::naive_local`, and counts that
/// wall-clock reading in microseconds with `NaiveDateTime::and_utc` and
/// `DateTime::timestamp_micros`. Nothing is claimed of the value.
#[verifier::external_body]
pub(crate) fn local_micros_now() -> (now: i64) {
    chrono::Local::now().naive_local().and_utc().timestamp_micros()
}

} // verus!
