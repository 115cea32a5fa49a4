//! The clock of the machine, through `std`, and the writing of a moment,
//! through `chrono`.

use vstd::prelude::*;
use crate::stamp::{stamp_valid, NANOS_END, STAMP_SECONDS_END};

verus! {

/// `std::time::SystemTime`, a point in time as the system clock tells it.
/// Opaque here.
#[verifier::external_type_specification]
#[verifier::external_body]
pub struct ExSystemTime(std::time::SystemTime);

/// `std::time::SystemTime::now`: what the system clock reads at the moment of
/// the call. Nothing is claimed of it.
pub assume_specification[ std::time::SystemTime::now ]() -> (time: std::time::SystemTime);

/// `std::time::Duration::as_secs`: the whole seconds of a duration. Nothing is
/// claimed of them.
pub assume_specification[ std::time::Duration::as_secs ](span: &std::time::Duration) -> (secs: u64);

/// `std::time::Duration::subsec_nanos`: what a duration holds beyond its whole
/// seconds, in nanoseconds. Claimed, as `std` documents: fewer than a billion.
pub assume_specification[ std::time::Duration::subsec_nanos ](span: &std::time::Duration) -> (nanos: u32)
    ensures
        nanos < 1_000_000_000,
;

/// `std::time::SystemTime::duration_since`, from `std::time::UNIX_EPOCH`: the
/// time from the start of 1970 to `time`, or nothing where `time` lies before
/// it. Nothing is claimed of the outcome.
#[verifier::external_body]
pub(crate) fn since_epoch(time: &std::time::SystemTime) -> (span: Option<std::time::Duration>)
{
    match time.duration_since(std::time::UNIX_EPOCH) {
        Ok(span) => Some(span),
        Err(_) => None,
    }
}

/// What `chrono` writes for the moment `secs` seconds and `nanos` nanoseconds
/// after the start of 1970: the date and time in UTC as RFC 3339, as
/// `chrono::DateTime::to_rfc3339` gives it. It reads no clock and no time zone,
/// so it depends on the two numbers alone.
pub uninterp spec fn utc_rfc3339(secs: int, nanos: int) -> Seq<char>;

/// `chrono::DateTime::from_timestamp` and `chrono::DateTime::to_rfc3339`: the
/// moment `secs` seconds and `nanos` nanoseconds after the start of 1970,
/// written in UTC, or nothing where `chrono` has no such moment. Claimed: what
/// is written is [`utc_rfc3339`] of the two numbers. For a moment from 1970 to
/// the end of the year 9999 with fewer nanoseconds than a second's, `chrono`
/// has the moment, and what it writes is a timestamp: a date of the calendar
/// with a year of four digits, a time of day, a fraction of no, three, six or
/// nine digits, and the offset `+00:00`.
#[verifier::external_body]
pub(crate) fn written_in_utc(secs: i64, nanos: u32) -> (written: Option<String>)
    ensures
        written matches Some(s) ==> s@ == utc_rfc3339(secs as int, nanos as int),
        written matches Some(s) ==> (0 <= secs < STAMP_SECONDS_END && nanos < NANOS_END
            ==> stamp_valid(s@)),
        written is None ==> !(0 <= secs < STAMP_SECONDS_END && nanos < NANOS_END),
{
    let utc = chrono::DateTime::from_timestamp(secs, nanos)?;
    Some(utc.to_rfc3339())
}

} // verus!
