//! The encoding of creation times: RFC 3339 with an explicit offset, as in
//! `2024-05-01T10:00:00+00:00` or `2024-05-01T10:00:00.250-08:00`.
//!
//! A [`Timestamp`] is a string that names a date of the calendar, a time of
//! day and an offset in that encoding and no other, so whatever the store
//! hands to the database as a creation time does. The store itself writes the
//! time in UTC, with the offset `+00:00`.

use vstd::prelude::*;
use vstd::string::{StrSliceExecFns, StringExecFns};
use crate::clock::{since_epoch, utc_rfc3339, written_in_utc};
use crate::error::{Fault, StorageError};

verus! {

/// The first second after the year 9999 in UTC, counted from the start of
/// 1970: the first that has no timestamp of this encoding.
pub const STAMP_SECONDS_END: u64 = 253_402_300_800;

/// One more than the greatest fraction of a second, in nanoseconds.
pub const NANOS_END: u32 = 1_000_000_000;

/// `c` is one of the ten digits.
pub open spec fn is_digit(c: char) -> bool {
    '0' <= c && c <= '9'
}

/// Every character of `s` from `from` up to, not including, `to` is a digit.
pub open spec fn digits(s: Seq<char>, from: int, to: int) -> bool {
    forall|i: int| from <= i < to ==> is_digit(#[trigger] s[i])
}

/// `s` is laid out as a timestamp: four digits, `-`, two, `-`, two, `T`, two,
/// `:`, two, `:`, two, an optional `.` with three, six or nine digits, a sign,
/// two digits, `:`, two digits. Nothing is said of the numbers.
pub open spec fn stamp_shaped(s: Seq<char>) -> bool {
    let n = s.len() as int;
    &&& (n == 25 || n == 29 || n == 32 || n == 35)
    &&& digits(s, 0, 4)
    &&& s[4] == '-'
    &&& digits(s, 5, 7)
    &&& s[7] == '-'
    &&& digits(s, 8, 10)
    &&& s[10] == 'T'
    &&& digits(s, 11, 13)
    &&& s[13] == ':'
    &&& digits(s, 14, 16)
    &&& s[16] == ':'
    &&& digits(s, 17, 19)
    &&& (n > 25 ==> s[19] == '.' && digits(s, 20, n - 6))
    &&& (s[n - 6] == '+' || s[n - 6] == '-')
    &&& digits(s, n - 5, n - 3)
    &&& s[n - 3] == ':'
    &&& digits(s, n - 2, n)
}

/// The number that the digit `c` stands for.
pub open spec fn digit_value(c: char) -> int {
    c as int - '0' as int
}

/// The number that the two digits of `s` at `at` stand for.
pub open spec fn two(s: Seq<char>, at: int) -> int {
    10 * digit_value(s[at]) + digit_value(s[at + 1])
}

/// The number that the four digits of `s` at `at` stand for.
pub open spec fn four(s: Seq<char>, at: int) -> int {
    100 * two(s, at) + two(s, at + 2)
}

/// `year` has a 29th of February in the Gregorian calendar.
pub open spec fn is_leap(year: int) -> bool {
    year % 4 == 0 && (year % 100 != 0 || year % 400 == 0)
}

/// The number of days of the month `month` in `year`.
pub open spec fn days_in(year: int, month: int) -> int {
    if month == 2 {
        if is_leap(year) {
            29
        } else {
            28
        }
    } else if month == 4 || month == 6 || month == 9 || month == 11 {
        30
    } else {
        31
    }
}

/// `s` is a timestamp: it is laid out as one, its date is a day of the
/// Gregorian calendar, its time lies within the day (the second may be 60, a
/// leap second), and its offset is less than a day.
pub open spec fn stamp_valid(s: Seq<char>) -> bool {
    let n = s.len() as int;
    &&& stamp_shaped(s)
    &&& 1 <= two(s, 5) <= 12
    &&& 1 <= two(s, 8) <= days_in(four(s, 0), two(s, 5))
    &&& two(s, 11) <= 23
    &&& two(s, 14) <= 59
    &&& two(s, 17) <= 60
    &&& two(s, n - 5) <= 23
    &&& two(s, n - 2) <= 59
}

/// Words of the write error for a clock that gives no time that can be encoded.
pub open spec fn clock_detail() -> Seq<char> {
    "the clock gives no time that can be written as a timestamp"@
}

/// Tests that every character of `s` from `from` up to `to` is a digit.
fn all_digits(s: &str, from: usize, to: usize) -> (b: bool)
    requires
        from <= to <= s@.len(),
    ensures
        b == digits(s@, from as int, to as int),
{
    let mut i: usize = from;
    while i < to
        invariant
            from <= i <= to <= s@.len(),
            digits(s@, from as int, i as int),
        decreases to - i,
    {
        let c = s.get_char(i);
        if !('0' <= c && c <= '9') {
            return false;
        }
        i = i + 1;
    }
    true
}

/// Tests the character of `s` at `at`.
fn char_is(s: &str, at: usize, c: char) -> (b: bool)
    requires
        at < s@.len(),
    ensures
        b == (s@[at as int] == c),
{
    s.get_char(at) == c
}

/// Reads the number that the two digits of `s` at `at` stand for.
fn read_two(s: &str, at: usize) -> (n: u32)
    requires
        at + 1 < s@.len() <= usize::MAX,
        digits(s@, at as int, at + 2),
    ensures
        n == two(s@, at as int),
        n <= 99,
{
    let tens = s.get_char(at);
    let ones = s.get_char(at + 1);
    assert(is_digit(s@[at as int]) && is_digit(s@[at + 1]));
    10 * (tens as u32 - '0' as u32) + (ones as u32 - '0' as u32)
}

/// Decides whether `year` has a 29th of February.
fn leap(year: u32) -> (b: bool)
    ensures
        b == is_leap(year as int),
{
    year % 4 == 0 && (year % 100 != 0 || year % 400 == 0)
}

/// The number of days of the month `month` in `year`.
fn days_of(year: u32, month: u32) -> (days: u32)
    ensures
        days == days_in(year as int, month as int),
{
    if month == 2 {
        if leap(year) {
            29
        } else {
            28
        }
    } else if month == 4 || month == 6 || month == 9 || month == 11 {
        30
    } else {
        31
    }
}

/// Decides whether `s` is laid out as a timestamp.
fn is_stamp_shaped(s: &str) -> (b: bool)
    ensures
        b == stamp_shaped(s@),
{
    let n = s.unicode_len();
    if !(n == 25 || n == 29 || n == 32 || n == 35) {
        return false;
    }
    let date = all_digits(s, 0, 4) && char_is(s, 4, '-') && all_digits(s, 5, 7)
        && char_is(s, 7, '-') && all_digits(s, 8, 10) && char_is(s, 10, 'T');
    let time = all_digits(s, 11, 13) && char_is(s, 13, ':') && all_digits(s, 14, 16)
        && char_is(s, 16, ':') && all_digits(s, 17, 19);
    let fraction = n == 25 || (char_is(s, 19, '.') && all_digits(s, 20, n - 6));
    let offset = (char_is(s, n - 6, '+') || char_is(s, n - 6, '-'))
        && all_digits(s, n - 5, n - 3) && char_is(s, n - 3, ':') && all_digits(s, n - 2, n);
    date && time && fraction && offset
}

/// Decides whether `s` is a timestamp.
pub fn is_stamp_valid(s: &str) -> (b: bool)
    ensures
        b == stamp_valid(s@),
{
    if !is_stamp_shaped(s) {
        return false;
    }
    let n = s.unicode_len();
    let year = 100 * read_two(s, 0) + read_two(s, 2);
    let month = read_two(s, 5);
    let day = read_two(s, 8);
    1 <= month && month <= 12 && 1 <= day && day <= days_of(year, month)
        && read_two(s, 11) <= 23 && read_two(s, 14) <= 59 && read_two(s, 17) <= 60
        && read_two(s, n - 5) <= 23 && read_two(s, n - 2) <= 59
}

/// A creation time in the one encoding of the store.
#[derive(Debug)]
pub struct Timestamp {
    text: String,
}

impl View for Timestamp {
    type V = Seq<char>;

    closed spec fn view(&self) -> Seq<char> {
        self.text@
    }
}

impl Timestamp {
    #[verifier::type_invariant]
    spec fn valid(&self) -> bool {
        stamp_valid(self.text@)
    }

    /// Takes `text` as a timestamp if and only if it is one.
    pub fn parse(text: &str) -> (stamp: Option<Timestamp>)
        ensures
            stamp is Some <==> stamp_valid(text@),
            stamp matches Some(t) ==> t@ == text@,
    {
        if is_stamp_valid(text) {
            Some(Timestamp { text: String::from_str(text) })
        } else {
            None
        }
    }

    /// The timestamp as a string, which is one.
    pub fn as_str(&self) -> (text: &str)
        ensures
            text@ == self@,
            stamp_valid(text@),
    {
        proof {
            use_type_invariant(self);
        }
        self.text.as_str()
    }

    /// The timestamp of the moment that `reading` tells, written in UTC: the
    /// seconds and nanoseconds since the start of 1970, if the clock gave any.
    /// There is one if and only if the reading is usable, as
    /// [`usable_reading`] decides: of a moment from 1970 to the end of the year
    /// 9999. Otherwise a write error with the words of [`clock_detail`].
    pub fn of_reading(reading: Option<(u64, u32)>) -> (outcome: Result<Timestamp, StorageError>)
        ensures
            outcome is Ok <==> is_usable(reading),
            outcome matches Ok(t) ==> t@ == utc_rfc3339(
                reading->Some_0.0 as int,
                reading->Some_0.1 as int,
            ) && stamp_valid(t@),
            outcome matches Err(e) ==> e.kind == Fault::Write && e.detail@ == clock_detail(),
    {
        let written = match usable_reading(reading) {
            Some((secs, nanos)) => written_in_utc(secs, nanos),
            None => None,
        };
        checked_stamp(written)
    }

    /// Reads the clock and writes the moment in UTC, as
    /// [`Timestamp::of_reading`] does with what the clock gave. A write error
    /// with the words of [`clock_detail`] where the clock stands before 1970 or
    /// beyond the year 9999.
    pub fn now() -> (outcome: Result<Timestamp, StorageError>)
        ensures
            outcome matches Ok(t) ==> stamp_valid(t@) && exists|secs: int, nanos: int|
                0 <= secs < STAMP_SECONDS_END && 0 <= nanos < NANOS_END
                    && t@ == #[trigger] utc_rfc3339(secs, nanos),
            outcome matches Err(e) ==> e.kind == Fault::Write && e.detail@ == clock_detail(),
    {
        let time = std::time::SystemTime::now();
        let reading = match since_epoch(&time) {
            Some(span) => Some((span.as_secs(), span.subsec_nanos())),
            None => None,
        };
        Timestamp::of_reading(reading)
    }
}

/// The clock gave a reading, of a moment before [`STAMP_SECONDS_END`] and with
/// fewer nanoseconds than [`NANOS_END`].
pub open spec fn is_usable(reading: Option<(u64, u32)>) -> bool {
    reading matches Some(r) && r.0 < STAMP_SECONDS_END && r.1 < NANOS_END
}

/// What a reading of the clock is good for: the seconds and nanoseconds since
/// 1970 as they are, if and only if the reading is usable.
pub fn usable_reading(reading: Option<(u64, u32)>) -> (usable: Option<(i64, u32)>)
    ensures
        usable is Some <==> is_usable(reading),
        usable matches Some(u) ==> (reading matches Some(r) && u.0 == r.0 && u.1 == r.1),
{
    match reading {
        Some((secs, nanos)) => {
            if secs < STAMP_SECONDS_END && nanos < NANOS_END {
                Some((secs as i64, nanos))
            } else {
                None
            }
        },
        None => None,
    }
}

/// What a written time is good for: a timestamp with the same characters, if
/// and only if there is one and it is a timestamp; a write error with the
/// words of [`clock_detail`] otherwise.
pub fn checked_stamp(written: Option<String>) -> (outcome: Result<Timestamp, StorageError>)
    ensures
        outcome is Ok <==> (written matches Some(s) && stamp_valid(s@)),
        outcome matches Ok(t) ==> t@ == written->Some_0@,
        outcome matches Err(e) ==> e.kind == Fault::Write && e.detail@ == clock_detail(),
{
    let parsed = match written {
        Some(s) => Timestamp::parse(s.as_str()),
        None => None,
    };
    match parsed {
        Some(stamp) => Ok(stamp),
        None => Err(
            StorageError::new(
                Fault::Write,
                String::from_str("the clock gives no time that can be written as a timestamp"),
            ),
        ),
    }
}

} // verus!
