//! Time: the clock, and how a moment is written down.
//!
//! A moment is a count of seconds since the Unix epoch. Reading the clock
//! and printing a moment are left to `chrono`; what it returns is not proved
//! here.

use vstd::prelude::*;

verus! {

/// Seconds by which the service's wall clock runs ahead of UTC.
pub const CLOCK_OFFSET: i64 = 7_200;

/// What `chrono` prints for the moment `seconds` after the Unix epoch, in
/// UTC and under a `strftime` pattern; nothing for a moment that `chrono`
/// cannot represent.
pub uninterp spec fn utc_text(seconds: int, pattern: Seq<char>) -> Option<Seq<char>>;

/// The patterns under which the library prints a moment.
pub open spec fn is_stamp_pattern(pattern: Seq<char>) -> bool {
    pattern == "%Y-%m-%d"@ || pattern == "%H:%M:%S"@
}

/// The date of a moment as `YYYY-MM-DD`; empty for a moment that cannot be
/// represented.
pub open spec fn date_text(seconds: int) -> Seq<char> {
    match utc_text(seconds, "%Y-%m-%d"@) {
        Some(text) => text,
        None => Seq::empty(),
    }
}

/// The time of day of a moment as `HH:MM:SS`; empty for a moment that
/// cannot be represented.
pub open spec fn time_text(seconds: int) -> Seq<char> {
    match utc_text(seconds, "%H:%M:%S"@) {
        Some(text) => text,
        None => Seq::empty(),
    }
}

/// A clock reading moved ahead by `CLOCK_OFFSET`, as far as `i64` reaches.
pub open spec fn shifted(seconds: int) -> int {
    if seconds <= i64::MAX - CLOCK_OFFSET {
        seconds + CLOCK_OFFSET
    } else {
        i64::MAX as int
    }
}

/// Calls `chrono::Utc::now` and takes its `timestamp`: the seconds since
/// the Unix epoch on the system clock. Nothing is claimed of the result.
/// `chrono` gives up where the system clock stands before 1970.
#[verifier::external_body]
pub(crate) fn unix_now() -> (seconds: i64) {
    chrono::Utc::now().timestamp()
}

/// Calls `chrono::DateTime::from_timestamp` and prints the moment with
/// `format`. It returns the printed moment, and nothing where the seconds
/// are out of `chrono`'s range. The pattern must be one that `format`
/// accepts, which the two patterns of the library are.
#[verifier::external_body]
pub(crate) fn format_utc(seconds: i64, pattern: &str) -> (text: Option<String>)
    requires
        is_stamp_pattern(pattern@),
    ensures
        match text {
            Some(printed) => utc_text(seconds as int, pattern@) == Some(printed@),
            None => utc_text(seconds as int, pattern@) is None,
        },
{
    match chrono::DateTime::from_timestamp(seconds, 0) {
        Some(moment) => Some(moment.format(pattern).to_string()),
        None => None,
    }
}

/// Moves a clock reading ahead by `CLOCK_OFFSET`.
pub fn shift_clock(seconds: i64) -> (moved: i64)
    ensures
        moved == shifted(seconds as int),
{
    if seconds <= i64::MAX - CLOCK_OFFSET {
        seconds + CLOCK_OFFSET
    } else {
        i64::MAX
    }
}

/// The service's wall clock: the system clock moved ahead by
/// `CLOCK_OFFSET`.
pub fn adjusted_now() -> (seconds: i64)
    ensures
        exists|reading: i64| seconds == shifted(reading as int),
{
    let reading = unix_now();
    let moved = shift_clock(reading);
    moved
}

/// Writes the date of a moment as `YYYY-MM-DD`.
pub fn date_of(seconds: i64) -> (text: String)
    ensures
        text@ == date_text(seconds as int),
{
    match format_utc(seconds, "%Y-%m-%d") {
        Some(printed) => printed,
        None => String::new(),
    }
}

/// Writes the time of day of a moment as `HH:MM:SS`.
pub fn time_of(seconds: i64) -> (text: String)
    ensures
        text@ == time_text(seconds as int),
{
    match format_utc(seconds, "%H:%M:%S") {
        Some(printed) => printed,
        None => String::new(),
    }
}

} // verus!
