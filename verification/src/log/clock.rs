//! The time of a line: an instant as plain numbers, the clock that gives it,
//! and the text that a pattern makes of it.

use vstd::prelude::*;

verus! {

/// An instant with the offset of the local time at it.
#[derive(Clone, Copy, Debug, PartialEq, Eq, Structural)]
pub struct Timestamp {
    /// Seconds since 1970-01-01 00:00:00 UTC, leap seconds not counted.
    pub secs: i64,
    /// Nanoseconds since the last full second.
    pub nanos: u32,
    /// Seconds by which local time is ahead of UTC.
    pub offset: i32,
}

/// The text that chrono's formatter makes of an instant under a pattern, and
/// `None` where it makes none: where the pattern holds something that the
/// formatter does not know, or chrono cannot hold the instant or the offset.
pub uninterp spec fn strftime_text(
    secs: i64,
    nanos: u32,
    offset: i32,
    pattern: Seq<char>,
) -> Option<Seq<char>>;

/// A string that may be missing, as plain values.
pub open spec fn text_of(text: Option<String>) -> Option<Seq<char>> {
    match text {
        Some(t) => Some(t@),
        None => None,
    }
}

/// The first second that chrono holds: the start of the year -262143.
pub const FIRST_SECOND: i64 = -8_334_601_228_800;

/// The last second that chrono holds: the end of the year 262142.
pub const LAST_SECOND: i64 = 8_210_266_876_799;

impl Timestamp {
    /// Can the clock show this instant? What it shows is a second that chrono
    /// holds, less than a second of nanoseconds, and an offset of less than a
    /// day to either side.
    pub open spec fn from_clock(self) -> bool {
        &&& FIRST_SECOND <= self.secs <= LAST_SECOND
        &&& self.nanos < 1_000_000_000
        &&& -86_400 < self.offset < 86_400
    }

    /// The text of this instant under `pattern`.
    pub open spec fn text(self, pattern: Seq<char>) -> Option<Seq<char>> {
        strftime_text(self.secs, self.nanos, self.offset, pattern)
    }
}

/// `chrono::Local::now`, taken apart into numbers. It reads the system clock
/// and the time zone of the process, so the instant itself is not known. What
/// is claimed holds of every instant that it gives: the seconds went through
/// `DateTime::from_timestamp`, which takes none but those that chrono holds;
/// the nanoseconds are the part of a second of the system time; the offset is
/// a `FixedOffset`, which is less than a day.
///
/// chrono panics in two places, both for the state of the machine: where the
/// system clock stands before 1970, and where no local time can be found in
/// the data of the time zone.
#[verifier::external_body]
pub(crate) fn local_now() -> (r: Timestamp)
    ensures
        r.from_clock(),
{
    let now = chrono::Local::now();
    Timestamp {
        secs: now.timestamp(),
        nanos: now.timestamp_subsec_nanos(),
        offset: now.offset().local_minus_utc(),
    }
}

/// `chrono::DateTime::format`, written out with `DelayedFormat::write_to`, on
/// the instant that `DateTime::from_timestamp` and `FixedOffset::east_opt` make
/// of the numbers. The text depends on the numbers and the pattern alone, so it
/// has a name; it is `None` where one of the three refuses.
#[verifier::external_body]
pub(crate) fn strftime(at: &Timestamp, pattern: &str) -> (r: Option<String>)
    ensures
        text_of(r) == strftime_text(at.secs, at.nanos, at.offset, pattern@),
{
    let utc = chrono::DateTime::from_timestamp(at.secs, at.nanos)?;
    let zone = chrono::FixedOffset::east_opt(at.offset)?;
    let mut text = String::new();
    utc.with_timezone(&zone).format(pattern).write_to(&mut text).ok()?;
    Some(text)
}

} // verus!
