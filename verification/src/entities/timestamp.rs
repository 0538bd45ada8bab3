use chrono::TimeZone;
use vstd::pervasive::unreached;
use vstd::prelude::*;

verus! {

/// An instant of UTC, held as chrono counts it: the whole seconds since
/// 1970-01-01T00:00:00Z, leap seconds not counted, and the nanoseconds into
/// that second.
#[derive(Debug, Clone, Copy, PartialEq, Eq, Structural)]
pub struct Timestamp {
    pub secs: i64,
    pub nanos: u32,
}

/// The instant that chrono's `Utc.with_ymd_and_hms` makes of a date of the
/// proleptic Gregorian calendar and a time of day; `None` where chrono makes
/// none of them.
pub uninterp spec fn utc_instant(
    year: int,
    month: int,
    day: int,
    hour: int,
    min: int,
    sec: int,
) -> Option<Timestamp>;

/// Calls `chrono::TimeZone::with_ymd_and_hms` on `chrono::Utc` and reads the
/// instant with `DateTime::timestamp` and `DateTime::timestamp_subsec_nanos`.
///
/// Trusted: that the result depends on the six numbers alone, and that
/// midnight of 1 January 1970 is second 0, which is how chrono defines
/// `timestamp`.
#[verifier::external_body]
fn utc_with_ymd_and_hms(year: i32, month: u32, day: u32, hour: u32, min: u32, sec: u32) -> (r:
    Option<Timestamp>)
    ensures
        r == utc_instant(year as int, month as int, day as int, hour as int, min as int, sec as int),
        year == 1970 && month == 1 && day == 1 && hour == 0 && min == 0 && sec == 0 ==> r == Some(
            Timestamp::unix_epoch(),
        ),
{
    match chrono::Utc.with_ymd_and_hms(year, month, day, hour, min, sec) {
        chrono::LocalResult::Single(t) => Some(
            Timestamp { secs: t.timestamp(), nanos: t.timestamp_subsec_nanos() },
        ),
        chrono::LocalResult::Ambiguous(_, _) => None,
        chrono::LocalResult::None => None,
    }
}

impl Timestamp {
    /// What holds of every reading of the system clock: it falls within a
    /// second of its own.
    ///
    /// chrono writes an instant within a leap second as the second before it,
    /// with a billion nanoseconds or more; the clock gives no such instant.
    pub open spec fn is_clock_reading(self) -> bool {
        self.nanos < 1_000_000_000
    }
}

impl Timestamp {
    /// 1970-01-01T00:00:00Z, the instant from which seconds are counted.
    pub open spec fn unix_epoch() -> Timestamp {
        Timestamp { secs: 0, nanos: 0 }
    }

    /// 1970-01-01T00:00:00Z, as chrono makes it from the date and the time.
    pub fn epoch() -> (t: Timestamp)
        ensures
            t == Timestamp::unix_epoch(),
    {
        match utc_with_ymd_and_hms(1970, 1, 1, 0, 0, 0) {
            Some(t) => t,
            None => unreached(),
        }
    }

    /// The current instant by the system clock.
    pub fn now() -> (t: Timestamp)
        ensures
            t.is_clock_reading(),
    {
        utc_now()
    }
}

/// Calls `chrono::Utc::now` and reads the instant with `DateTime::timestamp`
/// and `DateTime::timestamp_subsec_nanos`.
///
/// Trusted: that the nanoseconds are below one second. chrono takes them
/// from `Duration::subsec_nanos` of the time since 1970, which std keeps
/// below one billion, and hands them back as it took them. Of the seconds
/// nothing is claimed: they are whatever the system clock says. chrono
/// panics where the clock stands before 1970.
#[verifier::external_body]
fn utc_now() -> (t: Timestamp)
    ensures
        t.is_clock_reading(),
{
    let now = chrono::Utc::now();
    Timestamp { secs: now.timestamp(), nanos: now.timestamp_subsec_nanos() }
}

} // verus!
