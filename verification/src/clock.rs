//! Time arithmetic done with `chrono` and `chrono-tz`.
//!
//! Instants are `i64` nanoseconds since the Unix epoch (UTC) throughout the
//! library, the representation the trading clock hands out.

use vstd::prelude::*;
use chrono::{Datelike, TimeZone, Timelike};

verus! {

/// Nanoseconds per minute.
pub const NANOS_PER_MINUTE: i64 = 60_000_000_000;

/// Integer division rounding toward zero, as Rust's `/` on integers does.
pub open spec fn trunc_div(a: int, b: int) -> int {
    if a >= 0 {
        a / b
    } else {
        -((-a) / b)
    }
}

/// Whole minutes from `now_ns` to `expiry_ns`, rounded toward zero
/// (negative once `expiry_ns` has passed).
pub open spec fn minutes_between(expiry_ns: i64, now_ns: i64) -> int {
    trunc_div(expiry_ns - now_ns, NANOS_PER_MINUTE as int)
}

/// `expiry.signed_duration_since(now).num_minutes()` on the two UTC instants.
///
/// In chrono 0.4 a `TimeDelta` is normalised to whole seconds plus a
/// non-negative nanosecond part; `num_seconds` rounds toward zero and
/// `num_minutes` divides that by 60 with Rust's `/`.  The result is the
/// difference in whole minutes, rounded toward zero, which is what the
/// contract states.
#[verifier::external_body]
pub(crate) fn minutes_until(expiry_ns: i64, now_ns: i64) -> (m: i64)
    ensures
        m == minutes_between(expiry_ns, now_ns),
{
    let expiry = chrono::DateTime::<chrono::Utc>::from_timestamp_nanos(expiry_ns);
    let now = chrono::DateTime::<chrono::Utc>::from_timestamp_nanos(now_ns);
    expiry.signed_duration_since(now).num_minutes()
}

/// Offset of India Standard Time from UTC, in seconds (+05:30).
pub const IST_OFFSET_SECS: i64 = 19_800;

/// Largest second count accepted by the IST clock (well inside chrono's
/// range; every `u64` nanosecond count divided by 10^9 is below it).
pub const IST_MAX_SECS: i64 = 20_000_000_000;

/// Wall-clock reading in India Standard Time.
#[derive(Debug, Clone, Copy, PartialEq, Eq)]
pub struct IstClock {
    pub year: i32,
    pub month: u32,
    pub day: u32,
    pub hour: u32,
    pub minute: u32,
}

/// Proleptic Gregorian (year, month, day) of the day `days` after 1970-01-01.
pub open spec fn civil_from_days(days: int) -> (int, int, int) {
    let z = days + 719_468;
    let era = z / 146_097;
    let doe = z - era * 146_097;
    let yoe = (doe - doe / 1_460 + doe / 36_524 - doe / 146_096) / 365;
    let doy = doe - (365 * yoe + yoe / 4 - yoe / 100);
    let mp = (5 * doy + 2) / 153;
    let d = doy - (153 * mp + 2) / 5 + 1;
    let m = if mp < 10 { mp + 3 } else { mp - 9 };
    let y = yoe + era * 400 + if m <= 2 { 1int } else { 0int };
    (y, m, d)
}

/// The IST wall clock at `secs` seconds after the epoch, for instants in the
/// fixed +05:30 era of the zone.
pub open spec fn ist_clock_of(secs: int) -> IstClock {
    let local = secs + IST_OFFSET_SECS;
    let day = local / 86_400;
    let sod = local % 86_400;
    let ymd = civil_from_days(day);
    IstClock {
        year: ymd.0 as i32,
        month: ymd.1 as u32,
        day: ymd.2 as u32,
        hour: (sod / 3_600) as u32,
        minute: ((sod % 3_600) / 60) as u32,
    }
}

/// `Utc.timestamp_opt(secs, 0).single()` moved to `chrono_tz::Asia::Kolkata`,
/// read as year, month, day, hour and minute.
///
/// In the accepted range `timestamp_opt` always has a single result, and the
/// zone table that chrono-tz builds from the tz database gives Asia/Kolkata
/// the offset +05:30 from 1945-10-14 17:30 UTC on, so the reading is the
/// Gregorian date and time of `secs + 19800`.
#[verifier::external_body]
pub(crate) fn ist_clock(secs: i64) -> (c: Option<IstClock>)
    requires
        0 <= secs <= IST_MAX_SECS,
    ensures
        c == Some(ist_clock_of(secs as int)),
{
    let utc = chrono::Utc.timestamp_opt(secs, 0).single()?;
    let ist = utc.with_timezone(&chrono_tz::Asia::Kolkata);
    Some(IstClock { year: ist.year(), month: ist.month(), day: ist.day(), hour: ist.hour(), minute: ist.minute() })
}

/// Name for what `DateTime::parse_from_rfc3339` followed by
/// `timestamp_nanos_opt` makes of a text: the UTC instant in nanoseconds, or
/// `None` when the text is not RFC 3339 or the instant leaves the `i64`
/// nanosecond range.
pub uninterp spec fn rfc3339_instant_ns(text: Seq<char>) -> Option<i64>;

/// Parses an RFC 3339 timestamp into UTC nanoseconds.  Nothing more than
/// the name is stated of the grammar it accepts.
#[verifier::external_body]
pub(crate) fn parse_rfc3339_ns(text: &str) -> (r: Option<i64>)
    ensures
        r == rfc3339_instant_ns(text@),
{
    let dt = chrono::DateTime::parse_from_rfc3339(text).ok()?;
    dt.with_timezone(&chrono::Utc).timestamp_nanos_opt()
}

} // verus!
