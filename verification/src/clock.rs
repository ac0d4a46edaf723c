//! Wall clock and Eastern-Time calendar, through chrono and chrono-tz.
//!
//! Market periods are aligned to the exchange's calendar (America/New_York).
//! The conversions between Unix timestamps and Eastern-Time civil fields are
//! pure functions of their arguments — the time zone database is fixed with
//! the crate version — so their results carry names that the verified period
//! arithmetic builds on.  Only [`now_timestamp`] reads the clock.
use chrono::{Datelike, TimeZone, Timelike};
use vstd::prelude::*;

use crate::MAX_TS;

verus! {

/// Eastern-Time civil fields (year, month, day, hour, minute) of a UTC
/// instant given as Unix seconds.
pub uninterp spec fn et_civil_of(ts: int) -> (int, int, int, int, int);

/// The UTC instant, as Unix seconds, of an Eastern-Time civil date-time
/// (year, month, day, hour, minute), where that civil time names exactly one
/// instant; `None` where it names none or two.
pub uninterp spec fn et_instant_of(y: int, mo: int, d: int, h: int, mi: int) -> Option<int>;

/// Current Unix timestamp, in seconds.
///
/// Relies on chrono::Utc::now and DateTime::timestamp.  The result depends
/// on the wall clock, so nothing is promised of it; every decision function
/// takes the timestamp as an argument.
#[verifier::external_body]
pub fn now_timestamp() -> i64 {
    chrono::Utc::now().timestamp()
}

/// Eastern-Time civil fields of a UTC instant.
///
/// Relies on chrono_tz::America::New_York with chrono's
/// TimeZone::timestamp_opt, Datelike and Timelike: an in-range UTC instant
/// maps to exactly one New York local time, whose month is 1..=12, day
/// 1..=31, hour below 24 and minute below 60, as the chrono documentation
/// states of those accessors.
#[verifier::external_body]
pub fn et_civil(ts: i64) -> (r: (i32, u32, u32, u32, u32))
    requires
        0 <= ts <= MAX_TS,
    ensures
        (r.0 as int, r.1 as int, r.2 as int, r.3 as int, r.4 as int) == et_civil_of(ts as int),
        1 <= r.1 <= 12,
        1 <= r.2 <= 31,
        r.3 < 24,
        r.4 < 60,
{
    let dt = chrono_tz::America::New_York.timestamp_opt(ts, 0).single().unwrap();
    (dt.year(), dt.month(), dt.day(), dt.hour(), dt.minute())
}

/// The UTC instant of an Eastern-Time civil date-time, where it names
/// exactly one instant.
///
/// Relies on chrono's TimeZone::with_ymd_and_hms on
/// chrono_tz::America::New_York, with MappedLocalTime::single and
/// DateTime::timestamp: the call returns the instant of the given local
/// date-time, and returns nothing for an invalid date or a local time that
/// is skipped or repeated around a daylight-saving transition.
#[verifier::external_body]
pub fn et_instant(y: i32, mo: u32, d: u32, h: u32, mi: u32) -> (r: Option<i64>)
    ensures
        match r {
            Some(t) => et_instant_of(y as int, mo as int, d as int, h as int, mi as int) == Some(
                t as int,
            ),
            None => et_instant_of(y as int, mo as int, d as int, h as int, mi as int) is None,
        },
{
    chrono_tz::America::New_York.with_ymd_and_hms(y, mo, d, h, mi, 0).single().map(|dt|
        dt.timestamp())
}

} // verus!
