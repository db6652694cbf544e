//! Calendar arithmetic on days and seconds counted from the Unix epoch, and
//! the time-zone lookups that the conversions need.
//!
//! A date is the number of days since 1970-01-01; an instant is the number of
//! seconds since 1970-01-01T00:00:00 UTC.  Dates that the calendar library
//! can represent run from `MIN_DAY` (the first day of year -262143) to
//! `MAX_DAY` (the last day of year 262142).

use chrono::Offset;
use vstd::prelude::*;

verus! {

/// Seconds in a day.
pub const SECONDS_PER_DAY: i64 = 86400;

/// The first representable date, in days since the epoch.
pub const MIN_DAY: i64 = -96465293;

/// The last representable date, in days since the epoch.
pub const MAX_DAY: i64 = 95026236;

/// The date (days since the epoch) on which instant `t` falls.
pub open spec fn day_of(t: int) -> int {
    t / 86400
}

/// The second of its day at which instant `t` falls.
pub open spec fn second_of_day(t: int) -> int {
    t % 86400
}

/// The day of the week of a date, counted from Monday (0) to Sunday (6);
/// the epoch, 1970-01-01, was a Thursday.
pub open spec fn weekday_of(day: int) -> int {
    (day + 3) % 7
}

/// The Monday of the week in which `day` falls.
pub open spec fn monday_of(day: int) -> int {
    day - weekday_of(day)
}

/// Whether a date can be represented.
pub open spec fn date_in_range(day: int) -> bool {
    MIN_DAY <= day <= MAX_DAY
}

/// Whether an instant falls on a representable date.
pub open spec fn instant_in_range(t: int) -> bool {
    date_in_range(day_of(t))
}

/// The instant at second `secs` of date `day`.
pub open spec fn instant_at(day: int, secs: int) -> int {
    day * 86400 + secs
}

/// A time of day: whole seconds since midnight and the nanoseconds of the
/// second; a leap second is written as nanoseconds from 1_000_000_000 on.
#[derive(Clone, Copy, Debug, PartialEq, Eq, Structural)]
pub struct TimeOfDay {
    pub secs: u32,
    pub nanos: u32,
}

impl TimeOfDay {
    /// Whether the value names a time of day.
    pub open spec fn wf(self) -> bool {
        &&& self.secs < 86400
        &&& self.nanos < 2_000_000_000
    }

    /// Builds a time of day, or `None` where the parts name none.
    pub fn new(secs: u32, nanos: u32) -> (r: Option<TimeOfDay>)
        ensures
            (r is Some) <==> (TimeOfDay { secs, nanos }).wf(),
            r matches Some(t) ==> t.secs == secs && t.nanos == nanos,
    {
        if secs < 86400 && nanos < 2_000_000_000 {
            Some(TimeOfDay { secs, nanos })
        } else {
            None
        }
    }
}

/// Whether `name` is a time zone of the IANA database that `chrono_tz` knows.
pub uninterp spec fn tz_known(name: Seq<char>) -> bool;

/// The offset from UTC, in seconds, that zone `name` has at UTC instant `utc`.
pub uninterp spec fn tz_utc_offset(name: Seq<char>, utc: i64) -> i32;

/// The offset from UTC that zone `name` gives the local wall-clock instant
/// `local`, where that wall-clock time occurs exactly once in the zone.
pub uninterp spec fn tz_local_offset(name: Seq<char>, local: i64) -> Option<i32>;

/// Whether `name` parses as a `chrono_tz::Tz`.  The parse looks the name up
/// in the zone table; the claim is only that the answer is `tz_known`.
#[verifier::external_body]
pub(crate) fn is_known_zone(name: &str) -> (b: bool)
    ensures
        b == tz_known(name@),
{
    name.parse::<chrono_tz::Tz>().is_ok()
}

/// The offset of zone `name` at the UTC instant `utc_secs`, computed by
/// `DateTime::with_timezone` of `chrono` on a `chrono_tz::Tz`.  The claims:
/// the result exists exactly when the zone is known and the instant lies in
/// `chrono`'s range, and it is less than a day in size (`FixedOffset`
/// accepts no more).
#[verifier::external_body]
pub(crate) fn utc_offset(name: &str, utc_secs: i64) -> (r: Option<i32>)
    ensures
        r.is_some() == (tz_known(name@) && instant_in_range(utc_secs as int)),
        r matches Some(o) ==> (o == tz_utc_offset(name@, utc_secs) && -86400 < o && o < 86400),
{
    let tz: chrono_tz::Tz = name.parse().ok()?;
    let utc = chrono::DateTime::from_timestamp(utc_secs, 0)?;
    Some(utc.with_timezone(&tz).offset().fix().local_minus_utc())
}

/// The offset of zone `name` for the wall-clock instant `local_secs`, found
/// by `NaiveDateTime::and_local_timezone` of `chrono` on a `chrono_tz::Tz`;
/// `None` unless that gives a single answer.  Besides the name, the claims
/// are these: a zone that is unknown, or an instant out of range, gives
/// `None`; an offset is less than a day in size, the UTC instant it gives
/// is in range, and the zone has that same offset at that UTC instant
/// (`chrono_tz` picks the offset of the span whose local range holds the
/// wall-clock time, and that span's UTC range holds the UTC instant).
#[verifier::external_body]
pub(crate) fn local_offset(name: &str, local_secs: i64) -> (r: Option<i32>)
    ensures
        tz_known(name@) && instant_in_range(local_secs as int) ==> r == tz_local_offset(
            name@,
            local_secs,
        ),
        !(tz_known(name@) && instant_in_range(local_secs as int)) ==> (r is None),
        r matches Some(o) ==> {
            &&& -86400 < o < 86400
            &&& instant_in_range(local_secs - o)
            &&& tz_utc_offset(name@, (local_secs - o) as i64) == o
        },
{
    let tz: chrono_tz::Tz = name.parse().ok()?;
    let local = chrono::DateTime::from_timestamp(local_secs, 0)?.naive_utc();
    match local.and_local_timezone(tz) {
        chrono::LocalResult::Single(dt) => Some(dt.offset().fix().local_minus_utc()),
        _ => None,
    }
}

#[verifier::external_type_specification]
#[verifier::external_body]
pub struct ExSystemTime(std::time::SystemTime);

/// What the system clock reads, from `std::time::SystemTime::now`; nothing
/// is claimed of it: it is the time.
#[verifier::external_body]
fn system_now() -> (t: std::time::SystemTime) {
    std::time::SystemTime::now()
}

/// How long after the Unix epoch `t` lies, from
/// `SystemTime::duration_since(UNIX_EPOCH)`; `None` where `t` lies before
/// it.  The claim is only that; `Duration` is opaque here.
#[verifier::external_body]
fn since_epoch(t: &std::time::SystemTime) -> (d: Option<std::time::Duration>) {
    t.duration_since(std::time::UNIX_EPOCH).ok()
}

/// The whole seconds of a duration, from `Duration::as_secs`; as the
/// duration is opaque here, nothing more is claimed.
#[verifier::external_body]
fn whole_seconds(d: &std::time::Duration) -> (s: u64) {
    d.as_secs()
}

/// The seconds since the epoch that the system clock reads; `None` where
/// the clock reads before 1970 or more than `i64::MAX` seconds after.
pub fn now_timestamp() -> (t: Option<i64>)
    ensures
        t matches Some(s) ==> s >= 0,
{
    let now = system_now();
    match since_epoch(&now) {
        None => None,
        Some(elapsed) => {
            let secs = whole_seconds(&elapsed);
            if secs <= 9223372036854775807 {
                Some(secs as i64)
            } else {
                None
            }
        },
    }
}

/// The date on which instant `t` falls.
pub fn day_of_instant(t: i64) -> (d: i64)
    ensures
        d == day_of(t as int),
{
    match t.checked_div_euclid(86400) {
        Some(d) => d,
        None => 0,
    }
}

/// The second of its day at which instant `t` falls.
pub fn second_of_instant(t: i64) -> (s: u32)
    ensures
        s == second_of_day(t as int),
{
    match t.checked_rem_euclid(86400) {
        Some(s) => s as u32,
        None => 0,
    }
}

/// The day of the week of a date, Monday being 0.
pub fn weekday(day: i64) -> (w: i32)
    requires
        day <= i64::MAX - 3,
    ensures
        w == weekday_of(day as int),
        0 <= w < 7,
{
    let shifted: i64 = day + 3;
    match shifted.checked_rem_euclid(7) {
        Some(w) => w as i32,
        None => 0,
    }
}

} // verus!
