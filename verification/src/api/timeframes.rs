//! Weekly timeframes between a user's time zone and UTC.
//!
//! The database keeps a timeframe as a weekday and a time of day in UTC.
//! A client reads and writes them in a time zone of its choice: the slot is
//! placed in the current week (the week, Monday first, that holds today in
//! that zone), and the instant it names is seen from the other side.

use crate::db::timeframes::{InsertTimeframe, Timeframe as DbTimeframe};
use crate::time::{
    date_in_range, day_of, day_of_instant, instant_at,
    instant_in_range, is_known_zone, local_offset, monday_of, now_timestamp, second_of_day,
    second_of_instant, tz_known, tz_local_offset, tz_utc_offset, utc_offset, weekday,
    weekday_of, TimeOfDay, MAX_DAY, MIN_DAY, SECONDS_PER_DAY,
};
use crate::types::Timeframe;
use vstd::arithmetic::div_mod::lemma_fundamental_div_mod_converse;
use vstd::prelude::*;

verus! {

/// The instant at which weekday `day` at second `secs` falls, in the week
/// that begins on date `week_start`.
pub open spec fn slot_instant(week_start: int, day: int, secs: int) -> int {
    instant_at(week_start + day, secs)
}

/// The weekday and time of day of a slot of the week beginning on
/// `week_start`, once its instant is moved by `shift` seconds.
pub open spec fn shifted(week_start: int, day: int, start: TimeOfDay, shift: int) -> (i32, TimeOfDay) {
    let t = slot_instant(week_start, day, start.secs as int) + shift;
    (weekday_of(day_of(t)) as i32, TimeOfDay { secs: second_of_day(t) as u32, nanos: start.nanos })
}

/// A stored timeframe as seen in zone `tz` in the week beginning on
/// `week_start`: its UTC instant moved by the zone's offset at that instant.
pub open spec fn localized(tf: Timeframe, week_start: int, tz: Seq<char>) -> Timeframe {
    let utc = slot_instant(week_start, tf.day as int, tf.start.secs as int);
    let slot = shifted(week_start, tf.day as int, tf.start, tz_utc_offset(tz, utc as i64) as int);
    Timeframe {
        id: tf.id,
        user_id: tf.user_id,
        day: slot.0,
        start: slot.1,
        duration: tf.duration,
    }
}

/// A second of a representable date is an instant in range, and it falls on
/// that date at that second.
pub proof fn lemma_instant_at(day: int, secs: int)
    requires
        0 <= secs < 86400,
    ensures
        day_of(instant_at(day, secs)) == day,
        second_of_day(instant_at(day, secs)) == secs,
{
    lemma_fundamental_div_mod_converse(instant_at(day, secs), 86400, day, secs);
}

/// The weekday and time of day of a slot moved by `shift` seconds.
pub fn shift_slot(week_start: i64, day: i32, start: TimeOfDay, shift: i32) -> (r: (i32, TimeOfDay))
    requires
        date_in_range(week_start + day),
        start.wf(),
        -86400 < shift < 86400,
    ensures
        r == shifted(week_start as int, day as int, start, shift as int),
        r.1.wf(),
        0 <= r.0 < 7,
{
    let date: i64 = week_start + day as i64;
    assert(-8334601315200 <= date * 86400 <= 8210266790400) by (nonlinear_arith)
        requires
            -96465293 <= date <= 95026236,
    ;
    let t: i64 = date * SECONDS_PER_DAY + start.secs as i64 + shift as i64;
    let d = day_of_instant(t);
    let s = second_of_instant(t);
    let w = weekday(d);
    (w, TimeOfDay { secs: s, nanos: start.nanos })
}

/// The Monday of the week that holds the instant `now` seen with offset
/// `offset`; the date of that instant and its Monday must be representable.
pub fn week_start_at(now: i64, offset: i32) -> (ws: i64)
    requires
        instant_in_range(now as int),
        -86400 < offset < 86400,
        date_in_range(day_of(now + offset)),
        date_in_range(monday_of(day_of(now + offset))),
    ensures
        ws == monday_of(day_of(now + offset)),
        weekday_of(ws as int) == 0,
        ws <= day_of(now + offset) < ws + 7,
{
    assert(-8334601315200 <= now <= 8210266876799) by {
        lemma_instant_bounds(now as int);
    }
    let today = day_of_instant(now + offset as i64);
    let w = weekday(today);
    today - w as i64
}

/// An instant in range lies between the first second of `MIN_DAY` and the
/// last second of `MAX_DAY`.
pub proof fn lemma_instant_bounds(t: int)
    requires
        instant_in_range(t),
    ensures
        -8334601315200 <= t <= 8210266876799,
{
    lemma_fundamental_div_mod_converse(t, 86400, t / 86400, t % 86400);
    assert(t == 86400 * (t / 86400) + t % 86400) by (nonlinear_arith)
        requires
            t == (t / 86400) * 86400 + t % 86400,
    ;
    assert(-8334601315200 <= t <= 8210266876799) by (nonlinear_arith)
        requires
            t == 86400 * (t / 86400) + t % 86400,
            0 <= t % 86400 < 86400,
            -96465293 <= t / 86400 <= 95026236,
    ;
}

/// The Monday that the current week in zone `tz` begins on when the clock
/// reads `now`: `None` where the zone is unknown or where the date of `now`
/// in the zone, or its Monday, cannot be represented.
pub open spec fn week_start_for(tz: Seq<char>, now: i64) -> Option<i64> {
    if !tz_known(tz) {
        None
    } else {
        let today = day_of(now + tz_utc_offset(tz, now));
        if date_in_range(today) && date_in_range(monday_of(today)) {
            Some(monday_of(today) as i64)
        } else {
            None
        }
    }
}

/// The Monday that the current week in zone `tz` begins on, given what
/// the clock read: `None` where the clock gave no reading, its reading is
/// out of range, or `week_start_for` gives none.
pub open spec fn clock_week_start(tz: Seq<char>, reading: Option<i64>) -> Option<i64> {
    match reading {
        Some(now) => if instant_in_range(now as int) {
            week_start_for(tz, now)
        } else {
            None
        },
        None => None,
    }
}

/// Whether `reading` is something the clock can give: no reading, or a
/// count of seconds from the epoch on.
pub open spec fn possible_reading(reading: Option<i64>) -> bool {
    reading matches Some(t) ==> t >= 0
}

/// The Monday of the current week in zone `tz` when the clock gave
/// `reading`: `None` where there is no reading in range, the zone is
/// unknown, or the date in the zone or its Monday cannot be represented.
pub fn week_start_for_reading(tz: &str, reading: Option<i64>) -> (r: Option<i64>)
    ensures
        r == clock_week_start(tz@, reading),
        r matches Some(ws) ==> weekday_of(ws as int) == 0 && date_in_range(ws as int),
{
    match reading {
        None => {
            assert(clock_week_start(tz@, reading) is None);
            None
        },
        Some(now) => {
            let day = day_of_instant(now);
            if day < MIN_DAY || day > MAX_DAY {
                assert(clock_week_start(tz@, reading) is None);
                return None;
            }
            assert(instant_in_range(now as int));
            match utc_offset(tz, now) {
                None => {
                    assert(clock_week_start(tz@, reading) is None);
                    None
                },
                Some(offset) => {
                    assert(-8334601315200 <= now <= 8210266876799) by {
                        lemma_instant_bounds(now as int);
                    }
                    let today = day_of_instant(now + offset as i64);
                    if today < MIN_DAY || today > MAX_DAY {
                        assert(clock_week_start(tz@, reading) is None);
                        return None;
                    }
                    let w = weekday(today);
                    if today - (w as i64) < MIN_DAY {
                        assert(clock_week_start(tz@, reading) is None);
                        return None;
                    }
                    let ws = week_start_at(now, offset);
                    assert(clock_week_start(tz@, reading) == Some(ws));
                    Some(ws)
                },
            }
        },
    }
}


/// The Monday of the current week in zone `tz`, read from the clock: what
/// `week_start_for_reading` gives for the clock's reading.
pub fn current_week_start(tz: &str) -> (r: Option<i64>)
    ensures
        exists|reading: Option<i64>|
            #![trigger clock_week_start(tz@, reading)]
            possible_reading(reading) && r == clock_week_start(tz@, reading),
        !tz_known(tz@) ==> (r is None),
        r matches Some(ws) ==> weekday_of(ws as int) == 0 && date_in_range(ws as int),
{
    let reading = now_timestamp();
    week_start_for_reading(tz, reading)
}

/// A stored timeframe as seen in zone `tz` in the week beginning on
/// `week_start`; `None` where the zone is unknown.
pub fn localize_timeframe(tf: Timeframe, week_start: i64, tz: &str) -> (r: Option<Timeframe>)
    requires
        date_in_range(week_start + tf.day),
        tf.start.wf(),
    ensures
        (r is None) <==> !tz_known(tz@),
        r matches Some(t) ==> t == localized(tf, week_start as int, tz@),
{
    let date: i64 = week_start + tf.day as i64;
    assert(-8334601315200 <= date * 86400 <= 8210266790400) by (nonlinear_arith)
        requires
            -96465293 <= date <= 95026236,
    ;
    let utc: i64 = date * SECONDS_PER_DAY + tf.start.secs as i64;
    proof {
        lemma_instant_at(date as int, tf.start.secs as int);
    }
    match utc_offset(tz, utc) {
        None => None,
        Some(offset) => {
            let (day, start) = shift_slot(week_start, tf.day, tf.start, offset);
            Some(
                Timeframe {
                    id: tf.id,
                    user_id: tf.user_id,
                    day,
                    start,
                    duration: tf.duration,
                },
            )
        },
    }
}

/// Whether every timeframe of `tfs` falls on a representable date in the
/// week beginning on `week_start`.
pub open spec fn all_in_week_range(tfs: Seq<Timeframe>, week_start: int) -> bool {
    forall|i: int| 0 <= i < tfs.len() ==> date_in_range(week_start + (#[trigger] tfs[i]).day)
}

/// Whether every timeframe of `tfs` has a valid start.
pub open spec fn all_starts_wf(tfs: Seq<Timeframe>) -> bool {
    forall|i: int| 0 <= i < tfs.len() ==> (#[trigger] tfs[i]).start.wf()
}

/// Whether `out` is `tfs`, each seen in zone `tz` in the week beginning on
/// `week_start`.
pub open spec fn all_localized(
    out: Seq<Timeframe>,
    tfs: Seq<Timeframe>,
    week_start: int,
    tz: Seq<char>,
) -> bool {
    &&& out.len() == tfs.len()
    &&& forall|i: int| 0 <= i < tfs.len() ==> #[trigger] out[i] == localized(tfs[i], week_start, tz)
}

/// Stored timeframes, each seen in zone `tz` in the week beginning on
/// `week_start`; `None` where the zone is unknown or a timeframe's date in
/// that week cannot be represented.
pub fn localize_timeframes(tfs: &Vec<Timeframe>, week_start: i64, tz: &str) -> (r: Option<
    Vec<Timeframe>,
>)
    requires
        all_starts_wf(tfs@),
    ensures
        (r is Some) <==> tz_known(tz@) && all_in_week_range(tfs@, week_start as int),
        r matches Some(v) ==> all_localized(v@, tfs@, week_start as int, tz@),
{
    if !is_known_zone(tz) {
        return None;
    }
    let mut out: Vec<Timeframe> = Vec::new();
    let mut i: usize = 0;
    while i < tfs.len()
        invariant
            i <= tfs.len(),
            tz_known(tz@),
            all_starts_wf(tfs@),
            out.len() == i,
            forall|j: int| 0 <= j < i ==> date_in_range(week_start + (#[trigger] tfs@[j]).day),
            forall|j: int|
                0 <= j < i ==> #[trigger] out@[j] == localized(tfs@[j], week_start as int, tz@),
        decreases tfs.len() - i,
    {
        let tf = tfs[i];
        if (week_start as i128) + (tf.day as i128) < (MIN_DAY as i128) || (week_start as i128)
            + (tf.day as i128) > (MAX_DAY as i128) {
            return None;
        }
        match localize_timeframe(tf, week_start, tz) {
            Some(t) => out.push(t),
            None => return None,
        }
        i = i + 1;
    }
    Some(out)
}

/// What reading stored timeframe `tf` in zone `tz` gives when the clock
/// gave `reading`: the timeframe seen in the zone in the week that
/// `clock_week_start` gives, or `None` where there is no such week or the
/// timeframe's date in it cannot be represented.
pub open spec fn timeframe_read_for(tf: Timeframe, tz: Seq<char>, reading: Option<i64>) -> Option<Timeframe> {
    match clock_week_start(tz, reading) {
        None => None,
        Some(ws) => if date_in_range(ws + tf.day) {
            Some(localized(tf, ws as int, tz))
        } else {
            None
        },
    }
}

/// What reading stored timeframes `tfs` in zone `tz` gives when the clock
/// gave `reading`: each seen in the zone in the week that
/// `clock_week_start` gives, or `None` where there is no such week or some timeframe's date in
/// it cannot be represented.
pub open spec fn timeframes_read_for(tfs: Seq<Timeframe>, tz: Seq<char>, reading: Option<i64>) -> Option<
    Seq<Timeframe>,
> {
    match clock_week_start(tz, reading) {
        None => None,
        Some(ws) => if all_in_week_range(tfs, ws as int) {
            Some(tfs.map_values(|t: Timeframe| localized(t, ws as int, tz)))
        } else {
            None
        },
    }
}

/// The contents of an optional vector of timeframes.
pub open spec fn contents(r: Option<Vec<Timeframe>>) -> Option<Seq<Timeframe>> {
    match r {
        Some(v) => Some(v@),
        None => None,
    }
}

/// What reading stored timeframe `tf` in zone `tz` gives when the clock
/// gave `reading`.
pub fn get_timeframe_at(tf: Timeframe, tz: &str, reading: Option<i64>) -> (r: Option<Timeframe>)
    requires
        tf.start.wf(),
    ensures
        r == timeframe_read_for(tf, tz@, reading),
        r matches Some(t) ==> 0 <= t.day < 7 && t.start.secs < 86400 && t.id == tf.id && t.user_id
            == tf.user_id && t.duration == tf.duration,
{
    proof {
        lemma_timeframe_read_is_local_slot(tf, tz@, reading);
    }
    match week_start_for_reading(tz, reading) {
        None => None,
        Some(ws) => {
            if (ws as i128) + (tf.day as i128) < (MIN_DAY as i128) || (ws as i128) + (
            tf.day as i128) > (MAX_DAY as i128) {
                return None;
            }
            localize_timeframe(tf, ws, tz)
        },
    }
}

/// What reading a stored timeframe gives: unchanged without a zone; with a
/// zone, the timeframe seen in that zone in the current week, as
/// `get_timeframe_at` gives it for the clock's reading.
pub fn get_timeframe(tf: Timeframe, tz: Option<&str>) -> (r: Option<Timeframe>)
    requires
        tf.start.wf(),
    ensures
        tz is None ==> r == Some(tf),
        tz matches Some(z) ==> (!tz_known(z@) ==> (r is None)),
        tz matches Some(z) ==> exists|reading: Option<i64>|
            #![trigger timeframe_read_for(tf, z@, reading)]
            possible_reading(reading) && r == timeframe_read_for(tf, z@, reading),
{
    match tz {
        None => Some(tf),
        Some(z) => {
            let reading = now_timestamp();
            get_timeframe_at(tf, z, reading)
        },
    }
}

/// What reading stored timeframes `tfs` in zone `tz` gives when the clock
/// gave `reading`.
pub fn get_timeframes_at(tfs: &Vec<Timeframe>, tz: &str, reading: Option<i64>) -> (r: Option<
    Vec<Timeframe>,
>)
    requires
        all_starts_wf(tfs@),
    ensures
        contents(r) == timeframes_read_for(tfs@, tz@, reading),
        r matches Some(v) ==> v@.len() == tfs@.len() && forall|i: int|
            0 <= i < tfs@.len() ==> (#[trigger] v@[i]).id == tfs@[i].id && 0 <= v@[i].day < 7,
{
    proof {
        lemma_timeframes_read_elementwise(tfs@, tz@, reading);
        assert forall|i: int| 0 <= i < tfs@.len() implies (timeframe_read_for(
            #[trigger] tfs@[i],
            tz@,
            reading,
        ) matches Some(t) ==> 0 <= t.day < 7) by {
            lemma_timeframe_read_is_local_slot(tfs@[i], tz@, reading);
        }
    }
    match week_start_for_reading(tz, reading) {
        None => None,
        Some(ws) => {
            let r = localize_timeframes(tfs, ws, tz);
            if let Some(v) = &r {
                assert(v@ =~= tfs@.map_values(|t: Timeframe| localized(t, ws as int, tz@)));
            }
            r
        },
    }
}

/// What reading a list of stored timeframes gives: unchanged without a
/// zone; with a zone, each seen in that zone in the current week, as
/// `get_timeframes_at` gives it for the clock's reading.
pub fn get_timeframes(tfs: Vec<Timeframe>, tz: Option<&str>) -> (r: Option<Vec<Timeframe>>)
    requires
        all_starts_wf(tfs@),
    ensures
        tz is None ==> r == Some(tfs),
        tz matches Some(z) ==> (!tz_known(z@) ==> (r is None)),
        tz matches Some(z) ==> exists|reading: Option<i64>|
            #![trigger timeframes_read_for(tfs@, z@, reading)]
            possible_reading(reading) && contents(r) == timeframes_read_for(tfs@, z@, reading),
{
    match tz {
        None => Some(tfs),
        Some(z) => {
            let reading = now_timestamp();
            get_timeframes_at(&tfs, z, reading)
        },
    }
}

/// A new timeframe as a client sends it: weekday `day` (0 is Monday) at
/// `start`, both in zone `tz`.
#[derive(Debug)]
pub struct PostTimeframe {
    pub day: i32,
    pub start: TimeOfDay,
    pub duration: i32,
    pub tz: String,
}

/// The wall-clock instant of a posted timeframe in the week beginning on
/// `week_start`.
pub open spec fn posted_instant(payload: PostTimeframe, week_start: int) -> int {
    slot_instant(week_start, payload.day as int, payload.start.secs as int)
}

/// The row that stores a posted timeframe, given the offset that its zone
/// has at its wall-clock time in the week beginning on `week_start`.
pub open spec fn stored_row(
    user_id: i32,
    payload: PostTimeframe,
    week_start: int,
    offset: int,
) -> InsertTimeframe {
    let slot = shifted(week_start, payload.day as int, payload.start, -offset);
    InsertTimeframe { user_id, day: slot.0, start: slot.1, duration: payload.duration }
}

/// The row that stores timeframe `payload` of user `user_id`, posted in
/// the week beginning on `week_start`: the wall-clock slot moved to UTC by
/// the offset of the zone at that wall-clock time.  `None` where the zone
/// is unknown or that wall-clock time does not occur exactly once in it
/// (it falls in a gap or in a repeated hour).
pub fn utc_insert_timeframe(user_id: i32, payload: &PostTimeframe, week_start: i64) -> (r: Option<
    InsertTimeframe,
>)
    requires
        date_in_range(week_start + payload.day),
        payload.start.wf(),
    ensures
        (r is Some) <==> tz_known(payload.tz@) && tz_local_offset(
            payload.tz@,
            posted_instant(*payload, week_start as int) as i64,
        ) is Some,
        r matches Some(row) ==> row == stored_row(
            user_id,
            *payload,
            week_start as int,
            tz_local_offset(payload.tz@, posted_instant(*payload, week_start as int) as i64)->0 as int,
        ),
{
    let date: i64 = week_start + payload.day as i64;
    assert(-8334601315200 <= date * 86400 <= 8210266790400) by (nonlinear_arith)
        requires
            -96465293 <= date <= 95026236,
    ;
    let local: i64 = date * SECONDS_PER_DAY + payload.start.secs as i64;
    proof {
        lemma_instant_at(date as int, payload.start.secs as int);
    }
    match local_offset(payload.tz.as_str(), local) {
        None => None,
        Some(offset) => {
            let (day, start) = shift_slot(week_start, payload.day, payload.start, -offset);
            Some(InsertTimeframe { user_id, day, start, duration: payload.duration })
        },
    }
}

/// The row that `post_user_timeframes` stores when the clock gave
/// `reading`: the slot placed in the week that `clock_week_start` gives and moved to
/// UTC; `None` where there is no such week, the slot's date in it cannot be
/// represented, or its wall-clock time does not occur exactly once in the
/// zone.
pub open spec fn posted_row_for(user_id: i32, payload: PostTimeframe, reading: Option<i64>) -> Option<
    InsertTimeframe,
> {
    match clock_week_start(payload.tz@, reading) {
        None => None,
        Some(ws) => if !date_in_range(ws + payload.day) {
            None
        } else {
            match tz_local_offset(payload.tz@, posted_instant(payload, ws as int) as i64) {
                Some(o) => Some(stored_row(user_id, payload, ws as int, o as int)),
                None => None,
            }
        },
    }
}

/// The row that stores timeframe `payload` of user `user_id` when the
/// clock gave `reading`.
pub fn post_user_timeframes_at(user_id: i32, payload: &PostTimeframe, reading: Option<i64>) -> (r:
    Option<InsertTimeframe>)
    requires
        payload.start.wf(),
    ensures
        r == posted_row_for(user_id, *payload, reading),
        r matches Some(row) ==> 0 <= row.day < 7 && row.start.secs < 86400 && row.user_id == user_id
            && row.duration == payload.duration,
{
    proof {
        lemma_posted_row_is_utc_slot(user_id, *payload, reading);
    }
    match week_start_for_reading(payload.tz.as_str(), reading) {
        None => None,
        Some(ws) => {
            if (ws as i128) + (payload.day as i128) < (MIN_DAY as i128) || (ws as i128) + (
            payload.day as i128) > (MAX_DAY as i128) {
                return None;
            }
            utc_insert_timeframe(user_id, payload, ws)
        },
    }
}

/// The row that stores timeframe `payload` posted now by user `user_id`:
/// the slot placed in the current week of its zone and moved to UTC, as
/// `post_user_timeframes_at` gives it for the clock's reading.
pub fn post_user_timeframes(user_id: i32, payload: &PostTimeframe) -> (r: Option<InsertTimeframe>)
    requires
        payload.start.wf(),
    ensures
        exists|reading: Option<i64>|
            #![trigger posted_row_for(user_id, *payload, reading)]
            possible_reading(reading) && r == posted_row_for(user_id, *payload, reading),
        !tz_known(payload.tz@) ==> (r is None),
{
    let reading = now_timestamp();
    post_user_timeframes_at(user_id, payload, reading)
}

/// The answer to a posted timeframe: the stored row, shown with the
/// weekday and start that the client sent.
pub fn posted_timeframe(inserted: DbTimeframe, payload: &PostTimeframe) -> (t: Timeframe)
    ensures
        t.id == inserted.id,
        t.user_id == inserted.user_id,
        t.duration == inserted.duration,
        t.day == payload.day,
        t.start == payload.start,
{
    let mut timeframe = Timeframe::from(inserted);
    timeframe.day = payload.day;
    timeframe.start = payload.start;
    timeframe
}

/// A slot moved to UTC with an offset in a week that begins on a Monday,
/// and read back with the same offset in any week that begins on a Monday,
/// shows the weekday it was given (taken modulo 7) at the time of day it
/// was given.
pub proof fn lemma_shift_back(
    post_week: int,
    read_week: int,
    day: int,
    start: TimeOfDay,
    offset: int,
)
    requires
        weekday_of(post_week) == 0,
        weekday_of(read_week) == 0,
        start.wf(),
    ensures
        shifted(
            read_week,
            shifted(post_week, day, start, -offset).0 as int,
            shifted(post_week, day, start, -offset).1,
            offset,
        ) == ((day % 7) as i32, start),
{
    let secs = start.secs as int;
    let local = slot_instant(post_week, day, secs);
    let utc = local - offset;
    let d = day_of(utc);
    let su = second_of_day(utc);
    lemma_fundamental_div_mod_converse(utc, 86400, d, su);
    assert(utc == d * 86400 + su) by {
        vstd::arithmetic::div_mod::lemma_fundamental_div_mod(utc, 86400);
        vstd::arithmetic::mul::lemma_mul_is_commutative(d, 86400);
    }
    let a = (post_week + 3) / 7;
    let c = (read_week + 3) / 7;
    let b = (d + 3) / 7;
    let w = (d + 3) % 7;
    lemma_fundamental_div_mod_converse(post_week + 3, 7, a, 0);
    lemma_fundamental_div_mod_converse(read_week + 3, 7, c, 0);
    vstd::arithmetic::div_mod::lemma_fundamental_div_mod(d + 3, 7);
    assert(post_week + 3 == 7 * a);
    assert(read_week + 3 == 7 * c);
    assert(d + 3 == 7 * b + w);
    let stored = shifted(post_week, day, start, -offset);
    assert(stored.0 as int == w);
    assert(stored.1.secs as int == su);
    // the stored slot, placed in the reading week, is the UTC instant moved
    // by a whole number of weeks
    let k = c - b;
    assert(read_week + w == d + 7 * k);
    let back = slot_instant(read_week, w, su) + offset;
    assert(back == (post_week + day + 7 * k) * 86400 + secs) by (nonlinear_arith)
        requires
            back == (read_week + w) * 86400 + su + offset,
            read_week + w == d + 7 * k,
            utc == d * 86400 + su,
            utc == (post_week + day) * 86400 + secs - offset,
    ;
    lemma_instant_at(post_week + day + 7 * k, secs);
    lemma_fundamental_div_mod_converse(
        post_week + day + 7 * k + 3,
        7,
        a + k + day / 7,
        day % 7,
    );
}

/// A timeframe posted in zone `tz` in a week that begins on a Monday, and
/// read back from its stored row in that zone in any week that begins on a
/// Monday, shows the weekday that was posted (taken modulo 7) and the start
/// that was posted, provided the zone has at the instant read the offset
/// with which the wall-clock time was stored.
pub proof fn lemma_posted_timeframe_reads_back(
    row: Timeframe,
    user_id: i32,
    payload: PostTimeframe,
    post_week: int,
    read_week: int,
)
    requires
        weekday_of(post_week) == 0,
        weekday_of(read_week) == 0,
        payload.start.wf(),
        tz_local_offset(payload.tz@, posted_instant(payload, post_week) as i64) is Some,
        row.day == stored_row(
            user_id,
            payload,
            post_week,
            tz_local_offset(payload.tz@, posted_instant(payload, post_week) as i64)->0 as int,
        ).day,
        row.start == stored_row(
            user_id,
            payload,
            post_week,
            tz_local_offset(payload.tz@, posted_instant(payload, post_week) as i64)->0 as int,
        ).start,
        tz_utc_offset(
            payload.tz@,
            slot_instant(read_week, row.day as int, row.start.secs as int) as i64,
        ) == tz_local_offset(payload.tz@, posted_instant(payload, post_week) as i64)->0,
    ensures
        localized(row, read_week, payload.tz@).day == (payload.day % 7) as i32,
        localized(row, read_week, payload.tz@).start == payload.start,
        localized(row, read_week, payload.tz@).id == row.id,
        localized(row, read_week, payload.tz@).user_id == row.user_id,
        localized(row, read_week, payload.tz@).duration == row.duration,
{
    let o = tz_local_offset(payload.tz@, posted_instant(payload, post_week) as i64)->0 as int;
    lemma_shift_back(post_week, read_week, payload.day as int, payload.start, o);
}

/// The Monday of the week in which `post_user_timeframes_at` placed a
/// timeframe posted when the clock gave `reading`.
pub open spec fn post_week(payload: PostTimeframe, reading: Option<i64>) -> int {
    clock_week_start(payload.tz@, reading)->0 as int
}

/// The offset with which `post_user_timeframes_at` moved to UTC a
/// timeframe posted when the clock gave `reading`.
pub open spec fn post_offset(payload: PostTimeframe, reading: Option<i64>) -> i32 {
    tz_local_offset(payload.tz@, posted_instant(payload, post_week(payload, reading)) as i64)->0
}

/// A timeframe stored by a post and read back in the same zone, at
/// whatever later clock reading gives a week in range with every stored
/// timeframe's date in range, is found in the read with the user, weekday
/// (taken modulo 7), start and duration that were posted, provided the zone
/// has at the instant read the offset with which it was stored.
pub proof fn lemma_read_after_post(
    user_id: i32,
    payload: PostTimeframe,
    post_reading: Option<i64>,
    tfs: Seq<Timeframe>,
    i: int,
    read_reading: Option<i64>,
)
    requires
        payload.start.wf(),
        posted_row_for(user_id, payload, post_reading) is Some,
        0 <= i < tfs.len(),
        tfs[i].user_id == posted_row_for(user_id, payload, post_reading)->0.user_id,
        tfs[i].day == posted_row_for(user_id, payload, post_reading)->0.day,
        tfs[i].start == posted_row_for(user_id, payload, post_reading)->0.start,
        tfs[i].duration == posted_row_for(user_id, payload, post_reading)->0.duration,
        clock_week_start(payload.tz@, read_reading) is Some,
        all_in_week_range(tfs, clock_week_start(payload.tz@, read_reading)->0 as int),
        tz_utc_offset(
            payload.tz@,
            slot_instant(
                clock_week_start(payload.tz@, read_reading)->0 as int,
                tfs[i].day as int,
                tfs[i].start.secs as int,
            ) as i64,
        ) == post_offset(payload, post_reading),
    ensures
        timeframes_read_for(tfs, payload.tz@, read_reading) is Some,
        timeframes_read_for(tfs, payload.tz@, read_reading)->0[i].user_id == user_id,
        timeframes_read_for(tfs, payload.tz@, read_reading)->0[i].day == (payload.day % 7) as i32,
        timeframes_read_for(tfs, payload.tz@, read_reading)->0[i].start == payload.start,
        timeframes_read_for(tfs, payload.tz@, read_reading)->0[i].duration == payload.duration,
{
    let pw = post_week(payload, post_reading);
    let rw = clock_week_start(payload.tz@, read_reading)->0 as int;
    assert(weekday_of(pw) == 0);
    assert(weekday_of(rw) == 0);
    lemma_posted_timeframe_reads_back(tfs[i], user_id, payload, pw, rw);
}

/// The weekday and second of any instant, counted from the Monday `ws`,
/// give its place in the week: the weekday lies in 0..7, the second in
/// 0..86400, and together they are the instant's distance from the start
/// of `ws`, modulo a week.
pub proof fn lemma_place_in_week(ws: int, t: int)
    requires
        weekday_of(ws) == 0,
    ensures
        0 <= weekday_of(day_of(t)) < 7,
        0 <= second_of_day(t) < 86400,
        (weekday_of(day_of(t)) * 86400 + second_of_day(t) - (t - ws * 86400)) % 604800 == 0,
{
    let d = day_of(t);
    let sec = second_of_day(t);
    vstd::arithmetic::div_mod::lemma_fundamental_div_mod(t, 86400);
    assert(t == 86400 * d + sec);
    let a = (ws + 3) / 7;
    vstd::arithmetic::div_mod::lemma_fundamental_div_mod(ws + 3, 7);
    assert(ws + 3 == 7 * a);
    let b = (d + 3) / 7;
    let w = (d + 3) % 7;
    vstd::arithmetic::div_mod::lemma_fundamental_div_mod(d + 3, 7);
    assert(d + 3 == 7 * b + w);
    assert(w * 86400 + sec - (t - ws * 86400) == (a - b) * 604800);
    vstd::arithmetic::div_mod::lemma_mod_multiples_basic(a - b, 604800);
}

/// The week that a clock reading gives in a zone is the week, Monday
/// first, that holds the reading's date in the zone; and there is one
/// whenever the zone is known, the reading is in range, and that date and
/// its Monday can be represented.
pub proof fn lemma_clock_week_holds_reading(tz: Seq<char>, t: i64)
    ensures
        clock_week_start(tz, Some(t)) matches Some(ws) ==> {
            &&& tz_known(tz)
            &&& instant_in_range(t as int)
            &&& weekday_of(ws as int) == 0
            &&& date_in_range(ws as int)
            &&& ws <= day_of(t + tz_utc_offset(tz, t)) < ws + 7
        },
        ({
            let today = day_of(t + tz_utc_offset(tz, t));
            tz_known(tz) && instant_in_range(t as int) && date_in_range(today) && date_in_range(
                today - weekday_of(today),
            )
        }) ==> clock_week_start(tz, Some(t)) is Some,
        clock_week_start(tz, None) is None,
{
}

/// A stored timeframe read in a zone keeps its id, user, duration and
/// nanoseconds, and shows a weekday in 0..7 and a second of the day such
/// that, counted within the week, it lies the zone's offset after the
/// stored UTC slot: its local weekday and time.  The read succeeds whenever
/// the clock gives a week and the timeframe's date in it can be
/// represented.
pub proof fn lemma_timeframe_read_is_local_slot(tf: Timeframe, tz: Seq<char>, reading: Option<i64>)
    requires
        tf.start.wf(),
    ensures
        timeframe_read_for(tf, tz, reading) matches Some(t) ==> {
            let ws = clock_week_start(tz, reading)->0 as int;
            let utc = (ws + tf.day) * 86400 + tf.start.secs;
            let off = tz_utc_offset(tz, utc as i64) as int;
            &&& t.id == tf.id
            &&& t.user_id == tf.user_id
            &&& t.duration == tf.duration
            &&& t.start.nanos == tf.start.nanos
            &&& 0 <= t.day < 7
            &&& t.start.secs < 86400
            &&& t.day == weekday_of(day_of(utc + off))
            &&& t.start.secs == second_of_day(utc + off)
            &&& (t.day * 86400 + t.start.secs - (tf.day * 86400 + tf.start.secs + off)) % 604800
                == 0
        },
        (clock_week_start(tz, reading) matches Some(ws) && date_in_range(ws + tf.day)) ==> (
        timeframe_read_for(tf, tz, reading) is Some),
{
    if let Some(ws) = clock_week_start(tz, reading) {
        let utc = (ws + tf.day) * 86400 + tf.start.secs;
        let off = tz_utc_offset(tz, utc as i64) as int;
        lemma_place_in_week(ws as int, utc + off);
    }
}

/// Reading a list of stored timeframes in a zone reads each of them as it
/// would be read alone, in the same order and keeping each one's id; the
/// list read succeeds exactly when the clock gives a week and every one of
/// them can be read in it.
pub proof fn lemma_timeframes_read_elementwise(
    tfs: Seq<Timeframe>,
    tz: Seq<char>,
    reading: Option<i64>,
)
    ensures
        timeframes_read_for(tfs, tz, reading) matches Some(out) ==> {
            &&& out.len() == tfs.len()
            &&& forall|i: int|
                0 <= i < tfs.len() ==> {
                    &&& timeframe_read_for(#[trigger] tfs[i], tz, reading) == Some(out[i])
                    &&& out[i].id == tfs[i].id
                    &&& out[i].user_id == tfs[i].user_id
                    &&& out[i].duration == tfs[i].duration
                }
        },
        (timeframes_read_for(tfs, tz, reading) is Some) <==> (clock_week_start(tz, reading) is Some
            && forall|i: int|
            0 <= i < tfs.len() ==> (timeframe_read_for(#[trigger] tfs[i], tz, reading) is Some)),
{
    if let Some(ws) = clock_week_start(tz, reading) {
        if !all_in_week_range(tfs, ws as int) {
            let i = choose|i: int| 0 <= i < tfs.len() && !date_in_range(ws + (#[trigger] tfs[i]).day);
            assert(timeframe_read_for(tfs[i], tz, reading) is None);
        }
    }
}

/// The row stored for a posted timeframe keeps the user, duration and
/// nanoseconds, and holds a weekday in 0..7 and a second of the day such
/// that, counted within the week, it lies the zone's offset before the
/// posted wall-clock slot: its UTC weekday and time.  The post succeeds
/// whenever the clock gives a week, the slot's date in it can be
/// represented, and the zone gives that wall-clock time one offset.
pub proof fn lemma_posted_row_is_utc_slot(user_id: i32, payload: PostTimeframe, reading: Option<i64>)
    requires
        payload.start.wf(),
    ensures
        posted_row_for(user_id, payload, reading) matches Some(row) ==> {
            let ws = clock_week_start(payload.tz@, reading)->0 as int;
            let local = (ws + payload.day) * 86400 + payload.start.secs;
            let o = tz_local_offset(payload.tz@, local as i64)->0 as int;
            &&& row.user_id == user_id
            &&& row.duration == payload.duration
            &&& row.start.nanos == payload.start.nanos
            &&& 0 <= row.day < 7
            &&& row.start.secs < 86400
            &&& row.day == weekday_of(day_of(local - o))
            &&& row.start.secs == second_of_day(local - o)
            &&& (row.day * 86400 + row.start.secs + o - (payload.day * 86400
                + payload.start.secs)) % 604800 == 0
        },
        ({
            &&& clock_week_start(payload.tz@, reading) is Some
            &&& date_in_range(clock_week_start(payload.tz@, reading)->0 + payload.day)
            &&& tz_local_offset(
                payload.tz@,
                ((clock_week_start(payload.tz@, reading)->0 + payload.day) * 86400
                    + payload.start.secs) as i64,
            ) is Some
        }) ==> (posted_row_for(user_id, payload, reading) is Some),
{
    if let Some(ws) = clock_week_start(payload.tz@, reading) {
        let local = (ws + payload.day) * 86400 + payload.start.secs;
        if let Some(o) = tz_local_offset(payload.tz@, local as i64) {
            lemma_place_in_week(ws as int, local - o);
        }
    }
}

} // verus!
