//! Timeframe rows.

use crate::time::TimeOfDay;
use vstd::prelude::*;

verus! {

/// A timeframe row: a weekly slot of length `duration` that starts on
/// weekday `day` (0 is Monday) at `start`, both in UTC.
#[derive(Clone, Copy, Debug, PartialEq, Eq, Structural)]
pub struct Timeframe {
    pub id: i32,
    pub user_id: i32,
    pub day: i32,
    pub start: TimeOfDay,
    pub duration: i32,
}

/// The values of a new timeframe row; the database assigns the id.
#[derive(Clone, Copy, Debug, PartialEq, Eq, Structural)]
pub struct InsertTimeframe {
    pub user_id: i32,
    pub day: i32,
    pub start: TimeOfDay,
    pub duration: i32,
}

} // verus!
