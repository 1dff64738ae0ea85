//! The counter record and the store's error type, together with the pure
//! step that one accepted increment performs on the record.

use vstd::prelude::*;

verus! {

/// The singleton counter record.
#[derive(Clone, Copy, Debug)]
pub struct WeekData {
    /// The counter value; starts at 0 and grows by one per accepted
    /// increment (saturating at the type's maximum).
    pub week_count: u64,
    /// Unix timestamp (seconds, UTC) of the last accepted conditional
    /// increment; absent until one happens. The unconditional path leaves
    /// it untouched.
    pub last_click_time: Option<i64>,
}

/// A typed failure of a store operation.
#[derive(Clone, Copy, Debug, PartialEq, Eq, Structural)]
pub enum DbError {
    /// The storage engine reported an error.
    Sled,
    /// Stored counter bytes did not decode as a counter record.
    Bincode,
    /// A stored visit marker was not valid UTF-8.
    Utf8,
    /// A stored visit marker did not parse as a timestamp.
    DateParse,
}

/// The record an absent counter entry stands for: zero, never clicked.
pub open spec fn spec_empty_week_data() -> WeekData {
    WeekData { week_count: 0, last_click_time: None }
}

/// The record an absent counter entry stands for.
pub fn empty_week_data() -> (r: WeekData)
    ensures
        r == spec_empty_week_data(),
{
    WeekData { week_count: 0, last_click_time: None }
}

/// The counter value after one accepted increment: one more, saturating at
/// the largest representable value instead of overflowing.
pub open spec fn spec_step_count(c: u64) -> u64 {
    if c < u64::MAX {
        (c + 1) as u64
    } else {
        c
    }
}

/// The record after one accepted increment. The conditional path passes
/// the accepted visit's timestamp and stamps it; the unconditional path
/// passes nothing and leaves the stamp untouched.
pub open spec fn spec_next_week_data(cur: WeekData, set_time: Option<i64>) -> WeekData {
    WeekData {
        week_count: spec_step_count(cur.week_count),
        last_click_time: if set_time is Some {
            set_time
        } else {
            cur.last_click_time
        },
    }
}

/// Advance the record by one accepted increment.
pub fn next_week_data(cur: WeekData, set_time: Option<i64>) -> (r: WeekData)
    ensures
        r == spec_next_week_data(cur, set_time),
{
    let new_count: u64 = if cur.week_count < u64::MAX {
        cur.week_count + 1
    } else {
        cur.week_count
    };
    let new_time: Option<i64> = match set_time {
        Some(t) => Some(t),
        None => cur.last_click_time,
    };
    WeekData { week_count: new_count, last_click_time: new_time }
}

} // verus!
