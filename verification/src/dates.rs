//! Pure calendar arithmetic on Unix timestamps (seconds since the Unix
//! epoch, UTC). A UTC calendar day is a block of exactly 86 400 such
//! seconds, so two timestamps fall on the same UTC date exactly when their
//! floored day numbers agree.

use vstd::prelude::*;

verus! {

/// Seconds in seven UTC calendar days.
pub const SECONDS_PER_WEEK: i64 = 604800;

/// The fixed epoch the week offset is measured from:
/// 2024-01-01 00:00:00 UTC.
pub const BASE_TIMESTAMP: i64 = 1704067200;

/// The day number (days since 1970-01-01 UTC, floored) that a timestamp
/// falls on.
pub open spec fn spec_utc_day(ts: i64) -> int {
    ts as int / 86400
}

/// Two timestamps fall on the same UTC calendar date.
pub open spec fn spec_same_utc_day(a: i64, b: i64) -> bool {
    spec_utc_day(a) == spec_utc_day(b)
}

/// The UTC day number of a timestamp: floored division by the day length,
/// so times before the epoch round toward earlier days.
pub fn utc_day(ts: i64) -> (r: i64)
    ensures
        r == spec_utc_day(ts),
{
    if ts >= 0 {
        ts / 86400
    } else {
        let pos: i64 = -(ts + 1);
        let q: i64 = pos / 86400;
        proof {
            let p: int = pos as int;
            let r: int = p % 86400;
            vstd::arithmetic::div_mod::lemma_fundamental_div_mod(p, 86400);
            assert(ts as int == (-(q as int) - 1) * 86400 + (86400 - r - 1));
            vstd::arithmetic::div_mod::lemma_fundamental_div_mod_converse_div(
                ts as int,
                86400,
                -(q as int) - 1,
                86400 - r - 1,
            );
        }
        -q - 1
    }
}

/// Whether two timestamps fall on the same UTC calendar date.
pub fn same_utc_day(a: i64, b: i64) -> (r: bool)
    ensures
        r == spec_same_utc_day(a, b),
{
    utc_day(a) == utc_day(b)
}

/// The instant reached by starting at the fixed epoch and moving forward a
/// whole number of weeks, saturating at the largest representable
/// timestamp instead of overflowing.
pub fn calculate_date_from_weeks(weeks: u64) -> (r: i64)
    ensures
        BASE_TIMESTAMP + weeks * SECONDS_PER_WEEK <= i64::MAX ==> r == BASE_TIMESTAMP + weeks * SECONDS_PER_WEEK,
        BASE_TIMESTAMP + weeks * SECONDS_PER_WEEK > i64::MAX ==> r == i64::MAX,
{
    let total: u128 = 1704067200u128 + (weeks as u128) * 604800u128;
    if total > i64::MAX as u128 {
        i64::MAX
    } else {
        total as i64
    }
}

} // verus!
