//! The clock, and the persisted per-identity visit markers. A marker is
//! the RFC 3339 text of the visit's UTC instant; producing and reading
//! that text is left to chrono and only named here.

use vstd::prelude::*;
use crate::record::DbError;

verus! {

/// Earliest timestamp a visit marker is written for: 0001-01-01 00:00:00 UTC.
pub const MIN_MARKER_TIMESTAMP: i64 = -62135596800;

/// Latest timestamp a visit marker is written for: 9999-12-31 23:59:59 UTC.
pub const MAX_MARKER_TIMESTAMP: i64 = 253402300799;

/// The timestamp lies in the range that visit markers are written for.
pub open spec fn marker_timestamp_in_range(ts: i64) -> bool {
    MIN_MARKER_TIMESTAMP <= ts <= MAX_MARKER_TIMESTAMP
}

/// The RFC 3339 text, as UTF-8 bytes, of the UTC instant with the given
/// Unix timestamp. A function of the timestamp alone.
pub uninterp spec fn rfc3339_bytes(ts: i64) -> Seq<u8>;

/// Relies on chrono's DateTime::from_timestamp and DateTime::to_rfc3339:
/// a timestamp of the years 1 through 9999 is well inside chrono's
/// representable range, and the RFC 3339 text of a UTC instant is a
/// deterministic function of that instant.
#[verifier::external_body]
pub(crate) fn format_marker(ts: i64) -> (r: Vec<u8>)
    requires
        marker_timestamp_in_range(ts),
    ensures
        r@ == rfc3339_bytes(ts),
{
    chrono::DateTime::<chrono::Utc>::from_timestamp(ts, 0)
        .expect("timestamp is within chrono's representable range")
        .to_rfc3339()
        .into_bytes()
}

/// Relies on chrono's DateTime::parse_from_rfc3339: parsing the RFC 3339
/// text of an instant gives that instant back (round trip), and its
/// timestamp is the one the text was produced from.
#[verifier::external_body]
pub(crate) fn parse_marker(bytes: &Vec<u8>) -> (r: Result<i64, DbError>)
    ensures
        (forall|t: i64|
            marker_timestamp_in_range(t) && bytes@ == rfc3339_bytes(t) ==> r == Ok::<i64,
            DbError>(t)),
        r is Err ==> (r.unwrap_err() == DbError::Utf8 || r.unwrap_err() == DbError::DateParse),
{
    let s = match std::str::from_utf8(bytes.as_slice()) {
        Ok(s) => s,
        Err(_) => return Err(DbError::Utf8),
    };
    match chrono::DateTime::parse_from_rfc3339(s) {
        Ok(dt) => Ok(dt.timestamp()),
        Err(_) => Err(DbError::DateParse),
    }
}

/// Relies on chrono's Utc::now: the clock's current UTC timestamp.
/// Nothing is promised of its value.
#[verifier::external_body]
pub(crate) fn now_timestamp() -> (r: i64) {
    chrono::Utc::now().timestamp()
}

} // verus!
