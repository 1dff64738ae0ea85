//! The byte encoding of counter records, as the storage engine sees them.
//! A record is persisted as the bincode encoding of the pair
//! `(week_count, last_click_time)`; the encoding itself is left to bincode
//! and only named here.

use vstd::prelude::*;
use crate::record::{WeekData, DbError};

verus! {

/// The persisted byte encoding of a counter record with the given fields:
/// what bincode makes of the pair `(count, last_click_time)`. A function
/// of the fields alone.
pub uninterp spec fn week_data_bytes(count: u64, last_click_time: Option<i64>) -> Seq<u8>;

/// The bytes are an encoding of some counter record.
pub open spec fn is_week_data_encoding(b: Seq<u8>) -> bool {
    exists|c: u64, t: Option<i64>| b == week_data_bytes(c, t)
}

/// Relies on bincode::serialize: the encoding of a `(u64, Option<i64>)`
/// pair is a deterministic function of the pair, and writing such a pair
/// into a fresh buffer with no size limit cannot fail.
#[verifier::external_body]
pub(crate) fn encode_week_data(d: &WeekData) -> (r: Vec<u8>)
    ensures
        r@ == week_data_bytes(d.week_count, d.last_click_time),
{
    bincode::serialize(&(d.week_count, d.last_click_time)).expect(
        "bincode cannot fail on a plain pair",
    )
}

/// Relies on bincode::deserialize: deserializing the bincode encoding of a
/// `(u64, Option<i64>)` pair gives the pair back (round trip).
#[verifier::external_body]
pub(crate) fn decode_week_data(bytes: &Vec<u8>) -> (r: Result<WeekData, DbError>)
    ensures
        (forall|c: u64, t: Option<i64>|
            bytes@ == week_data_bytes(c, t) ==> r == Ok::<WeekData, DbError>(
                (WeekData { week_count: c, last_click_time: t }),
            )),
        r is Err ==> r.unwrap_err() == DbError::Bincode,
{
    match bincode::deserialize::<(u64, Option<i64>)>(bytes.as_slice()) {
        Ok((c, t)) => Ok(WeekData { week_count: c, last_click_time: t }),
        Err(_) => Err(DbError::Bincode),
    }
}

} // verus!
