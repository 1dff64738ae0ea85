//! The counter store: a durable, monotonically increasing counter together
//! with per-identity visit markers that gate the conditional increment to
//! at most one accepted visit per identity per UTC calendar day.
//!
//! The counter lives under a single key of one tree; each identity's last
//! accepted visit lives under its own key of a second tree. All counter
//! mutation goes through one read-modify-write step performed with the
//! engine's compare-and-swap, so concurrent increments are never lost.

use vstd::prelude::*;
use crate::clock::{
    format_marker, marker_timestamp_in_range, now_timestamp, parse_marker, rfc3339_bytes,
};
use crate::codec::{decode_week_data, encode_week_data, is_week_data_encoding, week_data_bytes};
use crate::dates::{same_utc_day, spec_same_utc_day};
use crate::record::{
    empty_week_data, next_week_data, spec_empty_week_data, spec_step_count, DbError, WeekData,
};
use crate::storage::{
    open_db_trees, open_temporary_trees, tree_cas, tree_flush, tree_get, tree_insert,
    tree_remove, tree_view,
};

verus! {

/// The key the counter record is stored under.
pub closed spec fn week_key() -> Seq<char> {
    "current_week"@
}

/// The durable counter store. It owns the storage engine handles; all
/// mutation of the persisted records goes through its operations.
pub struct Database {
    db: sled::Db,
    week_tree: sled::Tree,
    click_tree: sled::Tree,
}

/// The stored counter moved by exactly one accepted increment: a missing
/// record reads as zero and becomes one; a present record grows by one,
/// saturating. The conditional path passes the accepted visit's timestamp
/// and stamps it into the record; the unconditional path passes `None` and
/// leaves the stamp as it was.
pub open spec fn counter_steps(prev: Database, cur: Database, set_time: Option<i64>) -> bool {
    &&& (!prev.has_record() ==> cur.record_is(1, set_time))
    &&& (forall|c: u64, t: Option<i64>|
        prev.record_is(c, t) ==> cur.record_is(
            spec_step_count(c),
            if set_time is Some {
                set_time
            } else {
                t
            },
        ))
}

/// The value an accepted increment reports: the counter after the step.
pub open spec fn count_matches(prev: Database, n: u64) -> bool {
    &&& (!prev.has_record() ==> n == 1)
    &&& (forall|c: u64, t: Option<i64>| prev.record_is(c, t) ==> n == spec_step_count(c))
}

impl Database {
    /// What the counter tree holds.
    pub closed spec fn week_view(self) -> Map<Seq<char>, Seq<u8>> {
        tree_view(self.week_tree)
    }

    /// What the visit-marker tree holds.
    pub closed spec fn click_view(self) -> Map<Seq<char>, Seq<u8>> {
        tree_view(self.click_tree)
    }

    /// A counter record is stored.
    pub open spec fn has_record(self) -> bool {
        self.week_view().dom().contains(week_key())
    }

    /// The stored counter record has exactly these fields.
    pub open spec fn record_is(self, c: u64, t: Option<i64>) -> bool {
        self.has_record() && self.week_view()[week_key()] == week_data_bytes(c, t)
    }

    /// The stored counter bytes are the encoding of some record.
    pub open spec fn record_decodes(self) -> bool {
        self.has_record() && is_week_data_encoding(self.week_view()[week_key()])
    }

    /// The counter entry is absent or holds a decodable record. Every
    /// operation preserves this; only a foreign writer of the underlying
    /// directory can break it.
    pub open spec fn wf_week(self) -> bool {
        self.has_record() ==> self.record_decodes()
    }

    /// `c` is the value the stored state pins the counter to: zero when no
    /// record is stored, the stored count otherwise.
    pub open spec fn count_ok(self, c: u64) -> bool {
        &&& (!self.has_record() ==> c == 0)
        &&& (forall|c2: u64, t2: Option<i64>| self.record_is(c2, t2) ==> c == c2)
    }

    /// `d` is the record the stored state pins: both fields defaulted when
    /// no record is stored, the stored record otherwise.
    pub open spec fn record_ok(self, d: WeekData) -> bool {
        &&& (!self.has_record() ==> d == spec_empty_week_data())
        &&& (forall|c2: u64, t2: Option<i64>|
            self.record_is(c2, t2) ==> d == (WeekData { week_count: c2, last_click_time: t2 }))
    }

    /// The identity's stored visit marker is the marker written for
    /// timestamp `t`.
    pub open spec fn visit_is(self, id: Seq<char>, t: i64) -> bool {
        self.click_view().dom().contains(id) && self.click_view()[id] == rfc3339_bytes(t)
    }

    /// No visit marker is stored for the identity.
    pub open spec fn no_visit(self, id: Seq<char>) -> bool {
        !self.click_view().dom().contains(id)
    }

    /// Both trees hold exactly what they held in `prev`.
    pub open spec fn unchanged_from(self, prev: Database) -> bool {
        self.week_view() == prev.week_view() && self.click_view() == prev.click_view()
    }

    /// Open (or create) the store in the directory at `path`. The trees
    /// keep whatever that directory held.
    pub fn new(path: &str) -> (r: Result<Database, DbError>)
        ensures
            r is Err ==> r == Err::<Database, DbError>(DbError::Sled),
    {
        proof {
            reveal_strlit("weeks");
            reveal_strlit("clicks");
            assert("weeks"@.len() == 5);
            assert("clicks"@.len() == 6);
        }
        match open_db_trees(path, "weeks", "clicks") {
            Ok((db, week_tree, click_tree)) => Ok(Database { db, week_tree, click_tree }),
            Err(_) => Err(DbError::Sled),
        }
    }

    /// Open a fresh, empty store backed by a temporary directory; nothing
    /// is stored in it yet.
    pub fn new_temporary() -> (r: Result<Database, DbError>)
        ensures
            r matches Ok(d) ==> (!d.has_record() && d.wf_week() && (forall|id: Seq<char>|
                d.no_visit(id))),
            r is Err ==> r == Err::<Database, DbError>(DbError::Sled),
    {
        proof {
            reveal_strlit("weeks");
            reveal_strlit("clicks");
            assert("weeks"@.len() == 5);
            assert("clicks"@.len() == 6);
        }
        match open_temporary_trees("weeks", "clicks") {
            Ok((db, week_tree, click_tree)) => Ok(Database { db, week_tree, click_tree }),
            Err(_) => Err(DbError::Sled),
        }
    }

    /// Read the current counter value: zero when no record is stored.
    pub fn get_week_count(&self) -> (r: Result<u64, DbError>)
        ensures
            r matches Ok(c) ==> self.count_ok(c),
            r is Err ==> (r.unwrap_err() == DbError::Sled || r.unwrap_err() == DbError::Bincode),
            r == Err::<u64, DbError>(DbError::Bincode) ==> (self.has_record()
                && !self.record_decodes()),
    {
        match tree_get(&self.week_tree, "current_week") {
            Err(_) => Err(DbError::Sled),
            Ok(None) => Ok(0),
            Ok(Some(bytes)) => match decode_week_data(&bytes) {
                Ok(d) => Ok(d.week_count),
                Err(e) => {
                    proof {
                        if self.record_decodes() {
                            let (c2, t2): (u64, Option<i64>) = choose|c2: u64, t2: Option<i64>|
                                self.week_view()[week_key()] == week_data_bytes(c2, t2);
                            assert(bytes@ == week_data_bytes(c2, t2));
                        }
                    }
                    Err(e)
                },
            },
        }
    }

    /// Read the full counter record: both fields defaulted when no record
    /// is stored.
    pub fn get_week_data(&self) -> (r: Result<WeekData, DbError>)
        ensures
            r matches Ok(d) ==> self.record_ok(d),
            r is Err ==> (r.unwrap_err() == DbError::Sled || r.unwrap_err() == DbError::Bincode),
            r == Err::<WeekData, DbError>(DbError::Bincode) ==> (self.has_record()
                && !self.record_decodes()),
    {
        match tree_get(&self.week_tree, "current_week") {
            Err(_) => Err(DbError::Sled),
            Ok(None) => Ok(empty_week_data()),
            Ok(Some(bytes)) => match decode_week_data(&bytes) {
                Ok(d) => Ok(d),
                Err(e) => {
                    proof {
                        if self.record_decodes() {
                            let (c2, t2): (u64, Option<i64>) = choose|c2: u64, t2: Option<i64>|
                                self.week_view()[week_key()] == week_data_bytes(c2, t2);
                            assert(bytes@ == week_data_bytes(c2, t2));
                        }
                    }
                    Err(e)
                },
            },
        }
    }

    /// One atomic read-modify-write of the counter record: read it (absent
    /// reads as zero), advance it by one accepted increment, and write it
    /// back with a compare-and-swap so a concurrent writer's update is
    /// never overwritten; on a lost race the step is retried from the
    /// fresh value.
    fn increment_week_core(&mut self, set_time: Option<i64>) -> (r: Result<u64, DbError>)
        ensures
            final(self).click_view() == old(self).click_view(),
            r matches Ok(n) ==> (counter_steps(*old(self), *final(self), set_time)
                && count_matches(*old(self), n)),
            r is Err ==> (r.unwrap_err() == DbError::Sled || r.unwrap_err() == DbError::Bincode),
            r == Err::<u64, DbError>(DbError::Bincode) ==> (old(self).has_record() && !old(self).record_decodes()),
            old(self).wf_week() ==> final(self).wf_week(),
    {
        let mut attempts: u64 = 32;
        while attempts > 0
            invariant
                self.week_view() == old(self).week_view(),
                self.click_view() == old(self).click_view(),
            decreases attempts,
        {
            let cur_opt = match tree_get(&self.week_tree, "current_week") {
                Ok(v) => v,
                Err(_) => {
                    return Err(DbError::Sled);
                },
            };
            let cur: WeekData = match &cur_opt {
                None => empty_week_data(),
                Some(bytes) => match decode_week_data(bytes) {
                    Ok(d) => d,
                    Err(e) => {
                        proof {
                            if self.record_decodes() {
                                let (c2, t2): (u64, Option<i64>) = choose|
                                    c2: u64,
                                    t2: Option<i64>,
                                |
                                    self.week_view()[week_key()] == week_data_bytes(c2, t2);
                                assert(bytes@ == week_data_bytes(c2, t2));
                            }
                        }
                        return Err(e);
                    },
                },
            };
            let new_data = next_week_data(cur, set_time);
            let new_bytes = encode_week_data(&new_data);
            proof {
                assert(is_week_data_encoding(new_bytes@)) by {
                    assert(new_bytes@ == week_data_bytes(
                        new_data.week_count,
                        new_data.last_click_time,
                    ));
                };
            }
            let swapped = match tree_cas(
                &mut self.week_tree,
                "current_week",
                &cur_opt,
                &new_bytes,
            ) {
                Ok(b) => b,
                Err(_) => {
                    return Err(DbError::Sled);
                },
            };
            if swapped {
                return Ok(new_data.week_count);
            }
            attempts = attempts - 1;
        }
        Err(DbError::Sled)
    }

    /// Unconditionally increment the counter by one and report the new
    /// value. The last-click stamp is left untouched.
    pub fn increment_week(&mut self) -> (r: Result<u64, DbError>)
        ensures
            final(self).click_view() == old(self).click_view(),
            r matches Ok(n) ==> (counter_steps(*old(self), *final(self), None) && count_matches(
                *old(self),
                n,
            )),
            r is Err ==> (r.unwrap_err() == DbError::Sled || r.unwrap_err() == DbError::Bincode),
            r == Err::<u64, DbError>(DbError::Bincode) ==> (old(self).has_record() && !old(self).record_decodes()),
            old(self).wf_week() ==> final(self).wf_week(),
    {
        self.increment_week_core(None)
    }

    /// Conditionally increment the counter for a visit by `ip` at time
    /// `now`: if the identity's stored marker is of the same UTC calendar
    /// date as `now`, nothing changes and the visit is not counted;
    /// otherwise the counter is incremented (stamping `now`) and the
    /// identity's marker is set to `now`. The marker write is best effort:
    /// its failure does not undo the counted visit.
    pub fn increment_week_with_ip_check_at(&mut self, ip: &str, now: i64) -> (r: Result<
        bool,
        DbError,
    >)
        requires
            marker_timestamp_in_range(now),
        ensures
            (forall|p: i64|
                marker_timestamp_in_range(p) && old(self).visit_is(ip@, p) && spec_same_utc_day(
                    p,
                    now,
                ) ==> (r is Err || r == Ok::<bool, DbError>(false))),
            (forall|p: i64|
                marker_timestamp_in_range(p) && old(self).visit_is(ip@, p) && r == Ok::<
                    bool,
                    DbError,
                >(false) ==> spec_same_utc_day(p, now)),
            r == Ok::<bool, DbError>(false) ==> final(self).unchanged_from(*old(self)),
            r == Ok::<bool, DbError>(true) ==> (counter_steps(*old(self), *final(self), Some(now))
                && (final(self).click_view() == old(self).click_view().insert(
                ip@,
                rfc3339_bytes(now),
            ) || final(self).click_view() == old(self).click_view())),
            r is Ok && old(self).no_visit(ip@) ==> r == Ok::<bool, DbError>(true),
            (forall|p: i64|
                marker_timestamp_in_range(p) && old(self).visit_is(ip@, p) && !spec_same_utc_day(
                    p,
                    now,
                ) && r is Ok ==> r == Ok::<bool, DbError>(true)),
            r is Err ==> final(self).click_view() == old(self).click_view(),
            r is Err ==> (r.unwrap_err() == DbError::Sled || r.unwrap_err() == DbError::Bincode
                || r.unwrap_err() == DbError::Utf8 || r.unwrap_err() == DbError::DateParse),
            r == Err::<bool, DbError>(DbError::Bincode) ==> (old(self).has_record() && !old(self).record_decodes()),
            (r == Err::<bool, DbError>(DbError::Utf8) || r == Err::<bool, DbError>(
                DbError::DateParse,
            )) ==> !old(self).no_visit(ip@),
            old(self).wf_week() ==> final(self).wf_week(),
    {
        let marker = match tree_get(&self.click_tree, ip) {
            Ok(v) => v,
            Err(_) => {
                return Err(DbError::Sled);
            },
        };
        match &marker {
            None => {},
            Some(bytes) => {
                let prev = match parse_marker(bytes) {
                    Ok(p) => p,
                    Err(e) => {
                        return Err(e);
                    },
                };
                if same_utc_day(prev, now) {
                    return Ok(false);
                }
            },
        }
        match self.increment_week_core(Some(now)) {
            Ok(_) => {},
            Err(e) => {
                return Err(e);
            },
        }
        let marker_bytes = format_marker(now);
        match tree_insert(&mut self.click_tree, ip, &marker_bytes) {
            Ok(_) => {},
            Err(_) => {},
        }
        Ok(true)
    }

    /// Conditionally increment the counter for a visit by `ip` happening
    /// now, by the clock.
    pub fn increment_week_with_ip_check(&mut self, ip: &str) -> (r: Result<bool, DbError>)
        ensures
            r == Ok::<bool, DbError>(false) ==> final(self).unchanged_from(*old(self)),
            r == Ok::<bool, DbError>(true) ==> (exists|now: i64|
                marker_timestamp_in_range(now) && counter_steps(*old(self), *final(self), Some(now))
                    && (final(self).click_view() == old(self).click_view().insert(
                    ip@,
                    rfc3339_bytes(now),
                ) || final(self).click_view() == old(self).click_view())),
            r is Ok && old(self).no_visit(ip@) ==> r == Ok::<bool, DbError>(true),
            r is Err ==> final(self).click_view() == old(self).click_view(),
            old(self).wf_week() ==> final(self).wf_week(),
    {
        let now = now_timestamp();
        if now < crate::clock::MIN_MARKER_TIMESTAMP || now > crate::clock::MAX_MARKER_TIMESTAMP {
            return Err(DbError::DateParse);
        }
        self.increment_week_with_ip_check_at(ip, now)
    }

    /// Delete the counter record (the visit markers are left intact), and
    /// force the deletion onto the storage medium.
    pub fn reset_weeks(&mut self) -> (r: Result<(), DbError>)
        ensures
            final(self).click_view() == old(self).click_view(),
            r is Ok ==> !final(self).has_record(),
            r is Err ==> r.unwrap_err() == DbError::Sled,
            r is Err ==> (final(self).week_view() == old(self).week_view() || !final(self).has_record()),
            old(self).wf_week() ==> final(self).wf_week(),
    {
        match tree_remove(&mut self.week_tree, "current_week") {
            Ok(_) => {},
            Err(_) => {
                return Err(DbError::Sled);
            },
        }
        match tree_flush(&self.week_tree) {
            Ok(_) => Ok(()),
            Err(_) => Err(DbError::Sled),
        }
    }

    /// Force pending counter writes onto the storage medium.
    pub fn flush(&self) -> (r: Result<(), DbError>)
        ensures
            r is Err ==> r.unwrap_err() == DbError::Sled,
    {
        match tree_flush(&self.week_tree) {
            Ok(_) => Ok(()),
            Err(_) => Err(DbError::Sled),
        }
    }
}

} // verus!
