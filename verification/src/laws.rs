//! Laws of the counter store, stated over the same spec functions its
//! operation contracts use and proved once for all inputs.

use vstd::prelude::*;
use crate::codec::week_data_bytes;
use crate::dates::spec_same_utc_day;
use crate::record::{spec_step_count, WeekData};
use crate::store::{week_key, Database};

verus! {

/// The counter after `n` accepted unconditional increments starting from
/// `c`.
pub open spec fn spec_count_after_increments(c: u64, n: nat) -> u64
    decreases n,
{
    if n == 0 {
        c
    } else {
        spec_step_count(spec_count_after_increments(c, (n - 1) as nat))
    }
}

/// Each accepted unconditional increment moves the stored count up by
/// exactly one (see Database::increment_week), and the engine's
/// compare-and-swap admits the concurrent increments one at a time; so
/// `n` increments against a counter at `c` leave it at exactly `c + n`,
/// whenever that fits the counter's type.
pub proof fn lemma_increments_add_up(c: u64, n: nat)
    requires
        c + n <= u64::MAX,
    ensures
        spec_count_after_increments(c, n) == c + n,
    decreases n,
{
    if n > 0 {
        lemma_increments_add_up(c, (n - 1) as nat);
    }
}

/// Whether a conditional increment is accepted, given the identity's last
/// accepted visit (if any) and the current time: the identity has not
/// visited yet, or last visited on another UTC calendar date.
pub open spec fn spec_gate_open(prev: Option<i64>, now: i64) -> bool {
    match prev {
        None => true,
        Some(p) => !spec_same_utc_day(p, now),
    }
}

/// One conditional increment against the model state: the map of last
/// accepted visits and the counter. Yields the new visits, the new
/// counter, and whether the visit was counted.
pub open spec fn spec_conditional_step(
    visits: Map<Seq<char>, i64>,
    count: u64,
    id: Seq<char>,
    now: i64,
) -> (Map<Seq<char>, i64>, u64, bool) {
    let prev = if visits.dom().contains(id) {
        Some(visits[id])
    } else {
        None
    };
    if spec_gate_open(prev, now) {
        (visits.insert(id, now), spec_step_count(count), true)
    } else {
        (visits, count, false)
    }
}

/// Two conditional increments by one identity within one UTC calendar day
/// count at most once: if the first visit was counted, a second on the
/// same date is not, and over the two calls the counter moves at most one
/// step.
pub proof fn lemma_same_day_counted_once(
    visits: Map<Seq<char>, i64>,
    count: u64,
    id: Seq<char>,
    t1: i64,
    t2: i64,
)
    requires
        spec_same_utc_day(t1, t2),
    ensures
        ({
            let s1 = spec_conditional_step(visits, count, id, t1);
            let s2 = spec_conditional_step(s1.0, s1.1, id, t2);
            &&& s1.2 ==> !s2.2
            &&& s1.2 ==> s2.1 == spec_step_count(count)
            &&& s2.1 <= count + 1
        }),
{
}

/// A conditional increment on a later UTC calendar date is counted again:
/// after a counted visit at `t1`, a call at `t2` on another date is
/// counted too, and the counter has then moved exactly two steps.
pub proof fn lemma_next_day_counted_again(
    visits: Map<Seq<char>, i64>,
    count: u64,
    id: Seq<char>,
    t1: i64,
    t2: i64,
)
    requires
        !spec_same_utc_day(t1, t2),
    ensures
        ({
            let s1 = spec_conditional_step(visits, count, id, t1);
            let s2 = spec_conditional_step(s1.0, s1.1, id, t2);
            s1.2 ==> (s2.2 && s2.1 == spec_step_count(spec_step_count(count)))
        }),
{
}

/// The value get_week_count is pinned to and the record get_week_data is
/// pinned to agree on the count: both come from the same stored record.
pub proof fn lemma_count_matches_record(s: Database, c: u64, d: WeekData)
    requires
        s.wf_week(),
        s.count_ok(c),
        s.record_ok(d),
    ensures
        c == d.week_count,
{
    if s.has_record() {
        let (c2, t2): (u64, Option<i64>) = choose|c2: u64, t2: Option<i64>|
            s.week_view()[week_key()] == week_data_bytes(c2, t2);
        assert(s.record_is(c2, t2));
    }
}

/// Once the counter record is gone — as after a successful reset — the
/// stored state pins the counter to zero, which is what get_week_count
/// then reads.
pub proof fn lemma_reset_reads_zero(s: Database)
    requires
        !s.has_record(),
    ensures
        s.count_ok(0),
{
}

} // verus!
