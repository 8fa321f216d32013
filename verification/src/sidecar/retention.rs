//! Age-based garbage collection of the JSON sidecar: which rows a retention
//! policy expires, what a purge leaves, and the laws it keeps (the current
//! temporal version is never purged; counted plus kept is everything).

use vstd::prelude::*;

use crate::clock::spec_parse_rfc3339;
use crate::sidecar::json::{LineageRowV, ProvRowV, SidecarV, TempRowV};

verus! {

/// Seconds in a day.
pub const SECS_PER_DAY: i64 = 86400;

/// The instant `days` days before `now`, as exact integers.
pub open spec fn cutoff_of(now: (i64, u32), days: u32) -> (int, int) {
    (now.0 - days * SECS_PER_DAY, now.1 as int)
}

/// The timestamp parses and is strictly before `cutoff`. Text that does
/// not parse is never older (never purged).
pub open spec fn older_than(ts: Seq<char>, cutoff: (int, int)) -> bool {
    match spec_parse_rfc3339(ts) {
        Some(x) => x.0 < cutoff.0 || (x.0 == cutoff.0 && x.1 < cutoff.1),
        None => false,
    }
}

/// A provenance entry older than the cutoff.
pub open spec fn prov_expired(r: ProvRowV, c: (int, int)) -> bool {
    older_than(r.timestamp, c)
}

/// A superseded temporal version that became valid before the cutoff.
pub open spec fn temp_expired(r: TempRowV, c: (int, int)) -> bool {
    r.valid_to is Some && older_than(r.valid_from, c)
}

/// A lineage edge created before the cutoff.
pub open spec fn lineage_expired(r: LineageRowV, c: (int, int)) -> bool {
    older_than(r.created_at, c)
}

/// The rows of `s` that `purge` does not select, in order.
pub open spec fn keep_where<A>(s: Seq<A>, purge: spec_fn(A) -> bool) -> Seq<A>
    decreases s.len(),
{
    if s.len() == 0 {
        Seq::empty()
    } else {
        let r = keep_where(s.drop_last(), purge);
        if purge(s.last()) {
            r
        } else {
            r.push(s.last())
        }
    }
}

/// How many rows of `s` `purge` selects.
pub open spec fn count_where<A>(s: Seq<A>, purge: spec_fn(A) -> bool) -> nat
    decreases s.len(),
{
    if s.len() == 0 {
        0
    } else {
        count_where(s.drop_last(), purge) + if purge(s.last()) {
            1nat
        } else {
            0nat
        }
    }
}

/// The purge predicates of a retention policy at `now` (`0` days keeps
/// everything).
pub open spec fn prov_purge(days: u32, now: (i64, u32)) -> spec_fn(ProvRowV) -> bool {
    |r: ProvRowV| days > 0 && prov_expired(r, cutoff_of(now, days))
}

/// See [`prov_purge`].
pub open spec fn temp_purge(days: u32, now: (i64, u32)) -> spec_fn(TempRowV) -> bool {
    |r: TempRowV| days > 0 && temp_expired(r, cutoff_of(now, days))
}

/// See [`prov_purge`].
pub open spec fn lineage_purge(days: u32, now: (i64, u32)) -> spec_fn(LineageRowV) -> bool {
    |r: LineageRowV| days > 0 && lineage_expired(r, cutoff_of(now, days))
}

/// The sidecar after a purge (unchanged on a dry run).
pub open spec fn purged(
    d: SidecarV,
    prov_days: u32,
    temp_days: u32,
    lineage_days: u32,
    now: (i64, u32),
    dry_run: bool,
) -> SidecarV {
    if dry_run {
        d
    } else {
        SidecarV {
            log: keep_where(d.log, prov_purge(prov_days, now)),
            temporal: keep_where(d.temporal, temp_purge(temp_days, now)),
            lineage: keep_where(d.lineage, lineage_purge(lineage_days, now)),
            ..d
        }
    }
}

/// Kept and counted rows together are all the rows.
pub proof fn law_kept_plus_counted<A>(s: Seq<A>, purge: spec_fn(A) -> bool)
    ensures
        keep_where(s, purge).len() + count_where(s, purge) == s.len(),
    decreases s.len(),
{
    if s.len() > 0 {
        law_kept_plus_counted(s.drop_last(), purge);
    }
}

/// Every row `purge` does not select is kept.
pub proof fn law_unselected_rows_kept<A>(s: Seq<A>, purge: spec_fn(A) -> bool, i: int)
    requires
        0 <= i < s.len(),
        !purge(s[i]),
    ensures
        keep_where(s, purge).contains(s[i]),
    decreases s.len(),
{
    if i == s.len() - 1 {
        assert(keep_where(s, purge).last() == s[i]);
    } else {
        law_unselected_rows_kept(s.drop_last(), purge, i);
        assert(s.drop_last()[i] == s[i]);
        let r = keep_where(s.drop_last(), purge);
        let k = choose|k: int| 0 <= k < r.len() && r[k] == s[i];
        if !purge(s.last()) {
            assert(r.push(s.last())[k] == s[i]);
        }
    }
}

/// Every kept row was a row that `purge` does not select.
pub proof fn law_kept_rows_unselected<A>(s: Seq<A>, purge: spec_fn(A) -> bool, k: int)
    requires
        0 <= k < keep_where(s, purge).len(),
    ensures
        s.contains(keep_where(s, purge)[k]),
        !purge(keep_where(s, purge)[k]),
    decreases s.len(),
{
    let r = keep_where(s.drop_last(), purge);
    if k < r.len() {
        law_kept_rows_unselected(s.drop_last(), purge, k);
        let j = choose|j: int| 0 <= j < s.drop_last().len() && s.drop_last()[j] == r[k];
        assert(s[j] == r[k]);
    } else {
        assert(s[s.len() - 1] == s.last());
    }
}

/// Garbage collection never purges the current version of anything: every
/// temporal row without `valid_to` survives a purge.
pub proof fn law_gc_keeps_current_versions(
    d: SidecarV,
    prov_days: u32,
    temp_days: u32,
    lineage_days: u32,
    now: (i64, u32),
    dry_run: bool,
    i: int,
)
    requires
        0 <= i < d.temporal.len(),
        d.temporal[i].valid_to is None,
    ensures
        purged(d, prov_days, temp_days, lineage_days, now, dry_run).temporal.contains(
            d.temporal[i],
        ),
{
    if dry_run {
        assert(d.temporal[i] == d.temporal[i]);
    } else {
        law_unselected_rows_kept(d.temporal, temp_purge(temp_days, now), i);
    }
}

/// A retention of `0` days purges nothing from that table.
pub proof fn law_zero_retention_keeps_all<A>(s: Seq<A>, purge: spec_fn(A) -> bool)
    requires
        forall|r: A| !#[trigger] purge(r),
    ensures
        keep_where(s, purge) == s,
        count_where(s, purge) == 0,
    decreases s.len(),
{
    if s.len() > 0 {
        law_zero_retention_keeps_all(s.drop_last(), purge);
        assert(s.drop_last().push(s.last()) =~= s);
    }
}

} // verus!
