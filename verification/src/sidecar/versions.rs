//! The temporal-version model of the JSON sidecar: what an append, a read
//! and a rollback mean over the rows of `verisimdb_temporal_versions`, and
//! the laws they keep (versions only grow, exactly one current version).

use vstd::prelude::*;

use crate::abi::opt_string_view;
use crate::clock::{instant_before, instant_le, instant_lt, parse_rfc3339, spec_parse_rfc3339};
use crate::sidecar::json::{temporal_view, SidecarData, SidecarV, TempRowV, TemporalRow};
use crate::order::{insert_sorted_unique, strictly_sorted, views_of};
use crate::text::str_eq;

verus! {

/// The row belongs to `(e, t)`.
pub open spec fn same_key(r: TempRowV, e: Seq<char>, t: Seq<char>) -> bool {
    r.entity_id == e && r.table_name == t
}

/// The row is the current version of `(e, t)` (not superseded).
pub open spec fn is_current_of(r: TempRowV, e: Seq<char>, t: Seq<char>) -> bool {
    same_key(r, e, t) && r.valid_to is None
}

/// Highest version recorded for `(e, t)`, `0` when there is none.
pub open spec fn max_version(rows: Seq<TempRowV>, e: Seq<char>, t: Seq<char>) -> nat
    decreases rows.len(),
{
    if rows.len() == 0 {
        0
    } else {
        let m = max_version(rows.drop_last(), e, t);
        if same_key(rows.last(), e, t) && rows.last().version > m {
            rows.last().version as nat
        } else {
            m
        }
    }
}

/// Supersede the current version(s) of `(e, t)` at `now`.
pub open spec fn close_current(rows: Seq<TempRowV>, e: Seq<char>, t: Seq<char>, now: Seq<char>) -> Seq<
    TempRowV,
> {
    rows.map_values(
        |r: TempRowV|
            if is_current_of(r, e, t) {
                TempRowV { valid_to: Some(now), ..r }
            } else {
                r
            },
    )
}

/// Outcome of appending a version of `(e, t)` stamped `now`: the previous
/// current row is closed at `now` and the new row, numbered one past the
/// highest version so far, becomes current. Returns the new version.
pub open spec fn append_version(
    d: SidecarV,
    e: Seq<char>,
    t: Seq<char>,
    snapshot: Seq<char>,
    operation: Seq<char>,
    now: Seq<char>,
) -> (SidecarV, nat) {
    let v = max_version(d.temporal, e, t) + 1;
    let row = TempRowV {
        entity_id: e,
        table_name: t,
        version: v as u64,
        valid_from: now,
        valid_to: None,
        snapshot,
        operation,
    };
    (SidecarV { temporal: close_current(d.temporal, e, t, now).push(row), ..d }, v)
}

/// Snapshot of the first current row of `(e, t)`, in table order.
pub open spec fn current_snapshot(rows: Seq<TempRowV>, e: Seq<char>, t: Seq<char>) -> Option<
    Seq<char>,
>
    decreases rows.len(),
{
    if rows.len() == 0 {
        None
    } else if is_current_of(rows[0], e, t) {
        Some(rows[0].snapshot)
    } else {
        current_snapshot(rows.drop_first(), e, t)
    }
}

/// The row was the live version at instant `at`: its `valid_from` parses
/// and is at or before `at`, and it was not yet superseded (no `valid_to`,
/// or one that parses and is after `at`).
pub open spec fn valid_at(r: TempRowV, at: (i64, u32)) -> bool {
    &&& spec_parse_rfc3339(r.valid_from) matches Some(from) && instant_le(from, at)
    &&& match r.valid_to {
        None => true,
        Some(to) => spec_parse_rfc3339(to) matches Some(x) && instant_lt(at, x),
    }
}

/// Among the rows of `(e, t)` valid at `at`, the one with the highest
/// version (the last of them in table order on a tie).
pub open spec fn best_at(rows: Seq<TempRowV>, e: Seq<char>, t: Seq<char>, at: (i64, u32)) -> Option<
    TempRowV,
>
    decreases rows.len(),
{
    if rows.len() == 0 {
        None
    } else {
        let b = best_at(rows.drop_last(), e, t, at);
        let r = rows.last();
        if same_key(r, e, t) && valid_at(r, at) {
            match b {
                None => Some(r),
                Some(x) => if r.version >= x.version {
                    Some(r)
                } else {
                    b
                },
            }
        } else {
            b
        }
    }
}

/// Snapshot of `(e, t)` as of instant `at`.
pub open spec fn snapshot_at(rows: Seq<TempRowV>, e: Seq<char>, t: Seq<char>, at: (i64, u32)) -> Option<
    Seq<char>,
> {
    match best_at(rows, e, t, at) {
        Some(r) => Some(r.snapshot),
        None => None,
    }
}

/// Snapshot of the first row of `(e, t)` with version `v`, in table order.
pub open spec fn version_snapshot(rows: Seq<TempRowV>, e: Seq<char>, t: Seq<char>, v: u64) -> Option<
    Seq<char>,
>
    decreases rows.len(),
{
    if rows.len() == 0 {
        None
    } else if same_key(rows[0], e, t) && rows[0].version == v {
        Some(rows[0].snapshot)
    } else {
        version_snapshot(rows.drop_first(), e, t, v)
    }
}

/// Per `(entity, table)`, versions strictly increase in table order and at
/// most one row is current.
pub open spec fn temporal_wf(rows: Seq<TempRowV>) -> bool {
    &&& forall|i: int, j: int|
        0 <= i < j < rows.len() && (#[trigger] rows[i]).entity_id == (#[trigger] rows[j]).entity_id
            && rows[i].table_name == rows[j].table_name ==> rows[i].version < rows[j].version
    &&& forall|i: int, j: int|
        0 <= i < j < rows.len() && (#[trigger] rows[i]).entity_id == (#[trigger] rows[j]).entity_id
            && rows[i].table_name == rows[j].table_name ==> !(rows[i].valid_to is None
            && rows[j].valid_to is None)
}

/// The table names of `(table, version)` pairs.
pub open spec fn table_names(v: Seq<(String, u64)>) -> Seq<Seq<char>> {
    v.map_values(|p: (String, u64)| p.0@)
}

/// Every version of `(e, t)` is at most the highest.
pub proof fn lemma_max_version_bound(rows: Seq<TempRowV>, e: Seq<char>, t: Seq<char>, i: int)
    requires
        0 <= i < rows.len(),
        same_key(rows[i], e, t),
    ensures
        rows[i].version <= max_version(rows, e, t),
    decreases rows.len(),
{
    if i < rows.len() - 1 {
        lemma_max_version_bound(rows.drop_last(), e, t, i);
        assert(rows.drop_last()[i] == rows[i]);
    }
}

proof fn lemma_current_snapshot_last(rows: Seq<TempRowV>, e: Seq<char>, t: Seq<char>)
    requires
        rows.len() > 0,
        is_current_of(rows.last(), e, t),
        forall|i: int| 0 <= i < rows.len() - 1 ==> !is_current_of(#[trigger] rows[i], e, t),
    ensures
        current_snapshot(rows, e, t) == Some(rows.last().snapshot),
    decreases rows.len(),
{
    if rows.len() > 1 {
        assert(!is_current_of(rows[0], e, t));
        let rest = rows.drop_first();
        assert forall|i: int| 0 <= i < rest.len() - 1 implies !is_current_of(
            #[trigger] rest[i],
            e,
            t,
        ) by {
            assert(rest[i] == rows[i + 1]);
        }
        assert(rest.last() == rows.last());
        lemma_current_snapshot_last(rest, e, t);
    }
}

/// Appending a version keeps the versions of every `(entity, table)`
/// strictly increasing with at most one current row; the new version is
/// one past every earlier version of `(e, t)`, and it is the current one.
pub proof fn law_append_version_keeps_wf(
    d: SidecarV,
    e: Seq<char>,
    t: Seq<char>,
    snapshot: Seq<char>,
    operation: Seq<char>,
    now: Seq<char>,
)
    requires
        temporal_wf(d.temporal),
        max_version(d.temporal, e, t) < u64::MAX,
    ensures
        ({
            let (nd, v) = append_version(d, e, t, snapshot, operation, now);
            &&& temporal_wf(nd.temporal)
            &&& forall|i: int|
                0 <= i < d.temporal.len() && same_key(#[trigger] d.temporal[i], e, t)
                    ==> d.temporal[i].version < v
            &&& current_snapshot(nd.temporal, e, t) == Some(snapshot)
            &&& forall|i: int|
                0 <= i < nd.temporal.len() && is_current_of(#[trigger] nd.temporal[i], e, t) ==> i
                    == nd.temporal.len() - 1
        }),
{
    let (nd, v) = append_version(d, e, t, snapshot, operation, now);
    let old_rows = d.temporal;
    let closed = close_current(old_rows, e, t, now);
    let rows = nd.temporal;
    let n = old_rows.len();
    assert(rows == closed.push(rows.last()));
    assert forall|i: int| 0 <= i < n implies #[trigger] rows[i] == closed[i] by {}
    assert forall|i: int|
        0 <= i < n && same_key(#[trigger] old_rows[i], e, t) implies old_rows[i].version < v by {
        lemma_max_version_bound(old_rows, e, t, i);
    }
    assert forall|i: int, j: int|
        0 <= i < j < rows.len() && (#[trigger] rows[i]).entity_id == (#[trigger] rows[j]).entity_id
            && rows[i].table_name == rows[j].table_name implies rows[i].version
        < rows[j].version by {
        assert(rows[i].version == old_rows[i].version);
        if j < n {
            assert(rows[j].version == old_rows[j].version);
        } else {
            lemma_max_version_bound(old_rows, e, t, i);
        }
    }
    assert forall|i: int, j: int|
        0 <= i < j < rows.len() && (#[trigger] rows[i]).entity_id == (#[trigger] rows[j]).entity_id
            && rows[i].table_name == rows[j].table_name implies !(rows[i].valid_to is None
        && rows[j].valid_to is None) by {
        if j < n {
            assert(rows[i] == closed[i]);
            assert(rows[j] == closed[j]);
        } else {
            assert(rows[i] == closed[i]);
        }
    }
    assert forall|i: int| 0 <= i < rows.len() - 1 implies !is_current_of(#[trigger] rows[i], e, t) by {
        assert(rows[i] == closed[i]);
    }
    lemma_current_snapshot_last(rows, e, t);
}

/// Some row of the first `n` has entity `e`.
pub open spec fn entity_before(rows: Seq<TempRowV>, e: Seq<char>, n: int) -> bool {
    exists|k: int| 0 <= k < n && rows[k].entity_id == e
}

/// Some row of the first `n` belongs to `(e, t)`.
pub open spec fn table_before(rows: Seq<TempRowV>, e: Seq<char>, t: Seq<char>, n: int) -> bool {
    exists|k: int| 0 <= k < n && same_key(rows[k], e, t)
}

proof fn lemma_entity_before_step(rows: Seq<TempRowV>, e: Seq<char>, i: int)
    requires
        0 <= i < rows.len(),
    ensures
        entity_before(rows, e, i + 1) == (entity_before(rows, e, i) || rows[i].entity_id == e),
{
    if entity_before(rows, e, i + 1) && rows[i].entity_id != e {
        let k = choose|k: int| 0 <= k < i + 1 && rows[k].entity_id == e;
        assert(k != i);
    }
    if rows[i].entity_id == e {
        assert(0 <= i < i + 1 && rows[i].entity_id == e);
    }
}

proof fn lemma_table_before_step(rows: Seq<TempRowV>, e: Seq<char>, t: Seq<char>, i: int)
    requires
        0 <= i < rows.len(),
    ensures
        table_before(rows, e, t, i + 1) == (table_before(rows, e, t, i) || same_key(rows[i], e, t)),
{
    if table_before(rows, e, t, i + 1) && !same_key(rows[i], e, t) {
        let k = choose|k: int| 0 <= k < i + 1 && same_key(rows[k], e, t);
        assert(k != i);
    }
    if same_key(rows[i], e, t) {
        assert(0 <= i < i + 1 && same_key(rows[i], e, t));
    }
}

/// Appending a version makes its snapshot the current one: a read of
/// `(e, t)` right after an append gives back what was appended.
pub proof fn law_read_current_after_append(
    d: SidecarV,
    e: Seq<char>,
    t: Seq<char>,
    snapshot: Seq<char>,
    operation: Seq<char>,
    now: Seq<char>,
)
    ensures
        current_snapshot(
            append_version(d, e, t, snapshot, operation, now).0.temporal,
            e,
            t,
        ) == Some(snapshot),
{
    let rows = append_version(d, e, t, snapshot, operation, now).0.temporal;
    let closed = close_current(d.temporal, e, t, now);
    assert forall|i: int| 0 <= i < rows.len() - 1 implies !is_current_of(#[trigger] rows[i], e, t) by {
        assert(rows[i] == closed[i]);
    }
    lemma_current_snapshot_last(rows, e, t);
}

/// A rollback to an existing version makes that version's snapshot the
/// current one again, under a new, higher version number.
pub proof fn law_rollback_restores_snapshot(
    d: SidecarV,
    e: Seq<char>,
    t: Seq<char>,
    target: u64,
    now: Seq<char>,
)
    requires
        version_snapshot(d.temporal, e, t, target) is Some,
    ensures
        ({
            let snap = version_snapshot(d.temporal, e, t, target)->Some_0;
            let (nd, v) = append_version(d, e, t, snap, "rollback"@, now);
            &&& current_snapshot(nd.temporal, e, t) == Some(snap)
            &&& v > target
        }),
{
    let snap = version_snapshot(d.temporal, e, t, target)->Some_0;
    law_read_current_after_append(d, e, t, snap, "rollback"@, now);
    lemma_version_snapshot_found(d.temporal, e, t, target);
    let i = choose|i: int| 0 <= i < d.temporal.len() && same_key(d.temporal[i], e, t) && d.temporal[i].version == target;
    lemma_max_version_bound(d.temporal, e, t, i);
}

proof fn lemma_version_snapshot_found(rows: Seq<TempRowV>, e: Seq<char>, t: Seq<char>, v: u64)
    requires
        version_snapshot(rows, e, t, v) is Some,
    ensures
        exists|i: int| 0 <= i < rows.len() && same_key(rows[i], e, t) && rows[i].version == v,
    decreases rows.len(),
{
    if !(same_key(rows[0], e, t) && rows[0].version == v) {
        lemma_version_snapshot_found(rows.drop_first(), e, t, v);
        let i = choose|i: int|
            0 <= i < rows.drop_first().len() && same_key(rows.drop_first()[i], e, t)
                && rows.drop_first()[i].version == v;
        assert(rows[i + 1] == rows.drop_first()[i]);
    } else {
        assert(same_key(rows[0], e, t) && rows[0].version == v);
    }
}

impl SidecarData {
    /// Highest version recorded for `(entity_id, table_name)` (`0` if none).
    pub(crate) fn max_version_exec(&self, entity_id: &str, table_name: &str) -> (r: u64)
        ensures
            r == max_version(self@.temporal, entity_id@, table_name@),
    {
        let rows = &self.temporal_versions;
        let ghost tv = self@.temporal;
        let n = rows.len();
        let mut m: u64 = 0;
        for i in 0..n
            invariant
                n == rows@.len(),
                tv == temporal_view(rows@),
                m == max_version(tv.take(i as int), entity_id@, table_name@),
        {
            assert(tv.take(i + 1).drop_last() == tv.take(i as int));
            assert(tv[i as int] == rows@[i as int]@);
            if str_eq(rows[i].entity_id.as_str(), entity_id) && str_eq(
                rows[i].table_name.as_str(),
                table_name,
            ) && rows[i].version > m {
                m = rows[i].version;
            }
        }
        assert(tv.take(n as int) == tv);
        m
    }

    /// Current snapshot of `(entity_id, table_name)`, if any.
    pub fn read_current(&self, entity_id: &str, table_name: &str) -> (r: Option<String>)
        ensures
            opt_string_view(r) == current_snapshot(
                self@.temporal,
                entity_id@,
                table_name@,
            ),
    {
        let rows = &self.temporal_versions;
        let ghost tv = self@.temporal;
        let n = rows.len();
        assert(tv.skip(0) == tv);
        for i in 0..n
            invariant
                n == rows@.len(),
                tv == temporal_view(rows@),
                tv == self@.temporal,
                current_snapshot(tv, entity_id@, table_name@) == current_snapshot(
                    tv.skip(i as int),
                    entity_id@,
                    table_name@,
                ),
        {
            assert(tv.skip(i as int)[0] == rows@[i as int]@);
            assert(tv.skip(i as int).drop_first() == tv.skip(i + 1));
            if str_eq(rows[i].entity_id.as_str(), entity_id) && str_eq(
                rows[i].table_name.as_str(),
                table_name,
            ) && rows[i].valid_to.is_none() {
                assert(is_current_of(tv.skip(i as int)[0], entity_id@, table_name@));
                let r = rows[i].snapshot.clone();
                assert(current_snapshot(tv.skip(i as int), entity_id@, table_name@) == Some(r@));
                return Some(r);
            }
        }
        None
    }

    /// Whether a row was live at instant `at`.
    pub(crate) fn row_valid_at(row: &TemporalRow, at: (i64, u32)) -> (r: bool)
        ensures
            r == valid_at(row@, at),
    {
        let from_ok = match parse_rfc3339(row.valid_from.as_str()) {
            Some(f) => !instant_before(at, f),
            None => false,
        };
        let to_ok = match &row.valid_to {
            None => true,
            Some(s) => match parse_rfc3339(s.as_str()) {
                Some(x) => instant_before(at, x),
                None => false,
            },
        };
        from_ok && to_ok
    }

    /// Snapshot of `(entity_id, table_name)` as it stood at instant `at`
    /// (seconds and nanoseconds since the Unix epoch): the rows with
    /// `valid_from <= at` and no `valid_to` or one after `at`, the highest
    /// version winning. `None` if the entity did not exist then.
    pub fn read_at(&self, entity_id: &str, table_name: &str, at: (i64, u32)) -> (r: Option<String>)
        ensures
            opt_string_view(r) == snapshot_at(
                self@.temporal,
                entity_id@,
                table_name@,
                at,
            ),
    {
        let rows = &self.temporal_versions;
        let ghost tv = self@.temporal;
        let n = rows.len();
        let mut best: Option<usize> = None;
        for i in 0..n
            invariant
                n == rows@.len(),
                tv == temporal_view(rows@),
                match best {
                    None => best_at(tv.take(i as int), entity_id@, table_name@, at) is None,
                    Some(b) => b < i && best_at(tv.take(i as int), entity_id@, table_name@, at)
                        == Some(tv[b as int]),
                },
        {
            assert(tv.take(i + 1).drop_last() == tv.take(i as int));
            assert(tv[i as int] == rows@[i as int]@);
            if str_eq(rows[i].entity_id.as_str(), entity_id) && str_eq(
                rows[i].table_name.as_str(),
                table_name,
            ) && Self::row_valid_at(&rows[i], at) {
                match best {
                    None => {
                        best = Some(i);
                    },
                    Some(b) => {
                        assert(tv[b as int] == rows@[b as int]@);
                        if rows[i].version >= rows[b].version {
                            best = Some(i);
                        }
                    },
                }
            }
        }
        assert(tv.take(n as int) == tv);
        match best {
            None => None,
            Some(b) => {
                assert(tv[b as int] == rows@[b as int]@);
                Some(rows[b].snapshot.clone())
            },
        }
    }

    /// Snapshot of the first row of `(entity_id, table_name)` with `version`.
    pub(crate) fn version_snapshot_exec(&self, entity_id: &str, table_name: &str, version: u64) -> (r: Option<
        String,
    >)
        ensures
            opt_string_view(r) == version_snapshot(
                self@.temporal,
                entity_id@,
                table_name@,
                version,
            ),
    {
        let rows = &self.temporal_versions;
        let ghost tv = self@.temporal;
        let n = rows.len();
        assert(tv.skip(0) == tv);
        for i in 0..n
            invariant
                n == rows@.len(),
                tv == temporal_view(rows@),
                tv == self@.temporal,
                version_snapshot(tv, entity_id@, table_name@, version) == version_snapshot(
                    tv.skip(i as int),
                    entity_id@,
                    table_name@,
                    version,
                ),
        {
            assert(tv.skip(i as int)[0] == rows@[i as int]@);
            assert(tv.skip(i as int).drop_first() == tv.skip(i + 1));
            if str_eq(rows[i].entity_id.as_str(), entity_id) && str_eq(
                rows[i].table_name.as_str(),
                table_name,
            ) && rows[i].version == version {
                let r = rows[i].snapshot.clone();
                assert(version_snapshot(tv.skip(i as int), entity_id@, table_name@, version) == Some(
                    r@,
                ));
                return Some(r);
            }
        }
        None
    }

    /// Entities that have at least one temporal version, de-duplicated and
    /// sorted.
    pub fn distinct_temporal_entities(&self) -> (r: Vec<String>)
        ensures
            strictly_sorted(views_of(r@)),
            forall|x: Seq<char>|
                #![trigger views_of(r@).to_set().contains(x)]
                #![trigger entity_before(self@.temporal, x, self@.temporal.len() as int)]
                views_of(r@).to_set().contains(x) <==> entity_before(
                    self@.temporal,
                    x,
                    self@.temporal.len() as int,
                ),
    {
        let rows = &self.temporal_versions;
        let ghost tv = self@.temporal;
        let n = rows.len();
        let mut seen: Vec<String> = Vec::new();
        for i in 0..n
            invariant
                n == rows@.len(),
                tv == temporal_view(rows@),
                strictly_sorted(views_of(seen@)),
                forall|x: Seq<char>|
                    #![trigger views_of(seen@).to_set().contains(x)]
                    #![trigger entity_before(tv, x, i as int)]
                    views_of(seen@).to_set().contains(x) <==> entity_before(tv, x, i as int),
        {
            assert(tv[i as int] == rows@[i as int]@);
            let ghost before = views_of(seen@).to_set();
            insert_sorted_unique(&mut seen, rows[i].entity_id.clone());
            assert forall|x: Seq<char>|
                #![trigger views_of(seen@).to_set().contains(x)]
                #![trigger entity_before(tv, x, i + 1)]
                views_of(seen@).to_set().contains(x) <==> entity_before(tv, x, i + 1) by {
                lemma_entity_before_step(tv, x, i as int);
                assert(before.contains(x) == entity_before(tv, x, i as int));
            }
        }
        seen
    }

    /// The tables under which `entity_id` is recorded, sorted, each with
    /// its highest version.
    pub fn latest_version_per_table(&self, entity_id: &str) -> (r: Vec<(String, u64)>)
        ensures
            strictly_sorted(table_names(r@)),
            forall|t: Seq<char>|
                #![trigger table_names(r@).to_set().contains(t)]
                #![trigger table_before(self@.temporal, entity_id@, t, self@.temporal.len() as int)]
                table_names(r@).to_set().contains(t) <==> table_before(
                    self@.temporal,
                    entity_id@,
                    t,
                    self@.temporal.len() as int,
                ),
            forall|k: int|
                0 <= k < r@.len() ==> (#[trigger] r@[k]).1 == max_version(
                    self@.temporal,
                    entity_id@,
                    r@[k].0@,
                ),
    {
        let rows = &self.temporal_versions;
        let ghost tv = self@.temporal;
        let n = rows.len();
        let mut tables: Vec<String> = Vec::new();
        for i in 0..n
            invariant
                n == rows@.len(),
                tv == temporal_view(rows@),
                strictly_sorted(views_of(tables@)),
                forall|t: Seq<char>|
                    #![trigger views_of(tables@).to_set().contains(t)]
                    #![trigger table_before(tv, entity_id@, t, i as int)]
                    views_of(tables@).to_set().contains(t) <==> table_before(
                        tv,
                        entity_id@,
                        t,
                        i as int,
                    ),
        {
            assert(tv[i as int] == rows@[i as int]@);
            let ghost before = views_of(tables@).to_set();
            if str_eq(rows[i].entity_id.as_str(), entity_id) {
                insert_sorted_unique(&mut tables, rows[i].table_name.clone());
            }
            assert forall|t: Seq<char>|
                #![trigger views_of(tables@).to_set().contains(t)]
                #![trigger table_before(tv, entity_id@, t, i + 1)]
                views_of(tables@).to_set().contains(t) <==> table_before(
                    tv,
                    entity_id@,
                    t,
                    i + 1,
                ) by {
                lemma_table_before_step(tv, entity_id@, t, i as int);
                assert(before.contains(t) == table_before(tv, entity_id@, t, i as int));
            }
        }
        let mut r: Vec<(String, u64)> = Vec::new();
        let m = tables.len();
        for j in 0..m
            invariant
                m == tables@.len(),
                tv == self@.temporal,
                r@.len() == j,
                forall|k: int| 0 <= k < j ==> (#[trigger] r@[k]).0@ == tables@[k]@,
                forall|k: int|
                    0 <= k < j ==> (#[trigger] r@[k]).1 == max_version(tv, entity_id@, r@[k].0@),
        {
            let v = self.max_version_exec(entity_id, tables[j].as_str());
            r.push((tables[j].clone(), v));
        }
        assert(table_names(r@) =~= views_of(tables@));
        r
    }

}

proof fn lemma_current_snapshot_agree(a: Seq<TempRowV>, b: Seq<TempRowV>, e: Seq<char>, t: Seq<char>)
    requires
        a.len() == b.len(),
        forall|i: int|
            0 <= i < a.len() ==> is_current_of(#[trigger] a[i], e, t) == is_current_of(b[i], e, t),
        forall|i: int| 0 <= i < a.len() && is_current_of(#[trigger] a[i], e, t) ==> a[i].snapshot == b[i].snapshot,
    ensures
        current_snapshot(a, e, t) == current_snapshot(b, e, t),
    decreases a.len(),
{
    if a.len() > 0 {
        assert(is_current_of(a[0], e, t) == is_current_of(b[0], e, t));
        let (a1, b1) = (a.drop_first(), b.drop_first());
        assert forall|i: int| 0 <= i < a1.len() implies is_current_of(#[trigger] a1[i], e, t)
            == is_current_of(b1[i], e, t) && (is_current_of(a1[i], e, t) ==> a1[i].snapshot == b1[i].snapshot) by {
            assert(a1[i] == a[i + 1] && b1[i] == b[i + 1]);
        }
        lemma_current_snapshot_agree(a1, b1, e, t);
    }
}

proof fn lemma_current_snapshot_push(a: Seq<TempRowV>, x: TempRowV, e: Seq<char>, t: Seq<char>)
    requires
        !is_current_of(x, e, t),
    ensures
        current_snapshot(a.push(x), e, t) == current_snapshot(a, e, t),
    decreases a.len(),
{
    if a.len() == 0 {
        assert(a.push(x)[0] == x);
        assert(a.push(x).drop_first() =~= Seq::<TempRowV>::empty());
        assert(current_snapshot(Seq::<TempRowV>::empty(), e, t) is None);
        assert(a =~= Seq::<TempRowV>::empty());
    } else {
        assert(a.push(x)[0] == a[0]);
        assert(a.push(x).drop_first() =~= a.drop_first().push(x));
        lemma_current_snapshot_push(a.drop_first(), x, e, t);
    }
}

/// Appending a version of `(e, t)` touches no other key: the rows of every
/// other (entity, table) stay as they were, in place; rows of `(e, t)`
/// keep their entity, table, version and snapshot (at most their end is
/// set); the one row added, last, is the new current version of `(e, t)`.
/// So the current snapshot of every other key is unchanged.
pub proof fn law_append_version_leaves_other_keys(
    d: SidecarV,
    e: Seq<char>,
    t: Seq<char>,
    snapshot: Seq<char>,
    operation: Seq<char>,
    now: Seq<char>,
    e2: Seq<char>,
    t2: Seq<char>,
)
    ensures
        ({
            let r = append_version(d, e, t, snapshot, operation, now).0.temporal;
            &&& r.len() == d.temporal.len() + 1
            &&& forall|i: int|
                0 <= i < d.temporal.len() && !(d.temporal[i].entity_id == e && d.temporal[i].table_name
                    == t) ==> #[trigger] r[i] == d.temporal[i]
            &&& forall|i: int|
                0 <= i < d.temporal.len() ==> (#[trigger] r[i]).entity_id == d.temporal[i].entity_id
                    && r[i].table_name == d.temporal[i].table_name && r[i].version == d.temporal[i].version
                    && r[i].snapshot == d.temporal[i].snapshot && r[i].valid_from == d.temporal[i].valid_from
            &&& r.last().entity_id == e && r.last().table_name == t && r.last().snapshot == snapshot
                && r.last().valid_to is None
            &&& (e2 != e || t2 != t) ==> current_snapshot(r, e2, t2) == current_snapshot(d.temporal, e2, t2)
        }),
{
    let r = append_version(d, e, t, snapshot, operation, now).0.temporal;
    let closed = close_current(d.temporal, e, t, now);
    assert(r == closed.push(r.last()));
    if e2 != e || t2 != t {
        assert forall|i: int| 0 <= i < closed.len() implies is_current_of(#[trigger] closed[i], e2, t2)
            == is_current_of(d.temporal[i], e2, t2) && (is_current_of(closed[i], e2, t2)
            ==> closed[i].snapshot == d.temporal[i].snapshot) by {}
        lemma_current_snapshot_agree(closed, d.temporal, e2, t2);
        lemma_current_snapshot_push(closed, r.last(), e2, t2);
    }
}

} // verus!
