//! `verisimiser gc` over the SQLite sidecar: which tables a retention
//! policy purges, the cutoff instant, the purge statements, and the
//! report. The statements are executed by the caller.

use vstd::prelude::*;

use crate::clock::{format_rfc3339, spec_format_rfc3339};
use crate::manifest::RetentionConfig;
use crate::sidecar::retention::cutoff_of;
use crate::text::{debug_str, push_str, spec_debug_str, string_from_chars};

verus! {

/// Rows purged per dimension by a gc run.
#[derive(Debug, Clone)]
pub struct GcReport {
    /// Sidecar path that was operated on.
    pub sidecar: String,
    /// `true` if no changes were applied (dry run).
    pub dry_run: bool,
    /// Rows deleted (or, on a dry run, that would be) from the provenance log.
    pub provenance_deleted: usize,
    /// Superseded temporal versions deleted; the current one is always kept.
    pub temporal_deleted: usize,
    /// Lineage edges deleted.
    pub lineage_deleted: usize,
}

impl Default for GcReport {
    fn default() -> (r: Self)
        ensures
            r.sidecar@ == Seq::<char>::empty(),
            !r.dry_run,
            r.provenance_deleted == 0,
            r.temporal_deleted == 0,
            r.lineage_deleted == 0,
    {
        GcReport {
            sidecar: String::new(),
            dry_run: false,
            provenance_deleted: 0,
            temporal_deleted: 0,
            lineage_deleted: 0,
        }
    }
}

impl GcReport {
    /// Total rows purged across all dimensions.
    pub fn total(&self) -> (r: usize)
        requires
            self.provenance_deleted + self.temporal_deleted + self.lineage_deleted <= usize::MAX,
        ensures
            r == self.provenance_deleted + self.temporal_deleted + self.lineage_deleted,
    {
        self.provenance_deleted + self.temporal_deleted + self.lineage_deleted
    }
}

/// The refusal of a storage other than SQLite.
pub open spec fn gc_storage_message(storage: Seq<char>) -> Seq<char> {
    "verisimiser gc currently only supports the SQLite sidecar backend; [sidecar].storage is "@
        + spec_debug_str(storage)
}

/// Only the SQLite sidecar can be collected; any other storage value
/// (compared exactly) is refused.
pub fn check_gc_storage(storage: &str) -> (r: Result<(), String>)
    ensures
        storage@ == "sqlite"@ <==> r is Ok,
        r matches Err(e) ==> e@ == gc_storage_message(storage@),
{
    if crate::text::str_eq(storage, "sqlite") {
        return Ok(());
    }
    let q = debug_str(storage);
    let mut buf: Vec<char> = Vec::new();
    push_str(
        &mut buf,
        "verisimiser gc currently only supports the SQLite sidecar backend; [sidecar].storage is ",
    );
    push_str(&mut buf, q.as_str());
    Err(string_from_chars(&buf))
}

/// One table a gc run purges.
#[derive(Debug, Clone, Copy, PartialEq, Eq, Structural)]
pub enum GcTable {
    /// `verisimdb_provenance_log`, by `timestamp`.
    Provenance,
    /// `verisimdb_temporal_versions`, by `valid_from`, superseded rows only.
    Temporal,
    /// `verisimdb_lineage_graph`, by `created_at`.
    Lineage,
}

impl GcTable {
    /// The table's name.
    pub open spec fn spec_table(self) -> &'static str {
        match self {
            GcTable::Provenance => "verisimdb_provenance_log",
            GcTable::Temporal => "verisimdb_temporal_versions",
            GcTable::Lineage => "verisimdb_lineage_graph",
        }
    }

    /// The timestamp column compared against the cutoff.
    pub open spec fn spec_ts_column(self) -> &'static str {
        match self {
            GcTable::Provenance => "timestamp",
            GcTable::Temporal => "valid_from",
            GcTable::Lineage => "created_at",
        }
    }

    /// Extra condition scoping the purge (the current temporal version is
    /// never purged).
    pub open spec fn spec_extra_where(self) -> Option<&'static str> {
        match self {
            GcTable::Temporal => Some("valid_to IS NOT NULL"),
            _ => None,
        }
    }

    /// The table's name.
    pub fn table(self) -> (r: &'static str)
        ensures
            r == self.spec_table(),
    {
        match self {
            GcTable::Provenance => "verisimdb_provenance_log",
            GcTable::Temporal => "verisimdb_temporal_versions",
            GcTable::Lineage => "verisimdb_lineage_graph",
        }
    }

    /// The timestamp column compared against the cutoff.
    pub fn ts_column(self) -> (r: &'static str)
        ensures
            r == self.spec_ts_column(),
    {
        match self {
            GcTable::Provenance => "timestamp",
            GcTable::Temporal => "valid_from",
            GcTable::Lineage => "created_at",
        }
    }

    /// Extra condition scoping the purge.
    pub fn extra_where(self) -> (r: Option<&'static str>)
        ensures
            r == self.spec_extra_where(),
    {
        match self {
            GcTable::Temporal => Some("valid_to IS NOT NULL"),
            _ => None,
        }
    }
}

/// The tables a retention policy purges, each with its bound in days, in
/// the order provenance, temporal, lineage; a bound of `0` keeps that
/// table forever.
pub open spec fn purge_plan(r: RetentionConfig) -> Seq<(GcTable, u32)> {
    (if r.provenance_days > 0 {
        seq![(GcTable::Provenance, r.provenance_days)]
    } else {
        Seq::empty()
    }) + (if r.temporal_days > 0 {
        seq![(GcTable::Temporal, r.temporal_days)]
    } else {
        Seq::empty()
    }) + (if r.lineage_days > 0 {
        seq![(GcTable::Lineage, r.lineage_days)]
    } else {
        Seq::empty()
    })
}

/// The tables to purge under `retention` (see [`purge_plan`]).
pub fn purge_targets(retention: &RetentionConfig) -> (r: Vec<(GcTable, u32)>)
    ensures
        r@ == purge_plan(*retention),
{
    let mut r: Vec<(GcTable, u32)> = Vec::new();
    if retention.provenance_days > 0 {
        r.push((GcTable::Provenance, retention.provenance_days));
    }
    if retention.temporal_days > 0 {
        r.push((GcTable::Temporal, retention.temporal_days));
    }
    if retention.lineage_days > 0 {
        r.push((GcTable::Lineage, retention.lineage_days));
    }
    assert(r@ =~= purge_plan(*retention));
    r
}

/// The statement counting (dry run) or deleting the rows of `table`
/// older than the bound parameter.
pub open spec fn purge_statement_text(table: GcTable, dry_run: bool) -> Seq<char> {
    let head = if dry_run {
        "SELECT COUNT(*) FROM "@
    } else {
        "DELETE FROM "@
    };
    let extra = match table.spec_extra_where() {
        Some(w) => " AND ("@ + w@ + ")"@,
        None => Seq::empty(),
    };
    head + table.spec_table()@ + " WHERE "@ + table.spec_ts_column()@ + " < ?"@ + extra
}

/// The purge statement for `table` (its one parameter is the cutoff).
pub fn purge_statement(table: GcTable, dry_run: bool) -> (r: String)
    ensures
        r@ == purge_statement_text(table, dry_run),
{
    let mut buf: Vec<char> = Vec::new();
    if dry_run {
        push_str(&mut buf, "SELECT COUNT(*) FROM ");
    } else {
        push_str(&mut buf, "DELETE FROM ");
    }
    push_str(&mut buf, table.table());
    push_str(&mut buf, " WHERE ");
    push_str(&mut buf, table.ts_column());
    push_str(&mut buf, " < ?");
    match table.extra_where() {
        Some(w) => {
            push_str(&mut buf, " AND (");
            push_str(&mut buf, w);
            push_str(&mut buf, ")");
        },
        None => {},
    }
    assert(buf@ =~= purge_statement_text(table, dry_run));
    string_from_chars(&buf)
}

/// The cutoff `days` days before `now`, rendered as RFC 3339 text; `None`
/// when that instant is outside what can be rendered.
pub fn purge_cutoff(now: (i64, u32), days: u32) -> (r: Option<String>)
    ensures
        match r {
            Some(t) => i64::MIN <= cutoff_of(now, days).0 && spec_format_rfc3339(
                cutoff_of(now, days).0 as i64,
                now.1,
            ) == Some(t@),
            None => cutoff_of(now, days).0 < i64::MIN || spec_format_rfc3339(
                cutoff_of(now, days).0 as i64,
                now.1,
            ) is None,
        },
{
    let secs: i128 = now.0 as i128 - days as i128 * 86400i128;
    if secs < i64::MIN as i128 {
        return None;
    }
    format_rfc3339(secs as i64, now.1)
}

} // verus!
