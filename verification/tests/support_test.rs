use verisimiser::gc::{check_gc_storage, purge_cutoff, purge_statement, purge_targets, GcReport, GcTable};
use verisimiser::intercept::sqlite::{default_entity_id, operation_for, HookAction};
use verisimiser::manifest::{OctadConfig, RetentionConfig};
use verisimiser::sidecar::codec::{ld_type_for, scaffold_dimensions, scaffold_tables, table_for_ld_type};
use verisimiser::sidecar::json::{ChainHead, ProvenanceRow, TemporalRow};
use verisimiser::sidecar::lock::{is_stale, lock_path, next_lock_step, timed_out_message, LockAttempt, LockStep};

#[test]
fn gc_rejects_non_sqlite_backend() {
    assert!(check_gc_storage("sqlite").is_ok());
    let err = check_gc_storage("json").unwrap_err();
    assert!(err.contains("only supports the SQLite sidecar backend"));
    assert!(err.ends_with("[sidecar].storage is \"json\""));
}

#[test]
fn gc_plan_skips_zero_retention() {
    let r = RetentionConfig { provenance_days: 30, temporal_days: 0, lineage_days: 7 };
    assert_eq!(purge_targets(&r), vec![(GcTable::Provenance, 30), (GcTable::Lineage, 7)]);
    assert!(purge_targets(&RetentionConfig::default()).is_empty());
}

#[test]
fn gc_statements_are_exact() {
    assert_eq!(
        purge_statement(GcTable::Temporal, true),
        "SELECT COUNT(*) FROM verisimdb_temporal_versions WHERE valid_from < ? AND (valid_to IS NOT NULL)"
    );
    assert_eq!(
        purge_statement(GcTable::Provenance, false),
        "DELETE FROM verisimdb_provenance_log WHERE timestamp < ?"
    );
}

#[test]
fn gc_cutoff_is_days_before_now() {
    let now = (1_600_000_000i64, 0u32);
    let c = purge_cutoff(now, 1).unwrap();
    let t = chrono::DateTime::parse_from_rfc3339(&c).unwrap();
    assert_eq!(t.timestamp(), 1_600_000_000 - 86_400);
}

#[test]
fn gc_report_total_sums_dimensions() {
    let r = GcReport { sidecar: "s".into(), dry_run: true, provenance_deleted: 1, temporal_deleted: 2, lineage_deleted: 3 };
    assert_eq!(r.total(), 6);
    assert_eq!(GcReport::default().total(), 0);
}

#[test]
fn hook_actions_map_to_operations() {
    assert_eq!(operation_for(HookAction::Insert), Some("insert"));
    assert_eq!(operation_for(HookAction::Update), Some("update"));
    assert_eq!(operation_for(HookAction::Delete), Some("delete"));
    assert_eq!(operation_for(HookAction::Other), None);
    assert_eq!(default_entity_id("users", -42), "-42");
    assert_eq!(default_entity_id("users", 7), "7");
}

#[test]
fn ld_types_round_trip() {
    for t in [
        "verisimdb_provenance_log",
        "verisimdb_provenance_chain_heads",
        "verisimdb_temporal_versions",
        "verisimdb_lineage_graph",
        "verisimdb_access_policies",
    ] {
        assert_eq!(table_for_ld_type(ld_type_for(t)).unwrap(), Some(t));
    }
    assert_eq!(ld_type_for("other"), "Thing");
    assert_eq!(table_for_ld_type("https://verisimdb.org/ns#LineageEdge").unwrap(), Some("verisimdb_lineage_graph"));
    assert_eq!(table_for_ld_type("verisimdb:Meta").unwrap(), None);
    assert_eq!(
        table_for_ld_type("Widget").unwrap_err(),
        "unknown JSON-LD @type \"Widget\" in sidecar @graph"
    );
}

#[test]
fn ld_ids_follow_the_urn_scheme() {
    let p = ProvenanceRow {
        hash: "abc".into(),
        previous_hash: "".into(),
        entity_id: "e1".into(),
        table_name: "users".into(),
        operation: "insert".into(),
        actor: "alice".into(),
        timestamp: "2026-01-01T00:00:00+00:00".into(),
        before_snapshot: None,
        transformation: None,
    };
    assert_eq!(p.ld_id(), "urn:verisimdb:provenance:abc");
    let h = ChainHead { entity_id: "e1".into(), head_hash: "abc".into() };
    assert_eq!(h.ld_id(), "urn:verisimdb:chain-head:e1:abc");
    let t = TemporalRow {
        entity_id: "e1".into(),
        table_name: "users".into(),
        version: 12,
        valid_from: "x".into(),
        valid_to: None,
        snapshot: "{}".into(),
        operation: "insert".into(),
    };
    assert_eq!(t.ld_id(), "urn:verisimdb:temporal:e1:users:12");
}

#[test]
fn scaffold_selection_follows_the_octad() {
    let d = OctadConfig::default();
    assert_eq!(
        scaffold_dimensions(&d),
        vec!["data", "metadata", "provenance", "lineage", "temporal", "access_control", "constraints"]
    );
    assert_eq!(
        scaffold_tables(&d),
        vec![
            "verisimdb_provenance_log",
            "verisimdb_provenance_chain_heads",
            "verisimdb_temporal_versions",
            "verisimdb_lineage_graph",
            "verisimdb_access_policies"
        ]
    );
}

#[test]
fn lock_steps_never_steal_a_live_lock() {
    assert_eq!(lock_path("/tmp/s.json"), "/tmp/s.json.lock");
    assert_eq!(next_lock_step(LockAttempt::Created, true, true), LockStep::Acquired);
    assert_eq!(next_lock_step(LockAttempt::AlreadyExists, true, false), LockStep::StealStale);
    assert_eq!(next_lock_step(LockAttempt::AlreadyExists, false, false), LockStep::Retry);
    assert_eq!(next_lock_step(LockAttempt::AlreadyExists, false, true), LockStep::TimedOut);
    assert_eq!(next_lock_step(LockAttempt::Failed, false, false), LockStep::Error);
    assert!(is_stale(Some((31, 0)), (30, 0)));
    assert!(!is_stale(Some((30, 0)), (30, 0)));
    assert!(!is_stale(None, (0, 0)));
    assert_eq!(
        timed_out_message("80ms", "/tmp/s.json.lock"),
        "timed out after 80ms acquiring sidecar lock /tmp/s.json.lock (another writer holds it)"
    );
}
