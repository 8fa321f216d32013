use verisimiser::manifest::RetentionConfig;
use verisimiser::sidecar::json::{JsonStore, LineageRow, ProvenanceError, ProvenanceRow, SidecarData, TemporalError, TemporalRow};
use verisimiser::sidecar::JsonFormat;

const FORMATS: [JsonFormat; 3] = [JsonFormat::Plain, JsonFormat::Ld, JsonFormat::Ndjson];

fn store(format: JsonFormat) -> JsonStore {
    JsonStore::from_data(format!("sidecar.{}", format.extension()), format, SidecarData::default())
}

fn instant(ts: &str) -> (i64, u32) {
    let t = chrono::DateTime::parse_from_rfc3339(ts).unwrap();
    (t.timestamp(), t.timestamp_subsec_nanos())
}

#[test]
fn provenance_genesis_and_sequential_chain_verifies() {
    for fmt in FORMATS {
        let mut s = store(fmt);
        let h1 = s.append_provenance("e1", "users", "insert", "alice", None, None).unwrap();
        let h2 = s.append_provenance("e1", "users", "update", "alice", Some("{\"n\":1}"), None).unwrap();
        let h3 = s.append_provenance("e1", "users", "delete", "bob", None, None).unwrap();
        assert_ne!(h1, h2);
        assert_ne!(h2, h3);
        assert_eq!(s.data().provenance_log[0].previous_hash, "");
        assert_eq!(s.head_set("e1"), vec![h3]);
        assert!(s.verify_chain("e1"), "fresh chain must verify ({fmt:?})");
    }
}

#[test]
fn provenance_tamper_is_detected() {
    let mut s = store(JsonFormat::Plain);
    s.append_provenance("e1", "users", "insert", "alice", None, None).unwrap();
    s.append_provenance("e1", "users", "update", "alice", None, None).unwrap();
    let mut data = s.data().clone();
    data.provenance_log[1].operation = "transform".to_string();
    let tampered = JsonStore::from_data(s.path().to_string(), s.format(), data);
    assert!(!tampered.verify_chain("e1"), "tampered entry must fail verification");
}

#[test]
fn provenance_fork_keeps_both_branches_and_verifies() {
    let mut s = store(JsonFormat::Ndjson);
    let genesis = s.append_provenance("e1", "users", "insert", "alice", None, None).unwrap();
    let _linear = s.append_provenance("e1", "users", "update", "alice", None, None).unwrap();
    let fork = s.append_provenance_fork("e1", "users", "update", "carol", None, None, &genesis).unwrap();
    let heads = s.head_set("e1");
    assert_eq!(heads.len(), 2);
    assert!(heads.contains(&fork));
    let points = s.fork_points("e1");
    assert_eq!(points.len(), 1);
    assert_eq!(points[0].predecessor, genesis);
    assert_eq!(points[0].children, 2);
    assert!(s.verify_chain("e1"), "both branches must verify");
}

#[test]
fn provenance_linear_append_on_forked_entity_is_ambiguous() {
    let mut s = store(JsonFormat::Plain);
    let genesis = s.append_provenance("e1", "users", "insert", "alice", None, None).unwrap();
    s.append_provenance_fork("e1", "users", "update", "bob", None, None, &genesis).unwrap();
    let err = s.append_provenance("e1", "users", "update", "carol", None, None).unwrap_err().message();
    assert!(
        err.contains("forked") && err.contains("append_provenance_fork"),
        "linear append on a forked entity must point at the fork API; got: {err}"
    );
}

#[test]
fn temporal_versions_are_monotonic_with_one_current() {
    for fmt in FORMATS {
        let mut s = store(fmt);
        for i in 1..=50u64 {
            let v = s.append_temporal_version("e1", "users", &format!("{{\"v\":{i}}}"), "update");
            assert_eq!(v, i, "monotonic version ({fmt:?})");
        }
        let current = s
            .data()
            .temporal_versions
            .iter()
            .filter(|r| r.entity_id == "e1" && r.valid_to.is_none())
            .count();
        assert_eq!(current, 1, "exactly one current version ({fmt:?})");
        assert_eq!(s.read_current("e1", "users").as_deref(), Some("{\"v\":50}"));
    }
}

#[test]
fn temporal_read_at_returns_point_in_time_snapshot() {
    let mut s = store(JsonFormat::Plain);
    s.append_temporal_version_at("e1", "users", "{\"v\":1}", "insert", "2026-01-01T00:00:00+00:00");
    s.append_temporal_version_at("e1", "users", "{\"v\":2}", "update", "2026-01-02T00:00:00+00:00");
    let t1 = instant("2026-01-01T12:00:00+00:00");
    let t2 = instant("2026-01-03T00:00:00+00:00");
    assert_eq!(s.read_at("e1", "users", t1).as_deref(), Some("{\"v\":1}"));
    assert_eq!(s.read_at("e1", "users", t2).as_deref(), Some("{\"v\":2}"));
    assert_eq!(s.read_at("e1", "users", instant("2025-12-31T00:00:00+00:00")), None);
    // The boundary instant belongs to the newer version.
    assert_eq!(s.read_at("e1", "users", instant("2026-01-02T00:00:00+00:00")).as_deref(), Some("{\"v\":2}"));
}

#[test]
fn temporal_rollback_appends_old_snapshot_as_new_version() {
    let mut s = store(JsonFormat::Ld);
    s.append_temporal_version("e1", "users", "{\"v\":1}", "insert");
    s.append_temporal_version("e1", "users", "{\"v\":2}", "update");
    s.append_temporal_version("e1", "users", "{\"v\":3}", "update");
    let new_v = s.rollback_to("e1", "users", 1).unwrap();
    assert_eq!(new_v, 4, "rollback creates a new version");
    assert_eq!(s.read_current("e1", "users").as_deref(), Some("{\"v\":1}"));
    assert!(s.rollback_to("e1", "users", 99).is_err());
}

#[test]
fn rollback_error_names_the_version() {
    let mut s = store(JsonFormat::Plain);
    let e = s.rollback_to("e1", "users", 7).unwrap_err();
    assert_eq!(
        e,
        TemporalError::NoSuchVersion { entity_id: "e1".into(), table_name: "users".into(), version: 7 }
    );
    assert_eq!(e.message(), "no version 7 for (\"e1\", \"users\")");
}

#[test]
fn distinct_entities_are_sorted_and_deduplicated() {
    let mut s = store(JsonFormat::Plain);
    for e in ["e2", "e1", "e2", "e3", "e1"] {
        s.append_temporal_version(e, "posts", "{}", "update");
    }
    assert_eq!(s.distinct_temporal_entities(), vec!["e1", "e2", "e3"]);
}

#[test]
fn latest_version_per_table_for_drift() {
    let mut s = store(JsonFormat::Plain);
    for _ in 0..5 {
        s.append_temporal_version("e1", "posts", "{}", "update");
    }
    for _ in 0..4 {
        s.append_temporal_version("e1", "posts_graph", "{}", "update");
    }
    s.append_temporal_version("e2", "posts", "{}", "insert");
    assert_eq!(
        s.data().latest_version_per_table("e1"),
        vec![("posts".to_string(), 5), ("posts_graph".to_string(), 4)]
    );
    assert_eq!(s.data().latest_version_per_table("e2").len(), 1);
}

fn seed_aged() -> SidecarData {
    let mut d = SidecarData::default();
    let old = ProvenanceRow {
        hash: "old".into(),
        previous_hash: "".into(),
        entity_id: "e".into(),
        table_name: "t".into(),
        operation: "insert".into(),
        actor: "a".into(),
        timestamp: "2020-01-01T00:00:00+00:00".into(),
        before_snapshot: None,
        transformation: None,
    };
    let new = ProvenanceRow { timestamp: "9999-01-01T00:00:00+00:00".into(), hash: "new".into(), ..old.clone() };
    d.provenance_log.push(old);
    d.provenance_log.push(new);
    let mk = |v: u64, from: &str, to: Option<&str>| TemporalRow {
        entity_id: "e".into(),
        table_name: "t".into(),
        version: v,
        valid_from: from.into(),
        valid_to: to.map(str::to_string),
        snapshot: "{}".into(),
        operation: "update".into(),
    };
    d.temporal_versions.push(mk(1, "2020-01-01T00:00:00+00:00", Some("2020-06-01T00:00:00+00:00")));
    d.temporal_versions.push(mk(2, "2020-01-01T00:00:00+00:00", None));
    d.temporal_versions.push(mk(3, "9999-01-01T00:00:00+00:00", Some("9999-06-01T00:00:00+00:00")));
    let old_edge = LineageRow {
        edge_id: "old".into(),
        source_entity: "a".into(),
        source_table: "t".into(),
        target_entity: "b".into(),
        target_table: "t".into(),
        derivation_type: "copy".into(),
        description: None,
        created_at: "2020-01-01T00:00:00+00:00".into(),
    };
    let new_edge = LineageRow { edge_id: "new".into(), created_at: "9999-01-01T00:00:00+00:00".into(), ..old_edge.clone() };
    d.lineage_graph.push(old_edge);
    d.lineage_graph.push(new_edge);
    d
}

#[test]
fn gc_dry_run_counts_but_keeps_current_temporal() {
    let mut s = JsonStore::from_data("s.json".into(), JsonFormat::Plain, seed_aged());
    let r = RetentionConfig { provenance_days: 30, temporal_days: 30, lineage_days: 30 };
    let counts = s.gc_purge(&r, true);
    assert_eq!(counts.provenance, 1);
    assert_eq!(counts.temporal, 1, "only old + superseded; current kept");
    assert_eq!(counts.lineage, 1);
    assert_eq!(s.data().provenance_log.len(), 2);
    assert_eq!(s.data().temporal_versions.len(), 3);
}

#[test]
fn gc_apply_removes_old_rows_but_keeps_current_version() {
    let mut s = JsonStore::from_data("s.json".into(), JsonFormat::Plain, seed_aged());
    let r = RetentionConfig { provenance_days: 30, temporal_days: 30, lineage_days: 30 };
    let counts = s.gc_purge(&r, false);
    assert_eq!(counts.provenance + counts.temporal + counts.lineage, 3);
    assert_eq!(s.data().provenance_log.len(), 1);
    assert_eq!(s.data().temporal_versions.len(), 2);
    assert!(s.read_current("e", "t").is_some());
    assert_eq!(s.data().lineage_graph.len(), 1);
}

#[test]
fn json_gc_retention_zero_is_forever() {
    let mut s = JsonStore::from_data("s.json".into(), JsonFormat::Plain, seed_aged());
    let counts = s.gc_purge(&RetentionConfig::default(), false);
    assert_eq!(counts.provenance + counts.temporal + counts.lineage, 0);
}

#[test]
fn gc_cutoff_is_exact_at_a_given_instant() {
    let mut s = JsonStore::from_data("s.json".into(), JsonFormat::Plain, seed_aged());
    // 2020-01-31 is exactly 30 days after the old rows: not strictly older.
    let now = instant("2020-01-31T00:00:00+00:00");
    let r = RetentionConfig { provenance_days: 30, temporal_days: 0, lineage_days: 0 };
    assert_eq!(s.gc_purge_at(&r, false, now).provenance, 0);
    let later = instant("2020-01-31T00:00:00.000000001+00:00");
    assert_eq!(s.gc_purge_at(&r, false, later).provenance, 1);
}

#[test]
fn duplicate_entries_are_refused() {
    let mut s = store(JsonFormat::Plain);
    let ts = "2026-01-01T00:00:00+00:00";
    let g = s.append_provenance_at("e1", "t", "insert", "a", None, None, ts).unwrap();
    // A fork from genesis with the same fields as an existing child is a duplicate.
    let c = s.append_provenance_fork_at("e1", "t", "update", "a", None, None, &g, ts).unwrap();
    let again = s.append_provenance_fork_at("e1", "t", "update", "a", None, None, &g, ts).unwrap_err();
    assert_eq!(again, ProvenanceError::Duplicate { hash: c.clone() });
    assert!(again.message().starts_with("duplicate provenance entry: an entry with hash "));
}

#[test]
fn fork_from_unknown_ancestor_is_refused() {
    let mut s = store(JsonFormat::Plain);
    let err = s.append_provenance_fork("e1", "t", "update", "a", None, None, "nope").unwrap_err();
    assert_eq!(
        err.message(),
        "from_hash \"nope\" is not an entry in entity \"e1\"'s chain; cannot fork from a non-existent ancestor"
    );
}

#[test]
fn broken_link_fails_verification() {
    let mut s = store(JsonFormat::Plain);
    s.append_provenance("e1", "t", "insert", "a", None, None).unwrap();
    s.append_provenance("e1", "t", "update", "a", None, None).unwrap();
    let mut data = s.data().clone();
    data.provenance_log.remove(0);
    let broken = JsonStore::from_data("s.json".into(), JsonFormat::Plain, data);
    assert!(!broken.verify_chain("e1"));
    assert!(broken.verify_chain("unknown-entity"), "an empty entity verifies vacuously");
}

#[test]
fn json_fifty_appends_yield_monotonic_versions() {
    let mut s = store(JsonFormat::Plain);
    let mut seen = Vec::new();
    for i in 0..50 {
        let snap = format!("{{\"v\":{i}}}");
        seen.push(s.append_temporal_version("e1", "users", &snap, "update"));
    }
    let expected: Vec<u64> = (1..=50).collect();
    assert_eq!(seen, expected);
    let rows = &s.data().temporal_versions;
    assert_eq!(rows.len(), 50);
    assert_eq!(rows.iter().filter(|r| r.valid_to.is_none()).count(), 1);
    assert_eq!(s.read_current("e1", "users").as_deref(), Some("{\"v\":49}"));
}

#[test]
fn json_distinct_entities_have_independent_versions_and_chains() {
    let mut s = store(JsonFormat::Ndjson);
    s.append_temporal_version("e1", "users", "{\"v\":1}", "insert");
    s.append_temporal_version("e2", "users", "{\"v\":1}", "insert");
    assert_eq!(s.append_temporal_version("e1", "users", "{\"v\":2}", "update"), 2);
    assert_eq!(s.append_temporal_version("e2", "users", "{\"v\":2}", "update"), 2);
    let a = s.append_provenance("e1", "users", "insert", "alice", None, None).unwrap();
    let b = s.append_provenance("e2", "users", "insert", "alice", None, None).unwrap();
    assert_ne!(a, b);
    assert_eq!(s.head_set("e1"), vec![a]);
    assert_eq!(s.head_set("e2"), vec![b]);
    assert!(s.verify_chain("e1"));
    assert!(s.verify_chain("e2"));
}
