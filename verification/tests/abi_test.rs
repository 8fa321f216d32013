use sha2::{Digest, Sha256};
use verisimiser::abi::{
    dimension_description, AccessPolicy, DatabaseBackend, LineageEdge, OctadDimension,
    ProvenanceEntry, SidecarConfig, TemporalVersion,
};

#[test]
fn test_octad_dimension_count() {
    assert_eq!(OctadDimension::all().len(), 8);
}

#[test]
fn test_octad_inherent_dimensions() {
    assert!(OctadDimension::Data.is_inherent());
    assert!(OctadDimension::Metadata.is_inherent());
    assert!(!OctadDimension::Provenance.is_inherent());
}

#[test]
fn test_database_backend_parsing() {
    assert_eq!(DatabaseBackend::from_str("postgresql"), Some(DatabaseBackend::PostgreSQL));
    assert_eq!(DatabaseBackend::from_str("postgres"), Some(DatabaseBackend::PostgreSQL));
    assert_eq!(DatabaseBackend::from_str("pg"), Some(DatabaseBackend::PostgreSQL));
    assert_eq!(DatabaseBackend::from_str("sqlite"), Some(DatabaseBackend::SQLite));
    assert_eq!(DatabaseBackend::from_str("mongodb"), Some(DatabaseBackend::MongoDB));
    assert_eq!(DatabaseBackend::from_str("mysql"), None);
}

#[test]
fn test_provenance_chain_integrity() {
    let genesis = ProvenanceEntry::genesis("entity-1", "system");
    assert!(genesis.verify());
    assert!(genesis.previous_hash.is_empty());

    let update = genesis.chain("update", "user-alice");
    assert!(update.verify());
    assert_eq!(update.previous_hash, genesis.hash);
}

#[test]
fn test_provenance_tamper_detection() {
    let mut entry = ProvenanceEntry::genesis("entity-1", "system");
    entry.entity_id = "entity-2".to_string();
    assert!(!entry.verify(), "Tampered entry should fail verification");
}

#[test]
fn test_temporal_version_chain() {
    let v1 = TemporalVersion::initial("post-1", serde_json::from_str(r#"{"title": "Hello"}"#).unwrap());
    assert_eq!(v1.version, 1);
    assert!(v1.is_current());

    let v2 = v1.next_version(serde_json::from_str(r#"{"title": "Hello World"}"#).unwrap(), "update");
    assert_eq!(v2.version, 2);
    assert!(v2.is_current());
}

#[test]
fn test_lineage_edge_creation() {
    let edge = LineageEdge::new("posts", "post_summaries", "aggregate");
    assert_eq!(edge.source_entity, "posts");
    assert_eq!(edge.target_entity, "post_summaries");
    assert_eq!(edge.derivation_type, "aggregate");
    assert!(edge.edge_id.starts_with("posts->post_summaries@"));
}

#[test]
fn test_access_policy_creation() {
    let policy = AccessPolicy::new("posts", "role:editor", "write");
    assert_eq!(policy.target_table, "posts");
    assert_eq!(policy.principal, "role:editor");
    assert!(policy.active);
    assert!(policy.target_column.is_none());
    assert!(policy.policy_id.starts_with("pol-posts-role:editor-"));

    let col_policy = AccessPolicy::for_column("users", "email", "role:admin", "read");
    assert_eq!(col_policy.target_column, Some("email".to_string()));
}

fn field(buf: &mut Vec<u8>, s: &str) {
    buf.extend_from_slice(&(s.len() as u64).to_be_bytes());
    buf.extend_from_slice(s.as_bytes());
}

#[test]
fn compute_hash_is_sha256_of_the_length_prefixed_preimage() {
    let mut pre = Vec::new();
    field(&mut pre, "verisimdb/provenance/v1");
    field(&mut pre, "");
    field(&mut pre, "e1");
    field(&mut pre, "insert");
    field(&mut pre, "alice");
    field(&mut pre, "2026-01-01T00:00:00+00:00");
    pre.push(0);
    pre.push(1);
    field(&mut pre, "x");
    let expected: String = Sha256::digest(&pre).iter().map(|b| format!("{b:02x}")).collect();
    let got = ProvenanceEntry::compute_hash("", "e1", "insert", "alice", "2026-01-01T00:00:00+00:00", None, Some("x"));
    assert_eq!(got, expected);
    assert_eq!(got.len(), 64);
}

#[test]
fn absent_and_empty_optional_fields_hash_differently() {
    let a = ProvenanceEntry::compute_hash("p", "e", "update", "a", "t", None, None);
    let b = ProvenanceEntry::compute_hash("p", "e", "update", "a", "t", Some(""), None);
    let c = ProvenanceEntry::compute_hash("p", "e", "update", "a", "t", None, Some(""));
    assert_ne!(a, b);
    assert_ne!(a, c);
    assert_ne!(b, c);
    let shifted = ProvenanceEntry::compute_hash("p", "eu", "pdate", "a", "t", None, None);
    assert_ne!(a, shifted);
}

#[test]
fn genesis_timestamp_is_rfc3339() {
    let g = ProvenanceEntry::genesis("e", "a");
    assert!(chrono::DateTime::parse_from_rfc3339(&g.timestamp).is_ok());
}

#[test]
fn sidecar_config_default_is_sqlite() {
    let c = SidecarConfig::default_sqlite();
    assert_eq!(c.storage, "sqlite");
    assert_eq!(c.path, ".verisimdb/sidecar.db");
}

#[test]
fn every_dimension_has_a_description() {
    assert_eq!(dimension_description(&OctadDimension::Lineage), "Data derivation DAG");
    for d in OctadDimension::all() {
        assert!(!dimension_description(&d).is_empty());
    }
}

#[test]
fn backend_parsing_is_case_insensitive_and_names_round_trip() {
    assert_eq!(DatabaseBackend::from_str("PostgreSQL"), Some(DatabaseBackend::PostgreSQL));
    assert_eq!(DatabaseBackend::from_str("MONGO"), Some(DatabaseBackend::MongoDB));
    for b in [DatabaseBackend::PostgreSQL, DatabaseBackend::SQLite, DatabaseBackend::MongoDB] {
        assert_eq!(DatabaseBackend::from_str(b.name()), Some(b));
    }
}
