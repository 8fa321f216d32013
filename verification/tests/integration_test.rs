use verisimiser::abi::{AccessPolicy, DatabaseBackend, LineageEdge, OctadDimension, ProvenanceEntry, TemporalVersion};
use verisimiser::codegen::{overlay, parser, query};
use verisimiser::manifest::OctadConfig;

#[test]
fn test_full_pipeline_blog_schema() {
    let blog_ddl = r#"
        CREATE TABLE users (
            id INTEGER PRIMARY KEY,
            username TEXT NOT NULL,
            email VARCHAR(320) NOT NULL,
            created_at TIMESTAMP NOT NULL
        );

        CREATE TABLE posts (
            id INTEGER PRIMARY KEY,
            author_id INTEGER NOT NULL,
            title TEXT NOT NULL,
            body TEXT,
            published BOOLEAN NOT NULL,
            created_at TIMESTAMP NOT NULL
        );

        CREATE TABLE comments (
            id INTEGER PRIMARY KEY,
            post_id INTEGER NOT NULL,
            author_id INTEGER NOT NULL,
            body TEXT NOT NULL,
            created_at TIMESTAMP NOT NULL
        );
    "#;

    let schema = parser::parse_sql_schema(blog_ddl).unwrap();
    assert_eq!(schema.tables.len(), 3, "Should parse 3 tables");
    assert_eq!(schema.tables[0].name, "users");
    assert_eq!(schema.tables[1].name, "posts");
    assert_eq!(schema.tables[2].name, "comments");
    assert_eq!(schema.tables[0].columns.len(), 4, "users should have 4 columns");
    assert_eq!(schema.tables[1].columns.len(), 6, "posts should have 6 columns");
    assert_eq!(schema.tables[2].columns.len(), 5, "comments should have 5 columns");

    let octad = OctadConfig {
        enable_provenance: true,
        enable_lineage: true,
        enable_temporal: true,
        enable_access_control: true,
        enable_constraints: true,
        enable_simulation: false,
    };
    let overlay_ddl = overlay::generate_sidecar_schema(&schema, &octad, overlay::SqlDialect::Sqlite)
        .expect("schema is valid");
    assert!(overlay_ddl.contains("verisimdb_metadata"), "Should contain metadata table");
    assert!(overlay_ddl.contains("verisimdb_provenance_log"), "Should contain provenance table");
    assert!(overlay_ddl.contains("verisimdb_lineage_graph"), "Should contain lineage table");
    assert!(overlay_ddl.contains("verisimdb_temporal_versions"), "Should contain temporal table");
    assert!(overlay_ddl.contains("verisimdb_access_policies"), "Should contain access policies table");
    assert!(overlay_ddl.contains("'users'"), "Metadata should reference users");
    assert!(overlay_ddl.contains("'posts'"), "Metadata should reference posts");
    assert!(overlay_ddl.contains("'comments'"), "Metadata should reference comments");

    let interceptors = query::generate_interceptors(&schema, &octad, DatabaseBackend::SQLite);
    assert_eq!(interceptors.len(), 3, "Should generate interceptors for 3 tables");
    for interceptor in &interceptors {
        assert!(interceptor.provenance_view.is_some(), "{}: should have provenance view", interceptor.table_name);
        assert!(interceptor.temporal_view.is_some(), "{}: should have temporal view", interceptor.table_name);
        assert!(interceptor.lineage_query.is_some(), "{}: should have lineage query", interceptor.table_name);
        assert!(interceptor.access_filter.is_some(), "{}: should have access filter", interceptor.table_name);
    }

    let rendered = query::render_interceptors(&interceptors);
    assert!(rendered.contains("verisimdb_users_with_provenance"));
    assert!(rendered.contains("verisimdb_posts_with_temporal"));
    assert!(rendered.contains("verisimdb_comments_with_provenance"));
}

#[test]
fn test_provenance_chain_integrity_multi_step() {
    let genesis = ProvenanceEntry::genesis("post-42", "system-init");
    assert!(genesis.verify(), "Genesis entry should be valid");
    assert!(genesis.previous_hash.is_empty());
    assert_eq!(genesis.operation, "insert");

    let update1 = genesis.chain("update", "user-alice");
    assert!(update1.verify(), "First update should be valid");
    assert_eq!(update1.previous_hash, genesis.hash);

    let update2 = update1.chain("update", "user-bob");
    assert!(update2.verify(), "Second update should be valid");
    assert_eq!(update2.previous_hash, update1.hash);

    let delete = update2.chain("delete", "user-alice");
    assert!(delete.verify(), "Delete entry should be valid");
    assert_eq!(delete.previous_hash, update2.hash);

    assert_ne!(genesis.hash, update1.hash);
    assert_ne!(update1.hash, update2.hash);
    assert_ne!(update2.hash, delete.hash);

    let mut tampered = update1.clone();
    tampered.actor = "evil-mallory".to_string();
    assert!(!tampered.verify(), "Tampering with actor must break verification");
    let mut tampered_op = update1.clone();
    tampered_op.operation = "delete".to_string();
    assert!(!tampered_op.verify(), "tampering with operation must break verify");
    let mut tampered_snap = update1.clone();
    tampered_snap.before_snapshot = Some("{}".into());
    assert!(!tampered_snap.verify(), "before_snapshot is part of the hash; tampering with it must break verify");
}

#[test]
fn test_temporal_version_lifecycle() {
    let v1 = TemporalVersion::initial("post-1", serde_json::from_str(r#"{"title": "Draft", "body": "..."}"#).unwrap());
    assert_eq!(v1.version, 1);
    assert!(v1.is_current());
    assert_eq!(v1.operation, "insert");

    let v2 = v1.next_version(serde_json::from_str(r#"{"title": "Published", "body": "Hello world"}"#).unwrap(), "update");
    assert_eq!(v2.version, 2);
    assert!(v2.is_current());
    assert_eq!(v2.entity_id, "post-1");

    let v3 = v2.next_version(serde_json::from_str(r#"{"title": "Draft", "body": "..."}"#).unwrap(), "rollback");
    assert_eq!(v3.version, 3);
    assert_eq!(v3.operation, "rollback");
    assert!(v1.version < v2.version);
    assert!(v2.version < v3.version);
}

#[test]
fn test_octad_dimensions_enumeration() {
    let dims = OctadDimension::all();
    assert_eq!(dims.len(), 8, "Octad must have exactly 8 dimensions");
    let inherent: Vec<_> = dims.iter().filter(|d| d.is_inherent()).collect();
    assert_eq!(inherent.len(), 2, "Exactly 2 inherent dimensions");
    assert_eq!(*inherent[0], OctadDimension::Data);
    assert_eq!(*inherent[1], OctadDimension::Metadata);
    for dim in &dims {
        assert!(!dim.label().is_empty(), "{:?} should have a label", dim);
    }
    assert_eq!(OctadDimension::Provenance.label(), "Provenance");
    assert_eq!(OctadDimension::AccessControl.label(), "Access Control");
}

#[test]
fn test_database_backend_round_trip() {
    let backends = [
        ("postgresql", DatabaseBackend::PostgreSQL),
        ("postgres", DatabaseBackend::PostgreSQL),
        ("pg", DatabaseBackend::PostgreSQL),
        ("sqlite", DatabaseBackend::SQLite),
        ("sqlite3", DatabaseBackend::SQLite),
        ("mongodb", DatabaseBackend::MongoDB),
        ("mongo", DatabaseBackend::MongoDB),
    ];
    for (input, expected) in &backends {
        let parsed = DatabaseBackend::from_str(input);
        assert_eq!(parsed, Some(*expected), "Failed to parse '{}' as {:?}", input, expected);
    }
    assert_eq!(DatabaseBackend::PostgreSQL.name(), "postgresql");
    assert_eq!(DatabaseBackend::SQLite.name(), "sqlite");
    assert_eq!(DatabaseBackend::MongoDB.name(), "mongodb");
    assert_eq!(DatabaseBackend::from_str("mysql"), None);
    assert_eq!(DatabaseBackend::from_str("redis"), None);
}

#[test]
fn test_lineage_and_access_policy_types() {
    let edge = LineageEdge::new("users", "user_stats", "aggregate");
    assert_eq!(edge.source_entity, "users");
    assert_eq!(edge.target_entity, "user_stats");
    assert_eq!(edge.derivation_type, "aggregate");
    assert!(edge.description.is_none());

    let policy = AccessPolicy::new("posts", "role:editor", "write");
    assert_eq!(policy.target_table, "posts");
    assert_eq!(policy.principal, "role:editor");
    assert_eq!(policy.access_level, "write");
    assert!(policy.active);
    assert!(policy.target_column.is_none());
    assert!(policy.condition.is_none());

    let col_policy = AccessPolicy::for_column("users", "email", "role:admin", "read");
    assert_eq!(col_policy.target_column, Some("email".to_string()));
    assert_eq!(col_policy.access_level, "read");
}
