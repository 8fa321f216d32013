use verisimiser::codegen::overlay::{
    generate_access_policy_table, generate_lineage_table, generate_provenance_table,
    generate_sidecar_schema, generate_simulation_table, generate_temporal_table, metadata_rows,
    validate_identifier, SqlDialect,
};
use verisimiser::codegen::parser::{ColumnDef, ParsedSchema, TableDef};
use verisimiser::manifest::OctadConfig;

fn test_schema() -> ParsedSchema {
    ParsedSchema {
        tables: vec![TableDef {
            name: "posts".to_string(),
            columns: vec![
                ColumnDef {
                    name: "id".to_string(),
                    sql_type: "INTEGER".to_string(),
                    is_primary_key: true,
                    is_not_null: true,
                },
                ColumnDef {
                    name: "title".to_string(),
                    sql_type: "TEXT".to_string(),
                    is_primary_key: false,
                    is_not_null: true,
                },
            ],
        }],
        source: None,
    }
}

#[test]
fn test_generate_all_dimensions() {
    let schema = test_schema();
    let octad = OctadConfig {
        enable_provenance: true,
        enable_lineage: true,
        enable_temporal: true,
        enable_access_control: true,
        enable_constraints: true,
        enable_simulation: true,
    };
    let ddl = generate_sidecar_schema(&schema, &octad, SqlDialect::Sqlite)
        .expect("test schema must validate");

    assert!(ddl.contains("verisimdb_metadata"));
    assert!(ddl.contains("verisimdb_provenance_log"));
    assert!(ddl.contains("verisimdb_lineage_graph"));
    assert!(ddl.contains("verisimdb_temporal_versions"));
    assert!(ddl.contains("verisimdb_access_policies"));
    assert!(ddl.contains("verisimdb_simulation_branches"));
}

/// All four enum-shape columns must be CHECK-constrained, and
/// simulation_branches.parent_branch must be a self-referencing FK
/// (closes #43).
#[test]
fn test_overlay_has_enum_checks_and_fk() {
    let schema = test_schema();
    let octad = OctadConfig {
        enable_provenance: true,
        enable_lineage: true,
        enable_temporal: true,
        enable_access_control: true,
        enable_constraints: true,
        enable_simulation: true,
    };
    let ddl = generate_sidecar_schema(&schema, &octad, SqlDialect::Sqlite)
        .expect("test schema must validate");

    // Self-referencing FK on parent_branch.
    assert!(
        ddl.contains("parent_branch TEXT REFERENCES verisimdb_simulation_branches(branch_id)"),
        "simulation_branches.parent_branch is missing the self-referencing FK"
    );
    // Enum CHECKs.
    assert!(
        ddl.contains("CHECK (status IN ('active','merged','abandoned'))"),
        "simulation_branches.status enum CHECK missing"
    );
    assert!(
        ddl.contains("CHECK (operation IN ('insert','update','delete','transform'))"),
        "provenance_log.operation enum CHECK missing"
    );
    assert!(
        ddl.contains("CHECK (access_level IN ('read','write','admin','deny'))"),
        "access_policies.access_level enum CHECK missing"
    );
    assert!(
        ddl.contains(
            "CHECK (derivation_type IN ('copy','transform','aggregate','join','filter'))"
        ),
        "lineage_graph.derivation_type enum CHECK missing"
    );
}

/// The "current version" partial index must be UNIQUE and the
/// `valid_to >= valid_from` CHECK must be present (closes #41).
/// Two concurrent writers must not be able to leave two rows with
/// `valid_to IS NULL` for the same `(entity_id, table_name)`.
#[test]
fn test_temporal_table_has_unique_partial_index_and_valid_to_check() {
    let schema = test_schema();
    let octad = OctadConfig {
        enable_provenance: false,
        enable_lineage: false,
        enable_temporal: true,
        enable_access_control: false,
        enable_constraints: false,
        enable_simulation: false,
    };
    let ddl = generate_sidecar_schema(&schema, &octad, SqlDialect::Sqlite)
        .expect("test schema must validate");
    assert!(ddl.contains("verisimdb_temporal_versions"));
    assert!(
        ddl.contains("CREATE UNIQUE INDEX IF NOT EXISTS ux_temporal_current"),
        "temporal current-version index must be UNIQUE"
    );
    assert!(
        ddl.contains("ON verisimdb_temporal_versions(entity_id, table_name)")
            && ddl.contains("WHERE valid_to IS NULL"),
        "temporal current-version index must be partial on valid_to IS NULL"
    );
    assert!(
        ddl.contains("CHECK (valid_to IS NULL OR valid_to >= valid_from)"),
        "temporal valid_to ordering CHECK missing"
    );
}

/// Lineage edges must refuse self-loops at the storage layer
/// (closes #42). The DAG claim in the README would be unenforced
/// without this check.
#[test]
fn test_lineage_table_has_self_reference_check() {
    let schema = test_schema();
    let octad = OctadConfig {
        enable_provenance: false,
        enable_lineage: true,
        enable_temporal: false,
        enable_access_control: false,
        enable_constraints: false,
        enable_simulation: false,
    };
    let ddl = generate_sidecar_schema(&schema, &octad, SqlDialect::Sqlite)
        .expect("test schema must validate");
    assert!(ddl.contains("verisimdb_lineage_graph"));
    // The exact CHECK clause must be present in the emitted DDL.
    assert!(
        ddl.contains(
            "CHECK (NOT (source_entity = target_entity AND source_table = target_table))"
        ),
        "lineage table is missing the self-reference CHECK constraint"
    );
}

#[test]
fn test_generate_minimal_dimensions() {
    let schema = test_schema();
    let octad = OctadConfig {
        enable_provenance: false,
        enable_lineage: false,
        enable_temporal: false,
        enable_access_control: false,
        enable_constraints: false,
        enable_simulation: false,
    };
    let ddl = generate_sidecar_schema(&schema, &octad, SqlDialect::Sqlite)
        .expect("test schema must validate");

    // Metadata is always generated.
    assert!(ddl.contains("verisimdb_metadata"));
    // Nothing else should be generated.
    assert!(!ddl.contains("verisimdb_provenance_log"));
    assert!(!ddl.contains("verisimdb_lineage_graph"));
    assert!(!ddl.contains("verisimdb_temporal_versions"));
    assert!(!ddl.contains("verisimdb_access_policies"));
    assert!(!ddl.contains("verisimdb_simulation_branches"));
}

#[test]
fn test_metadata_seeds_table_info() {
    let schema = test_schema();
    let octad = OctadConfig::default();
    let ddl = generate_sidecar_schema(&schema, &octad, SqlDialect::Sqlite)
        .expect("test schema must validate");

    assert!(ddl.contains("INSERT OR IGNORE INTO verisimdb_metadata"));
    assert!(ddl.contains("'posts'"));
    assert!(ddl.contains("'id'"));
}

#[test]
fn test_provenance_table_has_hash_chain() {
    let ddl = generate_provenance_table();
    assert!(ddl.contains("hash"));
    assert!(ddl.contains("previous_hash"));
    assert!(ddl.contains("entity_id"));
    assert!(ddl.contains("actor"));
}

/// ADR-0010 (#32 superseded): forks are first-class. The fork guard
/// is the `hash` PRIMARY KEY (duplicate-rejection); there must be
/// NO `UNIQUE(entity_id, previous_hash)` (it would discard a
/// divergent writer's legitimate history). A *non-unique*
/// predecessor index provides O(log n) fork detection instead.
#[test]
fn test_provenance_table_fork_detection_index_is_not_unique() {
    let ddl = generate_provenance_table();
    assert!(
        !ddl.contains("ux_provenance_chain"),
        "the superseded UNIQUE(entity_id, previous_hash) must not be emitted"
    );
    assert!(
        !ddl.contains("CREATE UNIQUE INDEX IF NOT EXISTS ux_provenance"),
        "no unique provenance-chain index (ADR-0010)"
    );
    assert!(
        ddl.contains("idx_provenance_predecessor"),
        "non-unique fork-detection index must be present"
    );
    assert!(ddl.contains("(entity_id, previous_hash)"));
}

/// ADR-0010 #31: the chain tip is a *set* (multi-head); the legacy
/// single-head table is retained one release for migration.
#[test]
fn test_provenance_table_has_multihead_and_legacy_head() {
    let ddl = generate_provenance_table();
    assert!(
        ddl.contains("verisimdb_provenance_chain_heads"),
        "multi-head set table must exist"
    );
    assert!(
        ddl.contains("verisimdb_provenance_chain_head ("),
        "legacy single-head table retained for migration"
    );
    assert!(ddl.contains("head_hash"));
    assert!(
        ddl.contains("PRIMARY KEY (entity_id, head_hash)"),
        "multi-head table keyed by (entity_id, head_hash)"
    );
}

#[test]
fn test_temporal_table_has_versioning() {
    let ddl = generate_temporal_table();
    assert!(ddl.contains("version"));
    assert!(ddl.contains("valid_from"));
    assert!(ddl.contains("valid_to"));
    assert!(ddl.contains("snapshot"));
}

/// V-L2-H1: the partial UNIQUE INDEX enforces exactly-one-current.
#[test]
fn test_temporal_table_has_partial_unique_index() {
    let ddl = generate_temporal_table();
    assert!(ddl.contains("UNIQUE INDEX"));
    assert!(ddl.contains("ux_temporal_current"));
    assert!(ddl.contains("WHERE valid_to IS NULL"));
}

/// V-L2-H2: valid_to must not predate valid_from.
#[test]
fn test_temporal_table_has_valid_to_check() {
    let ddl = generate_temporal_table();
    assert!(ddl.contains("valid_to IS NULL OR valid_to >= valid_from"));
}

/// V-L2-I1: lineage self-edges are forbidden by CHECK.
#[test]
fn test_lineage_table_forbids_self_edges() {
    let ddl = generate_lineage_table();
    assert!(ddl.contains("NOT (source_entity = target_entity"));
}

/// V-L2-J1: simulation status is a closed set; parent_branch FK exists.
#[test]
fn test_simulation_table_constraints() {
    let ddl = generate_simulation_table();
    assert!(ddl.contains("REFERENCES verisimdb_simulation_branches(branch_id)"));
    assert!(ddl.contains("status IN ('active','merged','abandoned')"));
    assert!(ddl.contains("operation IN ('insert','update','delete')"));
}

/// V-L2-J1: provenance, lineage, access enum CHECKs.
#[test]
fn test_enum_checks() {
    let prov = generate_provenance_table();
    assert!(prov.contains("operation IN ('insert','update','delete','transform')"));

    let lin = generate_lineage_table();
    assert!(
        lin.contains("derivation_type IN ('copy','transform','aggregate','join','filter')")
    );

    let acc = generate_access_policy_table();
    assert!(acc.contains("access_level IN ('read','write','admin','deny')"));
}

/// V-L2-G1: identifier validator accepts safe names, rejects everything
/// outside `^[A-Za-z_][A-Za-z0-9_]*$`. This is the codegen-side guard
/// against SQL injection via table/column names.
#[test]
fn test_validate_identifier_accepts_safe() {
    for ok in &["posts", "Posts", "_x", "x_1", "Post_2026"] {
        assert!(
            validate_identifier(ok).is_ok(),
            "{:?} should be accepted",
            ok
        );
    }
}

#[test]
fn test_validate_identifier_rejects_unsafe() {
    let attacks = [
        "",                         // empty
        "1posts",                   // leading digit
        "po sts",                   // space
        "posts;",                   // statement terminator
        "posts'); DROP TABLE x;--", // classic injection
        "posts\"",                  // quote
        "posts`",                   // backtick
        "posts/*",                  // comment open
        "schema.table",             // dotted
        "ünicode",                  // non-ASCII
    ];
    for attack in &attacks {
        assert!(
            validate_identifier(attack).is_err(),
            "{:?} should be rejected",
            attack
        );
    }
}

// --- #45 acceptance: per-dialect DDL + storage mapping ---

#[test]
fn test_sqlite_dialect_seed_and_portable_timestamp() {
    let schema = test_schema();
    let octad = OctadConfig::default();
    let ddl = generate_sidecar_schema(&schema, &octad, SqlDialect::Sqlite)
        .expect("sqlite ddl");
    assert!(ddl.contains("INSERT OR IGNORE INTO verisimdb_metadata"));
    assert!(
        ddl.contains("CURRENT_TIMESTAMP"),
        "portable timestamp must replace datetime(now)"
    );
    assert!(
        !ddl.contains("datetime('now')"),
        "the SQLite-only datetime('now') must be gone (V-L2-F1)"
    );
    assert!(ddl.contains("'posts'") && ddl.contains("verisimdb_provenance_log"));
}

#[test]
fn test_postgres_dialect_uses_on_conflict_not_or_ignore() {
    let schema = test_schema();
    let octad = OctadConfig::default();
    let ddl = generate_sidecar_schema(&schema, &octad, SqlDialect::Postgres)
        .expect("postgres ddl");
    assert!(
        ddl.contains("ON CONFLICT (table_name) DO NOTHING"),
        "postgres metadata upsert must use ON CONFLICT"
    );
    assert!(
        !ddl.contains("INSERT OR IGNORE"),
        "INSERT OR IGNORE is not valid PostgreSQL"
    );
    assert!(ddl.contains("CURRENT_TIMESTAMP") && !ddl.contains("datetime('now')"));
    assert!(ddl.contains("verisimdb_metadata") && ddl.contains("'posts'"));
}

#[test]
fn test_both_dialects_share_the_octad_table_bodies() {
    let schema = test_schema();
    let octad = OctadConfig::default();
    let s = generate_sidecar_schema(&schema, &octad, SqlDialect::Sqlite).unwrap();
    let p = generate_sidecar_schema(&schema, &octad, SqlDialect::Postgres).unwrap();
    for table in [
        "verisimdb_provenance_log",
        "verisimdb_lineage_graph",
        "verisimdb_temporal_versions",
        "verisimdb_access_policies",
    ] {
        assert!(s.contains(table), "sqlite missing {table}");
        assert!(p.contains(table), "postgres missing {table}");
    }
}

#[test]
fn test_empty_schema_emits_no_seed_in_either_dialect() {
    let schema = ParsedSchema {
        tables: vec![],
        source: None,
    };
    let octad = OctadConfig::default();
    let s = generate_sidecar_schema(&schema, &octad, SqlDialect::Sqlite).unwrap();
    let p = generate_sidecar_schema(&schema, &octad, SqlDialect::Postgres).unwrap();
    assert!(!s.contains("INSERT OR IGNORE") && s.contains("verisimdb_metadata"));
    assert!(!s.contains("Seed metadata from parsed schema"));
    assert!(!p.contains("ON CONFLICT") && p.contains("verisimdb_metadata"));
    assert!(!p.contains("Seed metadata from parsed schema"));
}

#[test]
fn test_storage_to_dialect_mapping() {
    assert_eq!(
        SqlDialect::from_storage("sqlite").unwrap(),
        SqlDialect::Sqlite
    );
    assert_eq!(
        SqlDialect::from_storage("postgres").unwrap(),
        SqlDialect::Postgres
    );
    assert_eq!(
        SqlDialect::from_storage("PostgreSQL").unwrap(),
        SqlDialect::Postgres
    );
    let json_err = SqlDialect::from_storage("json").unwrap_err().to_string();
    assert!(
        json_err.contains("not implemented") && json_err.contains("#112"),
        "json must be rejected with the #112 pointer, got: {json_err}"
    );
    assert!(SqlDialect::from_storage("mariadb").is_err());
}

#[test]
fn unsafe_table_name_is_refused_with_the_validator_message() {
    let mut schema = test_schema();
    schema.tables[0].name = "posts'); DROP TABLE x;--".to_string();
    let err = generate_sidecar_schema(&schema, &OctadConfig::default(), SqlDialect::Sqlite)
        .unwrap_err();
    assert_eq!(
        err,
        "invalid table name 'posts'); DROP TABLE x;--': contains disallowed character '\\'' (only [A-Za-z0-9_] permitted)"
    );
}

#[test]
fn unsafe_column_name_is_refused() {
    let mut schema = test_schema();
    schema.tables[0].columns[1].name = "ti tle".to_string();
    let err = generate_sidecar_schema(&schema, &OctadConfig::default(), SqlDialect::Postgres)
        .unwrap_err();
    assert!(err.starts_with("invalid column name 'ti tle'"));
}

#[test]
fn sqlite_seed_statement_is_exact() {
    let schema = test_schema();
    let octad = OctadConfig {
        enable_provenance: false,
        enable_lineage: false,
        enable_temporal: false,
        enable_access_control: false,
        enable_constraints: false,
        enable_simulation: false,
    };
    let ddl = generate_sidecar_schema(&schema, &octad, SqlDialect::Sqlite).unwrap();
    assert!(ddl.ends_with(
        "-- Seed metadata from parsed schema (SQLite)\nINSERT OR IGNORE INTO verisimdb_metadata (table_name, column_count, pk_columns, discovered_at)\n    VALUES ('posts', 2, 'id', CURRENT_TIMESTAMP);\n\n"
    ));
    assert!(ddl.starts_with("-- SPDX-License-Identifier: PMPL-1.0-or-later\n"));
}

#[test]
fn composite_primary_key_is_comma_joined() {
    let mut schema = test_schema();
    schema.tables[0].columns[1].is_primary_key = true;
    let rows = metadata_rows(&schema);
    assert_eq!(rows, vec![("posts".to_string(), 2usize, "id,title".to_string())]);
}

#[test]
fn seed_identifier_errors_quote_the_name() {
    assert_eq!(validate_identifier("").unwrap_err(), "identifier is empty");
    assert_eq!(
        validate_identifier("1x").unwrap_err(),
        "identifier \"1x\" must start with an ASCII letter or underscore"
    );
    assert!(validate_identifier("a-b").unwrap_err().contains("contains invalid character '-'"));
}
