use verisimiser::abi::DatabaseBackend;
use verisimiser::codegen::parser::{ColumnDef, ParsedSchema, TableDef};
use verisimiser::codegen::query::{build_entity_id_expr, generate_access_filter, generate_interceptors, generate_lineage_query, render_interceptors};
use verisimiser::manifest::OctadConfig;

fn test_schema() -> ParsedSchema {
    ParsedSchema {
        tables: vec![TableDef {
            name: "posts".to_string(),
            columns: vec![
                ColumnDef {
                    name: "id".to_string(),
                    sql_type: "INTEGER".to_string(),
                    is_primary_key: true,
                    is_not_null: true,
                },
                ColumnDef {
                    name: "title".to_string(),
                    sql_type: "TEXT".to_string(),
                    is_primary_key: false,
                    is_not_null: true,
                },
                ColumnDef {
                    name: "body".to_string(),
                    sql_type: "TEXT".to_string(),
                    is_primary_key: false,
                    is_not_null: false,
                },
            ],
        }],
        source: None,
    }
}

#[test]
fn test_generate_interceptors_all_dimensions() {
    let schema = test_schema();
    let octad = OctadConfig {
        enable_provenance: true,
        enable_lineage: true,
        enable_temporal: true,
        enable_access_control: true,
        enable_constraints: true,
        enable_simulation: false,
    };
    let interceptors = generate_interceptors(&schema, &octad, DatabaseBackend::SQLite);

    assert_eq!(interceptors.len(), 1);
    let interceptor = &interceptors[0];
    assert_eq!(interceptor.table_name, "posts");
    assert!(interceptor.provenance_view.is_some());
    assert!(interceptor.temporal_view.is_some());
    assert!(interceptor.lineage_query.is_some());
    assert!(interceptor.access_filter.is_some());
}

#[test]
fn test_generate_interceptors_minimal() {
    let schema = test_schema();
    let octad = OctadConfig {
        enable_provenance: false,
        enable_lineage: false,
        enable_temporal: false,
        enable_access_control: false,
        enable_constraints: false,
        enable_simulation: false,
    };
    let interceptors = generate_interceptors(&schema, &octad, DatabaseBackend::SQLite);

    assert_eq!(interceptors.len(), 1);
    let interceptor = &interceptors[0];
    assert!(interceptor.provenance_view.is_none());
    assert!(interceptor.temporal_view.is_none());
    assert!(interceptor.lineage_query.is_none());
    assert!(interceptor.access_filter.is_none());
}

#[test]
fn test_provenance_view_references_table() {
    let schema = test_schema();
    let octad = OctadConfig {
        enable_provenance: true,
        enable_lineage: false,
        enable_temporal: false,
        enable_access_control: false,
        enable_constraints: false,
        enable_simulation: false,
    };
    let interceptors = generate_interceptors(&schema, &octad, DatabaseBackend::SQLite);

    let view = interceptors[0].provenance_view.as_ref().expect("TODO: handle error");
    assert!(view.contains("verisimdb_posts_with_provenance"));
    assert!(view.contains("posts.id"));
    assert!(view.contains("posts.title"));
    assert!(view.contains("verisimdb_provenance_log"));
}

#[test]
fn test_temporal_view_references_table() {
    let schema = test_schema();
    let octad = OctadConfig {
        enable_provenance: false,
        enable_lineage: false,
        enable_temporal: true,
        enable_access_control: false,
        enable_constraints: false,
        enable_simulation: false,
    };
    let interceptors = generate_interceptors(&schema, &octad, DatabaseBackend::SQLite);

    let view = interceptors[0].temporal_view.as_ref().expect("TODO: handle error");
    assert!(view.contains("verisimdb_posts_with_temporal"));
    assert!(view.contains("verisimdb_temporal_versions"));
    assert!(view.contains("valid_to IS NULL"));
}

#[test]
fn test_render_interceptors_produces_sql() {
    let schema = test_schema();
    let octad = OctadConfig::default();
    let interceptors = generate_interceptors(&schema, &octad, DatabaseBackend::PostgreSQL);
    let rendered = render_interceptors(&interceptors);

    assert!(rendered.contains("SPDX-License-Identifier"));
    assert!(rendered.contains("Table: posts"));
}

#[test]
fn test_entity_id_expr_composite_pk() {
    let expr =
        build_entity_id_expr(&["post_id", "tag_id"], "post_tags", DatabaseBackend::SQLite);
    assert!(expr.contains("post_tags.post_id"));
    assert!(expr.contains("post_tags.tag_id"));
    assert!(expr.contains("'::'"));
}

#[test]
fn test_entity_id_expr_no_pk() {
    let expr = build_entity_id_expr(&[], "orphan", DatabaseBackend::SQLite);
    assert!(expr.contains("rowid"));

    let expr_pg = build_entity_id_expr(&[], "orphan", DatabaseBackend::PostgreSQL);
    assert!(expr_pg.contains("ctid"));
}

#[test]
fn entity_id_expressions_are_exact() {
    assert_eq!(build_entity_id_expr(&["id"], "posts", DatabaseBackend::SQLite), "CAST(posts.id AS TEXT)");
    assert_eq!(
        build_entity_id_expr(&["a", "b"], "t", DatabaseBackend::PostgreSQL),
        "CAST(t.a AS TEXT) || '::' || CAST(t.b AS TEXT)"
    );
    assert_eq!(
        build_entity_id_expr(&["a", "b"], "t", DatabaseBackend::MongoDB),
        "CAST(t.a AS TEXT) + '::' + CAST(t.b AS TEXT)"
    );
    assert_eq!(build_entity_id_expr(&[], "t", DatabaseBackend::MongoDB), "CAST(_id AS TEXT)");
    assert_eq!(build_entity_id_expr(&[], "t", DatabaseBackend::PostgreSQL), "t.ctid::text");
}

#[test]
fn temporal_view_text_is_exact() {
    let schema = test_schema();
    let octad = OctadConfig {
        enable_provenance: false,
        enable_lineage: false,
        enable_temporal: true,
        enable_access_control: false,
        enable_constraints: false,
        enable_simulation: false,
    };
    let i = generate_interceptors(&schema, &octad, DatabaseBackend::SQLite);
    assert_eq!(
        i[0].temporal_view.as_deref().unwrap(),
        "-- Temporal-enriched view for 'posts'\n-- Joins each row with its current version metadata.\nCREATE VIEW IF NOT EXISTS verisimdb_posts_with_temporal AS\nSELECT\n    posts.id,\n    posts.title,\n    posts.body,\n    tv.version    AS _verisimdb_version,\n    tv.valid_from AS _verisimdb_valid_from,\n    tv.operation  AS _verisimdb_version_operation\nFROM posts\nLEFT JOIN verisimdb_temporal_versions tv\n    ON tv.entity_id = (CAST(posts.id AS TEXT))\n    AND tv.table_name = 'posts'\n    AND tv.valid_to IS NULL;\n\n"
    );
}

#[test]
fn lineage_and_access_templates_name_the_table() {
    let l = generate_lineage_query("orders");
    assert!(l.starts_with("-- Lineage queries for 'orders'\n"));
    assert!(l.contains("target_table = 'orders';"));
    assert!(l.contains("source_table = 'orders';"));
    let a = generate_access_filter("orders", DatabaseBackend::SQLite);
    assert!(a.contains("-- SELECT * FROM orders\n"));
    assert!(a.contains("WHERE target_table = 'orders'"));
}

#[test]
fn rendering_nothing_gives_the_header_only() {
    assert_eq!(
        render_interceptors(&[]),
        "-- SPDX-License-Identifier: PMPL-1.0-or-later\n-- VeriSimiser query interceptors (auto-generated)\n\n"
    );
}
