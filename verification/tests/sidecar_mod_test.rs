use verisimiser::codegen::overlay::SqlDialect;
use verisimiser::sidecar::{JsonFormat, StorageKind};

#[test]
fn resolves_sql_backends_case_insensitively() {
    assert_eq!(
        StorageKind::resolve("sqlite", "").unwrap(),
        StorageKind::Sqlite
    );
    assert_eq!(
        StorageKind::resolve("Postgres", "").unwrap(),
        StorageKind::Postgres
    );
    assert_eq!(
        StorageKind::resolve("POSTGRESQL", "plain").unwrap(),
        StorageKind::Postgres
    );
    // format is ignored for SQL backends.
    assert_eq!(
        StorageKind::resolve("sqlite", "ndjson").unwrap(),
        StorageKind::Sqlite
    );
}

#[test]
fn resolves_json_family_with_format() {
    assert_eq!(
        StorageKind::resolve("json", "").unwrap(),
        StorageKind::Json(JsonFormat::Plain),
        "json with no format defaults to plain"
    );
    assert_eq!(
        StorageKind::resolve("json", "plain").unwrap(),
        StorageKind::Json(JsonFormat::Plain)
    );
    assert_eq!(
        StorageKind::resolve("JSON", "JSON-LD").unwrap(),
        StorageKind::Json(JsonFormat::Ld)
    );
    assert_eq!(
        StorageKind::resolve("json", "ndjson").unwrap(),
        StorageKind::Json(JsonFormat::Ndjson)
    );
}

#[test]
fn rejects_unknown_storage_and_format() {
    let storage_err = StorageKind::resolve("mariadb", "plain")
        .unwrap_err()
        .to_string();
    assert!(storage_err.contains("unsupported") && storage_err.contains("json"));

    let format_err = StorageKind::resolve("json", "yaml")
        .unwrap_err()
        .to_string();
    assert!(
        format_err.contains("unsupported") && format_err.contains("ndjson"),
        "bad format must list supported formats, got: {format_err}"
    );
}

#[test]
fn sql_dialect_is_none_for_json() {
    assert!(
        StorageKind::resolve("json", "ld")
            .unwrap()
            .sql_dialect()
            .is_none()
    );
    assert_eq!(
        StorageKind::resolve("sqlite", "").unwrap().sql_dialect(),
        Some(SqlDialect::Sqlite)
    );
    assert_eq!(
        StorageKind::resolve("postgres", "").unwrap().sql_dialect(),
        Some(SqlDialect::Postgres)
    );
}

#[test]
fn format_tokens_and_extensions() {
    assert_eq!(JsonFormat::Plain.as_str(), "plain");
    assert_eq!(JsonFormat::Ld.as_str(), "ld");
    assert_eq!(JsonFormat::Ndjson.as_str(), "ndjson");
    assert_eq!(JsonFormat::Plain.extension(), "json");
    assert_eq!(JsonFormat::Ld.extension(), "jsonld");
    assert_eq!(JsonFormat::Ndjson.extension(), "ndjson");
}

#[test]
fn format_aliases_and_error_text() {
    assert_eq!(JsonFormat::parse("JSONL").unwrap(), JsonFormat::Ndjson);
    assert_eq!(JsonFormat::parse("jsonld").unwrap(), JsonFormat::Ld);
    assert_eq!(JsonFormat::parse("Json").unwrap(), JsonFormat::Plain);
    assert_eq!(
        JsonFormat::parse("YAML").unwrap_err(),
        "unsupported [sidecar].format \"yaml\"; supported values are \"plain\" (default), \"ld\" (JSON-LD), and \"ndjson\"."
    );
}
