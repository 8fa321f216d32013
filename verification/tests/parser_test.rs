use verisimiser::codegen::parser::{parse_sql_schema, table_from_raw, tables_of_raw, RawColumn, RawColumnOption, RawConstraint, RawStatement};

#[test]
fn test_parse_simple_table() {
    let ddl = r#"
        CREATE TABLE posts (
            id INTEGER PRIMARY KEY,
            title TEXT NOT NULL,
            body TEXT,
            created_at TIMESTAMP NOT NULL
        );
    "#;
    let schema = parse_sql_schema(ddl).unwrap();
    assert_eq!(schema.tables.len(), 1);
    assert_eq!(schema.tables[0].name, "posts");
    assert_eq!(schema.tables[0].columns.len(), 4);

    let id_col = &schema.tables[0].columns[0];
    assert_eq!(id_col.name, "id");
    assert!(id_col.is_primary_key);
    assert!(id_col.is_not_null);

    let body_col = &schema.tables[0].columns[2];
    assert_eq!(body_col.name, "body");
    assert!(!body_col.is_primary_key);
    assert!(!body_col.is_not_null);
}

#[test]
fn test_parse_multiple_tables() {
    let ddl = r#"
        CREATE TABLE users (
            id INTEGER PRIMARY KEY,
            name TEXT NOT NULL
        );
        CREATE TABLE posts (
            id INTEGER PRIMARY KEY,
            author_id INTEGER NOT NULL,
            title TEXT NOT NULL
        );
    "#;
    let schema = parse_sql_schema(ddl).unwrap();
    assert_eq!(schema.tables.len(), 2);
    assert_eq!(schema.tables[0].name, "users");
    assert_eq!(schema.tables[1].name, "posts");
}

#[test]
fn test_parse_table_level_pk() {
    let ddl = r#"
        CREATE TABLE post_tags (
            post_id INTEGER NOT NULL,
            tag_id INTEGER NOT NULL,
            PRIMARY KEY (post_id, tag_id)
        );
    "#;
    let schema = parse_sql_schema(ddl).unwrap();
    assert_eq!(schema.tables[0].columns.len(), 2);
    assert!(schema.tables[0].columns[0].is_primary_key);
    assert!(schema.tables[0].columns[1].is_primary_key);
}

#[test]
fn test_parse_if_not_exists() {
    let ddl = "CREATE TABLE IF NOT EXISTS settings (key TEXT PRIMARY KEY, value TEXT);";
    let schema = parse_sql_schema(ddl).unwrap();
    assert_eq!(schema.tables.len(), 1);
    assert_eq!(schema.tables[0].name, "settings");
}

#[test]
fn test_parse_empty_schema() {
    let ddl = "-- just a comment\n";
    let schema = parse_sql_schema(ddl).unwrap();
    assert!(schema.tables.is_empty());
}

#[test]
fn test_parse_varchar_with_length() {
    let ddl = "CREATE TABLE users (name VARCHAR(255) NOT NULL, email VARCHAR(320));";
    let schema = parse_sql_schema(ddl).unwrap();
    assert_eq!(schema.tables[0].columns[0].sql_type, "VARCHAR(255)");
    assert_eq!(schema.tables[0].columns[1].sql_type, "VARCHAR(320)");
}

#[test]
fn test_schema_qualified_name() {
    let ddl = "CREATE TABLE analytics.events (id BIGINT PRIMARY KEY, kind TEXT);";
    let schema = parse_sql_schema(ddl).unwrap();
    assert_eq!(schema.tables.len(), 1);
    assert_eq!(schema.tables[0].name, "events");
    assert!(schema.tables[0].columns[0].is_primary_key);
}

#[test]
fn test_quoted_identifier_with_whitespace() {
    let ddl = r#"CREATE TABLE "audit log" ("user name" TEXT NOT NULL, ts TIMESTAMP);"#;
    let schema = parse_sql_schema(ddl).unwrap();
    assert_eq!(schema.tables[0].name, "audit log");
    assert_eq!(schema.tables[0].columns[0].name, "user name");
    assert!(schema.tables[0].columns[0].is_not_null);
    assert_eq!(schema.tables[0].columns.len(), 2);
}

#[test]
fn test_check_constraint_does_not_corrupt_columns() {
    let ddl = r#"
        CREATE TABLE accounts (
            id INTEGER PRIMARY KEY,
            balance NUMERIC(12,2) NOT NULL CHECK (balance >= 0),
            status TEXT,
            CHECK (status IN ('open', 'closed'))
        );
    "#;
    let schema = parse_sql_schema(ddl).unwrap();
    assert_eq!(schema.tables[0].columns.len(), 3);
    assert_eq!(schema.tables[0].columns[1].name, "balance");
    assert_eq!(schema.tables[0].columns[1].sql_type, "NUMERIC(12,2)");
    assert!(schema.tables[0].columns[1].is_not_null);
    assert_eq!(schema.tables[0].columns[2].name, "status");
}

#[test]
fn test_generated_column() {
    let ddl = r#"
        CREATE TABLE rectangles (
            w INTEGER NOT NULL,
            h INTEGER NOT NULL,
            area INTEGER GENERATED ALWAYS AS (w * h) STORED
        );
    "#;
    let schema = parse_sql_schema(ddl).unwrap();
    assert_eq!(schema.tables[0].columns.len(), 3);
    let area = &schema.tables[0].columns[2];
    assert_eq!(area.name, "area");
    assert_eq!(area.sql_type, "INTEGER");
}

#[test]
fn test_semicolon_inside_comment_is_not_a_statement_break() {
    let ddl = r#"
        CREATE TABLE t (
            id INTEGER PRIMARY KEY -- a trailing ; inside a comment
        );
    "#;
    let schema = parse_sql_schema(ddl).unwrap();
    assert_eq!(schema.tables.len(), 1);
    assert_eq!(schema.tables[0].name, "t");
    assert_eq!(schema.tables[0].columns.len(), 1);
}

#[test]
fn test_invalid_sql_is_an_error_not_a_silent_empty_schema() {
    let err = parse_sql_schema("CREATE TABLE (((").unwrap_err();
    assert!(
        err.to_string().contains("failed to parse SQL DDL"),
        "unexpected error: {err}"
    );
}

#[test]
fn table_level_primary_key_matches_case_insensitively() {
    let t = table_from_raw(
        vec!["s".to_string(), "Orders".to_string()],
        vec![RawConstraint::Other, RawConstraint::PrimaryKey(vec!["ID".to_string()])],
        vec![
            RawColumn {
                name: "id".to_string(),
                sql_type: "INTEGER".to_string(),
                options: vec![],
            },
            RawColumn {
                name: "note".to_string(),
                sql_type: "TEXT".to_string(),
                options: vec![RawColumnOption::Unique { is_primary: false }, RawColumnOption::NotNull],
            },
        ],
    );
    assert_eq!(t.name, "Orders");
    assert!(t.columns[0].is_primary_key && t.columns[0].is_not_null);
    assert!(!t.columns[1].is_primary_key && t.columns[1].is_not_null);
}

#[test]
fn empty_name_parts_give_an_empty_table_name() {
    let t = table_from_raw(vec![], vec![], vec![]);
    assert_eq!(t.name, "");
    assert!(t.columns.is_empty());
}

#[test]
fn tables_of_raw_keeps_create_tables_in_order() {
    let stmts = vec![
        RawStatement::Other,
        RawStatement::CreateTable {
            name_parts: vec!["public".to_string(), "users".to_string()],
            constraints: vec![RawConstraint::PrimaryKey(vec!["ID".to_string()])],
            columns: vec![RawColumn { name: "id".to_string(), sql_type: "INTEGER".to_string(), options: vec![] }],
        },
        RawStatement::CreateTable {
            name_parts: vec!["posts".to_string()],
            constraints: vec![],
            columns: vec![RawColumn {
                name: "title".to_string(),
                sql_type: "TEXT".to_string(),
                options: vec![RawColumnOption::NotNull],
            }],
        },
    ];
    let tables = tables_of_raw(stmts);
    assert_eq!(tables.len(), 2);
    assert_eq!(tables[0].name, "users");
    assert!(tables[0].columns[0].is_primary_key && tables[0].columns[0].is_not_null);
    assert_eq!(tables[1].name, "posts");
    assert!(!tables[1].columns[0].is_primary_key && tables[1].columns[0].is_not_null);
}

#[test]
fn flush_text_is_refused_not_panicking() {
    let err = parse_sql_schema("FLUSH RELAY LOGS FOR CHANNEL ;").unwrap_err();
    assert!(err.contains("FLUSH statement is not accepted"), "got: {err}");
}

#[test]
fn parse_skips_non_create_statements() {
    let s = parse_sql_schema("CREATE TABLE a (x INT); INSERT INTO a VALUES (1); CREATE TABLE b (y TEXT NOT NULL);").unwrap();
    let names: Vec<&str> = s.tables.iter().map(|t| t.name.as_str()).collect();
    assert_eq!(names, vec!["a", "b"]);
    assert!(s.tables[1].columns[0].is_not_null);
}

#[test]
fn granted_by_clause_is_refused_not_panicking() {
    let err = parse_sql_schema("GRANT SELECT ON t TO u GRANTED BY").unwrap_err();
    assert!(err.contains("GRANTED BY clause is not accepted"), "got: {err}");
    let err = parse_sql_schema("revoke select on t from u granted by").unwrap_err();
    assert!(err.contains("GRANTED BY clause is not accepted"), "got: {err}");
}

#[test]
fn a_column_named_granted_still_parses() {
    let s = parse_sql_schema("CREATE TABLE perms (granted BOOLEAN, granted_by TEXT);").unwrap();
    assert_eq!(s.tables[0].columns.len(), 2);
    assert_eq!(s.tables[0].columns[1].name, "granted_by");
}
