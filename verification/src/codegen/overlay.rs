//! Sidecar overlay schema generator: the DDL for the sidecar tables that
//! hold the octad dimension data, without modifying the target database.

pub mod postgres;
pub mod sqlite;

use vstd::prelude::*;

use crate::codegen::ident::{identifier_verdict, ident_char, ident_start, validate_identifier as validate_named_identifier};
use crate::codegen::parser::{columns_view, pk_names, tables_view, ColumnV, ParsedSchema, TableDef, TableV};
use crate::manifest::OctadConfig;
use crate::text::{
    all_ascii, ascii_lower,
    concat3, debug_char, debug_str, decimal, push_str, push_u64, spec_debug_char, spec_debug_str,
    spec_to_lowercase, str_eq, string_from_chars, to_lowercase,
};

verus! {

// ---------------------------------------------------------------------------
// SQL dialect
// ---------------------------------------------------------------------------

/// The SQL dialect the sidecar DDL is emitted for, selected from the
/// manifest's `[sidecar].storage`.
#[derive(Copy, Clone, Debug, PartialEq, Eq, Structural)]
pub enum SqlDialect {
    Sqlite,
    Postgres,
}

/// Message for a `json` storage value, which has no SQL dialect.
pub open spec fn json_storage_message() -> Seq<char> {
    "[sidecar].storage = \"json\" is not implemented (it previously emitted SQLite DDL silently). Use \"sqlite\". The JSON sidecar store is tracked by hyperpolymath/verisimiser#112."@
}

/// Message for an unknown storage value (given lowercased).
pub open spec fn unknown_storage_message(lowered: Seq<char>) -> Seq<char> {
    "unknown [sidecar].storage "@ + spec_debug_str(lowered)
        + "; supported: \"sqlite\" (\"postgres\" for a PostgreSQL sidecar; \"json\" is #112)."@
}

/// The dialect chosen for an already-lowercased storage value.
pub open spec fn dialect_for_lowered(l: Seq<char>) -> Result<SqlDialect, Seq<char>> {
    if l == "sqlite"@ {
        Ok(SqlDialect::Sqlite)
    } else if l == "postgres"@ || l == "postgresql"@ {
        Ok(SqlDialect::Postgres)
    } else if l == "json"@ {
        Err(json_storage_message())
    } else {
        Err(unknown_storage_message(l))
    }
}

/// View of a dialect result with a string error.
pub open spec fn dialect_result_view(r: Result<SqlDialect, String>) -> Result<SqlDialect, Seq<char>> {
    match r {
        Ok(d) => Ok(d),
        Err(e) => Err(e@),
    }
}

impl SqlDialect {
    /// Map a `[sidecar].storage` value (case-insensitive) to a dialect.
    /// `json` and unknown values are rejected with an explanation.
    pub fn from_storage(storage: &str) -> (r: Result<Self, String>)
        ensures
            dialect_result_view(r) == dialect_for_lowered(spec_to_lowercase(storage@)),
            all_ascii(storage@) ==> dialect_result_view(r) == dialect_for_lowered(
                ascii_lower(storage@),
            ),
    {
        let lowered = to_lowercase(storage);
        let l = lowered.as_str();
        if str_eq(l, "sqlite") {
            Ok(SqlDialect::Sqlite)
        } else if str_eq(l, "postgres") || str_eq(l, "postgresql") {
            Ok(SqlDialect::Postgres)
        } else if str_eq(l, "json") {
            Err("[sidecar].storage = \"json\" is not implemented (it previously emitted SQLite DDL silently). Use \"sqlite\". The JSON sidecar store is tracked by hyperpolymath/verisimiser#112.".to_owned())
        } else {
            let quoted = debug_str(l);
            Err(concat3(
                "unknown [sidecar].storage ",
                quoted.as_str(),
                "; supported: \"sqlite\" (\"postgres\" for a PostgreSQL sidecar; \"json\" is #112).",
            ))
        }
    }
}

// ---------------------------------------------------------------------------
// Identifier check for names interpolated into the metadata seed
// ---------------------------------------------------------------------------

/// The first position at or after `i` whose character may not continue an
/// identifier (see [`crate::codegen::ident`]).
pub open spec fn first_invalid_from(s: Seq<char>, i: int) -> Option<int>
    decreases s.len() - i,
{
    if i >= s.len() {
        None
    } else if !ident_char(s[i]) {
        Some(i)
    } else {
        first_invalid_from(s, i + 1)
    }
}

/// Verdict of the seed-path identifier check (shape only, no length bound).
pub open spec fn seed_identifier_verdict(s: Seq<char>) -> Result<(), Seq<char>> {
    if s.len() == 0 {
        Err("identifier is empty"@)
    } else if !ident_start(s[0]) {
        Err("identifier "@ + spec_debug_str(s) + " must start with an ASCII letter or underscore"@)
    } else {
        match first_invalid_from(s, 1) {
            Some(i) => Err("identifier "@ + spec_debug_str(s) + " contains invalid character "@
                + spec_debug_char(s[i])
                + "; only ASCII letters, digits, and underscores are allowed in identifiers that flow into generated DDL (V-L2-G1)"@),
            None => Ok(()),
        }
    }
}

/// Check that `name` has the identifier shape `^[A-Za-z_][A-Za-z0-9_]*$`
/// (no length bound); the error quotes the name.
pub fn validate_identifier(name: &str) -> (r: Result<&str, String>)
    ensures
        match seed_identifier_verdict(name@) {
            Ok(_) => r == Ok::<&str, String>(name),
            Err(m) => r matches Err(e) && e@ == m,
        },
{
    let chars = crate::text::chars_of(name);
    let n = chars.len();
    if n == 0 {
        return Err("identifier is empty".to_owned());
    }
    let quoted = debug_str(name);
    let first = chars[0];
    if !(('a' <= first && first <= 'z') || ('A' <= first && first <= 'Z') || first == '_') {
        let mut buf: Vec<char> = Vec::new();
        push_str(&mut buf, "identifier ");
        push_str(&mut buf, quoted.as_str());
        push_str(&mut buf, " must start with an ASCII letter or underscore");
        assert(buf@ =~= "identifier "@ + spec_debug_str(name@)
            + " must start with an ASCII letter or underscore"@);
        return Err(string_from_chars(&buf));
    }
    let mut i: usize = 1;
    while i < n
        invariant
            1 <= i <= n,
            n == chars@.len(),
            chars@ == name@,
            ident_start(name@[0]),
            first_invalid_from(name@, 1) == first_invalid_from(name@, i as int),
            quoted@ == spec_debug_str(name@),
        decreases n - i,
    {
        let c = chars[i];
        if !(('a' <= c && c <= 'z') || ('A' <= c && c <= 'Z') || ('0' <= c && c <= '9') || c
            == '_') {
            assert(first_invalid_from(name@, i as int) == Some(i as int));
            let d = debug_char(c);
            let mut buf: Vec<char> = Vec::new();
            push_str(&mut buf, "identifier ");
            push_str(&mut buf, quoted.as_str());
            push_str(&mut buf, " contains invalid character ");
            push_str(&mut buf, d.as_str());
            push_str(
                &mut buf,
                "; only ASCII letters, digits, and underscores are allowed in identifiers that flow into generated DDL (V-L2-G1)",
            );
            assert(buf@ =~= "identifier "@ + spec_debug_str(name@) + " contains invalid character "@
                + spec_debug_char(name@[i as int])
                + "; only ASCII letters, digits, and underscores are allowed in identifiers that flow into generated DDL (V-L2-G1)"@);
            return Err(string_from_chars(&buf));
        }
        i += 1;
    }
    Ok(name)
}

/// The name, which must already have the identifier shape.
pub fn must_validate_identifier(name: &str) -> (r: &str)
    requires
        seed_identifier_verdict(name@) is Ok,
    ensures
        r == name,
{
    match validate_identifier(name) {
        Ok(n) => n,
        Err(_) => {
            assert(false);
            name
        },
    }
}

// ---------------------------------------------------------------------------
// Whole-schema identifier validation
// ---------------------------------------------------------------------------

/// The first refusal among `cols` (as column names), in order.
pub open spec fn first_column_error(cols: Seq<ColumnV>) -> Option<Seq<char>>
    decreases cols.len(),
{
    if cols.len() == 0 {
        None
    } else {
        match identifier_verdict(cols[0].name, "column name"@) {
            Err(m) => Some(m),
            Ok(_) => first_column_error(cols.drop_first()),
        }
    }
}

/// The first refusal in `tables`: each table's name, then its columns,
/// table by table in order.
pub open spec fn first_identifier_error(tables: Seq<TableV>) -> Option<Seq<char>>
    decreases tables.len(),
{
    if tables.len() == 0 {
        None
    } else {
        match identifier_verdict(tables[0].name, "table name"@) {
            Err(m) => Some(m),
            Ok(_) => match first_column_error(tables[0].columns) {
                Some(m) => Some(m),
                None => first_identifier_error(tables.drop_first()),
            },
        }
    }
}

/// Every table and column name is a safe identifier.
pub open spec fn schema_names_safe(tables: Seq<TableV>) -> bool {
    forall|i: int| 0 <= i < tables.len() ==> {
        &&& seed_identifier_verdict((#[trigger] tables[i]).name) is Ok
        &&& forall|j: int| 0 <= j < tables[i].columns.len() ==> seed_identifier_verdict(
            (#[trigger] tables[i].columns[j]).name,
        ) is Ok
    }
}

proof fn lemma_verdicts_agree(s: Seq<char>, kind: Seq<char>)
    requires
        identifier_verdict(s, kind) is Ok,
    ensures
        seed_identifier_verdict(s) is Ok,
{
    lemma_first_invalid(s, 1);
    lemma_first_bad(s, 1);
}

proof fn lemma_first_invalid(s: Seq<char>, i: int)
    requires
        0 <= i,
    ensures
        first_invalid_from(s, i) is None <==> forall|k: int|
            i <= k < s.len() ==> ident_char(#[trigger] s[k]),
    decreases s.len() - i,
{
    if i < s.len() {
        lemma_first_invalid(s, i + 1);
    }
}

proof fn lemma_first_bad(s: Seq<char>, i: int)
    requires
        0 <= i,
    ensures
        crate::codegen::ident::first_bad_from(s, i) is None <==> forall|k: int|
            i <= k < s.len() ==> ident_char(#[trigger] s[k]),
    decreases s.len() - i,
{
    if i < s.len() {
        lemma_first_bad(s, i + 1);
    }
}

proof fn lemma_no_column_error(cols: Seq<ColumnV>)
    requires
        first_column_error(cols) is None,
    ensures
        forall|j: int| 0 <= j < cols.len() ==> seed_identifier_verdict((#[trigger] cols[j]).name) is Ok,
    decreases cols.len(),
{
    if cols.len() > 0 {
        lemma_verdicts_agree(cols[0].name, "column name"@);
        lemma_no_column_error(cols.drop_first());
        assert forall|j: int| 0 <= j < cols.len() implies seed_identifier_verdict(
            (#[trigger] cols[j]).name,
        ) is Ok by {
            if j > 0 {
                assert(cols[j] == cols.drop_first()[j - 1]);
            }
        }
    }
}

proof fn lemma_no_identifier_error(tables: Seq<TableV>)
    requires
        first_identifier_error(tables) is None,
    ensures
        schema_names_safe(tables),
    decreases tables.len(),
{
    if tables.len() > 0 {
        lemma_verdicts_agree(tables[0].name, "table name"@);
        lemma_no_column_error(tables[0].columns);
        lemma_no_identifier_error(tables.drop_first());
        assert forall|i: int| 0 <= i < tables.len() implies {
            &&& seed_identifier_verdict((#[trigger] tables[i]).name) is Ok
            &&& forall|j: int| 0 <= j < tables[i].columns.len() ==> seed_identifier_verdict(
                (#[trigger] tables[i].columns[j]).name,
            ) is Ok
        } by {
            if i > 0 {
                assert(tables[i] == tables.drop_first()[i - 1]);
            }
        }
    }
}

/// Validate every table name and then its column names, in order; the
/// first refusal is returned.
fn check_identifiers(schema: &ParsedSchema) -> (r: Result<(), String>)
    ensures
        match first_identifier_error(schema@.tables) {
            Some(m) => r matches Err(e) && e@ == m,
            None => r is Ok,
        },
{
    let tables = &schema.tables;
    let ghost tv = schema@.tables;
    let n = tables.len();
    assert(tv.skip(0) == tv);
    for i in 0..n
        invariant
            n == tables@.len(),
            tv == tables_view(tables@),
            tv == schema@.tables,
            first_identifier_error(tv) == first_identifier_error(tv.skip(i as int)),
    {
        let t = &tables[i];
        assert(tv[i as int] == t@);
        assert(tv.skip(i as int)[0] == t@);
        assert(tv.skip(i as int).drop_first() == tv.skip(i + 1));
        if let Err(e) = validate_named_identifier(t.name.as_str(), "table name") {
            assert(identifier_verdict(t.name@, "table name"@) is Err);
            return Err(e);
        }
        assert(identifier_verdict(tv.skip(i as int)[0].name, "table name"@) is Ok);
        let cols = &t.columns;
        let ghost cv = t@.columns;
        let m = cols.len();
        assert(cv.skip(0) == cv);
        for j in 0..m
            invariant
                m == cols@.len(),
                cv == columns_view(cols@),
                first_column_error(cv) == first_column_error(cv.skip(j as int)),
                first_identifier_error(tv) == first_identifier_error(tv.skip(i as int)),
                tv == schema@.tables,
                tv.skip(i as int).len() > 0,
                tv.skip(i as int)[0].columns == cv,
                identifier_verdict(tv.skip(i as int)[0].name, "table name"@) is Ok,
        {
            assert(cv[j as int] == cols@[j as int]@);
            assert(cv.skip(j as int)[0] == cols@[j as int]@);
            assert(cv.skip(j as int).drop_first() == cv.skip(j + 1));
            if let Err(e) = validate_named_identifier(cols[j].name.as_str(), "column name") {
                assert(identifier_verdict(cols@[j as int].name@, "column name"@) is Err);
                return Err(e);
            }
        }
        assert(cv.skip(m as int).len() == 0);
    }
    Ok(())
}

// ---------------------------------------------------------------------------
// Overlay generation
// ---------------------------------------------------------------------------

/// Banner at the top of the generated schema.
pub const SCHEMA_HEADER: &'static str = "-- SPDX-License-Identifier: PMPL-1.0-or-later\n-- VeriSimiser sidecar schema (auto-generated)\n-- Do not edit manually; regenerate with `verisimiser init`.\n\n";

/// The metadata table CREATE (portable across SQLite and PostgreSQL).
pub const METADATA_TABLE_DDL: &'static str = "-- Metadata: tracks augmented target tables\nCREATE TABLE IF NOT EXISTS verisimdb_metadata (\n    table_name   TEXT PRIMARY KEY,\n    column_count INTEGER NOT NULL,\n    pk_columns   TEXT NOT NULL,   -- comma-separated list of PK column names\n    discovered_at TEXT NOT NULL    -- ISO 8601 timestamp\n);\n\n";

/// Provenance log, chain-head set and legacy single-head tables.
pub const PROVENANCE_TABLE_DDL: &'static str = "-- Provenance: SHA-256 hash-chained audit trail (ADR-0010)\nCREATE TABLE IF NOT EXISTS verisimdb_provenance_log (\n    hash          TEXT PRIMARY KEY,\n    previous_hash TEXT NOT NULL,\n    entity_id     TEXT NOT NULL,\n    table_name    TEXT NOT NULL,\n    operation     TEXT NOT NULL CHECK (operation IN ('insert','update','delete','transform')),  -- V-L2-J1\n    actor         TEXT NOT NULL,\n    timestamp     TEXT NOT NULL,  -- ISO 8601\n    before_snapshot TEXT,          -- JSON of entity state before operation\n    transformation  TEXT,          -- description of transformation applied\n    CHECK (operation IN ('insert','update','delete','transform'))\n);\n-- ADR-0010 #32 (superseded): NO UNIQUE(entity_id, previous_hash) \u{2014}\n-- a fork that cannot be written cannot be detected or audited. The\n-- non-unique index below makes fork detection O(log n) instead.\nCREATE INDEX IF NOT EXISTS idx_provenance_predecessor\n    ON verisimdb_provenance_log(entity_id, previous_hash);\nCREATE INDEX IF NOT EXISTS idx_provenance_entity ON verisimdb_provenance_log(entity_id);\nCREATE INDEX IF NOT EXISTS idx_provenance_table  ON verisimdb_provenance_log(table_name);\n\n-- ADR-0010 #31: chain-tip *set*. `append_provenance` keeps a\n-- BEGIN IMMEDIATE write so racing duplicate appends on one node\n-- still serialise; a linear append swaps its single tip, a\n-- deliberate fork adds a tip without removing one.\nCREATE TABLE IF NOT EXISTS verisimdb_provenance_chain_heads (\n    entity_id TEXT NOT NULL,\n    head_hash TEXT NOT NULL,\n    PRIMARY KEY (entity_id, head_hash)\n);\n-- Legacy single-head table: kept one release for non-destructive\n-- migration (see tier1::provenance::SIDECAR_DDL). No DROP ships here.\nCREATE TABLE IF NOT EXISTS verisimdb_provenance_chain_head (\n    entity_id  TEXT PRIMARY KEY,\n    head_hash  TEXT NOT NULL,\n    updated_at TEXT NOT NULL\n);\n\n";

/// Lineage graph table.
pub const LINEAGE_TABLE_DDL: &'static str = "-- Lineage: data derivation graph (DAG by intent; cycle prevention is\n-- a runtime concern \u{2014} see V-L1-G1 / V-L2-I2).\nCREATE TABLE IF NOT EXISTS verisimdb_lineage_graph (\n    edge_id         TEXT PRIMARY KEY,\n    source_entity   TEXT NOT NULL,\n    source_table    TEXT NOT NULL,\n    target_entity   TEXT NOT NULL,\n    target_table    TEXT NOT NULL,\n    derivation_type TEXT NOT NULL\n        CHECK (derivation_type IN ('copy','transform','aggregate','join','filter')),  -- V-L2-J1\n    description     TEXT,\n    created_at      TEXT NOT NULL,  -- ISO 8601\n    -- V-L2-I1: self-edges are not derivations; rejected at DB level.\n    CHECK (NOT (source_entity = target_entity AND source_table = target_table))\n);\nCREATE INDEX IF NOT EXISTS idx_lineage_source ON verisimdb_lineage_graph(source_entity);\nCREATE INDEX IF NOT EXISTS idx_lineage_target ON verisimdb_lineage_graph(target_entity);\n\n";

/// Temporal versions table with its partial unique current-version index.
pub const TEMPORAL_TABLE_DDL: &'static str = "-- Temporal: version history with point-in-time support.\n-- V-L2-H1: the partial UNIQUE INDEX enforces exactly one\n-- current row per (entity, table) \u{2014} \"only one version is\n-- valid right now\" was an application-layer invariant before;\n-- now it's structural.\n-- V-L2-J1: operation is a closed set.\n-- V-L2-H2: valid_to (if set) must not predate valid_from.\nCREATE TABLE IF NOT EXISTS verisimdb_temporal_versions (\n    entity_id  TEXT NOT NULL,\n    table_name TEXT NOT NULL,\n    version    INTEGER NOT NULL CHECK (version >= 1),\n    valid_from TEXT NOT NULL,   -- ISO 8601\n    valid_to   TEXT,            -- ISO 8601, NULL if current\n    snapshot   TEXT NOT NULL,   -- JSON serialisation of entity state\n    operation  TEXT NOT NULL CHECK (operation IN ('insert','update','rollback')),\n    PRIMARY KEY (entity_id, table_name, version),\n    CHECK (valid_to IS NULL OR valid_to >= valid_from)\n);\nCREATE UNIQUE INDEX IF NOT EXISTS ux_temporal_current\n    ON verisimdb_temporal_versions(entity_id, table_name)\n    WHERE valid_to IS NULL;\n\n";

/// Access policies table.
pub const ACCESS_POLICY_TABLE_DDL: &'static str = "-- Access Control: row/column-level access policies.\n-- V-L2-J1: access_level is a closed set.\nCREATE TABLE IF NOT EXISTS verisimdb_access_policies (\n    policy_id     TEXT PRIMARY KEY,\n    target_table  TEXT NOT NULL,\n    target_column TEXT,            -- NULL means whole-row policy\n    principal     TEXT NOT NULL,   -- user, role, or group identifier\n    access_level  TEXT NOT NULL\n        CHECK (access_level IN ('read','write','admin','deny')),\n    condition     TEXT,            -- SQL-like filter condition (V-L1-H1)\n    created_at    TEXT NOT NULL,   -- ISO 8601\n    active        INTEGER NOT NULL DEFAULT 1 CHECK (active IN (0,1))\n);\nCREATE INDEX IF NOT EXISTS idx_access_table ON verisimdb_access_policies(target_table);\nCREATE INDEX IF NOT EXISTS idx_access_principal ON verisimdb_access_policies(principal);\n\n";

/// Simulation branches and deltas tables.
pub const SIMULATION_TABLE_DDL: &'static str = "-- Simulation: what-if branching and sandbox queries.\n-- V-L2-J1: status is a closed set; parent_branch is a self-FK\n-- (was previously declared but un-enforced).\nCREATE TABLE IF NOT EXISTS verisimdb_simulation_branches (\n    branch_id    TEXT PRIMARY KEY,\n    parent_branch TEXT REFERENCES verisimdb_simulation_branches(branch_id),  -- NULL for root\n    name         TEXT NOT NULL,\n    description  TEXT,\n    created_at   TEXT NOT NULL,   -- ISO 8601\n    merged_at    TEXT,            -- ISO 8601, NULL if not merged\n    status       TEXT NOT NULL DEFAULT 'active'\n        CHECK (status IN ('active','merged','abandoned'))\n);\n\nCREATE TABLE IF NOT EXISTS verisimdb_simulation_deltas (\n    delta_id    TEXT PRIMARY KEY,\n    branch_id   TEXT NOT NULL REFERENCES verisimdb_simulation_branches(branch_id),\n    entity_id   TEXT NOT NULL,\n    table_name  TEXT NOT NULL,\n    operation   TEXT NOT NULL\n        CHECK (operation IN ('insert','update','delete')),  -- V-L2-J1\n    delta_data  TEXT NOT NULL,    -- JSON of the change\n    created_at  TEXT NOT NULL     -- ISO 8601\n);\nCREATE INDEX IF NOT EXISTS idx_sim_branch ON verisimdb_simulation_deltas(branch_id);\n\n";

/// The metadata table CREATE.
pub fn metadata_table_ddl() -> (r: String)
    ensures
        r@ == METADATA_TABLE_DDL@,
{
    METADATA_TABLE_DDL.to_owned()
}

/// Provenance log table for the Provenance dimension: a hash-chained,
/// append-only log with a non-unique predecessor index (forks are
/// recorded, not refused) and the chain-tip set.
pub fn generate_provenance_table() -> (r: String)
    ensures
        r@ == PROVENANCE_TABLE_DDL@,
{
    PROVENANCE_TABLE_DDL.to_owned()
}

/// Lineage graph table for the Lineage dimension (self-edges refused).
pub fn generate_lineage_table() -> (r: String)
    ensures
        r@ == LINEAGE_TABLE_DDL@,
{
    LINEAGE_TABLE_DDL.to_owned()
}

/// Temporal versions table for the Temporal dimension (exactly one
/// current version per entity and table, enforced by a unique index).
pub fn generate_temporal_table() -> (r: String)
    ensures
        r@ == TEMPORAL_TABLE_DDL@,
{
    TEMPORAL_TABLE_DDL.to_owned()
}

/// Access policies table for the Access Control dimension.
pub fn generate_access_policy_table() -> (r: String)
    ensures
        r@ == ACCESS_POLICY_TABLE_DDL@,
{
    ACCESS_POLICY_TABLE_DDL.to_owned()
}

/// Simulation branches table for the Simulation dimension.
pub fn generate_simulation_table() -> (r: String)
    ensures
        r@ == SIMULATION_TABLE_DDL@,
{
    SIMULATION_TABLE_DDL.to_owned()
}

/// Comma-joined names.
pub open spec fn join_comma(s: Seq<Seq<char>>) -> Seq<char>
    decreases s.len(),
{
    if s.len() == 0 {
        Seq::empty()
    } else if s.len() == 1 {
        s[0]
    } else {
        join_comma(s.drop_last()) + ","@ + s.last()
    }
}

/// Per-table seed values `(table name, column count, primary-key names
/// comma-joined)`.
pub open spec fn metadata_row(t: TableV) -> (Seq<char>, nat, Seq<char>) {
    (t.name, t.columns.len(), join_comma(pk_names(t.columns)))
}

/// The seed upsert of one table in `dialect`.
pub open spec fn seed_statement(dialect: SqlDialect, t: TableV) -> Seq<char> {
    let (name, n, pk) = metadata_row(t);
    match dialect {
        SqlDialect::Sqlite => "INSERT OR IGNORE INTO verisimdb_metadata (table_name, column_count, pk_columns, discovered_at)\n    VALUES ('"@
            + name + "', "@ + decimal(n) + ", '"@ + pk + "', CURRENT_TIMESTAMP);\n"@,
        SqlDialect::Postgres => "INSERT INTO verisimdb_metadata (table_name, column_count, pk_columns, discovered_at)\n    VALUES ('"@
            + name + "', "@ + decimal(n) + ", '"@ + pk
            + "', CURRENT_TIMESTAMP)\n    ON CONFLICT (table_name) DO NOTHING;\n"@,
    }
}

/// The seed statements of the first `n` tables.
pub open spec fn seed_statements(dialect: SqlDialect, tables: Seq<TableV>) -> Seq<char>
    decreases tables.len(),
{
    if tables.len() == 0 {
        Seq::empty()
    } else {
        seed_statements(dialect, tables.drop_last()) + seed_statement(dialect, tables.last())
    }
}

/// Comment line opening the seed block.
pub open spec fn seed_banner(dialect: SqlDialect) -> Seq<char> {
    match dialect {
        SqlDialect::Sqlite => "-- Seed metadata from parsed schema (SQLite)\n"@,
        SqlDialect::Postgres => "-- Seed metadata from parsed schema (PostgreSQL)\n"@,
    }
}

/// The metadata seed: nothing for an empty schema, else the banner, one
/// upsert per table and a blank line.
pub open spec fn metadata_seed_text(dialect: SqlDialect, tables: Seq<TableV>) -> Seq<char> {
    if tables.len() == 0 {
        Seq::empty()
    } else {
        seed_banner(dialect) + seed_statements(dialect, tables) + "\n"@
    }
}

/// The text if `on`, else nothing.
pub open spec fn when(on: bool, text: Seq<char>) -> Seq<char> {
    if on {
        text
    } else {
        Seq::empty()
    }
}

/// The complete sidecar schema: banner, metadata table and seed, then the
/// table of each enabled dimension in a fixed order (provenance, lineage,
/// temporal, access control, simulation).
pub open spec fn sidecar_schema_text(dialect: SqlDialect, tables: Seq<TableV>, octad: OctadConfig) -> Seq<
    char,
> {
    SCHEMA_HEADER@ + METADATA_TABLE_DDL@ + metadata_seed_text(dialect, tables) + when(
        octad.enable_provenance,
        PROVENANCE_TABLE_DDL@,
    ) + when(octad.enable_lineage, LINEAGE_TABLE_DDL@) + when(
        octad.enable_temporal,
        TEMPORAL_TABLE_DDL@,
    ) + when(octad.enable_access_control, ACCESS_POLICY_TABLE_DDL@) + when(
        octad.enable_simulation,
        SIMULATION_TABLE_DDL@,
    )
}

/// The outcome of generating the schema: the first identifier refusal,
/// else the schema text.
pub open spec fn sidecar_schema_result(dialect: SqlDialect, tables: Seq<TableV>, octad: OctadConfig) -> Result<
    Seq<char>,
    Seq<char>,
> {
    match first_identifier_error(tables) {
        Some(m) => Err(m),
        None => Ok(sidecar_schema_text(dialect, tables, octad)),
    }
}

/// View of a string result.
pub open spec fn string_result_view(r: Result<String, String>) -> Result<Seq<char>, Seq<char>> {
    match r {
        Ok(s) => Ok(s@),
        Err(e) => Err(e@),
    }
}

/// Comma-join names.
fn join_names(names: &Vec<String>) -> (r: Vec<char>)
    ensures
        r@ == join_comma(names@.map_values(|s: String| s@)),
{
    let ghost nv = names@.map_values(|s: String| s@);
    let mut r: Vec<char> = Vec::new();
    let n = names.len();
    for i in 0..n
        invariant
            n == names@.len(),
            nv == names@.map_values(|s: String| s@),
            r@ == join_comma(nv.take(i as int)),
    {
        assert(nv.take(i + 1).drop_last() == nv.take(i as int));
        if i > 0 {
            push_str(&mut r, ",");
        }
        push_str(&mut r, names[i].as_str());
        assert(nv.take(i + 1).last() == names@[i as int]@);
        if i == 0 {
            assert(r@ =~= join_comma(nv.take(i + 1)));
        }
    }
    assert(nv.take(n as int) == nv);
    r
}

/// Per-table seed values `(table name, column count, comma-joined
/// primary-key names)`, every name already a safe identifier.
pub fn metadata_rows(schema: &ParsedSchema) -> (r: Vec<(String, usize, String)>)
    requires
        schema_names_safe(schema@.tables),
    ensures
        r@.len() == schema@.tables.len(),
        forall|i: int|
            0 <= i < r@.len() ==> ((#[trigger] r@[i]).0@, r@[i].1 as nat, r@[i].2@) == metadata_row(
                schema@.tables[i],
            ),
{
    let tables = &schema.tables;
    let ghost tv = schema@.tables;
    let n = tables.len();
    let mut r: Vec<(String, usize, String)> = Vec::new();
    for i in 0..n
        invariant
            n == tables@.len(),
            tv == tables_view(tables@),
            schema_names_safe(tv),
            r@.len() == i,
            forall|k: int|
                0 <= k < i ==> ((#[trigger] r@[k]).0@, r@[k].1 as nat, r@[k].2@) == metadata_row(
                    tv[k],
                ),
    {
        let t = &tables[i];
        assert(tv[i as int] == t@);
        let name = must_validate_identifier(t.name.as_str());
        let pks = t.pk_column_names();
        let csv = join_names(&pks);
        r.push((name.to_owned(), t.columns.len(), string_from_chars(&csv)));
    }
    r
}

/// Shared schema body: validate identifiers, then assemble the banner,
/// the metadata table, the `dialect`'s seed and every enabled octad table.
pub fn assemble(schema: &ParsedSchema, octad: &OctadConfig, dialect: SqlDialect) -> (r: Result<
    String,
    String,
>)
    ensures
        string_result_view(r) == sidecar_schema_result(dialect, schema@.tables, *octad),
{
    match check_identifiers(schema) {
        Err(e) => {
            return Err(e);
        },
        Ok(()) => {},
    }
    proof {
        lemma_no_identifier_error(schema@.tables);
    }
    let mut ddl: Vec<char> = Vec::new();
    push_str(&mut ddl, SCHEMA_HEADER);
    let meta = metadata_table_ddl();
    push_str(&mut ddl, meta.as_str());
    let seed = match dialect {
        SqlDialect::Sqlite => sqlite::metadata_seed(schema),
        SqlDialect::Postgres => postgres::metadata_seed(schema),
    };
    push_str(&mut ddl, seed.as_str());
    if octad.enable_provenance {
        let t = generate_provenance_table();
        push_str(&mut ddl, t.as_str());
    }
    if octad.enable_lineage {
        let t = generate_lineage_table();
        push_str(&mut ddl, t.as_str());
    }
    if octad.enable_temporal {
        let t = generate_temporal_table();
        push_str(&mut ddl, t.as_str());
    }
    if octad.enable_access_control {
        let t = generate_access_policy_table();
        push_str(&mut ddl, t.as_str());
    }
    if octad.enable_simulation {
        let t = generate_simulation_table();
        push_str(&mut ddl, t.as_str());
    }
    assert(ddl@ =~= sidecar_schema_text(dialect, schema@.tables, *octad));
    Ok(string_from_chars(&ddl))
}

/// Generate the complete sidecar schema DDL for all enabled octad
/// dimensions in `dialect`. Refused with the first unsafe table or column
/// name (see [`crate::codegen::ident::validate_identifier`]).
pub fn generate_sidecar_schema(schema: &ParsedSchema, octad: &OctadConfig, dialect: SqlDialect) -> (r:
    Result<String, String>)
    ensures
        string_result_view(r) == sidecar_schema_result(dialect, schema@.tables, *octad),
{
    match dialect {
        SqlDialect::Sqlite => sqlite::generate(schema, octad),
        SqlDialect::Postgres => postgres::generate(schema, octad),
    }
}

/// The name of a table fails identifier validation.
pub open spec fn table_name_refused(t: TableV) -> bool {
    identifier_verdict(t.name, "table name"@) is Err
}

/// The name of a column fails identifier validation.
pub open spec fn column_name_refused(c: ColumnV) -> bool {
    identifier_verdict(c.name, "column name"@) is Err
}

/// The refusal `m` is the error of a table's name or of one of its
/// columns' names.
pub open spec fn refusal_of_table(t: TableV, m: Seq<char>) -> bool {
    ||| identifier_verdict(t.name, "table name"@) == Err::<(), Seq<char>>(m)
    ||| exists|j: int|
        0 <= j < t.columns.len() && identifier_verdict(t.columns[j].name, "column name"@) == Err::<
            (),
            Seq<char>,
        >(m)
}

proof fn lemma_first_column_error(cols: Seq<ColumnV>)
    ensures
        first_column_error(cols) is Some <==> exists|j: int|
            0 <= j < cols.len() && column_name_refused(#[trigger] cols[j]),
        first_column_error(cols) matches Some(m) ==> exists|j: int|
            0 <= j < cols.len() && identifier_verdict(#[trigger] cols[j].name, "column name"@)
                == Err::<(), Seq<char>>(m),
    decreases cols.len(),
{
    if cols.len() > 0 {
        let rest = cols.drop_first();
        lemma_first_column_error(rest);
        if exists|j: int| 0 <= j < rest.len() && column_name_refused(#[trigger] rest[j]) {
            let j = choose|j: int| 0 <= j < rest.len() && column_name_refused(#[trigger] rest[j]);
            assert(cols[j + 1] == rest[j]);
        }
        if exists|j: int| 0 <= j < cols.len() && column_name_refused(#[trigger] cols[j]) {
            let j = choose|j: int| 0 <= j < cols.len() && column_name_refused(#[trigger] cols[j]);
            if j > 0 {
                assert(rest[j - 1] == cols[j]);
            }
        }
        match first_column_error(rest) {
            Some(m) => {
                if identifier_verdict(cols[0].name, "column name"@) is Ok {
                    let j = choose|j: int|
                        0 <= j < rest.len() && identifier_verdict(
                            #[trigger] rest[j].name,
                            "column name"@,
                        ) == Err::<(), Seq<char>>(m);
                    assert(cols[j + 1] == rest[j]);
                }
            },
            None => {},
        }
    }
}

/// Schema generation, in either dialect, is refused exactly when some
/// table name or column name of the schema fails identifier validation
/// (see [`crate::codegen::ident::validate_identifier`]), and the refusal
/// is that name's own error, which names its kind (`table name` or
/// `column name`).
pub proof fn law_schema_refused_iff_unsafe_name(dialect: SqlDialect, tables: Seq<TableV>, octad: OctadConfig)
    ensures
        sidecar_schema_result(dialect, tables, octad) is Err <==> exists|i: int|
            0 <= i < tables.len() && (table_name_refused(#[trigger] tables[i]) || exists|j: int|
                0 <= j < tables[i].columns.len() && column_name_refused(tables[i].columns[j])),
        sidecar_schema_result(dialect, tables, octad) matches Err(m) ==> exists|i: int|
            0 <= i < tables.len() && refusal_of_table(#[trigger] tables[i], m),
    decreases tables.len(),
{
    if tables.len() > 0 {
        let t = tables[0];
        let rest = tables.drop_first();
        law_schema_refused_iff_unsafe_name(dialect, rest, octad);
        lemma_first_column_error(t.columns);
        assert forall|i: int| 0 <= i < rest.len() implies rest[i] == tables[i + 1] by {}
        if exists|i: int|
            0 <= i < tables.len() && (table_name_refused(#[trigger] tables[i]) || exists|j: int|
                0 <= j < tables[i].columns.len() && column_name_refused(tables[i].columns[j])) {
            let i = choose|i: int|
                0 <= i < tables.len() && (table_name_refused(#[trigger] tables[i]) || exists|j: int|
                    0 <= j < tables[i].columns.len() && column_name_refused(tables[i].columns[j]));
            if i > 0 {
                assert(rest[i - 1] == tables[i]);
            } else {
                if !table_name_refused(t) {
                    let j = choose|j: int|
                        0 <= j < t.columns.len() && column_name_refused(t.columns[j]);
                    assert(column_name_refused(t.columns[j]));
                }
            }
        }
        match sidecar_schema_result(dialect, tables, octad) {
            Err(m) => {
                match identifier_verdict(t.name, "table name"@) {
                    Err(_) => {
                        assert(refusal_of_table(tables[0], m));
                    },
                    Ok(_) => {
                        match first_column_error(t.columns) {
                            Some(_) => {
                                assert(refusal_of_table(tables[0], m));
                            },
                            None => {
                                assert(sidecar_schema_result(dialect, rest, octad) == Err::<
                                    Seq<char>,
                                    Seq<char>,
                                >(m));
                                let k = choose|k: int|
                                    0 <= k < rest.len() && refusal_of_table(#[trigger] rest[k], m);
                                assert(rest[k] == tables[k + 1]);
                            },
                        }
                    },
                }
            },
            Ok(_) => {},
        }
    }
}

/// `on` is `off` with `p` inserted at some position.
pub open spec fn inserted_in(on: Seq<char>, off: Seq<char>, p: Seq<char>) -> bool {
    exists|k: int| 0 <= k <= off.len() && on == #[trigger] off.take(k) + p + off.skip(k)
}

proof fn lemma_inserted(a: Seq<char>, p: Seq<char>, b: Seq<char>)
    ensures
        inserted_in(a + p + b, a + b, p),
{
    let off = a + b;
    let k = a.len() as int;
    assert(off.take(k) =~= a);
    assert(off.skip(k) =~= b);
}

/// The schema text as its five dimension parts around a fixed prefix.
proof fn lemma_schema_parts(dialect: SqlDialect, tables: Seq<TableV>, o: OctadConfig)
    ensures
        sidecar_schema_text(dialect, tables, o) == SCHEMA_HEADER@ + METADATA_TABLE_DDL@
            + metadata_seed_text(dialect, tables) + when(o.enable_provenance, PROVENANCE_TABLE_DDL@)
            + when(o.enable_lineage, LINEAGE_TABLE_DDL@) + when(o.enable_temporal, TEMPORAL_TABLE_DDL@)
            + when(o.enable_access_control, ACCESS_POLICY_TABLE_DDL@) + when(
            o.enable_simulation,
            SIMULATION_TABLE_DDL@,
        ),
{
}

/// The provenance table follows the provenance toggle alone.
/// Whatever the other toggles and names, the schema generated with it on is
/// the schema generated with it off with its table DDL inserted, so the
/// table is there only when this dimension is enabled.
#[verifier::spinoff_prover]
pub proof fn law_provenance_table_follows_its_toggle(dialect: SqlDialect, tables: Seq<TableV>, octad: OctadConfig)
    ensures
        inserted_in(
            sidecar_schema_text(dialect, tables, OctadConfig { enable_provenance: true, ..octad }),
            sidecar_schema_text(dialect, tables, OctadConfig { enable_provenance: false, ..octad }),
            PROVENANCE_TABLE_DDL@,
        ),
{
    let on = OctadConfig { enable_provenance: true, ..octad };
    let off = OctadConfig { enable_provenance: false, ..octad };
    lemma_schema_parts(dialect, tables, on);
    lemma_schema_parts(dialect, tables, off);
    let base = SCHEMA_HEADER@ + METADATA_TABLE_DDL@ + metadata_seed_text(dialect, tables);
    let p = when(octad.enable_provenance, PROVENANCE_TABLE_DDL@);
    let l = when(octad.enable_lineage, LINEAGE_TABLE_DDL@);
    let tm = when(octad.enable_temporal, TEMPORAL_TABLE_DDL@);
    let ac = when(octad.enable_access_control, ACCESS_POLICY_TABLE_DDL@);
    let sm = when(octad.enable_simulation, SIMULATION_TABLE_DDL@);
    let a = base;
    let b = l + tm + ac + sm;
    assert(sidecar_schema_text(dialect, tables, on) =~= a + PROVENANCE_TABLE_DDL@ + b);
    assert(sidecar_schema_text(dialect, tables, off) =~= a + b);
    lemma_inserted(a, PROVENANCE_TABLE_DDL@, b);
}

/// The lineage table follows the lineage toggle alone.
/// Whatever the other toggles and names, the schema generated with it on is
/// the schema generated with it off with its table DDL inserted, so the
/// table is there only when this dimension is enabled.
#[verifier::spinoff_prover]
pub proof fn law_lineage_table_follows_its_toggle(dialect: SqlDialect, tables: Seq<TableV>, octad: OctadConfig)
    ensures
        inserted_in(
            sidecar_schema_text(dialect, tables, OctadConfig { enable_lineage: true, ..octad }),
            sidecar_schema_text(dialect, tables, OctadConfig { enable_lineage: false, ..octad }),
            LINEAGE_TABLE_DDL@,
        ),
{
    let on = OctadConfig { enable_lineage: true, ..octad };
    let off = OctadConfig { enable_lineage: false, ..octad };
    lemma_schema_parts(dialect, tables, on);
    lemma_schema_parts(dialect, tables, off);
    let base = SCHEMA_HEADER@ + METADATA_TABLE_DDL@ + metadata_seed_text(dialect, tables);
    let p = when(octad.enable_provenance, PROVENANCE_TABLE_DDL@);
    let l = when(octad.enable_lineage, LINEAGE_TABLE_DDL@);
    let tm = when(octad.enable_temporal, TEMPORAL_TABLE_DDL@);
    let ac = when(octad.enable_access_control, ACCESS_POLICY_TABLE_DDL@);
    let sm = when(octad.enable_simulation, SIMULATION_TABLE_DDL@);
    let a = base + p;
    let b = tm + ac + sm;
    assert(sidecar_schema_text(dialect, tables, on) =~= a + LINEAGE_TABLE_DDL@ + b);
    assert(sidecar_schema_text(dialect, tables, off) =~= a + b);
    lemma_inserted(a, LINEAGE_TABLE_DDL@, b);
}

/// The temporal table follows the temporal toggle alone.
/// Whatever the other toggles and names, the schema generated with it on is
/// the schema generated with it off with its table DDL inserted, so the
/// table is there only when this dimension is enabled.
#[verifier::spinoff_prover]
pub proof fn law_temporal_table_follows_its_toggle(dialect: SqlDialect, tables: Seq<TableV>, octad: OctadConfig)
    ensures
        inserted_in(
            sidecar_schema_text(dialect, tables, OctadConfig { enable_temporal: true, ..octad }),
            sidecar_schema_text(dialect, tables, OctadConfig { enable_temporal: false, ..octad }),
            TEMPORAL_TABLE_DDL@,
        ),
{
    let on = OctadConfig { enable_temporal: true, ..octad };
    let off = OctadConfig { enable_temporal: false, ..octad };
    lemma_schema_parts(dialect, tables, on);
    lemma_schema_parts(dialect, tables, off);
    let base = SCHEMA_HEADER@ + METADATA_TABLE_DDL@ + metadata_seed_text(dialect, tables);
    let p = when(octad.enable_provenance, PROVENANCE_TABLE_DDL@);
    let l = when(octad.enable_lineage, LINEAGE_TABLE_DDL@);
    let tm = when(octad.enable_temporal, TEMPORAL_TABLE_DDL@);
    let ac = when(octad.enable_access_control, ACCESS_POLICY_TABLE_DDL@);
    let sm = when(octad.enable_simulation, SIMULATION_TABLE_DDL@);
    let a = base + p + l;
    let b = ac + sm;
    assert(sidecar_schema_text(dialect, tables, on) =~= a + TEMPORAL_TABLE_DDL@ + b);
    assert(sidecar_schema_text(dialect, tables, off) =~= a + b);
    lemma_inserted(a, TEMPORAL_TABLE_DDL@, b);
}

/// The access-policy table follows the access-control toggle alone.
/// Whatever the other toggles and names, the schema generated with it on is
/// the schema generated with it off with its table DDL inserted, so the
/// table is there only when this dimension is enabled.
#[verifier::spinoff_prover]
pub proof fn law_access_table_follows_its_toggle(dialect: SqlDialect, tables: Seq<TableV>, octad: OctadConfig)
    ensures
        inserted_in(
            sidecar_schema_text(dialect, tables, OctadConfig { enable_access_control: true, ..octad }),
            sidecar_schema_text(dialect, tables, OctadConfig { enable_access_control: false, ..octad }),
            ACCESS_POLICY_TABLE_DDL@,
        ),
{
    let on = OctadConfig { enable_access_control: true, ..octad };
    let off = OctadConfig { enable_access_control: false, ..octad };
    lemma_schema_parts(dialect, tables, on);
    lemma_schema_parts(dialect, tables, off);
    let base = SCHEMA_HEADER@ + METADATA_TABLE_DDL@ + metadata_seed_text(dialect, tables);
    let p = when(octad.enable_provenance, PROVENANCE_TABLE_DDL@);
    let l = when(octad.enable_lineage, LINEAGE_TABLE_DDL@);
    let tm = when(octad.enable_temporal, TEMPORAL_TABLE_DDL@);
    let ac = when(octad.enable_access_control, ACCESS_POLICY_TABLE_DDL@);
    let sm = when(octad.enable_simulation, SIMULATION_TABLE_DDL@);
    let a = base + p + l + tm;
    let b = sm;
    assert(sidecar_schema_text(dialect, tables, on) =~= a + ACCESS_POLICY_TABLE_DDL@ + b);
    assert(sidecar_schema_text(dialect, tables, off) =~= a + b);
    lemma_inserted(a, ACCESS_POLICY_TABLE_DDL@, b);
}

/// The simulation table follows the simulation toggle alone.
/// Whatever the other toggles and names, the schema generated with it on is
/// the schema generated with it off with its table DDL inserted, so the
/// table is there only when this dimension is enabled.
#[verifier::spinoff_prover]
pub proof fn law_simulation_table_follows_its_toggle(dialect: SqlDialect, tables: Seq<TableV>, octad: OctadConfig)
    ensures
        inserted_in(
            sidecar_schema_text(dialect, tables, OctadConfig { enable_simulation: true, ..octad }),
            sidecar_schema_text(dialect, tables, OctadConfig { enable_simulation: false, ..octad }),
            SIMULATION_TABLE_DDL@,
        ),
{
    let on = OctadConfig { enable_simulation: true, ..octad };
    let off = OctadConfig { enable_simulation: false, ..octad };
    lemma_schema_parts(dialect, tables, on);
    lemma_schema_parts(dialect, tables, off);
    let base = SCHEMA_HEADER@ + METADATA_TABLE_DDL@ + metadata_seed_text(dialect, tables);
    let p = when(octad.enable_provenance, PROVENANCE_TABLE_DDL@);
    let l = when(octad.enable_lineage, LINEAGE_TABLE_DDL@);
    let tm = when(octad.enable_temporal, TEMPORAL_TABLE_DDL@);
    let ac = when(octad.enable_access_control, ACCESS_POLICY_TABLE_DDL@);
    let sm = when(octad.enable_simulation, SIMULATION_TABLE_DDL@);
    let a = base + p + l + tm + ac;
    let b = Seq::<char>::empty();
    assert(sidecar_schema_text(dialect, tables, on) =~= a + SIMULATION_TABLE_DDL@ + b);
    assert(sidecar_schema_text(dialect, tables, off) =~= a + b);
    lemma_inserted(a, SIMULATION_TABLE_DDL@, b);
}

} // verus!
