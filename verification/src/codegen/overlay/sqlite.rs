//! SQLite sidecar DDL emission: only the metadata seed differs between
//! dialects; the table bodies are shared.

use vstd::prelude::*;

use crate::codegen::overlay::{
    assemble, metadata_rows, metadata_seed_text, schema_names_safe,
    seed_statement, seed_statements, sidecar_schema_result, string_result_view, SqlDialect,
};
use crate::codegen::parser::ParsedSchema;
use crate::manifest::OctadConfig;
use crate::text::{push_str, push_u64, string_from_chars};

verus! {

/// SQLite metadata seed: `INSERT OR IGNORE` with the portable `CURRENT_TIMESTAMP`.
pub fn metadata_seed(schema: &ParsedSchema) -> (r: String)
    requires
        schema_names_safe(schema@.tables),
    ensures
        r@ == metadata_seed_text(SqlDialect::Sqlite, schema@.tables),
{
    if schema.tables.len() == 0 {
        return String::new();
    }
    let rows = metadata_rows(schema);
    let ghost tv = schema@.tables;
    let mut ddl: Vec<char> = Vec::new();
    push_str(&mut ddl, "-- Seed metadata from parsed schema (SQLite)\n");
    let ghost start = ddl@;
    let n = rows.len();
    for i in 0..n
        invariant
            n == rows@.len(),
            n == tv.len(),
            forall|k: int|
                0 <= k < n ==> ((#[trigger] rows@[k]).0@, rows@[k].1 as nat, rows@[k].2@)
                    == crate::codegen::overlay::metadata_row(tv[k]),
            ddl@ == start + seed_statements(SqlDialect::Sqlite, tv.take(i as int)),
    {
        assert(tv.take(i + 1).drop_last() == tv.take(i as int));
        let row = &rows[i];
        assert((row.0@, row.1 as nat, row.2@) == crate::codegen::overlay::metadata_row(tv[i as int]));
        push_str(&mut ddl, "INSERT OR IGNORE INTO verisimdb_metadata (table_name, column_count, pk_columns, discovered_at)\n    VALUES ('");
        push_str(&mut ddl, row.0.as_str());
        push_str(&mut ddl, "', ");
        push_u64(&mut ddl, row.1 as u64);
        push_str(&mut ddl, ", '");
        push_str(&mut ddl, row.2.as_str());
        push_str(&mut ddl, "', CURRENT_TIMESTAMP);\n");
        assert(ddl@ =~= start + seed_statements(SqlDialect::Sqlite, tv.take(i as int)) + seed_statement(
            SqlDialect::Sqlite,
            tv[i as int],
        ));
    }
    assert(tv.take(n as int) == tv);
    push_str(&mut ddl, "\n");
    assert(ddl@ =~= metadata_seed_text(SqlDialect::Sqlite, tv));
    string_from_chars(&ddl)
}

/// Generate the full SQLite sidecar schema (see
/// [`crate::codegen::overlay::generate_sidecar_schema`]).
pub fn generate(schema: &ParsedSchema, octad: &OctadConfig) -> (r: Result<String, String>)
    ensures
        string_result_view(r) == sidecar_schema_result(SqlDialect::Sqlite, schema@.tables, *octad),
{
    assemble(schema, octad, SqlDialect::Sqlite)
}

} // verus!
