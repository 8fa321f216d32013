//! Query interceptor generator: SQL views and helper queries that enrich
//! native queries with octad dimension data from the sidecar. The target
//! database is never modified; all enrichment is by sidecar joins.

use vstd::prelude::*;

use crate::abi::DatabaseBackend;
use crate::codegen::parser::{columns_view, pk_names, tables_view, ColumnV, ParsedSchema, TableDef, TableV};
use crate::manifest::OctadConfig;
use crate::text::{push_str, string_from_chars};

verus! {

/// A generated query interceptor for a single table: the views and helper
/// queries for each enabled dimension.
#[derive(Debug, Clone)]
pub struct TableInterceptor {
    /// The target table name this interceptor wraps.
    pub table_name: String,
    /// Provenance-enriched view (if provenance is enabled).
    pub provenance_view: Option<String>,
    /// Temporally-aware view (if temporal is enabled).
    pub temporal_view: Option<String>,
    /// Lineage graph queries (if lineage is enabled).
    pub lineage_query: Option<String>,
    /// Access control filter (if access control is enabled).
    pub access_filter: Option<String>,
}

/// Abstract interceptor.
pub struct InterceptorV {
    pub table_name: Seq<char>,
    pub provenance_view: Option<Seq<char>>,
    pub temporal_view: Option<Seq<char>>,
    pub lineage_query: Option<Seq<char>>,
    pub access_filter: Option<Seq<char>>,
}

impl View for TableInterceptor {
    type V = InterceptorV;

    open spec fn view(&self) -> InterceptorV {
        InterceptorV {
            table_name: self.table_name@,
            provenance_view: crate::abi::opt_string_view(self.provenance_view),
            temporal_view: crate::abi::opt_string_view(self.temporal_view),
            lineage_query: crate::abi::opt_string_view(self.lineage_query),
            access_filter: crate::abi::opt_string_view(self.access_filter),
        }
    }
}

/// Views of a sequence of interceptors.
pub open spec fn interceptors_view(v: Seq<TableInterceptor>) -> Seq<InterceptorV> {
    v.map_values(|i: TableInterceptor| i@)
}

/// `table.column` cast to text.
pub open spec fn cast_part(t: Seq<char>, c: Seq<char>) -> Seq<char> {
    "CAST("@ + t + "."@ + c + " AS TEXT)"@
}

/// The casts of `cs` joined by `sep`.
pub open spec fn join_casts(t: Seq<char>, cs: Seq<Seq<char>>, sep: Seq<char>) -> Seq<char>
    decreases cs.len(),
{
    if cs.len() == 0 {
        Seq::empty()
    } else if cs.len() == 1 {
        cast_part(t, cs[0])
    } else {
        join_casts(t, cs.drop_last(), sep) + sep + cast_part(t, cs.last())
    }
}

/// The concatenation operator between key parts on `backend`.
pub open spec fn key_separator(backend: DatabaseBackend) -> Seq<char> {
    match backend {
        DatabaseBackend::MongoDB => " + '::' + "@,
        _ => " || '::' || "@,
    }
}

/// The entity-id expression: the primary-key columns cast to text and
/// joined with `'::'`, or the backend's row identifier when there is no
/// primary key.
pub open spec fn entity_id_expr_text(pks: Seq<Seq<char>>, t: Seq<char>, backend: DatabaseBackend) -> Seq<
    char,
> {
    if pks.len() == 0 {
        match backend {
            DatabaseBackend::SQLite => t + ".rowid"@,
            DatabaseBackend::PostgreSQL => t + ".ctid::text"@,
            DatabaseBackend::MongoDB => "CAST(_id AS TEXT)"@,
        }
    } else {
        join_casts(t, pks, key_separator(backend))
    }
}

/// One select-list line: `    table.column`.
pub open spec fn column_line(t: Seq<char>, c: ColumnV) -> Seq<char> {
    "    "@ + t + "."@ + c.name
}

/// The select-list lines of `cols`, joined by `,` and a newline.
pub open spec fn column_list_text(t: Seq<char>, cols: Seq<ColumnV>) -> Seq<char>
    decreases cols.len(),
{
    if cols.len() == 0 {
        Seq::empty()
    } else if cols.len() == 1 {
        column_line(t, cols[0])
    } else {
        column_list_text(t, cols.drop_last()) + ",\n"@ + column_line(t, cols.last())
    }
}

/// Provenance-enriched view of table `t` (select list `cols`, entity id `e`).
pub open spec fn provenance_view_text(t: Seq<char>, cols: Seq<char>, e: Seq<char>) -> Seq<char> {
    "-- Provenance-enriched view for '"@
        + t
        + "'\n-- Joins each row with its latest provenance entry from the sidecar.\n"@
        + "CREATE VIEW IF NOT EXISTS verisimdb_"@
        + t
        + "_with_provenance AS\nSELECT\n"@
        + cols
        + ",\n    prov.operation   AS _verisimdb_last_operation,\n    prov.actor       AS _verisimdb_last_actor,\n    prov.timestamp   AS _verisimdb_last_modified,\n    prov.hash        AS _verisimdb_provenance_hash\nFROM "@
        + t
        + "\nLEFT JOIN (\n    SELECT entity_id, operation, actor, timestamp, hash\n    FROM verisimdb_provenance_log\n    WHERE table_name = '"@
        + t
        + "'\n    AND timestamp = (\n        SELECT MAX(p2.timestamp)\n        FROM verisimdb_provenance_log p2\n        WHERE p2.entity_id = verisimdb_provenance_log.entity_id\n        AND p2.table_name = '"@
        + t
        + "'\n    )\n) prov ON prov.entity_id = ("@
        + e
        + ");\n\n"@
}

/// Temporal-enriched view of table `t` (select list `cols`, entity id `e`).
pub open spec fn temporal_view_text(t: Seq<char>, cols: Seq<char>, e: Seq<char>) -> Seq<char> {
    "-- Temporal-enriched view for '"@
        + t
        + "'\n-- Joins each row with its current version metadata.\nCREATE VIEW IF NOT EXISTS verisimdb_"@
        + t
        + "_with_temporal AS\nSELECT\n"@
        + cols
        + ",\n    tv.version    AS _verisimdb_version,\n    tv.valid_from AS _verisimdb_valid_from,\n    tv.operation  AS _verisimdb_version_operation\nFROM "@
        + t
        + "\nLEFT JOIN verisimdb_temporal_versions tv\n    ON tv.entity_id = ("@
        + e
        + ")\n    AND tv.table_name = '"@
        + t
        + "'\n    AND tv.valid_to IS NULL;\n\n"@
}

/// Lineage traversal query templates for table `t`.
pub open spec fn lineage_query_text(t: Seq<char>) -> Seq<char> {
    "-- Lineage queries for '"@
        + t
        + "'\n\n-- Upstream: what data was this entity derived from?\n-- SELECT * FROM verisimdb_lineage_graph\n-- WHERE target_entity = :entity_id AND target_table = '"@
        + t
        + "';\n\n-- Downstream: what entities depend on this entity?\n-- SELECT * FROM verisimdb_lineage_graph\n-- WHERE source_entity = :entity_id AND source_table = '"@
        + t
        + "';\n\n"@
}

/// Access-control filter template for table `t`.
pub open spec fn access_filter_text(t: Seq<char>) -> Seq<char> {
    "-- Access control filter for '"@
        + t
        + "'\n-- Apply this as a WHERE clause addition to enforce row-level security.\n--\n-- Example usage (parameterised):\n-- SELECT * FROM "@
        + t
        + "\n-- WHERE ... AND EXISTS (\n--     SELECT 1 FROM verisimdb_access_policies\n--     WHERE target_table = '"@
        + t
        + "'\n--     AND principal = :current_principal\n--     AND access_level IN ('read', 'admin')\n--     AND active = 1\n--     AND (condition IS NULL OR :row_matches_condition)\n-- );\n\n"@
}

/// Banner introducing the interceptors of table `t`.
pub open spec fn table_banner_text(t: Seq<char>) -> Seq<char> {
    "-- ==========================================================\n-- Table: "@
        + t
        + "\n-- ==========================================================\n\n"@
}

/// The interceptor generated for a table.
pub open spec fn interceptor_of(table: TableV, octad: OctadConfig, backend: DatabaseBackend) -> InterceptorV {
    let t = table.name;
    let e = entity_id_expr_text(pk_names(table.columns), t, backend);
    let cols = column_list_text(t, table.columns);
    InterceptorV {
        table_name: t,
        provenance_view: if octad.enable_provenance {
            Some(provenance_view_text(t, cols, e))
        } else {
            None
        },
        temporal_view: if octad.enable_temporal {
            Some(temporal_view_text(t, cols, e))
        } else {
            None
        },
        lineage_query: if octad.enable_lineage {
            Some(lineage_query_text(t))
        } else {
            None
        },
        access_filter: if octad.enable_access_control {
            Some(access_filter_text(t))
        } else {
            None
        },
    }
}

/// The text of an optional part.
pub open spec fn opt_text(o: Option<Seq<char>>) -> Seq<char> {
    match o {
        Some(s) => s,
        None => Seq::empty(),
    }
}

/// One interceptor's rendering: banner, then its parts in order.
pub open spec fn interceptor_text(i: InterceptorV) -> Seq<char> {
    table_banner_text(i.table_name) + opt_text(i.provenance_view) + opt_text(i.temporal_view)
        + opt_text(i.lineage_query) + opt_text(i.access_filter)
}

/// The renderings of `is`, in order.
pub open spec fn interceptors_text(is: Seq<InterceptorV>) -> Seq<char>
    decreases is.len(),
{
    if is.len() == 0 {
        Seq::empty()
    } else {
        interceptors_text(is.drop_last()) + interceptor_text(is.last())
    }
}

/// Header of the rendered interceptor file.
pub const INTERCEPTORS_HEADER: &'static str = "-- SPDX-License-Identifier: PMPL-1.0-or-later\n-- VeriSimiser query interceptors (auto-generated)\n\n";

/// The rendered interceptor file.
pub open spec fn render_text(is: Seq<InterceptorV>) -> Seq<char> {
    INTERCEPTORS_HEADER@ + interceptors_text(is)
}

/// Views of a slice of borrowed strings.
pub open spec fn strs_view(v: Seq<&str>) -> Seq<Seq<char>> {
    v.map_values(|s: &str| s@)
}

/// A SQL expression computing an entity id from the primary-key columns:
/// each cast to text, composite keys joined with `'::'`; without a primary
/// key, the backend's row identifier.
pub fn build_entity_id_expr(pk_columns: &[&str], table_name: &str, backend: DatabaseBackend) -> (r: String)
    ensures
        r@ == entity_id_expr_text(strs_view(pk_columns@), table_name@, backend),
{
    let n = pk_columns.len();
    let mut buf: Vec<char> = Vec::new();
    if n == 0 {
        match backend {
            DatabaseBackend::SQLite => {
                push_str(&mut buf, table_name);
                push_str(&mut buf, ".rowid");
            },
            DatabaseBackend::PostgreSQL => {
                push_str(&mut buf, table_name);
                push_str(&mut buf, ".ctid::text");
            },
            DatabaseBackend::MongoDB => {
                push_str(&mut buf, "CAST(_id AS TEXT)");
            },
        }
        return string_from_chars(&buf);
    }
    let ghost pv = strs_view(pk_columns@);
    let sep = match backend {
        DatabaseBackend::MongoDB => " + '::' + ",
        _ => " || '::' || ",
    };
    for i in 0..n
        invariant
            n == pk_columns@.len(),
            pv == strs_view(pk_columns@),
            sep@ == key_separator(backend),
            buf@ == join_casts(table_name@, pv.take(i as int), sep@),
    {
        assert(pv.take(i + 1).drop_last() == pv.take(i as int));
        assert(pv.take(i + 1).last() == pk_columns@[i as int]@);
        if i > 0 {
            push_str(&mut buf, sep);
        }
        push_str(&mut buf, "CAST(");
        push_str(&mut buf, table_name);
        push_str(&mut buf, ".");
        push_str(&mut buf, pk_columns[i]);
        push_str(&mut buf, " AS TEXT)");
        assert(buf@ =~= join_casts(table_name@, pv.take(i + 1), sep@));
    }
    assert(pv.take(n as int) == pv);
    string_from_chars(&buf)
}

/// The select list of a table's columns.
fn column_list(table: &TableDef) -> (r: Vec<char>)
    ensures
        r@ == column_list_text(table@.name, table@.columns),
{
    let cols = &table.columns;
    let ghost cv = table@.columns;
    let n = cols.len();
    let mut buf: Vec<char> = Vec::new();
    for i in 0..n
        invariant
            n == cols@.len(),
            cv == columns_view(cols@),
            cv == table@.columns,
            buf@ == column_list_text(table@.name, cv.take(i as int)),
    {
        assert(cv.take(i + 1).drop_last() == cv.take(i as int));
        assert(cv.take(i + 1).last() == cols@[i as int]@);
        if i > 0 {
            push_str(&mut buf, ",\n");
        }
        push_str(&mut buf, "    ");
        push_str(&mut buf, table.name.as_str());
        push_str(&mut buf, ".");
        push_str(&mut buf, cols[i].name.as_str());
        assert(buf@ =~= column_list_text(table@.name, cv.take(i + 1)));
    }
    assert(cv.take(n as int) == cv);
    buf
}

/// A view joining each row of `table` with its latest provenance entry
/// from the sidecar (last operation, actor, time and hash).
pub fn generate_provenance_view(table: &TableDef, entity_id_expr: &str, _backend: DatabaseBackend) -> (r: String)
    ensures
        r@ == provenance_view_text(table@.name, column_list_text(table@.name, table@.columns), entity_id_expr@),
{
    let t = table.name.as_str();
    let cl = column_list(table);
    let cols = string_from_chars(&cl);
    let mut buf: Vec<char> = Vec::new();
    push_str(&mut buf, "-- Provenance-enriched view for '");
    push_str(&mut buf, t);
    push_str(&mut buf, "'\n-- Joins each row with its latest provenance entry from the sidecar.\n");
    push_str(&mut buf, "CREATE VIEW IF NOT EXISTS verisimdb_");
    push_str(&mut buf, t);
    push_str(&mut buf, "_with_provenance AS\nSELECT\n");
    push_str(&mut buf, cols.as_str());
    push_str(&mut buf, ",\n    prov.operation   AS _verisimdb_last_operation,\n    prov.actor       AS _verisimdb_last_actor,\n    prov.timestamp   AS _verisimdb_last_modified,\n    prov.hash        AS _verisimdb_provenance_hash\nFROM ");
    push_str(&mut buf, t);
    push_str(&mut buf, "\nLEFT JOIN (\n    SELECT entity_id, operation, actor, timestamp, hash\n    FROM verisimdb_provenance_log\n    WHERE table_name = '");
    push_str(&mut buf, t);
    push_str(&mut buf, "'\n    AND timestamp = (\n        SELECT MAX(p2.timestamp)\n        FROM verisimdb_provenance_log p2\n        WHERE p2.entity_id = verisimdb_provenance_log.entity_id\n        AND p2.table_name = '");
    push_str(&mut buf, t);
    push_str(&mut buf, "'\n    )\n) prov ON prov.entity_id = (");
    push_str(&mut buf, entity_id_expr);
    push_str(&mut buf, ");\n\n");
    assert(buf@ =~= provenance_view_text(table@.name, column_list_text(table@.name, table@.columns), entity_id_expr@));
    string_from_chars(&buf)
}

/// A view showing the current version of each row of `table` with its
/// version number and `valid_from`.
pub fn generate_temporal_view(table: &TableDef, entity_id_expr: &str, _backend: DatabaseBackend) -> (r: String)
    ensures
        r@ == temporal_view_text(table@.name, column_list_text(table@.name, table@.columns), entity_id_expr@),
{
    let t = table.name.as_str();
    let cl = column_list(table);
    let cols = string_from_chars(&cl);
    let mut buf: Vec<char> = Vec::new();
    push_str(&mut buf, "-- Temporal-enriched view for '");
    push_str(&mut buf, t);
    push_str(&mut buf, "'\n-- Joins each row with its current version metadata.\nCREATE VIEW IF NOT EXISTS verisimdb_");
    push_str(&mut buf, t);
    push_str(&mut buf, "_with_temporal AS\nSELECT\n");
    push_str(&mut buf, cols.as_str());
    push_str(&mut buf, ",\n    tv.version    AS _verisimdb_version,\n    tv.valid_from AS _verisimdb_valid_from,\n    tv.operation  AS _verisimdb_version_operation\nFROM ");
    push_str(&mut buf, t);
    push_str(&mut buf, "\nLEFT JOIN verisimdb_temporal_versions tv\n    ON tv.entity_id = (");
    push_str(&mut buf, entity_id_expr);
    push_str(&mut buf, ")\n    AND tv.table_name = '");
    push_str(&mut buf, t);
    push_str(&mut buf, "'\n    AND tv.valid_to IS NULL;\n\n");
    assert(buf@ =~= temporal_view_text(table@.name, column_list_text(table@.name, table@.columns), entity_id_expr@));
    string_from_chars(&buf)
}

/// Upstream and downstream lineage traversal query templates for
/// entities of `table_name`.
pub fn generate_lineage_query(table_name: &str) -> (r: String)
    ensures
        r@ == lineage_query_text(table_name@),
{

    let mut buf: Vec<char> = Vec::new();
    push_str(&mut buf, "-- Lineage queries for '");
    push_str(&mut buf, table_name);
    push_str(&mut buf, "'\n\n-- Upstream: what data was this entity derived from?\n-- SELECT * FROM verisimdb_lineage_graph\n-- WHERE target_entity = :entity_id AND target_table = '");
    push_str(&mut buf, table_name);
    push_str(&mut buf, "';\n\n-- Downstream: what entities depend on this entity?\n-- SELECT * FROM verisimdb_lineage_graph\n-- WHERE source_entity = :entity_id AND source_table = '");
    push_str(&mut buf, table_name);
    push_str(&mut buf, "';\n\n");
    assert(buf@ =~= lineage_query_text(table_name@));
    string_from_chars(&buf)
}

/// A parameterised row-level access-control filter for `table_name`.
pub fn generate_access_filter(table_name: &str, _backend: DatabaseBackend) -> (r: String)
    ensures
        r@ == access_filter_text(table_name@),
{

    let mut buf: Vec<char> = Vec::new();
    push_str(&mut buf, "-- Access control filter for '");
    push_str(&mut buf, table_name);
    push_str(&mut buf, "'\n-- Apply this as a WHERE clause addition to enforce row-level security.\n--\n-- Example usage (parameterised):\n-- SELECT * FROM ");
    push_str(&mut buf, table_name);
    push_str(&mut buf, "\n-- WHERE ... AND EXISTS (\n--     SELECT 1 FROM verisimdb_access_policies\n--     WHERE target_table = '");
    push_str(&mut buf, table_name);
    push_str(&mut buf, "'\n--     AND principal = :current_principal\n--     AND access_level IN ('read', 'admin')\n--     AND active = 1\n--     AND (condition IS NULL OR :row_matches_condition)\n-- );\n\n");
    assert(buf@ =~= access_filter_text(table_name@));
    string_from_chars(&buf)
}

/// The interceptor of one table: the entity-id expression from its
/// primary key, then the view or query of each enabled dimension.
pub fn generate_table_interceptor(table: &TableDef, octad: &OctadConfig, backend: DatabaseBackend) -> (r:
    TableInterceptor)
    ensures
        r@ == interceptor_of(table@, *octad, backend),
{
    let pks = table.pk_column_names();
    let mut pk_refs: Vec<&str> = Vec::new();
    let n = pks.len();
    for i in 0..n
        invariant
            n == pks@.len(),
            pk_refs@.len() == i,
            forall|k: int| 0 <= k < i ==> (#[trigger] pk_refs@[k])@ == pks@[k]@,
    {
        pk_refs.push(pks[i].as_str());
    }
    assert(strs_view(pk_refs@) =~= pks@.map_values(|s: String| s@));
    let entity_id_expr = build_entity_id_expr(pk_refs.as_slice(), table.name.as_str(), backend);
    let provenance_view = if octad.enable_provenance {
        Some(generate_provenance_view(table, entity_id_expr.as_str(), backend))
    } else {
        None
    };
    let temporal_view = if octad.enable_temporal {
        Some(generate_temporal_view(table, entity_id_expr.as_str(), backend))
    } else {
        None
    };
    let lineage_query = if octad.enable_lineage {
        Some(generate_lineage_query(table.name.as_str()))
    } else {
        None
    };
    let access_filter = if octad.enable_access_control {
        Some(generate_access_filter(table.name.as_str(), backend))
    } else {
        None
    };
    TableInterceptor {
        table_name: table.name.clone(),
        provenance_view,
        temporal_view,
        lineage_query,
        access_filter,
    }
}

/// One interceptor per table of `schema`, in order.
pub fn generate_interceptors(schema: &ParsedSchema, octad: &OctadConfig, backend: DatabaseBackend) -> (r:
    Vec<TableInterceptor>)
    ensures
        r@.len() == schema@.tables.len(),
        forall|i: int|
            0 <= i < r@.len() ==> (#[trigger] r@[i])@ == interceptor_of(
                schema@.tables[i],
                *octad,
                backend,
            ),
{
    let tables = &schema.tables;
    let n = tables.len();
    let mut r: Vec<TableInterceptor> = Vec::new();
    for i in 0..n
        invariant
            n == tables@.len(),
            tables_view(tables@) == schema@.tables,
            r@.len() == i,
            forall|k: int|
                0 <= k < i ==> (#[trigger] r@[k])@ == interceptor_of(schema@.tables[k], *octad, backend),
    {
        assert(schema@.tables[i as int] == tables@[i as int]@);
        r.push(generate_table_interceptor(&tables[i], octad, backend));
    }
    r
}

fn push_opt(buf: &mut Vec<char>, o: &Option<String>)
    ensures
        final(buf)@ == old(buf)@ + opt_text(crate::abi::opt_string_view(*o)),
{
    match o {
        Some(s) => push_str(buf, s.as_str()),
        None => {
            assert(old(buf)@ + Seq::<char>::empty() =~= old(buf)@);
        },
    }
}

/// Render all interceptors as one SQL text: a header, then for each table
/// a banner followed by its views and queries.
#[verifier::spinoff_prover]
#[verifier::rlimit(30)]
pub fn render_interceptors(interceptors: &[TableInterceptor]) -> (r: String)
    ensures
        r@ == render_text(interceptors_view(interceptors@)),
{
    let mut buf: Vec<char> = Vec::new();
    push_str(&mut buf, INTERCEPTORS_HEADER);
    let ghost iv = interceptors_view(interceptors@);
    let n = interceptors.len();
    for i in 0..n
        invariant
            n == interceptors@.len(),
            iv == interceptors_view(interceptors@),
            buf@ == INTERCEPTORS_HEADER@ + interceptors_text(iv.take(i as int)),
    {
        assert(iv.take(i + 1).drop_last() == iv.take(i as int));
        assert(iv.take(i + 1).last() == interceptors@[i as int]@);
        let it = &interceptors[i];
        let ghost before = buf@;

        push_str(&mut buf, "-- ==========================================================\n-- Table: ");
        push_str(&mut buf, it.table_name.as_str());
        push_str(&mut buf, "\n-- ==========================================================\n\n");

        assert(buf@ =~= before + table_banner_text(it@.table_name));
        push_opt(&mut buf, &it.provenance_view);
        push_opt(&mut buf, &it.temporal_view);
        push_opt(&mut buf, &it.lineage_query);
        push_opt(&mut buf, &it.access_filter);
        assert(buf@ =~= before + interceptor_text(it@));
    }
    assert(iv.take(n as int) == iv);
    string_from_chars(&buf)
}

/// `w` occurs in `s`.
pub open spec fn occurs_in(w: Seq<char>, s: Seq<char>) -> bool {
    exists|i: int| 0 <= i && i + w.len() <= s.len() && #[trigger] s.subrange(i, i + w.len()) == w
}

/// The provenance-enriched view joins each row with its most recent
/// provenance entry: for every table, select list and entity-id
/// expression, the view keeps the entry whose timestamp is the greatest
/// among the entries logged for the same entity.
pub proof fn law_provenance_view_takes_latest_entry(t: Seq<char>, cols: Seq<char>, e: Seq<char>)
    ensures
        occurs_in(
            "SELECT MAX(p2.timestamp)\n        FROM verisimdb_provenance_log p2\n        WHERE p2.entity_id = verisimdb_provenance_log.entity_id"@,
            provenance_view_text(t, cols, e),
        ),
{
    let w = "SELECT MAX(p2.timestamp)\n        FROM verisimdb_provenance_log p2\n        WHERE p2.entity_id = verisimdb_provenance_log.entity_id"@;
    let q = "'\n    AND timestamp = (\n        "@;
    let r = "\n        AND p2.table_name = '"@;
    let piece = "'\n    AND timestamp = (\n        SELECT MAX(p2.timestamp)\n        FROM verisimdb_provenance_log p2\n        WHERE p2.entity_id = verisimdb_provenance_log.entity_id\n        AND p2.table_name = '"@;
    reveal_strlit("SELECT MAX(p2.timestamp)\n        FROM verisimdb_provenance_log p2\n        WHERE p2.entity_id = verisimdb_provenance_log.entity_id");
    reveal_strlit("'\n    AND timestamp = (\n        ");
    reveal_strlit("\n        AND p2.table_name = '");
    reveal_strlit("'\n    AND timestamp = (\n        SELECT MAX(p2.timestamp)\n        FROM verisimdb_provenance_log p2\n        WHERE p2.entity_id = verisimdb_provenance_log.entity_id\n        AND p2.table_name = '");
    assert(piece =~= q + w + r);
    let a = "-- Provenance-enriched view for '"@ + t
        + "'\n-- Joins each row with its latest provenance entry from the sidecar.\n"@
        + "CREATE VIEW IF NOT EXISTS verisimdb_"@ + t + "_with_provenance AS\nSELECT\n"@ + cols
        + ",\n    prov.operation   AS _verisimdb_last_operation,\n    prov.actor       AS _verisimdb_last_actor,\n    prov.timestamp   AS _verisimdb_last_modified,\n    prov.hash        AS _verisimdb_provenance_hash\nFROM "@
        + t
        + "\nLEFT JOIN (\n    SELECT entity_id, operation, actor, timestamp, hash\n    FROM verisimdb_provenance_log\n    WHERE table_name = '"@
        + t;
    let b = t + "'\n    )\n) prov ON prov.entity_id = ("@ + e + ");\n\n"@;
    let s = provenance_view_text(t, cols, e);
    assert(s =~= (a + q) + w + (r + b));
    let k = (a + q).len() as int;
    assert(s.subrange(k, k + w.len()) =~= w);
}

/// The temporal-enriched view joins each row with its current version
/// only: for every table, select list and entity-id expression, the join
/// keeps the version row of the same table that has not been superseded.
pub proof fn law_temporal_view_takes_current_version(t: Seq<char>, cols: Seq<char>, e: Seq<char>)
    ensures
        occurs_in("AND tv.valid_to IS NULL"@, temporal_view_text(t, cols, e)),
{
    let w = "AND tv.valid_to IS NULL"@;
    let q = "'\n    "@;
    let r = ";\n\n"@;
    reveal_strlit("AND tv.valid_to IS NULL");
    reveal_strlit("'\n    ");
    reveal_strlit(";\n\n");
    reveal_strlit("'\n    AND tv.valid_to IS NULL;\n\n");
    assert("'\n    AND tv.valid_to IS NULL;\n\n"@ =~= q + w + r);
    let a = "-- Temporal-enriched view for '"@ + t
        + "'\n-- Joins each row with its current version metadata.\nCREATE VIEW IF NOT EXISTS verisimdb_"@
        + t + "_with_temporal AS\nSELECT\n"@ + cols
        + ",\n    tv.version    AS _verisimdb_version,\n    tv.valid_from AS _verisimdb_valid_from,\n    tv.operation  AS _verisimdb_version_operation\nFROM "@
        + t + "\nLEFT JOIN verisimdb_temporal_versions tv\n    ON tv.entity_id = ("@ + e
        + ")\n    AND tv.table_name = '"@ + t;
    let s = temporal_view_text(t, cols, e);
    assert(s =~= (a + q) + w + r);
    let k = (a + q).len() as int;
    assert(s.subrange(k, k + w.len()) =~= w);
}

/// The access-control filter admits a row only through an active policy
/// of the current principal: for every table, the filter requires
/// `active = 1` of the policy it matches.
pub proof fn law_access_filter_requires_active_policy(t: Seq<char>)
    ensures
        occurs_in("AND principal = :current_principal"@, access_filter_text(t)),
        occurs_in("AND active = 1"@, access_filter_text(t)),
{
    let tail = "'\n--     AND principal = :current_principal\n--     AND access_level IN ('read', 'admin')\n--     AND active = 1\n--     AND (condition IS NULL OR :row_matches_condition)\n-- );\n\n"@;
    let w1 = "AND principal = :current_principal"@;
    let w2 = "AND active = 1"@;
    let q1 = "'\n--     "@;
    let m = "\n--     AND access_level IN ('read', 'admin')\n--     "@;
    let r2 = "\n--     AND (condition IS NULL OR :row_matches_condition)\n-- );\n\n"@;
    reveal_strlit("'\n--     AND principal = :current_principal\n--     AND access_level IN ('read', 'admin')\n--     AND active = 1\n--     AND (condition IS NULL OR :row_matches_condition)\n-- );\n\n");
    reveal_strlit("AND principal = :current_principal");
    reveal_strlit("AND active = 1");
    reveal_strlit("'\n--     ");
    reveal_strlit("\n--     AND access_level IN ('read', 'admin')\n--     ");
    reveal_strlit("\n--     AND (condition IS NULL OR :row_matches_condition)\n-- );\n\n");
    assert(tail =~= q1 + w1 + m + w2 + r2);
    let a = "-- Access control filter for '"@ + t
        + "'\n-- Apply this as a WHERE clause addition to enforce row-level security.\n--\n-- Example usage (parameterised):\n-- SELECT * FROM "@
        + t
        + "\n-- WHERE ... AND EXISTS (\n--     SELECT 1 FROM verisimdb_access_policies\n--     WHERE target_table = '"@
        + t;
    let s = access_filter_text(t);
    assert(s =~= (a + q1) + w1 + (m + w2 + r2));
    let k1 = (a + q1).len() as int;
    assert(s.subrange(k1, k1 + w1.len()) =~= w1);
    assert(s =~= (a + q1 + w1 + m) + w2 + r2);
    let k2 = (a + q1 + w1 + m).len() as int;
    assert(s.subrange(k2, k2 + w2.len()) =~= w2);
}

} // verus!
