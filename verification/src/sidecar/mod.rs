//! Sidecar storage backend selection: `[sidecar].storage` (+ `[sidecar].format`
//! for the JSON family) resolves to a [`StorageKind`]. This is the single
//! source of truth for which storage values are accepted.

pub mod chain;
pub mod codec;
pub mod integrity;
pub mod json;
pub mod lock;
pub mod retention;
pub mod versions;

use vstd::prelude::*;

use crate::codegen::overlay::{dialect_for_lowered, SqlDialect};
use crate::text::{
    all_ascii, ascii_lower, concat3, debug_str, spec_debug_str, spec_to_lowercase, str_eq, to_lowercase,
};

verus! {

/// On-disk encoding for the `json` sidecar store.
#[derive(Copy, Clone, Debug, PartialEq, Eq, Structural)]
pub enum JsonFormat {
    /// One JSON object keyed by table name, each holding an array of rows.
    Plain,
    /// JSON-LD: `@context` + `@graph` of typed (`@type`/`@id`) nodes.
    Ld,
    /// Newline-delimited JSON: one `{"_table": …, …}` record per line.
    Ndjson,
}

/// Message for an unsupported format value (given lowercased).
pub open spec fn unsupported_format_message(lowered: Seq<char>) -> Seq<char> {
    "unsupported [sidecar].format "@ + spec_debug_str(lowered)
        + "; supported values are \"plain\" (default), \"ld\" (JSON-LD), and \"ndjson\"."@
}

/// The format named by an already-lowercased value.
pub open spec fn format_for_lowered(l: Seq<char>) -> Result<JsonFormat, Seq<char>> {
    if l == ""@ || l == "plain"@ || l == "json"@ {
        Ok(JsonFormat::Plain)
    } else if l == "ld"@ || l == "json-ld"@ || l == "jsonld"@ {
        Ok(JsonFormat::Ld)
    } else if l == "ndjson"@ || l == "nd-json"@ || l == "jsonl"@ || l == "jsonlines"@ {
        Ok(JsonFormat::Ndjson)
    } else {
        Err(unsupported_format_message(l))
    }
}

/// Message for an unsupported storage value (given lowercased).
pub open spec fn unsupported_storage_message(lowered: Seq<char>) -> Seq<char> {
    "unsupported [sidecar].storage "@ + spec_debug_str(lowered)
        + "; supported values are \"sqlite\" (default), \"postgres\"/\"postgresql\", and \"json\" (with [sidecar].format = plain|ld|ndjson)."@
}

/// The storage kind named by a lowercased storage value and the
/// (unlowered) format value.
pub open spec fn storage_for(l: Seq<char>, format: Seq<char>) -> Result<StorageKind, Seq<char>> {
    if l == "sqlite"@ {
        Ok(StorageKind::Sqlite)
    } else if l == "postgres"@ || l == "postgresql"@ {
        Ok(StorageKind::Postgres)
    } else if l == "json"@ {
        match format_for_lowered(spec_to_lowercase(format)) {
            Ok(f) => Ok(StorageKind::Json(f)),
            Err(e) => Err(e),
        }
    } else {
        Err(unsupported_storage_message(l))
    }
}

/// [`storage_for`] of ASCII values, both lowercased ASCII-only.
pub open spec fn storage_for_ascii(l: Seq<char>, format: Seq<char>) -> Result<StorageKind, Seq<char>> {
    if l == "sqlite"@ {
        Ok(StorageKind::Sqlite)
    } else if l == "postgres"@ || l == "postgresql"@ {
        Ok(StorageKind::Postgres)
    } else if l == "json"@ {
        match format_for_lowered(ascii_lower(format)) {
            Ok(f) => Ok(StorageKind::Json(f)),
            Err(e) => Err(e),
        }
    } else {
        Err(unsupported_storage_message(l))
    }
}

/// View of a result with a string error.
pub open spec fn str_result_view<T>(r: Result<T, String>) -> Result<T, Seq<char>> {
    match r {
        Ok(v) => Ok(v),
        Err(e) => Err(e@),
    }
}

impl JsonFormat {
    /// Canonical lower-case token.
    pub open spec fn spec_as_str(self) -> &'static str {
        match self {
            JsonFormat::Plain => "plain",
            JsonFormat::Ld => "ld",
            JsonFormat::Ndjson => "ndjson",
        }
    }

    /// File extension for an emitted scaffold.
    pub open spec fn spec_extension(self) -> &'static str {
        match self {
            JsonFormat::Plain => "json",
            JsonFormat::Ld => "jsonld",
            JsonFormat::Ndjson => "ndjson",
        }
    }

    /// Parse a `[sidecar].format` value (case-insensitive). An empty string
    /// is the default (`plain`).
    pub fn parse(format: &str) -> (r: Result<Self, String>)
        ensures
            str_result_view(r) == format_for_lowered(spec_to_lowercase(format@)),
            all_ascii(format@) ==> str_result_view(r) == format_for_lowered(ascii_lower(format@)),
    {
        let lowered = to_lowercase(format);
        let l = lowered.as_str();
        if str_eq(l, "") || str_eq(l, "plain") || str_eq(l, "json") {
            Ok(JsonFormat::Plain)
        } else if str_eq(l, "ld") || str_eq(l, "json-ld") || str_eq(l, "jsonld") {
            Ok(JsonFormat::Ld)
        } else if str_eq(l, "ndjson") || str_eq(l, "nd-json") || str_eq(l, "jsonl") || str_eq(
            l,
            "jsonlines",
        ) {
            Ok(JsonFormat::Ndjson)
        } else {
            let quoted = debug_str(l);
            Err(concat3(
                "unsupported [sidecar].format ",
                quoted.as_str(),
                "; supported values are \"plain\" (default), \"ld\" (JSON-LD), and \"ndjson\".",
            ))
        }
    }

    /// Canonical lower-case token for this format.
    pub fn as_str(self) -> (r: &'static str)
        ensures
            r == self.spec_as_str(),
    {
        match self {
            JsonFormat::Plain => "plain",
            JsonFormat::Ld => "ld",
            JsonFormat::Ndjson => "ndjson",
        }
    }

    /// File extension for an emitted scaffold.
    pub fn extension(self) -> (r: &'static str)
        ensures
            r == self.spec_extension(),
    {
        match self {
            JsonFormat::Plain => "json",
            JsonFormat::Ld => "jsonld",
            JsonFormat::Ndjson => "ndjson",
        }
    }
}

/// The resolved sidecar storage backend.
#[derive(Copy, Clone, Debug, PartialEq, Eq, Structural)]
pub enum StorageKind {
    /// SQLite sidecar (the reference store).
    Sqlite,
    /// PostgreSQL sidecar (SQL dialect; same overlay schema).
    Postgres,
    /// JSON-family document store in the given on-disk format.
    Json(JsonFormat),
}

impl StorageKind {
    /// The SQL dialect of a kind; `None` for the JSON store.
    pub open spec fn spec_sql_dialect(self) -> Option<SqlDialect> {
        match self {
            StorageKind::Sqlite => Some(SqlDialect::Sqlite),
            StorageKind::Postgres => Some(SqlDialect::Postgres),
            StorageKind::Json(_) => None,
        }
    }

    /// Resolve `[sidecar].storage` (+ `[sidecar].format` for `json`) to a
    /// backend. Case-insensitive; `format` is only consulted for `json`.
    pub fn resolve(storage: &str, format: &str) -> (r: Result<Self, String>)
        ensures
            str_result_view(r) == storage_for(spec_to_lowercase(storage@), format@),
            all_ascii(storage@) && all_ascii(format@) ==> str_result_view(r) == storage_for_ascii(
                ascii_lower(storage@),
                format@,
            ),
    {
        let lowered = to_lowercase(storage);
        let l = lowered.as_str();
        if str_eq(l, "sqlite") {
            Ok(StorageKind::Sqlite)
        } else if str_eq(l, "postgres") || str_eq(l, "postgresql") {
            Ok(StorageKind::Postgres)
        } else if str_eq(l, "json") {
            match JsonFormat::parse(format) {
                Ok(f) => Ok(StorageKind::Json(f)),
                Err(e) => Err(e),
            }
        } else {
            let quoted = debug_str(l);
            Err(concat3(
                "unsupported [sidecar].storage ",
                quoted.as_str(),
                "; supported values are \"sqlite\" (default), \"postgres\"/\"postgresql\", and \"json\" (with [sidecar].format = plain|ld|ndjson).",
            ))
        }
    }

    /// The SQL dialect for SQL-backed kinds; `None` for the JSON store.
    pub fn sql_dialect(self) -> (r: Option<SqlDialect>)
        ensures
            r == self.spec_sql_dialect(),
    {
        match self {
            StorageKind::Sqlite => Some(SqlDialect::Sqlite),
            StorageKind::Postgres => Some(SqlDialect::Postgres),
            StorageKind::Json(_) => None,
        }
    }
}

/// Every format's own token, and its file extension, name that format:
/// both are ASCII, already lowercase, and parse back to it; and `json`
/// storage with the token resolves to the JSON store in that format. (So
/// `parse(f.as_str())` and `parse(f.extension())` give `f`.)
pub proof fn law_format_tokens_round_trip(f: JsonFormat)
    ensures
        all_ascii(f.spec_as_str()@),
        ascii_lower(f.spec_as_str()@) == f.spec_as_str()@,
        format_for_lowered(f.spec_as_str()@) == Ok::<JsonFormat, Seq<char>>(f),
        all_ascii(f.spec_extension()@),
        ascii_lower(f.spec_extension()@) == f.spec_extension()@,
        format_for_lowered(f.spec_extension()@) == Ok::<JsonFormat, Seq<char>>(f),
        storage_for_ascii("json"@, f.spec_as_str()@) == Ok::<StorageKind, Seq<char>>(
            StorageKind::Json(f),
        ),
{
    reveal_strlit("plain");
    reveal_strlit("ld");
    reveal_strlit("ndjson");
    reveal_strlit("json");
    reveal_strlit("jsonld");
    reveal_strlit("");
    reveal_strlit("json-ld");
    reveal_strlit("nd-json");
    reveal_strlit("jsonl");
    reveal_strlit("jsonlines");
    reveal_strlit("sqlite");
    reveal_strlit("postgres");
    reveal_strlit("postgresql");
    let a = f.spec_as_str()@;
    let x = f.spec_extension()@;
    match f {
        JsonFormat::Plain => {
            assert(a == "plain"@ && x == "json"@);
        },
        JsonFormat::Ld => {
            assert(a.len() == 2 && ""@.len() == 0 && "plain"@.len() == 5 && "json"@.len() == 4);
            assert(a != ""@ && a != "plain"@ && a != "json"@);
            assert(x.len() == 6 && "ld"@.len() == 2 && "json-ld"@.len() == 7);
            assert(x != ""@ && x != "plain"@ && x != "json"@ && x != "ld"@ && x != "json-ld"@);
        },
        JsonFormat::Ndjson => {
            assert(a.len() == 6 && "plain"@.len() == 5 && "json"@.len() == 4 && "ld"@.len() == 2
                && "json-ld"@.len() == 7);
            assert(a[0] == 'n' && "jsonld"@[0] == 'j');
            assert(a != ""@ && a != "plain"@ && a != "json"@ && a != "ld"@ && a != "json-ld"@ && a
                != "jsonld"@);
        },
    }
    assert(ascii_lower(a) =~= a);
    assert(ascii_lower(x) =~= x);
    assert("json"@.len() != "sqlite"@.len());
    assert("json"@.len() != "postgres"@.len());
    assert("json"@.len() != "postgresql"@.len());
}

/// The sidecar DDL dialect agrees with the resolved storage kind: a
/// storage value gives a DDL dialect exactly when it resolves (with any
/// format) to a SQL-backed kind of that dialect.
pub proof fn law_dialect_agrees_with_storage_kind(l: Seq<char>, format: Seq<char>)
    ensures
        dialect_for_lowered(l) matches Ok(d) ==> storage_for_ascii(l, format) matches Ok(k)
            && k.spec_sql_dialect() == Some(d),
        storage_for_ascii(l, format) matches Ok(k) ==> match k.spec_sql_dialect() {
            Some(d) => dialect_for_lowered(l) == Ok::<SqlDialect, Seq<char>>(d),
            None => dialect_for_lowered(l) is Err,
        },
{
}

} // verus!
