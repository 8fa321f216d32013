//! Schema parsing: SQL DDL into the intermediate representation (tables and
//! columns) that the overlay and query generators consume.

use vstd::prelude::*;

use sqlparser::ast::{ColumnOption, Statement, TableConstraint};
use sqlparser::dialect::{GenericDialect, PostgreSqlDialect, SQLiteDialect};
use sqlparser::parser::Parser;

use crate::abi::opt_string_view;
use crate::codegen::ident::ident_char;
use crate::text::{push_str, spec_to_lowercase, str_eq, string_from_chars, to_lowercase};

verus! {

/// A parsed database schema containing all discovered tables.
#[derive(Debug, Clone)]
pub struct ParsedSchema {
    /// The tables discovered in the schema source.
    pub tables: Vec<TableDef>,
    /// The original source file path (if parsed from a file).
    pub source: Option<String>,
}

/// A single table definition extracted from DDL.
#[derive(Debug, Clone)]
pub struct TableDef {
    /// Table name as declared (the bare identifier of a qualified name,
    /// quoting stripped).
    pub name: String,
    /// Columns belonging to this table, in declaration order.
    pub columns: Vec<ColumnDef>,
}

/// A single column definition within a table.
#[derive(Debug, Clone)]
pub struct ColumnDef {
    /// Column name as declared (quoting stripped).
    pub name: String,
    /// SQL type rendered canonically (e.g. `INTEGER`, `VARCHAR(255)`).
    pub sql_type: String,
    /// Part of the primary key (column-level or table-level).
    pub is_primary_key: bool,
    /// Has a NOT NULL constraint (primary-key columns always do).
    pub is_not_null: bool,
}

/// Abstract column.
pub struct ColumnV {
    pub name: Seq<char>,
    pub sql_type: Seq<char>,
    pub is_primary_key: bool,
    pub is_not_null: bool,
}

/// Abstract table.
pub struct TableV {
    pub name: Seq<char>,
    pub columns: Seq<ColumnV>,
}

/// Abstract schema.
pub struct SchemaV {
    pub tables: Seq<TableV>,
    pub source: Option<Seq<char>>,
}

impl View for ColumnDef {
    type V = ColumnV;

    open spec fn view(&self) -> ColumnV {
        ColumnV {
            name: self.name@,
            sql_type: self.sql_type@,
            is_primary_key: self.is_primary_key,
            is_not_null: self.is_not_null,
        }
    }
}

/// Views of a sequence of columns.
pub open spec fn columns_view(v: Seq<ColumnDef>) -> Seq<ColumnV> {
    v.map_values(|c: ColumnDef| c@)
}

impl View for TableDef {
    type V = TableV;

    open spec fn view(&self) -> TableV {
        TableV { name: self.name@, columns: columns_view(self.columns@) }
    }
}

/// Views of a sequence of tables.
pub open spec fn tables_view(v: Seq<TableDef>) -> Seq<TableV> {
    v.map_values(|t: TableDef| t@)
}

impl View for ParsedSchema {
    type V = SchemaV;

    open spec fn view(&self) -> SchemaV {
        SchemaV { tables: tables_view(self.tables@), source: opt_string_view(self.source) }
    }
}

/// The names of the primary-key columns, in declaration order.
pub open spec fn pk_names(cols: Seq<ColumnV>) -> Seq<Seq<char>>
    decreases cols.len(),
{
    if cols.len() == 0 {
        Seq::empty()
    } else {
        let rest = pk_names(cols.drop_last());
        if cols.last().is_primary_key {
            rest.push(cols.last().name)
        } else {
            rest
        }
    }
}

impl TableDef {
    /// The names of the primary-key columns, in declaration order.
    pub fn pk_column_names(&self) -> (r: Vec<String>)
        ensures
            r@.map_values(|s: String| s@) == pk_names(self@.columns),
    {
        let cols = &self.columns;
        let ghost cv = self@.columns;
        let n = cols.len();
        let mut r: Vec<String> = Vec::new();
        for i in 0..n
            invariant
                n == cols@.len(),
                cv == columns_view(cols@),
                r@.map_values(|s: String| s@) == pk_names(cv.take(i as int)),
        {
            assert(cv.take(i + 1).drop_last() == cv.take(i as int));
            assert(cv[i as int] == cols@[i as int]@);
            if cols[i].is_primary_key {
                let ghost before = r@;
                r.push(cols[i].name.clone());
                assert(r@.map_values(|s: String| s@) =~= before.map_values(|s: String| s@).push(
                    cols@[i as int].name@,
                ));
            }
        }
        assert(cv.take(n as int) == cv);
        r
    }
}

// ---------------------------------------------------------------------------
// Parsing with sqlparser
// ---------------------------------------------------------------------------

/// The SQL dialects DDL is tried with, in order.
#[derive(Debug, Clone, Copy, PartialEq, Eq, Structural)]
pub enum ParseDialect {
    PostgreSql,
    Sqlite,
    Generic,
}

/// A table-level constraint, as far as the schema IR reads it.
#[derive(Debug, Clone)]
pub enum RawConstraint {
    /// `PRIMARY KEY (col, ...)`.
    PrimaryKey(Vec<String>),
    /// Any other constraint (FOREIGN KEY, UNIQUE, CHECK), which carries no
    /// column IR of its own.
    Other,
}

/// A column option, as far as the schema IR reads it.
#[derive(Debug, Clone, Copy, PartialEq, Eq, Structural)]
pub enum RawColumnOption {
    /// `UNIQUE`, or `PRIMARY KEY` when `is_primary`.
    Unique { is_primary: bool },
    /// `NOT NULL`.
    NotNull,
    /// Any other option (CHECK, DEFAULT, GENERATED, REFERENCES, ...).
    Other,
}

/// A column as sqlparser read it: its name, its type rendered canonically,
/// and its options.
#[derive(Debug, Clone)]
pub struct RawColumn {
    pub name: String,
    pub sql_type: String,
    pub options: Vec<RawColumnOption>,
}

/// A parsed statement, as far as the schema IR reads it.
#[derive(Debug, Clone)]
pub enum RawStatement {
    /// `CREATE TABLE`: the identifiers of its (possibly qualified) name,
    /// its table-level constraints and its columns.
    CreateTable { name_parts: Vec<String>, constraints: Vec<RawConstraint>, columns: Vec<RawColumn> },
    /// Any other statement.
    Other,
}

/// Abstract [`RawConstraint`].
pub enum RawConstraintV {
    PrimaryKey(Seq<Seq<char>>),
    Other,
}

/// Abstract [`RawColumn`].
pub struct RawColumnV {
    pub name: Seq<char>,
    pub sql_type: Seq<char>,
    pub options: Seq<RawColumnOption>,
}

/// Abstract [`RawStatement`].
pub enum RawStatementV {
    CreateTable {
        name_parts: Seq<Seq<char>>,
        constraints: Seq<RawConstraintV>,
        columns: Seq<RawColumnV>,
    },
    Other,
}

/// The texts of a sequence of strings.
pub open spec fn strings_v(s: Seq<String>) -> Seq<Seq<char>> {
    s.map_values(|x: String| x@)
}

impl View for RawConstraint {
    type V = RawConstraintV;

    open spec fn view(&self) -> RawConstraintV {
        match self {
            RawConstraint::PrimaryKey(cols) => RawConstraintV::PrimaryKey(strings_v(cols@)),
            RawConstraint::Other => RawConstraintV::Other,
        }
    }
}

impl View for RawColumn {
    type V = RawColumnV;

    open spec fn view(&self) -> RawColumnV {
        RawColumnV { name: self.name@, sql_type: self.sql_type@, options: self.options@ }
    }
}

pub open spec fn constraints_view(s: Seq<RawConstraint>) -> Seq<RawConstraintV> {
    s.map_values(|c: RawConstraint| c@)
}

pub open spec fn raw_columns_view(s: Seq<RawColumn>) -> Seq<RawColumnV> {
    s.map_values(|c: RawColumn| c@)
}

impl View for RawStatement {
    type V = RawStatementV;

    open spec fn view(&self) -> RawStatementV {
        match self {
            RawStatement::CreateTable { name_parts, constraints, columns } => RawStatementV::CreateTable {
                name_parts: strings_v(name_parts@),
                constraints: constraints_view(constraints@),
                columns: raw_columns_view(columns@),
            },
            RawStatement::Other => RawStatementV::Other,
        }
    }
}

pub open spec fn statements_view(s: Seq<RawStatement>) -> Seq<RawStatementV> {
    s.map_values(|x: RawStatement| x@)
}

/// What sqlparser's `Parser::parse_sql` gives for `ddl` in `dialect`: its
/// statements in order, each as far as the schema reads it, or the text of
/// its error.
pub uninterp spec fn spec_parse_sql(dialect: ParseDialect, ddl: Seq<char>) -> Result<
    Seq<RawStatementV>,
    Seq<char>,
>;

/// The name of a `CREATE TABLE`, `None` for another statement.
pub open spec fn name_of_statement(s: RawStatementV) -> Option<Seq<Seq<char>>> {
    match s {
        RawStatementV::CreateTable { name_parts, .. } => Some(name_parts),
        RawStatementV::Other => None,
    }
}

/// The constraints of a `CREATE TABLE`, none for another statement.
pub open spec fn constraints_of_statement(s: RawStatementV) -> Seq<RawConstraintV> {
    match s {
        RawStatementV::CreateTable { constraints, .. } => constraints,
        RawStatementV::Other => Seq::empty(),
    }
}

/// The columns of a `CREATE TABLE`, none for another statement.
pub open spec fn columns_of_statement(s: RawStatementV) -> Seq<RawColumnV> {
    match s {
        RawStatementV::CreateTable { columns, .. } => columns,
        RawStatementV::Other => Seq::empty(),
    }
}

/// The statements of a successful parse (none for a failed one).
pub open spec fn parsed_statements(p: Result<Seq<RawStatementV>, Seq<char>>) -> Seq<RawStatementV> {
    match p {
        Ok(v) => v,
        Err(_) => Seq::empty(),
    }
}

pub open spec fn opt_names_view(o: Option<Vec<String>>) -> Option<Seq<Seq<char>>> {
    match o {
        Some(p) => Some(strings_v(p@)),
        None => None,
    }
}

/// `f`, `l`, `u`, `s` and `h` in either ASCII case, and the characters
/// whose uppercase contains them (`ſ` uppercases to `S`, `ﬂ` to `FL`).
pub open spec fn is_f(c: char) -> bool {
    c == 'f' || c == 'F'
}

pub open spec fn is_l(c: char) -> bool {
    c == 'l' || c == 'L'
}

pub open spec fn is_u(c: char) -> bool {
    c == 'u' || c == 'U'
}

pub open spec fn is_s(c: char) -> bool {
    c == 's' || c == 'S' || c == '\u{17F}'
}

pub open spec fn is_h(c: char) -> bool {
    c == 'h' || c == 'H'
}

/// At `i` the text spells a word that sqlparser's tokenizer, which compares
/// keywords by their Unicode uppercase, may read as `FLUSH`.
pub open spec fn flush_at(s: Seq<char>, i: int) -> bool {
    ||| (0 <= i && i + 5 <= s.len() && is_f(s[i]) && is_l(s[i + 1]) && is_u(s[i + 2]) && is_s(
        s[i + 3],
    ) && is_h(s[i + 4]))
    ||| (0 <= i && i + 4 <= s.len() && s[i] == '\u{FB02}' && is_u(s[i + 1]) && is_s(s[i + 2])
        && is_h(s[i + 3]))
}

/// The text may hold the `FLUSH` keyword.
pub open spec fn has_flush_word(s: Seq<char>) -> bool {
    exists|i: int| flush_at(s, i)
}

/// sqlparser `Parser::parse_sql` in `dialect`, keeping of each statement
/// the identifiers of a `CREATE TABLE`'s name (`None` for any other
/// statement). Claimed: the result is the named parse, read that far, and
/// its error text on failure. The conversion of a whole parse does not fit
/// one trusted body, so [`parse_table_constraints`] and
/// [`parse_table_columns`] read the rest of the same parse. With the
/// generic dialect, sqlparser 0.53 panics on `FLUSH RELAY LOGS FOR
/// CHANNEL` with no channel name (`parse_flush` unwraps), so text that may
/// hold the `FLUSH` keyword is not handed to it. In every dialect it
/// unwraps the grantor name after `GRANTED BY` in `GRANT` and `REVOKE`, so
/// text that may hold such a clause is not handed to it either.
#[verifier::external_body]
fn parse_table_names(dialect: ParseDialect, ddl: &str) -> (r: Result<Vec<Option<Vec<String>>>, String>)
    requires
        dialect == ParseDialect::Generic ==> !has_flush_word(ddl@),
        !has_grantor_clause(ddl@),
    ensures
        match spec_parse_sql(dialect, ddl@) {
            Ok(sv) => r matches Ok(v) && v@.map_values(|o: Option<Vec<String>>| opt_names_view(o))
                == sv.map_values(|s: RawStatementV| name_of_statement(s)),
            Err(m) => r matches Err(e) && e@ == m,
        },
{
    let r = match dialect {
        ParseDialect::PostgreSql => Parser::parse_sql(&PostgreSqlDialect {}, ddl),
        ParseDialect::Sqlite => Parser::parse_sql(&SQLiteDialect {}, ddl),
        ParseDialect::Generic => Parser::parse_sql(&GenericDialect {}, ddl),
    };
    match r {
        Ok(v) => Ok(v.into_iter().map(|s| match s {
            Statement::CreateTable(ct) => Some(ct.name.0.into_iter().map(|i| i.value).collect()),
            _ => None,
        }).collect()),
        Err(e) => Err(e.to_string()),
    }
}

/// sqlparser `Parser::parse_sql` in `dialect`, keeping of each statement
/// the table-level constraints of a `CREATE TABLE` (none for any other
/// statement). Claimed: the result is the named parse, read that far. Only
/// for text the dialect parses (see [`parse_table_names`]).
#[verifier::external_body]
fn parse_table_constraints(dialect: ParseDialect, ddl: &str) -> (r: Vec<Vec<RawConstraint>>)
    requires
        dialect == ParseDialect::Generic ==> !has_flush_word(ddl@),
        !has_grantor_clause(ddl@),
        spec_parse_sql(dialect, ddl@) is Ok,
    ensures
        r@.map_values(|c: Vec<RawConstraint>| constraints_view(c@)) == parsed_statements(
            spec_parse_sql(dialect, ddl@),
        ).map_values(|s: RawStatementV| constraints_of_statement(s)),
{
    let r = match dialect {
        ParseDialect::PostgreSql => Parser::parse_sql(&PostgreSqlDialect {}, ddl),
        ParseDialect::Sqlite => Parser::parse_sql(&SQLiteDialect {}, ddl),
        ParseDialect::Generic => Parser::parse_sql(&GenericDialect {}, ddl),
    };
    r.unwrap().into_iter().map(|s| match s {
        Statement::CreateTable(ct) => ct.constraints.into_iter().map(|c| match c {
            TableConstraint::PrimaryKey { columns, .. } => RawConstraint::PrimaryKey(columns.into_iter().map(|i| i.value).collect()),
            _ => RawConstraint::Other,
        }).collect(),
        _ => Vec::new(),
    }).collect()
}

/// sqlparser `Parser::parse_sql` in `dialect`, keeping of each statement
/// the columns of a `CREATE TABLE` (none for any other statement), each
/// type rendered by sqlparser's `Display`. Claimed: the result is the
/// named parse, read that far. Only for text the dialect parses (see
/// [`parse_table_names`]).
#[verifier::external_body]
fn parse_table_columns(dialect: ParseDialect, ddl: &str) -> (r: Vec<Vec<RawColumn>>)
    requires
        dialect == ParseDialect::Generic ==> !has_flush_word(ddl@),
        !has_grantor_clause(ddl@),
        spec_parse_sql(dialect, ddl@) is Ok,
    ensures
        r@.map_values(|c: Vec<RawColumn>| raw_columns_view(c@)) == parsed_statements(
            spec_parse_sql(dialect, ddl@),
        ).map_values(|s: RawStatementV| columns_of_statement(s)),
{
    let r = match dialect {
        ParseDialect::PostgreSql => Parser::parse_sql(&PostgreSqlDialect {}, ddl),
        ParseDialect::Sqlite => Parser::parse_sql(&SQLiteDialect {}, ddl),
        ParseDialect::Generic => Parser::parse_sql(&GenericDialect {}, ddl),
    };
    r.unwrap().into_iter().map(|s| match s {
        Statement::CreateTable(ct) => ct.columns.into_iter().map(|c| RawColumn { name: c.name.value, sql_type: c.data_type.to_string(), options: c.options.into_iter().map(|o| match o.option {
            ColumnOption::Unique { is_primary, .. } => RawColumnOption::Unique { is_primary },
            ColumnOption::NotNull => RawColumnOption::NotNull,
            _ => RawColumnOption::Other,
        }).collect() }).collect(),
        _ => Vec::new(),
    }).collect()
}

/// `c` is the ASCII letter `w` (given lowercase) in either case.
pub open spec fn ci_char(c: char, w: char) -> bool {
    c == w || c as u32 + 32 == w as u32
}

/// At `i` the text spells `w` (lowercase ASCII letters) in any ASCII case.
pub open spec fn text_at(s: Seq<char>, i: int, w: Seq<char>) -> bool {
    &&& 0 <= i
    &&& i + w.len() <= s.len()
    &&& forall|k: int| 0 <= k < w.len() ==> ci_char(#[trigger] s[i + k], w[k])
}

/// At `i` the text spells `w` in any ASCII case, with no ASCII letter,
/// digit or underscore on either side.
pub open spec fn word_at(s: Seq<char>, i: int, w: Seq<char>) -> bool {
    &&& text_at(s, i, w)
    &&& (i == 0 || !ident_char(s[i - 1]))
    &&& (i + w.len() == s.len() || !ident_char(s[i + w.len()]))
}

/// The text holds `w` in any ASCII case.
pub open spec fn has_text(s: Seq<char>, w: Seq<char>) -> bool {
    exists|i: int| text_at(s, i, w)
}

/// The text holds `w` in any ASCII case as a word of its own.
pub open spec fn has_word(s: Seq<char>, w: Seq<char>) -> bool {
    exists|i: int| word_at(s, i, w)
}

/// The text may hold a `GRANT` or `REVOKE` statement with a `GRANTED BY`
/// clause. (The keywords are compared by their Unicode uppercase, and no
/// character but the ASCII letters uppercases into these letters alone.)
pub open spec fn has_grantor_clause(s: Seq<char>) -> bool {
    (has_word(s, "grant"@) || has_word(s, "revoke"@)) && has_text(s, "granted"@)
}

fn text_at_exec(cs: &Vec<char>, i: usize, w: &Vec<char>) -> (r: bool)
    requires
        i <= cs@.len(),
    ensures
        r == text_at(cs@, i as int, w@),
{
    let m = w.len();
    let n = cs.len();
    if m > n - i {
        return false;
    }
    for k in 0..m
        invariant
            m == w@.len(),
            n == cs@.len(),
            i + m <= n,
            forall|j: int| 0 <= j < k ==> ci_char(#[trigger] cs@[i + j], w@[j]),
    {
        let c = cs[i + k];
        let d = w[k];
        let (cu, du) = (c as u32, d as u32);
        if !(c == d || (du >= 32 && cu == du - 32)) {
            assert(!ci_char(cs@[i + k], w@[k as int]));
            return false;
        }
    }
    true
}

fn is_ident_char_exec(c: char) -> (r: bool)
    ensures
        r == ident_char(c),
{
    ('a' <= c && c <= 'z') || ('A' <= c && c <= 'Z') || ('0' <= c && c <= '9') || c == '_'
}

/// Whether `cs` holds `w` (as a word of its own when `bounded`).
fn find_text(cs: &Vec<char>, w: &Vec<char>, bounded: bool) -> (r: bool)
    requires
        w@.len() > 0,
    ensures
        r == if bounded {
            has_word(cs@, w@)
        } else {
            has_text(cs@, w@)
        },
{
    let n = cs.len();
    let m = w.len();
    for i in 0..n
        invariant
            n == cs@.len(),
            m == w@.len(),
            m > 0,
            forall|j: int| 0 <= j < i ==> !(if bounded { word_at(cs@, j, w@) } else { text_at(cs@, j, w@) }),
    {
        if text_at_exec(cs, i, w) {
            let before = i == 0 || !is_ident_char_exec(cs[i - 1]);
            let after = i + m == n || !is_ident_char_exec(cs[i + m]);
            if !bounded || (before && after) {
                assert(if bounded { word_at(cs@, i as int, w@) } else { text_at(cs@, i as int, w@) });
                return true;
            }
        }
    }
    assert forall|j: int| !(if bounded { word_at(cs@, j, w@) } else { text_at(cs@, j, w@) }) by {
        if 0 <= j < n {
        }
    }
    false
}

/// Whether the text may hold a `GRANTED BY` clause (see
/// [`has_grantor_clause`]).
pub fn contains_grantor_clause(ddl: &str) -> (r: bool)
    ensures
        r == has_grantor_clause(ddl@),
{
    proof {
        reveal_strlit("grant");
        reveal_strlit("revoke");
        reveal_strlit("granted");
    }
    let cs = crate::text::chars_of(ddl);
    let grant = crate::text::chars_of("grant");
    let revoke = crate::text::chars_of("revoke");
    let granted = crate::text::chars_of("granted");
    (find_text(&cs, &grant, true) || find_text(&cs, &revoke, true)) && find_text(&cs, &granted, false)
}

/// Whether the text may hold the `FLUSH` keyword (see [`has_flush_word`]).
pub fn contains_flush(ddl: &str) -> (r: bool)
    ensures
        r == has_flush_word(ddl@),
{
    let cs = crate::text::chars_of(ddl);
    let n = cs.len();
    for i in 0..n
        invariant
            n == cs@.len(),
            cs@ == ddl@,
            forall|j: int| 0 <= j < i ==> !flush_at(ddl@, j),
    {
        let five = n - i >= 5 && (cs[i] == 'f' || cs[i] == 'F') && (cs[i + 1] == 'l' || cs[i + 1]
            == 'L') && (cs[i + 2] == 'u' || cs[i + 2] == 'U') && (cs[i + 3] == 's' || cs[i + 3]
            == 'S' || cs[i + 3] == '\u{17F}') && (cs[i + 4] == 'h' || cs[i + 4] == 'H');
        let four = n - i >= 4 && cs[i] == '\u{FB02}' && (cs[i + 1] == 'u' || cs[i + 1] == 'U') && (
        cs[i + 2] == 's' || cs[i + 2] == 'S' || cs[i + 2] == '\u{17F}') && (cs[i + 3] == 'h' || cs[i
            + 3] == 'H');
        if five || four {
            assert(flush_at(ddl@, i as int));
            return true;
        }
    }
    assert forall|j: int| !flush_at(ddl@, j) by {
        if 0 <= j < n {
        }
    }
    false
}

/// The error of DDL that no dialect accepts, given the last refusal.
pub open spec fn unparsable_message(last: Seq<char>) -> Seq<char> {
    "failed to parse SQL DDL with the PostgreSQL, SQLite, or generic dialects: "@ + last
}

/// The refusal of text that the PostgreSQL and SQLite dialects refuse and
/// that may hold the `FLUSH` keyword, which the generic dialect is not
/// given.
pub open spec fn flush_refusal() -> Seq<char> {
    "the FLUSH statement is not accepted"@
}

/// The refusal of text that may hold a `GRANTED BY` clause in a `GRANT` or
/// `REVOKE`, which sqlparser 0.53 unwraps in every dialect and so panics on
/// when no grantor name follows.
pub open spec fn grantor_refusal() -> Seq<char> {
    "GRANT or REVOKE with a GRANTED BY clause is not accepted"@
}

/// The statements of DDL, parsed by the first dialect that accepts it:
/// PostgreSQL, then SQLite, then the permissive generic dialect; refused
/// with the generic dialect's error (or [`flush_refusal`]) when none does.
pub open spec fn chosen_parse(ddl: Seq<char>) -> Result<Seq<RawStatementV>, Seq<char>> {
    if has_grantor_clause(ddl) {
        Err(unparsable_message(grantor_refusal()))
    } else {
        chosen_dialect_parse(ddl)
    }
}

/// [`chosen_parse`] of text with no `GRANTED BY` clause.
pub open spec fn chosen_dialect_parse(ddl: Seq<char>) -> Result<Seq<RawStatementV>, Seq<char>> {
    match spec_parse_sql(ParseDialect::PostgreSql, ddl) {
        Ok(v) => Ok(v),
        Err(_) => match spec_parse_sql(ParseDialect::Sqlite, ddl) {
            Ok(v) => Ok(v),
            Err(_) => if has_flush_word(ddl) {
                Err(unparsable_message(flush_refusal()))
            } else {
                match spec_parse_sql(ParseDialect::Generic, ddl) {
                    Ok(v) => Ok(v),
                    Err(m) => Err(unparsable_message(m)),
                }
            },
        },
    }
}

pub open spec fn statements_result_view(r: Result<Vec<RawStatement>, String>) -> Result<
    Seq<RawStatementV>,
    Seq<char>,
> {
    match r {
        Ok(v) => Ok(statements_view(v@)),
        Err(e) => Err(e@),
    }
}

/// The statements of `ddl` in `dialect`, as far as the schema reads them.
fn raw_statements_with(dialect: ParseDialect, ddl: &str) -> (r: Result<Vec<RawStatement>, String>)
    requires
        dialect == ParseDialect::Generic ==> !has_flush_word(ddl@),
        !has_grantor_clause(ddl@),
    ensures
        statements_result_view(r) == spec_parse_sql(dialect, ddl@),
{
    let mut names = match parse_table_names(dialect, ddl) {
        Ok(v) => v,
        Err(e) => {
            return Err(e);
        },
    };
    let ghost sv = parsed_statements(spec_parse_sql(dialect, ddl@));
    let mut cons = parse_table_constraints(dialect, ddl);
    let mut cols = parse_table_columns(dialect, ddl);
    proof {
        assert(names@.len() == sv.len() && cons@.len() == sv.len() && cols@.len() == sv.len()) by {
            assert(names@.map_values(|o: Option<Vec<String>>| opt_names_view(o)).len() == sv.len());
            assert(cons@.map_values(|c: Vec<RawConstraint>| constraints_view(c@)).len() == sv.len());
            assert(cols@.map_values(|c: Vec<RawColumn>| raw_columns_view(c@)).len() == sv.len());
        }
        assert forall|j: int| 0 <= j < sv.len() implies {
            &&& opt_names_view(#[trigger] names@[j]) == name_of_statement(sv[j])
            &&& constraints_view(cons@[j]@) == constraints_of_statement(sv[j])
            &&& raw_columns_view(cols@[j]@) == columns_of_statement(sv[j])
        } by {
            assert(names@.map_values(|o: Option<Vec<String>>| opt_names_view(o))[j] == sv.map_values(
                |s: RawStatementV| name_of_statement(s),
            )[j]);
            assert(cons@.map_values(|c: Vec<RawConstraint>| constraints_view(c@))[j]
                == sv.map_values(|s: RawStatementV| constraints_of_statement(s))[j]);
            assert(cols@.map_values(|c: Vec<RawColumn>| raw_columns_view(c@))[j] == sv.map_values(
                |s: RawStatementV| columns_of_statement(s),
            )[j]);
        }
    }
    let n = names.len();
    let mut out: Vec<RawStatement> = Vec::new();
    let mut k: usize = 0;
    while k < n
        invariant
            n == sv.len(),
            k <= n,
            out@.len() == k,
            names@.len() == n - k,
            cons@.len() == n - k,
            cols@.len() == n - k,
            forall|i: int| 0 <= i < k ==> (#[trigger] out@[i])@ == sv[i],
            forall|j: int|
                0 <= j < n - k ==> {
                    &&& opt_names_view(#[trigger] names@[j]) == name_of_statement(sv[k + j])
                    &&& constraints_view(cons@[j]@) == constraints_of_statement(sv[k + j])
                    &&& raw_columns_view(cols@[j]@) == columns_of_statement(sv[k + j])
                },
        decreases n - k,
    {
        let ghost (n0, c0, l0) = (names@, cons@, cols@);
        let nm = names.remove(0);
        let c = cons.remove(0);
        let cl = cols.remove(0);
        assert(opt_names_view(n0[0]) == name_of_statement(sv[k as int]));
        let st = match nm {
            Some(np) => RawStatement::CreateTable { name_parts: np, constraints: c, columns: cl },
            None => RawStatement::Other,
        };
        assert(st@ == sv[k as int]);
        out.push(st);
        proof {
            assert forall|j: int| 0 <= j < n - (k + 1) implies {
                &&& opt_names_view(#[trigger] names@[j]) == name_of_statement(sv[k + 1 + j])
                &&& constraints_view(cons@[j]@) == constraints_of_statement(sv[k + 1 + j])
                &&& raw_columns_view(cols@[j]@) == columns_of_statement(sv[k + 1 + j])
            } by {
                assert(names@[j] == n0[j + 1]);
                assert(cons@[j] == c0[j + 1]);
                assert(cols@[j] == l0[j + 1]);
            }
        }
        k += 1;
    }
    assert(statements_view(out@) =~= sv);
    Ok(out)
}

/// Parse SQL DDL with the first dialect that accepts it (see
/// [`chosen_parse`]): each statement as far as the schema reads it.
pub fn parse_raw_statements(ddl: &str) -> (r: Result<Vec<RawStatement>, String>)
    ensures
        statements_result_view(r) == chosen_parse(ddl@),
{
    if contains_grantor_clause(ddl) {
        let mut g: Vec<char> = Vec::new();
        push_str(
            &mut g,
            "failed to parse SQL DDL with the PostgreSQL, SQLite, or generic dialects: ",
        );
        push_str(&mut g, "GRANT or REVOKE with a GRANTED BY clause is not accepted");
        assert(g@ =~= unparsable_message(grantor_refusal()));
        return Err(string_from_chars(&g));
    }
    if let Ok(v) = raw_statements_with(ParseDialect::PostgreSql, ddl) {
        return Ok(v);
    }
    if let Ok(v) = raw_statements_with(ParseDialect::Sqlite, ddl) {
        return Ok(v);
    }
    let mut b: Vec<char> = Vec::new();
    push_str(&mut b, "failed to parse SQL DDL with the PostgreSQL, SQLite, or generic dialects: ");
    if contains_flush(ddl) {
        push_str(&mut b, "the FLUSH statement is not accepted");
        assert(b@ =~= unparsable_message(flush_refusal()));
        return Err(string_from_chars(&b));
    }
    match raw_statements_with(ParseDialect::Generic, ddl) {
        Ok(v) => Ok(v),
        Err(e) => {
            push_str(&mut b, e.as_str());
            assert(b@ =~= unparsable_message(e@));
            Err(string_from_chars(&b))
        },
    }
}

/// The lowercased columns named by the table-level primary keys, in order.
pub open spec fn table_pk_names(cs: Seq<RawConstraint>) -> Seq<Seq<char>>
    decreases cs.len(),
{
    if cs.len() == 0 {
        Seq::empty()
    } else {
        table_pk_names(cs.drop_last()) + match cs.last() {
            RawConstraint::PrimaryKey(cols) => cols@.map_values(|c: String| spec_to_lowercase(c@)),
            RawConstraint::Other => Seq::empty(),
        }
    }
}

/// Some option declares the column a primary key.
pub open spec fn has_primary_option(opts: Seq<RawColumnOption>) -> bool {
    exists|i: int| 0 <= i < opts.len() && opts[i] == (RawColumnOption::Unique { is_primary: true })
}

/// Some option declares the column NOT NULL.
pub open spec fn has_not_null_option(opts: Seq<RawColumnOption>) -> bool {
    exists|i: int| 0 <= i < opts.len() && opts[i] == RawColumnOption::NotNull
}

/// The IR of a column, given the table-level primary-key names: a primary
/// key by its own option or by a table-level key naming it
/// (case-insensitively); NOT NULL by its own option or as a primary key.
pub open spec fn column_ir(c: RawColumn, table_pk: Seq<Seq<char>>) -> ColumnV {
    let pk = has_primary_option(c.options@) || table_pk.contains(spec_to_lowercase(c.name@));
    ColumnV {
        name: c.name@,
        sql_type: c.sql_type@,
        is_primary_key: pk,
        is_not_null: has_not_null_option(c.options@) || pk,
    }
}

/// The IR of a table: the last identifier of its name (empty if none),
/// and its columns in declaration order.
pub open spec fn table_ir(name_parts: Seq<String>, constraints: Seq<RawConstraint>, columns: Seq<RawColumn>) -> TableV {
    let pks = table_pk_names(constraints);
    TableV {
        name: if name_parts.len() == 0 {
            Seq::empty()
        } else {
            name_parts.last()@
        },
        columns: columns.map_values(|c: RawColumn| column_ir(c, pks)),
    }
}

fn lowercase_all(cols: &Vec<String>) -> (r: Vec<String>)
    ensures
        r@.map_values(|s: String| s@) == cols@.map_values(|c: String| spec_to_lowercase(c@)),
{
    let mut r: Vec<String> = Vec::new();
    let n = cols.len();
    for i in 0..n
        invariant
            n == cols@.len(),
            r@.len() == i,
            forall|k: int| 0 <= k < i ==> (#[trigger] r@[k])@ == spec_to_lowercase(cols@[k]@),
    {
        r.push(to_lowercase(cols[i].as_str()));
    }
    assert(r@.map_values(|s: String| s@) =~= cols@.map_values(|c: String| spec_to_lowercase(c@)));
    r
}

fn contains_str(v: &Vec<String>, x: &str) -> (r: bool)
    ensures
        r == v@.map_values(|s: String| s@).contains(x@),
{
    let ghost vv = v@.map_values(|s: String| s@);
    let n = v.len();
    for i in 0..n
        invariant
            n == v@.len(),
            vv == v@.map_values(|s: String| s@),
            forall|k: int| 0 <= k < i ==> vv[k] != x@,
    {
        if str_eq(v[i].as_str(), x) {
            assert(vv[i as int] == x@);
            return true;
        }
    }
    false
}

/// Build the IR of a table from what the parser read: the name's
/// identifiers, the table-level constraints and the columns.
pub fn table_from_raw(name_parts: Vec<String>, constraints: Vec<RawConstraint>, columns: Vec<RawColumn>) -> (r: TableDef)
    ensures
        r@ == table_ir(name_parts@, constraints@, columns@),
{
    let name: String = if name_parts.len() == 0 {
        String::new()
    } else {
        name_parts[name_parts.len() - 1].clone()
    };
    let mut table_pk: Vec<String> = Vec::new();
    let nc = constraints.len();
    for i in 0..nc
        invariant
            nc == constraints@.len(),
            table_pk@.map_values(|s: String| s@) == table_pk_names(constraints@.take(i as int)),
    {
        assert(constraints@.take(i + 1).drop_last() == constraints@.take(i as int));
        match &constraints[i] {
            RawConstraint::PrimaryKey(cols) => {
                let lowered = lowercase_all(cols);
                let ghost before = table_pk@;
                let m = lowered.len();
                for j in 0..m
                    invariant
                        m == lowered@.len(),
                        table_pk@.len() == before.len() + j,
                        forall|k: int|
                            0 <= k < before.len() ==> (#[trigger] table_pk@[k])@ == before[k]@,
                        forall|k: int|
                            0 <= k < j ==> (#[trigger] table_pk@[before.len() + k])@
                                == lowered@[k]@,
                {
                    table_pk.push(lowered[j].clone());
                }
                let ghost want = before.map_values(|s: String| s@) + lowered@.map_values(
                    |s: String| s@,
                );
                assert forall|k: int| 0 <= k < table_pk@.len() implies table_pk@.map_values(
                    |s: String| s@,
                )[k] == want[k] by {
                    if k >= before.len() {
                        let q = k - before.len();
                        assert(table_pk@[before.len() + q]@ == lowered@[q]@);
                    }
                }
                assert(table_pk@.map_values(|s: String| s@) =~= want);
                assert(table_pk@.map_values(|s: String| s@) =~= table_pk_names(
                    constraints@.take(i + 1),
                ));
            },
            RawConstraint::Other => {
                assert(table_pk@.map_values(|s: String| s@) =~= table_pk_names(
                    constraints@.take(i + 1),
                ));
            },
        }
    }
    assert(constraints@.take(nc as int) == constraints@);
    let ghost pks = table_pk_names(constraints@);
    let mut out: Vec<ColumnDef> = Vec::new();
    let n = columns.len();
    for i in 0..n
        invariant
            n == columns@.len(),
            pks == table_pk_names(constraints@),
            table_pk@.map_values(|s: String| s@) == pks,
            out@.len() == i,
            forall|k: int| 0 <= k < i ==> (#[trigger] out@[k])@ == column_ir(columns@[k], pks),
    {
        let col = &columns[i];
        let mut is_primary_key = false;
        let mut is_not_null = false;
        let opts = &col.options;
        let m = opts.len();
        for j in 0..m
            invariant
                m == opts@.len(),
                is_primary_key == exists|k: int|
                    0 <= k < j && opts@[k] == (RawColumnOption::Unique { is_primary: true }),
                is_not_null == exists|k: int| 0 <= k < j && opts@[k] == RawColumnOption::NotNull,
        {
            match opts[j] {
                RawColumnOption::Unique { is_primary } => {
                    if is_primary {
                        is_primary_key = true;
                    }
                },
                RawColumnOption::NotNull => {
                    is_not_null = true;
                },
                RawColumnOption::Other => {},
            }
            proof {
                if exists|k: int| 0 <= k < j + 1 && opts@[k] == (RawColumnOption::Unique { is_primary: true }) {
                    let k = choose|k: int| 0 <= k < j + 1 && opts@[k] == (RawColumnOption::Unique { is_primary: true });
                    if k < j {
                        assert(exists|k2: int| 0 <= k2 < j && opts@[k2] == (RawColumnOption::Unique { is_primary: true }));
                    }
                }
                if exists|k: int| 0 <= k < j + 1 && opts@[k] == RawColumnOption::NotNull {
                    let k = choose|k: int| 0 <= k < j + 1 && opts@[k] == RawColumnOption::NotNull;
                    if k < j {
                        assert(exists|k2: int| 0 <= k2 < j && opts@[k2] == RawColumnOption::NotNull);
                    }
                }
            }
        }
        let lowered = to_lowercase(col.name.as_str());
        if contains_str(&table_pk, lowered.as_str()) {
            is_primary_key = true;
        }
        if is_primary_key {
            is_not_null = true;
        }
        out.push(ColumnDef {
            name: col.name.clone(),
            sql_type: col.sql_type.clone(),
            is_primary_key,
            is_not_null,
        });
    }
    let r = TableDef { name, columns: out };
    assert(r@.columns =~= columns@.map_values(|c: RawColumn| column_ir(c, pks)));
    r
}

/// The lowercased columns named by abstract table-level primary keys, in
/// order.
pub open spec fn table_pk_names_v(cs: Seq<RawConstraintV>) -> Seq<Seq<char>>
    decreases cs.len(),
{
    if cs.len() == 0 {
        Seq::empty()
    } else {
        table_pk_names_v(cs.drop_last()) + match cs.last() {
            RawConstraintV::PrimaryKey(cols) => cols.map_values(|c: Seq<char>| spec_to_lowercase(c)),
            RawConstraintV::Other => Seq::empty(),
        }
    }
}

/// The IR of an abstract column (see [`column_ir`]).
pub open spec fn column_ir_v(c: RawColumnV, table_pk: Seq<Seq<char>>) -> ColumnV {
    let pk = has_primary_option(c.options) || table_pk.contains(spec_to_lowercase(c.name));
    ColumnV {
        name: c.name,
        sql_type: c.sql_type,
        is_primary_key: pk,
        is_not_null: has_not_null_option(c.options) || pk,
    }
}

/// The IR of an abstract `CREATE TABLE` (see [`table_ir`]).
pub open spec fn table_ir_v(
    name_parts: Seq<Seq<char>>,
    constraints: Seq<RawConstraintV>,
    columns: Seq<RawColumnV>,
) -> TableV {
    let pks = table_pk_names_v(constraints);
    TableV {
        name: if name_parts.len() == 0 {
            Seq::empty()
        } else {
            name_parts.last()
        },
        columns: columns.map_values(|c: RawColumnV| column_ir_v(c, pks)),
    }
}

/// The tables of parsed statements: the IR of each `CREATE TABLE`, in
/// order; other statements give none.
pub open spec fn tables_of(sv: Seq<RawStatementV>) -> Seq<TableV>
    decreases sv.len(),
{
    if sv.len() == 0 {
        Seq::empty()
    } else {
        match sv[0] {
            RawStatementV::CreateTable { name_parts, constraints, columns } => seq![
                table_ir_v(name_parts, constraints, columns),
            ] + tables_of(sv.drop_first()),
            RawStatementV::Other => tables_of(sv.drop_first()),
        }
    }
}

proof fn lemma_pk_names_view(cs: Seq<RawConstraint>)
    ensures
        table_pk_names(cs) == table_pk_names_v(constraints_view(cs)),
    decreases cs.len(),
{
    if cs.len() > 0 {
        lemma_pk_names_view(cs.drop_last());
        assert(constraints_view(cs).drop_last() =~= constraints_view(cs.drop_last()));
        match cs.last() {
            RawConstraint::PrimaryKey(cols) => {
                assert(cols@.map_values(|c: String| spec_to_lowercase(c@)) =~= strings_v(
                    cols@,
                ).map_values(|c: Seq<char>| spec_to_lowercase(c)));
            },
            RawConstraint::Other => {},
        }
    }
}

proof fn lemma_table_ir_view(name_parts: Seq<String>, constraints: Seq<RawConstraint>, columns: Seq<RawColumn>)
    ensures
        table_ir(name_parts, constraints, columns) == table_ir_v(
            strings_v(name_parts),
            constraints_view(constraints),
            raw_columns_view(columns),
        ),
{
    lemma_pk_names_view(constraints);
    let pks = table_pk_names(constraints);
    assert(columns.map_values(|c: RawColumn| column_ir(c, pks)) =~= raw_columns_view(
        columns,
    ).map_values(|c: RawColumnV| column_ir_v(c, pks)));
}

/// The tables of parsed statements (see [`tables_of`]).
pub fn tables_of_raw(statements: Vec<RawStatement>) -> (r: Vec<TableDef>)
    ensures
        tables_view(r@) == tables_of(statements_view(statements@)),
{
    let ghost all = statements_view(statements@);
    let mut rest = statements;
    let mut tables: Vec<TableDef> = Vec::new();
    while rest.len() > 0
        invariant
            tables_view(tables@) + tables_of(statements_view(rest@)) == tables_of(all),
        decreases rest@.len(),
    {
        let ghost before = statements_view(rest@);
        let ghost done = tables_view(tables@);
        let stmt = rest.remove(0);
        assert(statements_view(rest@) =~= before.drop_first());
        assert(before[0] == stmt@);
        match stmt {
            RawStatement::CreateTable { name_parts, constraints, columns } => {
                proof {
                    lemma_table_ir_view(name_parts@, constraints@, columns@);
                }
                let t = table_from_raw(name_parts, constraints, columns);
                tables.push(t);
                assert(tables_view(tables@) =~= done.push(t@));
                assert(done.push(t@) + tables_of(before.drop_first()) =~= done + (seq![t@]
                    + tables_of(before.drop_first())));
            },
            RawStatement::Other => {},
        }
    }
    assert(tables_of(statements_view(rest@)) =~= Seq::<TableV>::empty());
    assert(tables_view(tables@) + Seq::<TableV>::empty() =~= tables_view(tables@));
    tables
}

/// Parse SQL DDL into the schema IR: the tables of the statements of the
/// first dialect that accepts the text (see [`chosen_parse`]), only
/// `CREATE TABLE` statements contributing, in order. Refused when no
/// dialect accepts the text.
pub fn parse_sql_schema(ddl: &str) -> (r: Result<ParsedSchema, String>)
    ensures
        match chosen_parse(ddl@) {
            Ok(sv) => r matches Ok(s) && s@.tables == tables_of(sv) && s.source is None,
            Err(m) => r matches Err(e) && e@ == m,
        },
{
    match parse_raw_statements(ddl) {
        Err(e) => Err(e),
        Ok(v) => Ok(ParsedSchema { tables: tables_of_raw(v), source: None }),
    }
}

} // verus!
