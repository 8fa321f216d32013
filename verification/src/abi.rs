//! Core domain types shared by the whole tool: the eight octad dimensions,
//! the supported target databases, and the provenance / lineage / temporal /
//! access-policy records.

use vstd::prelude::*;

use crate::clock::{is_canonical_timestamp, is_rfc3339, now, now_rfc3339};
use crate::digest::{
    encodable, hex_lower, opt_encodable, opt_text_field, push_opt_text_field, push_text_field,
    sha256, spec_sha256, text_field, to_hex_lower, lemma_opt_text_field_prefix,
    lemma_text_field_prefix,
};
use crate::text::{
    ascii_lower_char,
    all_ascii, ascii_lower, push_i64, push_str, signed_decimal, str_eq, spec_to_lowercase,
    string_from_chars, to_lowercase,
};

verus! {

// ---------------------------------------------------------------------------
// OctadDimension
// ---------------------------------------------------------------------------

/// The eight dimensions of the octad model. The first two (Data, Metadata)
/// are inherent in the target database; the other six are added by the
/// sidecar.
#[derive(Debug, Clone, Copy, PartialEq, Eq, Hash, Structural)]
pub enum OctadDimension {
    /// The original data as stored in the target database.
    Data,
    /// Schema and type information extracted from the target database.
    Metadata,
    /// SHA-256 hash-chain tracking of who did what and when.
    Provenance,
    /// Directed acyclic graph of data derivation relationships.
    Lineage,
    /// Cross-dimensional invariant enforcement rules.
    Constraints,
    /// Policy-based row/column-level access permissions.
    AccessControl,
    /// Version history with point-in-time query and rollback support.
    Temporal,
    /// What-if branching and sandbox query execution.
    Simulation,
}

/// The canonical order of the eight dimensions.
pub open spec fn canonical_dimensions() -> Seq<OctadDimension> {
    seq![
        OctadDimension::Data,
        OctadDimension::Metadata,
        OctadDimension::Provenance,
        OctadDimension::Lineage,
        OctadDimension::Constraints,
        OctadDimension::AccessControl,
        OctadDimension::Temporal,
        OctadDimension::Simulation,
    ]
}

impl OctadDimension {
    /// Human-readable label.
    pub open spec fn spec_label(self) -> &'static str {
        match self {
            OctadDimension::Data => "Data",
            OctadDimension::Metadata => "Metadata",
            OctadDimension::Provenance => "Provenance",
            OctadDimension::Lineage => "Lineage",
            OctadDimension::Constraints => "Constraints",
            OctadDimension::AccessControl => "Access Control",
            OctadDimension::Temporal => "Temporal",
            OctadDimension::Simulation => "Simulation",
        }
    }

    /// Data and Metadata are always present.
    pub open spec fn spec_is_inherent(self) -> bool {
        self is Data || self is Metadata
    }

    /// Returns all eight octad dimensions in canonical order.
    pub fn all() -> (r: [OctadDimension; 8])
        ensures
            r@ == canonical_dimensions(),
    {
        let r = [
            OctadDimension::Data,
            OctadDimension::Metadata,
            OctadDimension::Provenance,
            OctadDimension::Lineage,
            OctadDimension::Constraints,
            OctadDimension::AccessControl,
            OctadDimension::Temporal,
            OctadDimension::Simulation,
        ];
        assert(r@ == canonical_dimensions());
        r
    }

    /// Returns a human-readable label for this dimension.
    pub fn label(&self) -> (r: &'static str)
        ensures
            r == self.spec_label(),
    {
        match self {
            OctadDimension::Data => "Data",
            OctadDimension::Metadata => "Metadata",
            OctadDimension::Provenance => "Provenance",
            OctadDimension::Lineage => "Lineage",
            OctadDimension::Constraints => "Constraints",
            OctadDimension::AccessControl => "Access Control",
            OctadDimension::Temporal => "Temporal",
            OctadDimension::Simulation => "Simulation",
        }
    }

    /// Returns true if this dimension is always present (Data, Metadata).
    pub fn is_inherent(&self) -> (r: bool)
        ensures
            r == self.spec_is_inherent(),
    {
        match self {
            OctadDimension::Data | OctadDimension::Metadata => true,
            _ => false,
        }
    }
}

/// The canonical order lists each dimension exactly once, and exactly the
/// first two are inherent.
pub proof fn lemma_octad_complete(d: OctadDimension)
    ensures
        canonical_dimensions().len() == 8,
        canonical_dimensions().contains(d),
        forall|i: int, j: int|
            0 <= i < j < 8 ==> canonical_dimensions()[i] != canonical_dimensions()[j],
        forall|i: int|
            0 <= i < 8 ==> (canonical_dimensions()[i].spec_is_inherent() <==> i < 2),
{
    let s = canonical_dimensions();
    let k: int = match d {
        OctadDimension::Data => 0,
        OctadDimension::Metadata => 1,
        OctadDimension::Provenance => 2,
        OctadDimension::Lineage => 3,
        OctadDimension::Constraints => 4,
        OctadDimension::AccessControl => 5,
        OctadDimension::Temporal => 6,
        OctadDimension::Simulation => 7,
    };
    assert(s[k] == d);
}

// ---------------------------------------------------------------------------
// DatabaseBackend
// ---------------------------------------------------------------------------

/// Supported database backends that can be augmented.
#[derive(Debug, Clone, Copy, PartialEq, Eq, Hash, Structural)]
pub enum DatabaseBackend {
    /// PostgreSQL (via logical replication, pg_notify, or triggers).
    PostgreSQL,
    /// SQLite (via sqlite3_update_hook or WAL monitoring).
    SQLite,
    /// MongoDB (via change streams).
    MongoDB,
}

/// The backend named by an already-lowercased name.
pub open spec fn backend_for_lowered(l: Seq<char>) -> Option<DatabaseBackend> {
    if l == "postgresql"@ || l == "postgres"@ || l == "pg"@ {
        Some(DatabaseBackend::PostgreSQL)
    } else if l == "sqlite"@ || l == "sqlite3"@ {
        Some(DatabaseBackend::SQLite)
    } else if l == "mongodb"@ || l == "mongo"@ {
        Some(DatabaseBackend::MongoDB)
    } else {
        None
    }
}

impl DatabaseBackend {
    /// The canonical lowercase name.
    pub open spec fn spec_name(self) -> &'static str {
        match self {
            DatabaseBackend::PostgreSQL => "postgresql",
            DatabaseBackend::SQLite => "sqlite",
            DatabaseBackend::MongoDB => "mongodb",
        }
    }

    /// Parse a backend name (case-insensitive). Returns `None` for
    /// unrecognised names.
    #[allow(clippy::should_implement_trait)]
    pub fn from_str(name: &str) -> (r: Option<Self>)
        ensures
            r == backend_for_lowered(spec_to_lowercase(name@)),
            all_ascii(name@) ==> r == backend_for_lowered(ascii_lower(name@)),
    {
        let lowered = to_lowercase(name);
        let l = lowered.as_str();
        if str_eq(l, "postgresql") || str_eq(l, "postgres") || str_eq(l, "pg") {
            Some(DatabaseBackend::PostgreSQL)
        } else if str_eq(l, "sqlite") || str_eq(l, "sqlite3") {
            Some(DatabaseBackend::SQLite)
        } else if str_eq(l, "mongodb") || str_eq(l, "mongo") {
            Some(DatabaseBackend::MongoDB)
        } else {
            None
        }
    }

    /// Returns the canonical string name for this backend.
    pub fn name(&self) -> (r: &'static str)
        ensures
            r == self.spec_name(),
    {
        match self {
            DatabaseBackend::PostgreSQL => "postgresql",
            DatabaseBackend::SQLite => "sqlite",
            DatabaseBackend::MongoDB => "mongodb",
        }
    }
}

/// For ASCII text, parsing a backend name ignores case: lowercasing the
/// name first (`to_lowercase`, which on ASCII lowers exactly `A`..=`Z`)
/// gives ASCII text whose lowercase is itself, so `from_str(s)` and
/// `from_str(&s.to_lowercase())` agree.
pub proof fn law_backend_ascii_case_insensitive(s: Seq<char>)
    requires
        all_ascii(s),
    ensures
        all_ascii(ascii_lower(s)),
        ascii_lower(ascii_lower(s)) == ascii_lower(s),
        backend_for_lowered(ascii_lower(ascii_lower(s))) == backend_for_lowered(ascii_lower(s)),
{
    assert forall|i: int| 0 <= i < s.len() implies (#[trigger] ascii_lower(s)[i] as u32) < 128
        && ascii_lower_char(ascii_lower(s)[i]) == ascii_lower(s)[i] by {
        let c = s[i];
        if 'A' <= c && c <= 'Z' {
            assert(((c as u32) + 32) as char as u32 == (c as u32) + 32);
        }
    }
    assert(ascii_lower(ascii_lower(s)) =~= ascii_lower(s));
}

/// Parsing a backend's canonical name gives that backend back.
pub proof fn lemma_backend_name_round_trip(b: DatabaseBackend)
    ensures
        all_ascii(b.spec_name()@),
        backend_for_lowered(ascii_lower(b.spec_name()@)) == Some(b),
{
    reveal_strlit("postgresql");
    reveal_strlit("postgres");
    reveal_strlit("pg");
    reveal_strlit("sqlite");
    reveal_strlit("sqlite3");
    reveal_strlit("mongodb");
    reveal_strlit("mongo");
    let n = b.spec_name()@;
    assert(ascii_lower(n) =~= n);
    match b {
        DatabaseBackend::PostgreSQL => {}
        DatabaseBackend::SQLite => {
            assert(n.len() != "postgresql"@.len());
            assert(n.len() != "postgres"@.len());
            assert(n.len() != "pg"@.len());
        }
        DatabaseBackend::MongoDB => {
            assert(n.len() != "postgresql"@.len());
            assert(n.len() != "postgres"@.len());
            assert(n.len() != "pg"@.len());
            assert(n.len() != "sqlite"@.len());
            assert(n[0] != "sqlite3"@[0]);
        }
    }
}

// ---------------------------------------------------------------------------
// LineageEdge, TemporalVersion, AccessPolicy, SidecarConfig
// ---------------------------------------------------------------------------

/// A directed edge of the lineage graph: which entity was derived from
/// which, and how.
#[derive(Debug, Clone)]
pub struct LineageEdge {
    /// Unique identifier for this edge.
    pub edge_id: String,
    /// Entity ID of the source (upstream) entity.
    pub source_entity: String,
    /// Entity ID of the target (derived) entity.
    pub target_entity: String,
    /// Type of derivation: "copy", "transform", "aggregate", "join", "filter".
    pub derivation_type: String,
    /// Optional human-readable description of the transformation.
    pub description: Option<String>,
    /// When this relationship was established, as RFC 3339 text (UTC).
    pub created_at: String,
}

/// The identifier of an edge created at Unix time `millis`.
pub open spec fn edge_id_text(source: Seq<char>, target: Seq<char>, millis: int) -> Seq<char> {
    source + "->"@ + target + "@"@ + signed_decimal(millis)
}

impl LineageEdge {
    /// Create a lineage edge between two entities, identified by both ends
    /// and the current time in milliseconds, stamped with the current time.
    pub fn new(source_entity: &str, target_entity: &str, derivation_type: &str) -> (r: Self)
        ensures
            exists|millis: int| r.edge_id@ == edge_id_text(source_entity@, target_entity@, millis),
            r.source_entity@ == source_entity@,
            r.target_entity@ == target_entity@,
            r.derivation_type@ == derivation_type@,
            r.description is None,
            is_canonical_timestamp(r.created_at@),
    {
        let millis = now_millis();
        let mut id: Vec<char> = Vec::new();
        push_str(&mut id, source_entity);
        push_str(&mut id, "->");
        push_str(&mut id, target_entity);
        push_str(&mut id, "@");
        push_i64(&mut id, millis);
        assert(id@ =~= edge_id_text(source_entity@, target_entity@, millis as int));
        LineageEdge {
            edge_id: string_from_chars(&id),
            source_entity: source_entity.to_owned(),
            target_entity: target_entity.to_owned(),
            derivation_type: derivation_type.to_owned(),
            description: None,
            created_at: now_rfc3339(),
        }
    }
}

/// The current time in milliseconds since the Unix epoch.
fn now_millis() -> (r: i64) {
    let (secs, nanos) = now();
    secs * 1000 + (nanos / 1_000_000) as i64
}

/// A versioned snapshot of an entity, for point-in-time queries and
/// rollback. Each version records the full state.
#[derive(Debug, Clone)]
pub struct TemporalVersion {
    /// Entity this version belongs to.
    pub entity_id: String,
    /// Monotonically increasing version number (1-based).
    pub version: u64,
    /// When this version became current, as RFC 3339 text (UTC).
    pub valid_from: String,
    /// When this version was superseded (None while it is current).
    pub valid_to: Option<String>,
    /// Full serialised state of the entity at this version.
    pub snapshot: serde_json::Value,
    /// What created this version: "insert", "update", "rollback".
    pub operation: String,
}

impl TemporalVersion {
    /// The initial version (version 1) of a new entity, current from now.
    pub fn initial(entity_id: &str, snapshot: serde_json::Value) -> (r: Self)
        ensures
            r.entity_id@ == entity_id@,
            r.version == 1,
            is_canonical_timestamp(r.valid_from@),
            r.valid_to is None,
            r.snapshot == snapshot,
            r.operation@ == "insert"@,
    {
        TemporalVersion {
            entity_id: entity_id.to_owned(),
            version: 1,
            valid_from: now_rfc3339(),
            valid_to: None,
            snapshot,
            operation: "insert".to_owned(),
        }
    }

    /// The next version, superseding this one: numbered one higher and
    /// current from now.
    pub fn next_version(&self, snapshot: serde_json::Value, operation: &str) -> (r: Self)
        requires
            self.version < u64::MAX,
        ensures
            r.entity_id@ == self.entity_id@,
            r.version == self.version + 1,
            is_canonical_timestamp(r.valid_from@),
            r.valid_to is None,
            r.snapshot == snapshot,
            r.operation@ == operation@,
    {
        TemporalVersion {
            entity_id: self.entity_id.clone(),
            version: self.version + 1,
            valid_from: now_rfc3339(),
            valid_to: None,
            snapshot,
            operation: operation.to_owned(),
        }
    }

    /// Whether this version is still current (not superseded).
    pub fn is_current(&self) -> (r: bool)
        ensures
            r == self.valid_to is None,
    {
        self.valid_to.is_none()
    }
}

/// A row- or column-level access policy for a principal.
#[derive(Debug, Clone)]
pub struct AccessPolicy {
    /// Unique identifier for this policy.
    pub policy_id: String,
    /// Which table or collection this policy applies to.
    pub target_table: String,
    /// Specific column this policy applies to (None = whole row).
    pub target_column: Option<String>,
    /// The principal (user, role, or group) this policy grants or denies.
    pub principal: String,
    /// Access level: "read", "write", "admin", "deny".
    pub access_level: String,
    /// SQL-like condition further restricting the policy.
    pub condition: Option<String>,
    /// When this policy was created, as RFC 3339 text (UTC).
    pub created_at: String,
    /// Whether this policy is currently active.
    pub active: bool,
}

/// The identifier of a policy created at Unix time `millis`.
pub open spec fn policy_id_text(table: Seq<char>, principal: Seq<char>, millis: int) -> Seq<char> {
    "pol-"@ + table + "-"@ + principal + "-"@ + signed_decimal(millis)
}

impl AccessPolicy {
    /// A new, active whole-row policy for a table, identified by table,
    /// principal and the current time in milliseconds.
    pub fn new(target_table: &str, principal: &str, access_level: &str) -> (r: Self)
        ensures
            exists|millis: int| r.policy_id@ == policy_id_text(target_table@, principal@, millis),
            r.target_table@ == target_table@,
            r.target_column is None,
            r.principal@ == principal@,
            r.access_level@ == access_level@,
            r.condition is None,
            is_canonical_timestamp(r.created_at@),
            r.active,
    {
        let millis = now_millis();
        let mut id: Vec<char> = Vec::new();
        push_str(&mut id, "pol-");
        push_str(&mut id, target_table);
        push_str(&mut id, "-");
        push_str(&mut id, principal);
        push_str(&mut id, "-");
        push_i64(&mut id, millis);
        assert(id@ =~= policy_id_text(target_table@, principal@, millis as int));
        AccessPolicy {
            policy_id: string_from_chars(&id),
            target_table: target_table.to_owned(),
            target_column: None,
            principal: principal.to_owned(),
            access_level: access_level.to_owned(),
            condition: None,
            created_at: now_rfc3339(),
            active: true,
        }
    }

    /// A new, active policy restricted to one column.
    pub fn for_column(target_table: &str, column: &str, principal: &str, access_level: &str) -> (r:
        Self)
        ensures
            exists|millis: int| r.policy_id@ == policy_id_text(target_table@, principal@, millis),
            r.target_table@ == target_table@,
            r.target_column matches Some(c) && c@ == column@,
            r.principal@ == principal@,
            r.access_level@ == access_level@,
            r.condition is None,
            is_canonical_timestamp(r.created_at@),
            r.active,
    {
        let mut policy = Self::new(target_table, principal, access_level);
        policy.target_column = Some(column.to_owned());
        policy
    }
}

/// Runtime configuration of the sidecar storage.
#[derive(Debug, Clone)]
pub struct SidecarConfig {
    /// Storage backend: "sqlite" or "json".
    pub storage: String,
    /// File path for the sidecar database.
    pub path: String,
}

impl SidecarConfig {
    /// The default SQLite sidecar configuration.
    pub fn default_sqlite() -> (r: Self)
        ensures
            r.storage@ == "sqlite"@,
            r.path@ == ".verisimdb/sidecar.db"@,
    {
        SidecarConfig { storage: "sqlite".to_owned(), path: ".verisimdb/sidecar.db".to_owned() }
    }
}

/// A one-line description of an octad dimension.
pub open spec fn description_of(dim: OctadDimension) -> &'static str {
    match dim {
        OctadDimension::Data => "The original data in your database",
        OctadDimension::Metadata => "Schema and type information",
        OctadDimension::Provenance => "SHA-256 hash-chain origin tracking",
        OctadDimension::Lineage => "Data derivation DAG",
        OctadDimension::Constraints => "Cross-dimensional invariant enforcement",
        OctadDimension::AccessControl => "Row/column-level access policies",
        OctadDimension::Temporal => "Version history with point-in-time queries",
        OctadDimension::Simulation => "What-if branching and sandbox queries",
    }
}

/// A one-line description of an octad dimension (for the `octad` listing).
pub fn dimension_description(dim: &OctadDimension) -> (r: &'static str)
    ensures
        r == description_of(*dim),
{
    match dim {
        OctadDimension::Data => "The original data in your database",
        OctadDimension::Metadata => "Schema and type information",
        OctadDimension::Provenance => "SHA-256 hash-chain origin tracking",
        OctadDimension::Lineage => "Data derivation DAG",
        OctadDimension::Constraints => "Cross-dimensional invariant enforcement",
        OctadDimension::AccessControl => "Row/column-level access policies",
        OctadDimension::Temporal => "Version history with point-in-time queries",
        OctadDimension::Simulation => "What-if branching and sandbox queries",
    }
}

/// The JSON value type of serde_json, carried through unread.
#[verifier::external_type_specification]
#[verifier::external_body]
pub struct ExJsonValue(serde_json::Value);

/// serde_json's derived `Clone` for `Value`: a copy of the value. Nothing
/// about the copy is claimed.
pub assume_specification[ <serde_json::Value as Clone>::clone ](v: &serde_json::Value) -> (r:
    serde_json::Value);

} // verus!

// ---------------------------------------------------------------------------
// ProvenanceEntry — one link of a provenance hash chain
// ---------------------------------------------------------------------------

verus! {

/// Domain tag that opens every provenance hash preimage, so a provenance
/// hash can never coincide with a hash computed over some other encoding.
pub const PROVENANCE_DOMAIN: &'static str = "verisimdb/provenance/v1";

/// View of an optional borrowed string.
pub open spec fn opt_str_view(o: Option<&str>) -> Option<Seq<char>> {
    match o {
        None => None,
        Some(s) => Some(s@),
    }
}

/// View of an optional owned string.
pub open spec fn opt_string_view(o: Option<String>) -> Option<Seq<char>> {
    match o {
        None => None,
        Some(s) => Some(s@),
    }
}

/// The bytes a provenance hash is computed over: the domain tag, then every
/// field of the entry, each length-prefixed (optional fields tagged).
pub open spec fn provenance_preimage(
    previous_hash: Seq<char>,
    entity_id: Seq<char>,
    operation: Seq<char>,
    actor: Seq<char>,
    timestamp: Seq<char>,
    before_snapshot: Option<Seq<char>>,
    transformation: Option<Seq<char>>,
) -> Seq<u8> {
    text_field(PROVENANCE_DOMAIN@) + (text_field(previous_hash) + (text_field(entity_id) + (
    text_field(operation) + (text_field(actor) + (text_field(timestamp) + (opt_text_field(
        before_snapshot,
    ) + opt_text_field(transformation)))))))
}

/// The provenance hash: lowercase hex of the SHA-256 of the preimage.
pub open spec fn provenance_hash(
    previous_hash: Seq<char>,
    entity_id: Seq<char>,
    operation: Seq<char>,
    actor: Seq<char>,
    timestamp: Seq<char>,
    before_snapshot: Option<Seq<char>>,
    transformation: Option<Seq<char>>,
) -> Seq<char> {
    hex_lower(
        spec_sha256(
            provenance_preimage(
                previous_hash,
                entity_id,
                operation,
                actor,
                timestamp,
                before_snapshot,
                transformation,
            ),
        ),
    )
}

/// A single entry in the provenance hash chain. Each entry is chained to its
/// predecessor through `previous_hash` and its own `hash` covers every field.
#[derive(Debug, Clone)]
pub struct ProvenanceEntry {
    /// Lowercase hex SHA-256 over all other fields (see [`provenance_preimage`]).
    pub hash: String,
    /// Hash of the preceding entry (empty for a genesis entry).
    pub previous_hash: String,
    /// Identifier of the entity this entry describes.
    pub entity_id: String,
    /// What happened: "insert", "update", "delete", "transform".
    pub operation: String,
    /// Who performed the operation.
    pub actor: String,
    /// When the operation occurred, as RFC 3339 text (UTC).
    pub timestamp: String,
    /// Optional serialised state of the entity before the operation.
    pub before_snapshot: Option<String>,
    /// Optional description of the transformation applied.
    pub transformation: Option<String>,
}

impl ProvenanceEntry {
    /// The hash this entry's fields call for.
    pub open spec fn expected_hash(&self) -> Seq<char> {
        provenance_hash(
            self.previous_hash@,
            self.entity_id@,
            self.operation@,
            self.actor@,
            self.timestamp@,
            opt_string_view(self.before_snapshot),
            opt_string_view(self.transformation),
        )
    }

    /// The stored hash matches the fields.
    pub open spec fn is_consistent(&self) -> bool {
        self.hash@ == self.expected_hash()
    }

    /// Compute the provenance hash over every field of an entry.
    #[verifier::spinoff_prover]
    #[verifier::rlimit(40)]
    pub fn compute_hash(
        previous_hash: &str,
        entity_id: &str,
        operation: &str,
        actor: &str,
        timestamp: &str,
        before_snapshot: Option<&str>,
        transformation: Option<&str>,
    ) -> (r: String)
        ensures
            r@ == provenance_hash(
                previous_hash@,
                entity_id@,
                operation@,
                actor@,
                timestamp@,
                opt_str_view(before_snapshot),
                opt_str_view(transformation),
            ),
    {
        let mut buf: Vec<u8> = Vec::new();
        push_text_field(&mut buf, PROVENANCE_DOMAIN);
        push_text_field(&mut buf, previous_hash);
        push_text_field(&mut buf, entity_id);
        push_text_field(&mut buf, operation);
        push_text_field(&mut buf, actor);
        push_text_field(&mut buf, timestamp);
        push_opt_text_field(&mut buf, before_snapshot);
        push_opt_text_field(&mut buf, transformation);
        assert(buf@ =~= provenance_preimage(
            previous_hash@,
            entity_id@,
            operation@,
            actor@,
            timestamp@,
            opt_str_view(before_snapshot),
            opt_str_view(transformation),
        ));
        let digest = sha256(buf.as_slice());
        let hex = to_hex_lower(&digest);
        string_from_chars(&hex)
    }

    /// Verify that this entry's hash is consistent with its contents.
    pub fn verify(&self) -> (r: bool)
        ensures
            r == self.is_consistent(),
    {
        let expected = Self::compute_hash(
            self.previous_hash.as_str(),
            self.entity_id.as_str(),
            self.operation.as_str(),
            self.actor.as_str(),
            self.timestamp.as_str(),
            opt_as_str(&self.before_snapshot),
            opt_as_str(&self.transformation),
        );
        expected == self.hash
    }

    /// Create a new genesis entry (first in the chain for an entity),
    /// stamped with the current time.
    pub fn genesis(entity_id: &str, actor: &str) -> (r: Self)
        ensures
            r.previous_hash@ == Seq::<char>::empty(),
            r.entity_id@ == entity_id@,
            r.operation@ == "insert"@,
            r.actor@ == actor@,
            is_rfc3339(r.timestamp@),
            r.before_snapshot is None,
            r.transformation is None,
            r.is_consistent(),
    {
        let timestamp = now_rfc3339();
        proof {
            reveal_strlit("");
        }
        let hash = Self::compute_hash(
            "",
            entity_id,
            "insert",
            actor,
            timestamp.as_str(),
            None,
            None,
        );
        ProvenanceEntry {
            hash,
            previous_hash: String::new(),
            entity_id: entity_id.to_owned(),
            operation: "insert".to_owned(),
            actor: actor.to_owned(),
            timestamp,
            before_snapshot: None,
            transformation: None,
        }
    }

    /// Create a new entry chained to this one, stamped with the current time.
    pub fn chain(&self, operation: &str, actor: &str) -> (r: Self)
        ensures
            r.previous_hash@ == self.hash@,
            r.entity_id@ == self.entity_id@,
            r.operation@ == operation@,
            r.actor@ == actor@,
            is_rfc3339(r.timestamp@),
            r.before_snapshot is None,
            r.transformation is None,
            r.is_consistent(),
    {
        let timestamp = now_rfc3339();
        let hash = Self::compute_hash(
            self.hash.as_str(),
            self.entity_id.as_str(),
            operation,
            actor,
            timestamp.as_str(),
            None,
            None,
        );
        ProvenanceEntry {
            hash,
            previous_hash: self.hash.clone(),
            entity_id: self.entity_id.clone(),
            operation: operation.to_owned(),
            actor: actor.to_owned(),
            timestamp,
            before_snapshot: None,
            transformation: None,
        }
    }
}

/// Borrow the text of an optional owned string.
pub fn opt_as_str(o: &Option<String>) -> (r: Option<&str>)
    ensures
        opt_str_view(r) == opt_string_view(*o),
{
    match o {
        None => None,
        Some(s) => Some(s.as_str()),
    }
}

/// Every field of a provenance entry is covered by its preimage: two entries
/// whose preimages coincide agree on every field. (So a change to any field
/// changes the bytes that are hashed.)
pub proof fn lemma_preimage_injective(
    p1: Seq<char>, e1: Seq<char>, o1: Seq<char>, a1: Seq<char>, t1: Seq<char>,
    b1: Option<Seq<char>>, x1: Option<Seq<char>>,
    p2: Seq<char>, e2: Seq<char>, o2: Seq<char>, a2: Seq<char>, t2: Seq<char>,
    b2: Option<Seq<char>>, x2: Option<Seq<char>>,
)
    requires
        encodable(p1), encodable(e1), encodable(o1), encodable(a1), encodable(t1),
        opt_encodable(b1), opt_encodable(x1),
        encodable(p2), encodable(e2), encodable(o2), encodable(a2), encodable(t2),
        opt_encodable(b2), opt_encodable(x2),
        provenance_preimage(p1, e1, o1, a1, t1, b1, x1)
            == provenance_preimage(p2, e2, o2, a2, t2, b2, x2),
    ensures
        p1 == p2, e1 == e2, o1 == o2, a1 == a2, t1 == t2, b1 == b2, x1 == x2,
{
    let d = PROVENANCE_DOMAIN@;
    assert(encodable(d)) by {
        reveal_strlit("verisimdb/provenance/v1");
        vstd::utf8::is_ascii_chars_encode_utf8(d);
    }
    let r1b = opt_text_field(b1) + opt_text_field(x1);
    let r2b = opt_text_field(b2) + opt_text_field(x2);
    let r1t = text_field(t1) + r1b;
    let r2t = text_field(t2) + r2b;
    let r1a = text_field(a1) + r1t;
    let r2a = text_field(a2) + r2t;
    let r1o = text_field(o1) + r1a;
    let r2o = text_field(o2) + r2a;
    let r1e = text_field(e1) + r1o;
    let r2e = text_field(e2) + r2o;
    let r1p = text_field(p1) + r1e;
    let r2p = text_field(p2) + r2e;
    lemma_text_field_prefix(d, r1p, d, r2p);
    lemma_text_field_prefix(p1, r1e, p2, r2e);
    lemma_text_field_prefix(e1, r1o, e2, r2o);
    lemma_text_field_prefix(o1, r1a, o2, r2a);
    lemma_text_field_prefix(a1, r1t, a2, r2t);
    lemma_text_field_prefix(t1, r1b, t2, r2b);
    lemma_opt_text_field_prefix(b1, opt_text_field(x1), b2, opt_text_field(x2));
    assert(opt_text_field(x1) == opt_text_field(x1) + Seq::<u8>::empty());
    assert(opt_text_field(x2) == opt_text_field(x2) + Seq::<u8>::empty());
    lemma_opt_text_field_prefix(x1, Seq::<u8>::empty(), x2, Seq::<u8>::empty());
}

} // verus!
