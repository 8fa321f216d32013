//! The JSON-family sidecar store: an append-only document model mirroring the
//! `verisimdb_*` overlay tables, with the runtime octad operations —
//! provenance hash chains (with first-class forks), temporal versioning
//! (monotonic, exactly one current version), and age-based garbage
//! collection.
//!
//! The on-disk encodings (plain JSON, JSON-LD, NDJSON) are codecs over the
//! [`SidecarData`] model and live outside this library; the store is opened
//! from, and saved as, that model.

use vstd::prelude::*;

use crate::abi::{opt_str_view, opt_string_view, provenance_hash, ProvenanceEntry};
use crate::clock::{is_canonical_timestamp, is_rfc3339, now, now_rfc3339, parse_rfc3339};
use crate::manifest::RetentionConfig;
use crate::order::{strictly_sorted, views_of};
use crate::sidecar::chain::{chain_verifies, fork_points_of, forks_view};
use crate::sidecar::retention::{
    count_where, cutoff_of, keep_where, lineage_purge, older_than, prov_purge, purged, temp_purge,
};
use crate::sidecar::versions::{
    append_version, close_current, current_snapshot, entity_before, max_version, snapshot_at,
    version_snapshot,
};
use crate::sidecar::JsonFormat;
use crate::text::{debug_str, decimal, push_str, push_u64, spec_debug_str, str_eq, string_from_chars};
use crate::tier1::provenance::ForkPoint;

verus! {

// ---------------------------------------------------------------------------
// Row types — one per verisimdb_* table the runtime path touches
// ---------------------------------------------------------------------------

/// A row of `verisimdb_provenance_log`.
#[derive(Debug, Clone, PartialEq, Eq)]
pub struct ProvenanceRow {
    pub hash: String,
    pub previous_hash: String,
    pub entity_id: String,
    pub table_name: String,
    pub operation: String,
    pub actor: String,
    /// RFC 3339 text.
    pub timestamp: String,
    pub before_snapshot: Option<String>,
    pub transformation: Option<String>,
}

/// A branch tip in `verisimdb_provenance_chain_heads`.
#[derive(Debug, Clone, PartialEq, Eq)]
pub struct ChainHead {
    pub entity_id: String,
    pub head_hash: String,
}

/// A row of `verisimdb_temporal_versions`.
#[derive(Debug, Clone, PartialEq, Eq)]
pub struct TemporalRow {
    pub entity_id: String,
    pub table_name: String,
    pub version: u64,
    pub valid_from: String,
    pub valid_to: Option<String>,
    pub snapshot: String,
    pub operation: String,
}

/// A row of `verisimdb_lineage_graph`.
#[derive(Debug, Clone, PartialEq, Eq)]
pub struct LineageRow {
    pub edge_id: String,
    pub source_entity: String,
    pub source_table: String,
    pub target_entity: String,
    pub target_table: String,
    pub derivation_type: String,
    pub description: Option<String>,
    pub created_at: String,
}

/// A row of `verisimdb_access_policies`.
#[derive(Debug, Clone, PartialEq, Eq)]
pub struct AccessPolicyRow {
    pub policy_id: String,
    pub target_table: String,
    pub target_column: Option<String>,
    pub principal: String,
    pub access_level: String,
    pub condition: Option<String>,
    pub created_at: String,
    pub active: bool,
}

/// The full in-memory sidecar model.
#[derive(Debug, Clone, Default, PartialEq, Eq)]
pub struct SidecarData {
    pub provenance_log: Vec<ProvenanceRow>,
    pub provenance_chain_heads: Vec<ChainHead>,
    pub temporal_versions: Vec<TemporalRow>,
    pub lineage_graph: Vec<LineageRow>,
    pub access_policies: Vec<AccessPolicyRow>,
}

/// Rows purged per dimension by [`JsonStore::gc_purge`].
#[derive(Debug, Clone, Copy, Default, PartialEq, Eq)]
pub struct GcCounts {
    pub provenance: usize,
    pub temporal: usize,
    pub lineage: usize,
}

// ---------------------------------------------------------------------------
// Views
// ---------------------------------------------------------------------------

/// Abstract provenance row.
#[verifier::ext_equal]
pub struct ProvRowV {
    pub hash: Seq<char>,
    pub previous_hash: Seq<char>,
    pub entity_id: Seq<char>,
    pub table_name: Seq<char>,
    pub operation: Seq<char>,
    pub actor: Seq<char>,
    pub timestamp: Seq<char>,
    pub before_snapshot: Option<Seq<char>>,
    pub transformation: Option<Seq<char>>,
}

/// Abstract chain head.
#[verifier::ext_equal]
pub struct HeadV {
    pub entity_id: Seq<char>,
    pub head_hash: Seq<char>,
}

/// Abstract temporal row.
#[verifier::ext_equal]
pub struct TempRowV {
    pub entity_id: Seq<char>,
    pub table_name: Seq<char>,
    pub version: u64,
    pub valid_from: Seq<char>,
    pub valid_to: Option<Seq<char>>,
    pub snapshot: Seq<char>,
    pub operation: Seq<char>,
}

/// Abstract lineage row.
#[verifier::ext_equal]
pub struct LineageRowV {
    pub edge_id: Seq<char>,
    pub source_entity: Seq<char>,
    pub source_table: Seq<char>,
    pub target_entity: Seq<char>,
    pub target_table: Seq<char>,
    pub derivation_type: Seq<char>,
    pub description: Option<Seq<char>>,
    pub created_at: Seq<char>,
}

/// Abstract access-policy row.
#[verifier::ext_equal]
pub struct AccessRowV {
    pub policy_id: Seq<char>,
    pub target_table: Seq<char>,
    pub target_column: Option<Seq<char>>,
    pub principal: Seq<char>,
    pub access_level: Seq<char>,
    pub condition: Option<Seq<char>>,
    pub created_at: Seq<char>,
    pub active: bool,
}

/// Abstract sidecar: one sequence per table.
#[verifier::ext_equal]
pub struct SidecarV {
    pub log: Seq<ProvRowV>,
    pub heads: Seq<HeadV>,
    pub temporal: Seq<TempRowV>,
    pub lineage: Seq<LineageRowV>,
    pub access: Seq<AccessRowV>,
}

impl View for ProvenanceRow {
    type V = ProvRowV;

    open spec fn view(&self) -> ProvRowV {
        ProvRowV {
            hash: self.hash@,
            previous_hash: self.previous_hash@,
            entity_id: self.entity_id@,
            table_name: self.table_name@,
            operation: self.operation@,
            actor: self.actor@,
            timestamp: self.timestamp@,
            before_snapshot: opt_string_view(self.before_snapshot),
            transformation: opt_string_view(self.transformation),
        }
    }
}

impl View for ChainHead {
    type V = HeadV;

    open spec fn view(&self) -> HeadV {
        HeadV { entity_id: self.entity_id@, head_hash: self.head_hash@ }
    }
}

impl View for TemporalRow {
    type V = TempRowV;

    open spec fn view(&self) -> TempRowV {
        TempRowV {
            entity_id: self.entity_id@,
            table_name: self.table_name@,
            version: self.version,
            valid_from: self.valid_from@,
            valid_to: opt_string_view(self.valid_to),
            snapshot: self.snapshot@,
            operation: self.operation@,
        }
    }
}

impl View for LineageRow {
    type V = LineageRowV;

    open spec fn view(&self) -> LineageRowV {
        LineageRowV {
            edge_id: self.edge_id@,
            source_entity: self.source_entity@,
            source_table: self.source_table@,
            target_entity: self.target_entity@,
            target_table: self.target_table@,
            derivation_type: self.derivation_type@,
            description: opt_string_view(self.description),
            created_at: self.created_at@,
        }
    }
}

impl View for AccessPolicyRow {
    type V = AccessRowV;

    open spec fn view(&self) -> AccessRowV {
        AccessRowV {
            policy_id: self.policy_id@,
            target_table: self.target_table@,
            target_column: opt_string_view(self.target_column),
            principal: self.principal@,
            access_level: self.access_level@,
            condition: opt_string_view(self.condition),
            created_at: self.created_at@,
            active: self.active,
        }
    }
}

/// Views of a sequence of provenance rows.
pub open spec fn log_view(v: Seq<ProvenanceRow>) -> Seq<ProvRowV> {
    v.map_values(|r: ProvenanceRow| r@)
}

/// Views of a sequence of chain heads.
pub open spec fn heads_view(v: Seq<ChainHead>) -> Seq<HeadV> {
    v.map_values(|r: ChainHead| r@)
}

/// Views of a sequence of temporal rows.
pub open spec fn temporal_view(v: Seq<TemporalRow>) -> Seq<TempRowV> {
    v.map_values(|r: TemporalRow| r@)
}

/// Views of a sequence of lineage rows.
pub open spec fn lineage_view(v: Seq<LineageRow>) -> Seq<LineageRowV> {
    v.map_values(|r: LineageRow| r@)
}

/// Views of a sequence of access-policy rows.
pub open spec fn access_view(v: Seq<AccessPolicyRow>) -> Seq<AccessRowV> {
    v.map_values(|r: AccessPolicyRow| r@)
}

/// Views of a sequence of strings.
pub open spec fn strings_view(v: Seq<String>) -> Seq<Seq<char>> {
    v.map_values(|s: String| s@)
}

impl View for SidecarData {
    type V = SidecarV;

    open spec fn view(&self) -> SidecarV {
        SidecarV {
            log: log_view(self.provenance_log@),
            heads: heads_view(self.provenance_chain_heads@),
            temporal: temporal_view(self.temporal_versions@),
            lineage: lineage_view(self.lineage_graph@),
            access: access_view(self.access_policies@),
        }
    }
}

fn copy_opt(o: &Option<String>) -> (r: Option<String>)
    ensures
        opt_string_view(r) == opt_string_view(*o),
{
    match o {
        None => None,
        Some(s) => Some(s.clone()),
    }
}

impl ProvenanceRow {
    /// A copy with the same view.
    pub fn copy(&self) -> (r: Self)
        ensures
            r@ == self@,
    {
        ProvenanceRow {
            hash: self.hash.clone(),
            previous_hash: self.previous_hash.clone(),
            entity_id: self.entity_id.clone(),
            table_name: self.table_name.clone(),
            operation: self.operation.clone(),
            actor: self.actor.clone(),
            timestamp: self.timestamp.clone(),
            before_snapshot: copy_opt(&self.before_snapshot),
            transformation: copy_opt(&self.transformation),
        }
    }
}

impl ChainHead {
    /// A copy with the same view.
    pub fn copy(&self) -> (r: Self)
        ensures
            r@ == self@,
    {
        ChainHead { entity_id: self.entity_id.clone(), head_hash: self.head_hash.clone() }
    }
}

impl TemporalRow {
    /// A copy with the same view.
    pub fn copy(&self) -> (r: Self)
        ensures
            r@ == self@,
    {
        TemporalRow {
            entity_id: self.entity_id.clone(),
            table_name: self.table_name.clone(),
            version: self.version,
            valid_from: self.valid_from.clone(),
            valid_to: copy_opt(&self.valid_to),
            snapshot: self.snapshot.clone(),
            operation: self.operation.clone(),
        }
    }
}

impl LineageRow {
    /// A copy with the same view.
    pub fn copy(&self) -> (r: Self)
        ensures
            r@ == self@,
    {
        LineageRow {
            edge_id: self.edge_id.clone(),
            source_entity: self.source_entity.clone(),
            source_table: self.source_table.clone(),
            target_entity: self.target_entity.clone(),
            target_table: self.target_table.clone(),
            derivation_type: self.derivation_type.clone(),
            description: copy_opt(&self.description),
            created_at: self.created_at.clone(),
        }
    }
}

// ---------------------------------------------------------------------------
// Provenance: abstract operations
// ---------------------------------------------------------------------------

/// The branch-tip hashes recorded for entity `e`, in table order.
pub open spec fn heads_of(heads: Seq<HeadV>, e: Seq<char>) -> Seq<Seq<char>>
    decreases heads.len(),
{
    if heads.len() == 0 {
        Seq::empty()
    } else {
        let rest = heads_of(heads.drop_last(), e);
        if heads.last().entity_id == e {
            rest.push(heads.last().head_hash)
        } else {
            rest
        }
    }
}

/// `heads` without every `(e, h)` entry.
pub open spec fn heads_without(heads: Seq<HeadV>, e: Seq<char>, h: Seq<char>) -> Seq<HeadV>
    decreases heads.len(),
{
    if heads.len() == 0 {
        Seq::empty()
    } else {
        let rest = heads_without(heads.drop_last(), e, h);
        if heads.last().entity_id == e && heads.last().head_hash == h {
            rest
        } else {
            rest.push(heads.last())
        }
    }
}

/// `(e, h)` is recorded as a head.
pub open spec fn has_head(heads: Seq<HeadV>, e: Seq<char>, h: Seq<char>) -> bool {
    exists|i: int| 0 <= i < heads.len() && heads[i].entity_id == e && heads[i].head_hash == h
}

/// `heads` with `(e, h)` recorded (unchanged when already present).
pub open spec fn heads_with(heads: Seq<HeadV>, e: Seq<char>, h: Seq<char>) -> Seq<HeadV> {
    if has_head(heads, e, h) {
        heads
    } else {
        heads.push(HeadV { entity_id: e, head_hash: h })
    }
}

/// Some log row has hash `h`.
pub open spec fn log_has_hash(log: Seq<ProvRowV>, h: Seq<char>) -> bool {
    exists|i: int| 0 <= i < log.len() && log[i].hash == h
}

/// Some log row of entity `e` has hash `h`.
pub open spec fn log_has_entry(log: Seq<ProvRowV>, e: Seq<char>, h: Seq<char>) -> bool {
    exists|i: int| 0 <= i < log.len() && log[i].entity_id == e && log[i].hash == h
}

/// Abstract provenance error.
pub enum ProvErrV {
    Forked(Seq<char>, nat),
    Duplicate(Seq<char>),
    UnknownAncestor(Seq<char>, Seq<char>),
}

/// Why a provenance append was refused.
#[derive(Debug, Clone, PartialEq, Eq)]
pub enum ProvenanceError {
    /// The entity has several branch tips, so a linear append is ambiguous.
    Forked { entity_id: String, heads: usize },
    /// An entry with this hash (an identical preimage) is already logged.
    Duplicate { hash: String },
    /// The fork ancestor is not an entry of the entity's chain.
    UnknownAncestor { entity_id: String, from_hash: String },
}

impl View for ProvenanceError {
    type V = ProvErrV;

    open spec fn view(&self) -> ProvErrV {
        match self {
            ProvenanceError::Forked { entity_id, heads } => ProvErrV::Forked(
                entity_id@,
                *heads as nat,
            ),
            ProvenanceError::Duplicate { hash } => ProvErrV::Duplicate(hash@),
            ProvenanceError::UnknownAncestor { entity_id, from_hash } => ProvErrV::UnknownAncestor(
                entity_id@,
                from_hash@,
            ),
        }
    }
}

/// Text of a forked-entity refusal.
pub open spec fn forked_message(e: Seq<char>, n: nat) -> Seq<char> {
    "entity "@ + spec_debug_str(e) + " has "@ + decimal(n)
        + " chain heads (forked); linear append is ambiguous \u{2014} use append_provenance_fork(from_hash) (ADR-0010)"@
}

/// Text of a duplicate-entry refusal.
pub open spec fn duplicate_message(h: Seq<char>) -> Seq<char> {
    "duplicate provenance entry: an entry with hash "@ + h
        + " already exists (identical preimage)"@
}

/// Text of an unknown-ancestor refusal.
pub open spec fn unknown_ancestor_message(e: Seq<char>, from: Seq<char>) -> Seq<char> {
    "from_hash "@ + spec_debug_str(from) + " is not an entry in entity "@ + spec_debug_str(e)
        + "'s chain; cannot fork from a non-existent ancestor"@
}

/// Text of a provenance error.
pub open spec fn prov_error_message(e: ProvErrV) -> Seq<char> {
    match e {
        ProvErrV::Forked(ent, n) => forked_message(ent, n),
        ProvErrV::Duplicate(h) => duplicate_message(h),
        ProvErrV::UnknownAncestor(ent, from) => unknown_ancestor_message(ent, from),
    }
}

impl ProvenanceError {
    /// Human-readable text of the error.
    pub fn message(&self) -> (r: String)
        ensures
            r@ == prov_error_message(self@),
    {
        let mut buf: Vec<char> = Vec::new();
        match self {
            ProvenanceError::Forked { entity_id, heads } => {
                push_str(&mut buf, "entity ");
                let d = debug_str(entity_id.as_str());
                push_str(&mut buf, d.as_str());
                push_str(&mut buf, " has ");
                push_u64(&mut buf, *heads as u64);
                push_str(
                    &mut buf,
                    " chain heads (forked); linear append is ambiguous \u{2014} use append_provenance_fork(from_hash) (ADR-0010)",
                );
                proof {
                    reveal_strlit("entity ");
                    reveal_strlit(" has ");
                    reveal_strlit(
                        " chain heads (forked); linear append is ambiguous \u{2014} use append_provenance_fork(from_hash) (ADR-0010)",
                    );
                }
            },
            ProvenanceError::Duplicate { hash } => {
                push_str(&mut buf, "duplicate provenance entry: an entry with hash ");
                push_str(&mut buf, hash.as_str());
                push_str(&mut buf, " already exists (identical preimage)");
                proof {
                    reveal_strlit("duplicate provenance entry: an entry with hash ");
                    reveal_strlit(" already exists (identical preimage)");
                }
            },
            ProvenanceError::UnknownAncestor { entity_id, from_hash } => {
                push_str(&mut buf, "from_hash ");
                let d = debug_str(from_hash.as_str());
                push_str(&mut buf, d.as_str());
                push_str(&mut buf, " is not an entry in entity ");
                let d2 = debug_str(entity_id.as_str());
                push_str(&mut buf, d2.as_str());
                push_str(&mut buf, "'s chain; cannot fork from a non-existent ancestor");
                proof {
                    reveal_strlit("from_hash ");
                    reveal_strlit(" is not an entry in entity ");
                    reveal_strlit("'s chain; cannot fork from a non-existent ancestor");
                }
            },
        }
        assert(buf@ =~= prov_error_message(self@));
        string_from_chars(&buf)
    }
}

/// The branch tip a linear append from parent `prev` retires: the parent
/// itself, or none at genesis (the empty hash). The new entry becomes a tip
/// in either case.
pub open spec fn retired_tip(prev: Seq<char>) -> Option<Seq<char>> {
    if prev.len() > 0 {
        Some(prev)
    } else {
        None
    }
}

/// The branch tip a linear append from `prev` retires (see
/// [`retired_tip`]).
pub fn retired_tip_of(prev: &str) -> (r: Option<String>)
    ensures
        opt_string_view(r) == retired_tip(prev@),
{
    if prev.is_empty() {
        None
    } else {
        Some(prev.to_owned())
    }
}

/// The parent a linear append extends, given the entity's branch tips:
/// none is genesis (the empty hash), one is that tip, several are a fork
/// that a linear append refuses as ambiguous.
pub fn linear_parent_of(entity_id: &str, heads: &Vec<String>) -> (r: Result<String, ProvenanceError>)
    ensures
        heads@.len() >= 2 <==> r is Err,
        r matches Err(e) ==> e@ == ProvErrV::Forked(entity_id@, heads@.len()),
        r matches Ok(p) ==> p@ == linear_parent(strings_view(heads@)),
{
    if heads.len() >= 2 {
        Err(ProvenanceError::Forked { entity_id: entity_id.to_owned(), heads: heads.len() })
    } else if heads.len() == 0 {
        Ok(String::new())
    } else {
        Ok(heads[0].clone())
    }
}

/// View of an append result.
pub open spec fn append_result_view(r: Result<String, ProvenanceError>) -> Result<
    Seq<char>,
    ProvErrV,
> {
    match r {
        Ok(h) => Ok(h@),
        Err(e) => Err(e@),
    }
}

/// A new log row with hash computed from its fields.
pub open spec fn new_prov_row(
    prev: Seq<char>,
    e: Seq<char>,
    table: Seq<char>,
    op: Seq<char>,
    actor: Seq<char>,
    ts: Seq<char>,
    before: Option<Seq<char>>,
    transf: Option<Seq<char>>,
) -> ProvRowV {
    ProvRowV {
        hash: provenance_hash(prev, e, op, actor, ts, before, transf),
        previous_hash: prev,
        entity_id: e,
        table_name: table,
        operation: op,
        actor: actor,
        timestamp: ts,
        before_snapshot: before,
        transformation: transf,
    }
}

/// The parent of a linear append: the single tip, or empty for genesis.
pub open spec fn linear_parent(hs: Seq<Seq<char>>) -> Seq<char> {
    if hs.len() == 0 {
        Seq::empty()
    } else {
        hs[0]
    }
}

/// Outcome of a linear append on `d` with timestamp `ts`.
pub open spec fn append_linear(
    d: SidecarV,
    e: Seq<char>,
    table: Seq<char>,
    op: Seq<char>,
    actor: Seq<char>,
    before: Option<Seq<char>>,
    transf: Option<Seq<char>>,
    ts: Seq<char>,
) -> (SidecarV, Result<Seq<char>, ProvErrV>) {
    let hs = heads_of(d.heads, e);
    if hs.len() >= 2 {
        (d, Err(ProvErrV::Forked(e, hs.len())))
    } else {
        let prev = linear_parent(hs);
        let row = new_prov_row(prev, e, table, op, actor, ts, before, transf);
        if log_has_hash(d.log, row.hash) {
            (d, Err(ProvErrV::Duplicate(row.hash)))
        } else {
            let heads1 = if prev.len() > 0 {
                heads_without(d.heads, e, prev)
            } else {
                d.heads
            };
            (SidecarV { log: d.log.push(row), heads: heads_with(heads1, e, row.hash), ..d }, Ok(row.hash))
        }
    }
}

/// Outcome of a fork append from ancestor `from` on `d` with timestamp `ts`.
pub open spec fn append_fork(
    d: SidecarV,
    e: Seq<char>,
    table: Seq<char>,
    op: Seq<char>,
    actor: Seq<char>,
    before: Option<Seq<char>>,
    transf: Option<Seq<char>>,
    from: Seq<char>,
    ts: Seq<char>,
) -> (SidecarV, Result<Seq<char>, ProvErrV>) {
    if !log_has_entry(d.log, e, from) {
        (d, Err(ProvErrV::UnknownAncestor(e, from)))
    } else {
        let row = new_prov_row(from, e, table, op, actor, ts, before, transf);
        if log_has_hash(d.log, row.hash) {
            (d, Err(ProvErrV::Duplicate(row.hash)))
        } else {
            (SidecarV { log: d.log.push(row), heads: heads_with(d.heads, e, row.hash), ..d }, Ok(row.hash))
        }
    }
}

// ---------------------------------------------------------------------------
// Store
// ---------------------------------------------------------------------------

/// A JSON-family sidecar store bound to a file path and on-disk format.
pub struct JsonStore {
    path: String,
    format: JsonFormat,
    data: SidecarData,
}

impl JsonStore {
    /// The abstract contents.
    pub closed spec fn spec_data(&self) -> SidecarV {
        self.data@
    }

    /// The file path the store is bound to.
    pub closed spec fn spec_path(&self) -> Seq<char> {
        self.path@
    }

    /// The on-disk format the store is bound to.
    pub closed spec fn spec_format(&self) -> JsonFormat {
        self.format
    }

    /// A store over already-decoded contents.
    pub fn from_data(path: String, format: JsonFormat, data: SidecarData) -> (r: Self)
        ensures
            r.spec_data() == data@,
            r.spec_path() == path@,
            r.spec_format() == format,
    {
        JsonStore { path, format, data }
    }

    /// Borrow the underlying data (read-only).
    pub fn data(&self) -> (r: &SidecarData)
        ensures
            r@ == self.spec_data(),
    {
        &self.data
    }

    /// The file path the store is bound to.
    pub fn path(&self) -> (r: &str)
        ensures
            r@ == self.spec_path(),
    {
        self.path.as_str()
    }

    /// The on-disk format the store is bound to.
    pub fn format(&self) -> (r: JsonFormat)
        ensures
            r == self.spec_format(),
    {
        self.format
    }

    /// Current branch-tip hashes for `entity_id`.
    pub fn head_set(&self, entity_id: &str) -> (r: Vec<String>)
        ensures
            strings_view(r@) == heads_of(self.spec_data().heads, entity_id@),
    {
        self.data.head_set(entity_id)
    }

    /// Verify every branch of `entity_id`'s chain (see
    /// [`SidecarData::verify_chain`]).
    pub fn verify_chain(&self, entity_id: &str) -> (r: bool)
        ensures
            r == chain_verifies(self.spec_data(), entity_id@),
    {
        self.data.verify_chain(entity_id)
    }

    /// Every fork point in `entity_id`'s history, ordered by predecessor.
    pub fn fork_points(&self, entity_id: &str) -> (r: Vec<ForkPoint>)
        ensures
            fork_points_of(self.spec_data().log, entity_id@, forks_view(r@)),
    {
        self.data.fork_points(entity_id)
    }

    /// Current snapshot of `(entity_id, table_name)`, if any.
    pub fn read_current(&self, entity_id: &str, table_name: &str) -> (r: Option<String>)
        ensures
            opt_string_view(r) == current_snapshot(
                self.spec_data().temporal,
                entity_id@,
                table_name@,
            ),
    {
        self.data.read_current(entity_id, table_name)
    }

    /// Snapshot of `(entity_id, table_name)` as it stood at instant `at`
    /// (see [`SidecarData::read_at`]).
    pub fn read_at(&self, entity_id: &str, table_name: &str, at: (i64, u32)) -> (r: Option<String>)
        ensures
            opt_string_view(r) == snapshot_at(
                self.spec_data().temporal,
                entity_id@,
                table_name@,
                at,
            ),
    {
        self.data.read_at(entity_id, table_name, at)
    }

    /// Record `(entity_id, hash)` as a head (no-op when already present).
    fn add_head(&mut self, entity_id: &str, hash: &str)
        ensures
            final(self).spec_data() == (SidecarV {
                heads: heads_with(old(self).spec_data().heads, entity_id@, hash@),
                ..old(self).spec_data()
            }),
            final(self).spec_path() == old(self).spec_path(),
            final(self).spec_format() == old(self).spec_format(),
    {
        if !self.data.has_head_exec(entity_id, hash) {
            let ghost old_heads = self.data.provenance_chain_heads@;
            self.data.provenance_chain_heads.push(
                ChainHead { entity_id: entity_id.to_owned(), head_hash: hash.to_owned() },
            );
            assert(heads_view(self.data.provenance_chain_heads@) =~= heads_view(old_heads).push(
                HeadV { entity_id: entity_id@, head_hash: hash@ },
            ));
        }
        assert(self.spec_data() =~= (SidecarV {
            heads: heads_with(old(self).spec_data().heads, entity_id@, hash@),
            ..old(self).spec_data()
        }));
    }

    /// Remove every `(entity_id, hash)` head.
    fn remove_head(&mut self, entity_id: &str, hash: &str)
        ensures
            final(self).spec_data() == (SidecarV {
                heads: heads_without(old(self).spec_data().heads, entity_id@, hash@),
                ..old(self).spec_data()
            }),
            final(self).spec_path() == old(self).spec_path(),
            final(self).spec_format() == old(self).spec_format(),
    {
        let mut kept: Vec<ChainHead> = Vec::new();
        let n = self.data.provenance_chain_heads.len();
        let ghost hv = heads_view(self.data.provenance_chain_heads@);
        for i in 0..n
            invariant
                n == self.data.provenance_chain_heads@.len(),
                hv == heads_view(self.data.provenance_chain_heads@),
                self.data == old(self).data,
                heads_view(kept@) == heads_without(hv.take(i as int), entity_id@, hash@),
        {
            assert(hv.take(i + 1).drop_last() == hv.take(i as int));
            let h = &self.data.provenance_chain_heads[i];
            if !(str_eq(h.entity_id.as_str(), entity_id) && str_eq(h.head_hash.as_str(), hash)) {
                let ghost before = kept@;
                kept.push(h.copy());
                assert(heads_view(kept@) =~= heads_view(before).push(hv[i as int]));
            }
        }
        assert(hv.take(n as int) == hv);
        self.data.provenance_chain_heads = kept;
        assert(self.spec_data() =~= (SidecarV {
            heads: heads_without(old(self).spec_data().heads, entity_id@, hash@),
            ..old(self).spec_data()
        }));
    }

    /// Compute the hash of a new entry, refuse an exact duplicate, and log it.
    fn insert_provenance(
        &mut self,
        prev_hash: &str,
        entity_id: &str,
        table_name: &str,
        operation: &str,
        actor: &str,
        before_snapshot: Option<&str>,
        transformation: Option<&str>,
        timestamp: &str,
    ) -> (r: Result<String, ProvenanceError>)
        ensures
            ({
                let row = new_prov_row(
                    prev_hash@,
                    entity_id@,
                    table_name@,
                    operation@,
                    actor@,
                    timestamp@,
                    opt_str_view(before_snapshot),
                    opt_str_view(transformation),
                );
                if log_has_hash(old(self).spec_data().log, row.hash) {
                    final(self).spec_data() == old(self).spec_data() && append_result_view(r) == Err::<
                        Seq<char>,
                        ProvErrV,
                    >(ProvErrV::Duplicate(row.hash))
                } else {
                    final(self).spec_data() == (SidecarV {
                        log: old(self).spec_data().log.push(row),
                        ..old(self).spec_data()
                    }) && append_result_view(r) == Ok::<Seq<char>, ProvErrV>(row.hash)
                }
            }),
            final(self).spec_path() == old(self).spec_path(),
            final(self).spec_format() == old(self).spec_format(),
    {
        let hash = ProvenanceEntry::compute_hash(
            prev_hash,
            entity_id,
            operation,
            actor,
            timestamp,
            before_snapshot,
            transformation,
        );
        if self.data.log_has_hash_exec(hash.as_str()) {
            return Err(ProvenanceError::Duplicate { hash });
        }
        let row = ProvenanceRow {
            hash: hash.clone(),
            previous_hash: prev_hash.to_owned(),
            entity_id: entity_id.to_owned(),
            table_name: table_name.to_owned(),
            operation: operation.to_owned(),
            actor: actor.to_owned(),
            timestamp: timestamp.to_owned(),
            before_snapshot: opt_to_owned(before_snapshot),
            transformation: opt_to_owned(transformation),
        };
        let ghost old_log = self.data.provenance_log@;
        self.data.provenance_log.push(row);
        assert(log_view(self.data.provenance_log@) =~= log_view(old_log).push(
            new_prov_row(
                prev_hash@,
                entity_id@,
                table_name@,
                operation@,
                actor@,
                timestamp@,
                opt_str_view(before_snapshot),
                opt_str_view(transformation),
            ),
        ));
        assert(self.spec_data() =~= (SidecarV {
            log: old(self).spec_data().log.push(
                new_prov_row(
                    prev_hash@,
                    entity_id@,
                    table_name@,
                    operation@,
                    actor@,
                    timestamp@,
                    opt_str_view(before_snapshot),
                    opt_str_view(transformation),
                ),
            ),
            ..old(self).spec_data()
        }));
        Ok(hash)
    }

    /// Append a provenance entry stamped `timestamp` on the entity's single
    /// current tip (genesis if it has none). A forked entity (two or more
    /// heads) is ambiguous and refused. Returns the new entry's hash.
    pub fn append_provenance_at(
        &mut self,
        entity_id: &str,
        table_name: &str,
        operation: &str,
        actor: &str,
        before_snapshot: Option<&str>,
        transformation: Option<&str>,
        timestamp: &str,
    ) -> (r: Result<String, ProvenanceError>)
        ensures
            (final(self).spec_data(), append_result_view(r)) == append_linear(
                old(self).spec_data(),
                entity_id@,
                table_name@,
                operation@,
                actor@,
                opt_str_view(before_snapshot),
                opt_str_view(transformation),
                timestamp@,
            ),
            final(self).spec_path() == old(self).spec_path(),
            final(self).spec_format() == old(self).spec_format(),
    {
        let heads = self.data.head_set(entity_id);
        let prev_hash = match linear_parent_of(entity_id, &heads) {
            Err(e) => {
                return Err(e);
            },
            Ok(p) => p,
        };
        assert(prev_hash@ == linear_parent(heads_of(old(self).spec_data().heads, entity_id@)));
        let r = self.insert_provenance(
            prev_hash.as_str(),
            entity_id,
            table_name,
            operation,
            actor,
            before_snapshot,
            transformation,
            timestamp,
        );
        match r {
            Err(e) => Err(e),
            Ok(hash) => {
                match retired_tip_of(prev_hash.as_str()) {
                    Some(p) => self.remove_head(entity_id, p.as_str()),
                    None => {},
                }
                self.add_head(entity_id, hash.as_str());
                Ok(hash)
            },
        }
    }

    /// Append a provenance entry stamped with the current time on the
    /// entity's single tip (see [`JsonStore::append_provenance_at`]).
    pub fn append_provenance(
        &mut self,
        entity_id: &str,
        table_name: &str,
        operation: &str,
        actor: &str,
        before_snapshot: Option<&str>,
        transformation: Option<&str>,
    ) -> (r: Result<String, ProvenanceError>)
        ensures
            exists|ts: Seq<char>|
                is_rfc3339(ts) && is_canonical_timestamp(ts) && (final(self).spec_data(), append_result_view(r)) == append_linear(
                    old(self).spec_data(),
                    entity_id@,
                    table_name@,
                    operation@,
                    actor@,
                    opt_str_view(before_snapshot),
                    opt_str_view(transformation),
                    ts,
                ),
            final(self).spec_path() == old(self).spec_path(),
            final(self).spec_format() == old(self).spec_format(),
    {
        let ts = now_rfc3339();
        self.append_provenance_at(
            entity_id,
            table_name,
            operation,
            actor,
            before_snapshot,
            transformation,
            ts.as_str(),
        )
    }

    /// Deliberately fork: extend `entity_id` from the ancestor `from_hash`
    /// (which must be an entry of its chain) rather than from its tip. The
    /// new entry becomes an additional head; no head is removed.
    pub fn append_provenance_fork_at(
        &mut self,
        entity_id: &str,
        table_name: &str,
        operation: &str,
        actor: &str,
        before_snapshot: Option<&str>,
        transformation: Option<&str>,
        from_hash: &str,
        timestamp: &str,
    ) -> (r: Result<String, ProvenanceError>)
        ensures
            (final(self).spec_data(), append_result_view(r)) == append_fork(
                old(self).spec_data(),
                entity_id@,
                table_name@,
                operation@,
                actor@,
                opt_str_view(before_snapshot),
                opt_str_view(transformation),
                from_hash@,
                timestamp@,
            ),
            final(self).spec_path() == old(self).spec_path(),
            final(self).spec_format() == old(self).spec_format(),
    {
        if !self.data.log_has_entry_exec(entity_id, from_hash) {
            return Err(
                ProvenanceError::UnknownAncestor {
                    entity_id: entity_id.to_owned(),
                    from_hash: from_hash.to_owned(),
                },
            );
        }
        let r = self.insert_provenance(
            from_hash,
            entity_id,
            table_name,
            operation,
            actor,
            before_snapshot,
            transformation,
            timestamp,
        );
        match r {
            Err(e) => Err(e),
            Ok(hash) => {
                self.add_head(entity_id, hash.as_str());
                Ok(hash)
            },
        }
    }

    /// Fork from `from_hash`, stamped with the current time (see
    /// [`JsonStore::append_provenance_fork_at`]).
    pub fn append_provenance_fork(
        &mut self,
        entity_id: &str,
        table_name: &str,
        operation: &str,
        actor: &str,
        before_snapshot: Option<&str>,
        transformation: Option<&str>,
        from_hash: &str,
    ) -> (r: Result<String, ProvenanceError>)
        ensures
            exists|ts: Seq<char>|
                is_rfc3339(ts) && is_canonical_timestamp(ts) && (final(self).spec_data(), append_result_view(r)) == append_fork(
                    old(self).spec_data(),
                    entity_id@,
                    table_name@,
                    operation@,
                    actor@,
                    opt_str_view(before_snapshot),
                    opt_str_view(transformation),
                    from_hash@,
                    ts,
                ),
            final(self).spec_path() == old(self).spec_path(),
            final(self).spec_format() == old(self).spec_format(),
    {
        let ts = now_rfc3339();
        self.append_provenance_fork_at(
            entity_id,
            table_name,
            operation,
            actor,
            before_snapshot,
            transformation,
            from_hash,
            ts.as_str(),
        )
    }
}

/// Why a rollback was refused.
#[derive(Debug, Clone, PartialEq, Eq)]
pub enum TemporalError {
    /// No row of `(entity_id, table_name)` has this version.
    NoSuchVersion { entity_id: String, table_name: String, version: u64 },
}

/// Text of a missing-version error.
pub open spec fn no_such_version_message(e: Seq<char>, t: Seq<char>, v: u64) -> Seq<char> {
    "no version "@ + decimal(v as nat) + " for ("@ + spec_debug_str(e) + ", "@ + spec_debug_str(t)
        + ")"@
}

impl TemporalError {
    /// Human-readable text of the error.
    pub fn message(&self) -> (r: String)
        ensures
            match self {
                TemporalError::NoSuchVersion { entity_id, table_name, version } => r@
                    == no_such_version_message(entity_id@, table_name@, *version),
            },
    {
        match self {
            TemporalError::NoSuchVersion { entity_id, table_name, version } => {
                let mut buf: Vec<char> = Vec::new();
                push_str(&mut buf, "no version ");
                push_u64(&mut buf, *version);
                push_str(&mut buf, " for (");
                let de = debug_str(entity_id.as_str());
                push_str(&mut buf, de.as_str());
                push_str(&mut buf, ", ");
                let dt = debug_str(table_name.as_str());
                push_str(&mut buf, dt.as_str());
                push_str(&mut buf, ")");
                proof {
                    reveal_strlit("no version ");
                    reveal_strlit(" for (");
                    reveal_strlit(", ");
                    reveal_strlit(")");
                }
                assert(buf@ =~= no_such_version_message(entity_id@, table_name@, *version));
                string_from_chars(&buf)
            },
        }
    }
}

impl JsonStore {

    /// Append a new version of `(entity_id, table_name)` stamped `now`:
    /// the previous current row is closed (its `valid_to` set to `now`)
    /// before the new row is inserted, so exactly one version stays
    /// current. Returns the assigned version, one past the highest so far.
    pub fn append_temporal_version_at(
        &mut self,
        entity_id: &str,
        table_name: &str,
        snapshot: &str,
        operation: &str,
        now: &str,
    ) -> (r: u64)
        requires
            max_version(old(self).spec_data().temporal, entity_id@, table_name@) < u64::MAX,
        ensures
            (final(self).spec_data(), r as nat) == append_version(
                old(self).spec_data(),
                entity_id@,
                table_name@,
                snapshot@,
                operation@,
                now@,
            ),
            final(self).spec_path() == old(self).spec_path(),
            final(self).spec_format() == old(self).spec_format(),
    {
        let next = self.data.max_version_exec(entity_id, table_name) + 1;
        let ghost tv = self.spec_data().temporal;
        let ghost closed = close_current(tv, entity_id@, table_name@, now@);
        let n = self.data.temporal_versions.len();
        let mut rows: Vec<TemporalRow> = Vec::new();
        for i in 0..n
            invariant
                n == self.data.temporal_versions@.len(),
                tv == temporal_view(self.data.temporal_versions@),
                closed == close_current(tv, entity_id@, table_name@, now@),
                rows@.len() == i,
                forall|k: int| 0 <= k < i ==> (#[trigger] rows@[k])@ == closed[k],
        {
            let row = &self.data.temporal_versions[i];
            assert(tv[i as int] == row@);
            let mut c = row.copy();
            if str_eq(row.entity_id.as_str(), entity_id) && str_eq(
                row.table_name.as_str(),
                table_name,
            ) && row.valid_to.is_none() {
                c.valid_to = Some(now.to_owned());
            }
            rows.push(c);
        }
        rows.push(
            TemporalRow {
                entity_id: entity_id.to_owned(),
                table_name: table_name.to_owned(),
                version: next,
                valid_from: now.to_owned(),
                valid_to: None,
                snapshot: snapshot.to_owned(),
                operation: operation.to_owned(),
            },
        );
        self.data.temporal_versions = rows;
        assert(self.spec_data() =~= append_version(
            old(self).spec_data(),
            entity_id@,
            table_name@,
            snapshot@,
            operation@,
            now@,
        ).0);
        next
    }

    /// Append a new version stamped with the current time (see
    /// [`JsonStore::append_temporal_version_at`]).
    pub fn append_temporal_version(
        &mut self,
        entity_id: &str,
        table_name: &str,
        snapshot: &str,
        operation: &str,
    ) -> (r: u64)
        requires
            max_version(old(self).spec_data().temporal, entity_id@, table_name@) < u64::MAX,
        ensures
            exists|now: Seq<char>|
                is_canonical_timestamp(now) && (final(self).spec_data(), r as nat)
                    == append_version(
                    old(self).spec_data(),
                    entity_id@,
                    table_name@,
                    snapshot@,
                    operation@,
                    now,
                ),
            final(self).spec_path() == old(self).spec_path(),
            final(self).spec_format() == old(self).spec_format(),
    {
        let now = now_rfc3339();
        self.append_temporal_version_at(entity_id, table_name, snapshot, operation, now.as_str())
    }

    /// Roll `(entity_id, table_name)` back to `target_version`, stamped
    /// `now`, by appending that version's snapshot as a new `rollback`
    /// version (the history is kept). Refused when the target version does
    /// not exist.
    pub fn rollback_to_at(
        &mut self,
        entity_id: &str,
        table_name: &str,
        target_version: u64,
        now: &str,
    ) -> (r: Result<u64, TemporalError>)
        requires
            max_version(old(self).spec_data().temporal, entity_id@, table_name@) < u64::MAX,
        ensures
            match version_snapshot(
                old(self).spec_data().temporal,
                entity_id@,
                table_name@,
                target_version,
            ) {
                None => final(self).spec_data() == old(self).spec_data() && (r matches Err(
                    TemporalError::NoSuchVersion { entity_id: re, table_name: rt, version: rv },
                ) && re@ == entity_id@ && rt@ == table_name@ && rv == target_version),
                Some(snap) => r is Ok && (final(self).spec_data(), r->Ok_0 as nat)
                    == append_version(
                    old(self).spec_data(),
                    entity_id@,
                    table_name@,
                    snap,
                    "rollback"@,
                    now@,
                ),
            },
            final(self).spec_path() == old(self).spec_path(),
            final(self).spec_format() == old(self).spec_format(),
    {
        match self.data.version_snapshot_exec(entity_id, table_name, target_version) {
            None => Err(
                TemporalError::NoSuchVersion {
                    entity_id: entity_id.to_owned(),
                    table_name: table_name.to_owned(),
                    version: target_version,
                },
            ),
            Some(snap) => Ok(
                self.append_temporal_version_at(
                    entity_id,
                    table_name,
                    snap.as_str(),
                    "rollback",
                    now,
                ),
            ),
        }
    }
}

/// Whether `ts` parses and is strictly before the cutoff `(secs, nanos)`.
fn ts_older_than(ts: &str, cutoff: (i128, u32)) -> (r: bool)
    ensures
        r == older_than(ts@, (cutoff.0 as int, cutoff.1 as int)),
{
    match parse_rfc3339(ts) {
        Some(x) => {
            let secs = x.0 as i128;
            secs < cutoff.0 || (secs == cutoff.0 && x.1 < cutoff.1)
        },
        None => false,
    }
}

/// The instant `days` days before `now`, computed without overflow.
fn cutoff_exec(now: (i64, u32), days: u32) -> (r: (i128, u32))
    ensures
        (r.0 as int, r.1 as int) == cutoff_of(now, days),
{
    (now.0 as i128 - days as i128 * 86400i128, now.1)
}

impl JsonStore {
    fn purge_provenance(&mut self, days: u32, now: (i64, u32), dry_run: bool) -> (r: usize)
        ensures
            r == count_where(old(self).spec_data().log, prov_purge(days, now)),
            final(self).spec_data() == (if dry_run {
                old(self).spec_data()
            } else {
                SidecarV {
                    log: keep_where(old(self).spec_data().log, prov_purge(days, now)),
                    ..old(self).spec_data()
                }
            }),
            final(self).spec_path() == old(self).spec_path(),
            final(self).spec_format() == old(self).spec_format(),
    {
        let cut = cutoff_exec(now, days);
        let ghost pred = prov_purge(days, now);
        let ghost lv = self.spec_data().log;
        let n = self.data.provenance_log.len();
        let mut kept: Vec<ProvenanceRow> = Vec::new();
        let mut c: usize = 0;
        for i in 0..n
            invariant
                n == self.data.provenance_log@.len(),
                lv == log_view(self.data.provenance_log@),
                self.data == old(self).data,
                pred == prov_purge(days, now),
                (cut.0 as int, cut.1 as int) == cutoff_of(now, days),
                log_view(kept@) == keep_where(lv.take(i as int), pred),
                c == count_where(lv.take(i as int), pred),
                c <= i,
        {
            assert(lv.take(i + 1).drop_last() == lv.take(i as int));
            let row = &self.data.provenance_log[i];
            assert(lv[i as int] == row@);
            if days > 0 && ts_older_than(row.timestamp.as_str(), cut) {
                c += 1;
            } else {
                let ghost before = kept@;
                kept.push(row.copy());
                assert(log_view(kept@) =~= log_view(before).push(lv[i as int]));
            }
        }
        assert(lv.take(n as int) == lv);
        if !dry_run {
            self.data.provenance_log = kept;
            assert(self.spec_data() =~= SidecarV {
                log: keep_where(old(self).spec_data().log, prov_purge(days, now)),
                ..old(self).spec_data()
            });
        }
        c
    }

    fn purge_temporal(&mut self, days: u32, now: (i64, u32), dry_run: bool) -> (r: usize)
        ensures
            r == count_where(old(self).spec_data().temporal, temp_purge(days, now)),
            final(self).spec_data() == (if dry_run {
                old(self).spec_data()
            } else {
                SidecarV {
                    temporal: keep_where(old(self).spec_data().temporal, temp_purge(days, now)),
                    ..old(self).spec_data()
                }
            }),
            final(self).spec_path() == old(self).spec_path(),
            final(self).spec_format() == old(self).spec_format(),
    {
        let cut = cutoff_exec(now, days);
        let ghost pred = temp_purge(days, now);
        let ghost tv = self.spec_data().temporal;
        let n = self.data.temporal_versions.len();
        let mut kept: Vec<TemporalRow> = Vec::new();
        let mut c: usize = 0;
        for i in 0..n
            invariant
                n == self.data.temporal_versions@.len(),
                tv == temporal_view(self.data.temporal_versions@),
                self.data == old(self).data,
                pred == temp_purge(days, now),
                (cut.0 as int, cut.1 as int) == cutoff_of(now, days),
                temporal_view(kept@) == keep_where(tv.take(i as int), pred),
                c == count_where(tv.take(i as int), pred),
                c <= i,
        {
            assert(tv.take(i + 1).drop_last() == tv.take(i as int));
            let row = &self.data.temporal_versions[i];
            assert(tv[i as int] == row@);
            if days > 0 && row.valid_to.is_some() && ts_older_than(row.valid_from.as_str(), cut) {
                c += 1;
            } else {
                let ghost before = kept@;
                kept.push(row.copy());
                assert(temporal_view(kept@) =~= temporal_view(before).push(tv[i as int]));
            }
        }
        assert(tv.take(n as int) == tv);
        if !dry_run {
            self.data.temporal_versions = kept;
            assert(self.spec_data() =~= SidecarV {
                temporal: keep_where(old(self).spec_data().temporal, temp_purge(days, now)),
                ..old(self).spec_data()
            });
        }
        c
    }

    fn purge_lineage(&mut self, days: u32, now: (i64, u32), dry_run: bool) -> (r: usize)
        ensures
            r == count_where(old(self).spec_data().lineage, lineage_purge(days, now)),
            final(self).spec_data() == (if dry_run {
                old(self).spec_data()
            } else {
                SidecarV {
                    lineage: keep_where(old(self).spec_data().lineage, lineage_purge(days, now)),
                    ..old(self).spec_data()
                }
            }),
            final(self).spec_path() == old(self).spec_path(),
            final(self).spec_format() == old(self).spec_format(),
    {
        let cut = cutoff_exec(now, days);
        let ghost pred = lineage_purge(days, now);
        let ghost gv = self.spec_data().lineage;
        let n = self.data.lineage_graph.len();
        let mut kept: Vec<LineageRow> = Vec::new();
        let mut c: usize = 0;
        for i in 0..n
            invariant
                n == self.data.lineage_graph@.len(),
                gv == lineage_view(self.data.lineage_graph@),
                self.data == old(self).data,
                pred == lineage_purge(days, now),
                (cut.0 as int, cut.1 as int) == cutoff_of(now, days),
                lineage_view(kept@) == keep_where(gv.take(i as int), pred),
                c == count_where(gv.take(i as int), pred),
                c <= i,
        {
            assert(gv.take(i + 1).drop_last() == gv.take(i as int));
            let row = &self.data.lineage_graph[i];
            assert(gv[i as int] == row@);
            if days > 0 && ts_older_than(row.created_at.as_str(), cut) {
                c += 1;
            } else {
                let ghost before = kept@;
                kept.push(row.copy());
                assert(lineage_view(kept@) =~= lineage_view(before).push(gv[i as int]));
            }
        }
        assert(gv.take(n as int) == gv);
        if !dry_run {
            self.data.lineage_graph = kept;
            assert(self.spec_data() =~= SidecarV {
                lineage: keep_where(old(self).spec_data().lineage, lineage_purge(days, now)),
                ..old(self).spec_data()
            });
        }
        c
    }

    /// Purge rows older than the retention bounds as of `now`. A bound of
    /// `0` days keeps that table forever. Only superseded temporal versions
    /// (with `valid_to`) are eligible: the current version is always kept.
    /// A dry run counts without changing anything. Returns the counts.
    pub fn gc_purge_at(&mut self, retention: &RetentionConfig, dry_run: bool, now: (i64, u32)) -> (r:
        GcCounts)
        ensures
            r.provenance == count_where(
                old(self).spec_data().log,
                prov_purge(retention.provenance_days, now),
            ),
            r.temporal == count_where(
                old(self).spec_data().temporal,
                temp_purge(retention.temporal_days, now),
            ),
            r.lineage == count_where(
                old(self).spec_data().lineage,
                lineage_purge(retention.lineage_days, now),
            ),
            final(self).spec_data() == purged(
                old(self).spec_data(),
                retention.provenance_days,
                retention.temporal_days,
                retention.lineage_days,
                now,
                dry_run,
            ),
            final(self).spec_path() == old(self).spec_path(),
            final(self).spec_format() == old(self).spec_format(),
    {
        let provenance = self.purge_provenance(retention.provenance_days, now, dry_run);
        let temporal = self.purge_temporal(retention.temporal_days, now, dry_run);
        let lineage = self.purge_lineage(retention.lineage_days, now, dry_run);
        assert(self.spec_data() =~= purged(
            old(self).spec_data(),
            retention.provenance_days,
            retention.temporal_days,
            retention.lineage_days,
            now,
            dry_run,
        ));
        GcCounts { provenance, temporal, lineage }
    }

    /// Entities that have at least one temporal version, de-duplicated and
    /// sorted (see [`SidecarData::distinct_temporal_entities`]).
    pub fn distinct_temporal_entities(&self) -> (r: Vec<String>)
        ensures
            strictly_sorted(views_of(r@)),
            forall|x: Seq<char>|
                #![trigger views_of(r@).to_set().contains(x)]
                #![trigger entity_before(self.spec_data().temporal, x, self.spec_data().temporal.len() as int)]
                views_of(r@).to_set().contains(x) <==> entity_before(
                    self.spec_data().temporal,
                    x,
                    self.spec_data().temporal.len() as int,
                ),
    {
        self.data.distinct_temporal_entities()
    }

    /// Roll back to `target_version`, stamped with the current time (see
    /// [`JsonStore::rollback_to_at`]).
    pub fn rollback_to(&mut self, entity_id: &str, table_name: &str, target_version: u64) -> (r:
        Result<u64, TemporalError>)
        requires
            max_version(old(self).spec_data().temporal, entity_id@, table_name@) < u64::MAX,
        ensures
            match version_snapshot(
                old(self).spec_data().temporal,
                entity_id@,
                table_name@,
                target_version,
            ) {
                None => final(self).spec_data() == old(self).spec_data() && (r matches Err(
                    TemporalError::NoSuchVersion { entity_id: re, table_name: rt, version: rv },
                ) && re@ == entity_id@ && rt@ == table_name@ && rv == target_version),
                Some(snap) => r is Ok && exists|now: Seq<char>|
                    is_canonical_timestamp(now) && (final(self).spec_data(), r->Ok_0 as nat)
                        == append_version(
                        old(self).spec_data(),
                        entity_id@,
                        table_name@,
                        snap,
                        "rollback"@,
                        now,
                    ),
            },
            final(self).spec_path() == old(self).spec_path(),
            final(self).spec_format() == old(self).spec_format(),
    {
        let now = now_rfc3339();
        self.rollback_to_at(entity_id, table_name, target_version, now.as_str())
    }

    /// Purge as of the current time (see [`JsonStore::gc_purge_at`]).
    pub fn gc_purge(&mut self, retention: &RetentionConfig, dry_run: bool) -> (r: GcCounts)
        ensures
            exists|now: (i64, u32)|
                r.provenance == count_where(
                    old(self).spec_data().log,
                    prov_purge(retention.provenance_days, now),
                ) && r.temporal == count_where(
                    old(self).spec_data().temporal,
                    temp_purge(retention.temporal_days, now),
                ) && r.lineage == count_where(
                    old(self).spec_data().lineage,
                    lineage_purge(retention.lineage_days, now),
                ) && final(self).spec_data() == purged(
                    old(self).spec_data(),
                    retention.provenance_days,
                    retention.temporal_days,
                    retention.lineage_days,
                    now,
                    dry_run,
                ),
            final(self).spec_path() == old(self).spec_path(),
            final(self).spec_format() == old(self).spec_format(),
    {
        let now = now();
        self.gc_purge_at(retention, dry_run, now)
    }
}

/// Own an optional borrowed string.
pub fn opt_to_owned(o: Option<&str>) -> (r: Option<String>)
    ensures
        opt_string_view(r) == opt_str_view(o),
{
    match o {
        None => None,
        Some(s) => Some(s.to_owned()),
    }
}

} // verus!
