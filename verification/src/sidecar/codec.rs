//! The pieces of the JSON-family encodings that are this project's own
//! rules: the JSON-LD `@type` vocabulary and `@id` scheme, the reserved
//! `_meta` record, and which dimensions and tables a fresh scaffold holds.
//! Serialising rows to JSON text is done outside this library.

use vstd::prelude::*;

use crate::manifest::OctadConfig;
use crate::sidecar::json::{AccessPolicyRow, ChainHead, LineageRow, ProvenanceRow, TemporalRow};
use crate::text::{debug_str, push_str, push_u64, spec_debug_str, str_eq, string_from_chars, decimal};

verus! {

/// The JSON-LD vocabulary IRI.
pub const LD_VOCAB: &'static str = "https://verisimdb.org/ns#";

/// The reserved table name of the self-describing scaffold record, which
/// readers skip.
pub const META_TABLE: &'static str = "_meta";

/// The JSON-LD `@type` term of a `verisimdb_*` table (`Thing` for any
/// other name).
pub open spec fn ld_type_of(table: Seq<char>) -> Seq<char> {
    if table == "verisimdb_provenance_log"@ {
        "ProvenanceEntry"@
    } else if table == "verisimdb_provenance_chain_heads"@ {
        "ProvenanceChainHead"@
    } else if table == "verisimdb_temporal_versions"@ {
        "TemporalVersion"@
    } else if table == "verisimdb_lineage_graph"@ {
        "LineageEdge"@
    } else if table == "verisimdb_access_policies"@ {
        "AccessPolicy"@
    } else {
        "Thing"@
    }
}

/// Map a `verisimdb_*` table name to its JSON-LD `@type` term.
pub fn ld_type_for(table: &str) -> (r: &'static str)
    ensures
        r@ == ld_type_of(table@),
{
    if str_eq(table, "verisimdb_provenance_log") {
        "ProvenanceEntry"
    } else if str_eq(table, "verisimdb_provenance_chain_heads") {
        "ProvenanceChainHead"
    } else if str_eq(table, "verisimdb_temporal_versions") {
        "TemporalVersion"
    } else if str_eq(table, "verisimdb_lineage_graph") {
        "LineageEdge"
    } else if str_eq(table, "verisimdb_access_policies") {
        "AccessPolicy"
    } else {
        "Thing"
    }
}

/// A separator of an IRI's local name.
pub open spec fn is_iri_sep(c: char) -> bool {
    c == '#' || c == ':'
}

/// The part of `s` after its last `#` or `:` (all of `s` when it has
/// none).
pub open spec fn local_name(s: Seq<char>) -> Seq<char>
    decreases s.len(),
{
    if s.len() == 0 {
        s
    } else if is_iri_sep(s.last()) {
        Seq::empty()
    } else {
        local_name(s.drop_last()).push(s.last())
    }
}

/// The table of a JSON-LD `@type` (given as a bare term or an IRI ending
/// in one): `Ok(None)` for the reserved `Meta` type, an error for an
/// unknown one.
pub open spec fn table_of_ld_type(ld_type: Seq<char>) -> Result<Option<Seq<char>>, Seq<char>> {
    let term = local_name(ld_type);
    if term == "ProvenanceEntry"@ {
        Ok(Some("verisimdb_provenance_log"@))
    } else if term == "ProvenanceChainHead"@ {
        Ok(Some("verisimdb_provenance_chain_heads"@))
    } else if term == "TemporalVersion"@ {
        Ok(Some("verisimdb_temporal_versions"@))
    } else if term == "LineageEdge"@ {
        Ok(Some("verisimdb_lineage_graph"@))
    } else if term == "AccessPolicy"@ {
        Ok(Some("verisimdb_access_policies"@))
    } else if term == "Meta"@ {
        Ok(None)
    } else {
        Err("unknown JSON-LD @type "@ + spec_debug_str(term) + " in sidecar @graph"@)
    }
}

/// View of a lookup result.
pub open spec fn table_result_view(r: Result<Option<&'static str>, String>) -> Result<
    Option<Seq<char>>,
    Seq<char>,
> {
    match r {
        Ok(Some(t)) => Ok(Some(t@)),
        Ok(None) => Ok(None),
        Err(e) => Err(e@),
    }
}

/// Inverse of [`ld_type_for`], tolerant of a vocabulary IRI prefix;
/// `Ok(None)` for the reserved `Meta` type (skipped on read).
pub fn table_for_ld_type(ld_type: &str) -> (r: Result<Option<&'static str>, String>)
    ensures
        table_result_view(r) == table_of_ld_type(ld_type@),
{
    let chars = crate::text::chars_of(ld_type);
    let n = chars.len();
    let mut start: usize = n;
    assert(ld_type@.take(n as int) =~= ld_type@);
    assert(ld_type@.skip(n as int) =~= Seq::<char>::empty());
    assert(local_name(ld_type@) + Seq::<char>::empty() =~= local_name(ld_type@));
    while start > 0 && !(chars[start - 1] == '#' || chars[start - 1] == ':')
        invariant
            start <= n,
            n == chars@.len(),
            chars@ == ld_type@,
            local_name(ld_type@) == local_name(ld_type@.take(start as int)) + ld_type@.skip(
                start as int,
            ),
        decreases start,
    {
        proof {
            let t = ld_type@.take(start as int);
            assert(t.drop_last() == ld_type@.take(start - 1));
            assert(t.last() == ld_type@[start - 1]);
            assert(ld_type@.skip(start - 1) =~= seq![ld_type@[start - 1]] + ld_type@.skip(
                start as int,
            ));
            assert(local_name(t) == local_name(ld_type@.take(start - 1)).push(ld_type@[start - 1]));
            assert(local_name(ld_type@.take(start - 1)).push(ld_type@[start - 1]) + ld_type@.skip(
                start as int,
            ) =~= local_name(ld_type@.take(start - 1)) + ld_type@.skip(start - 1));
        }
        start -= 1;
    }
    proof {
        if start > 0 {
            assert(ld_type@.take(start as int).last() == ld_type@[start - 1]);
        }
        assert(local_name(ld_type@.take(start as int)).len() == 0);
        assert(local_name(ld_type@) =~= ld_type@.skip(start as int));
    }
    let mut term_chars: Vec<char> = Vec::new();
    let mut i: usize = start;
    while i < n
        invariant
            start <= i <= n,
            n == chars@.len(),
            chars@ == ld_type@,
            term_chars@ == ld_type@.subrange(start as int, i as int),
        decreases n - i,
    {
        term_chars.push(chars[i]);
        i += 1;
    }
    assert(term_chars@ =~= local_name(ld_type@));
    let term = string_from_chars(&term_chars);
    let t = term.as_str();
    if str_eq(t, "ProvenanceEntry") {
        Ok(Some("verisimdb_provenance_log"))
    } else if str_eq(t, "ProvenanceChainHead") {
        Ok(Some("verisimdb_provenance_chain_heads"))
    } else if str_eq(t, "TemporalVersion") {
        Ok(Some("verisimdb_temporal_versions"))
    } else if str_eq(t, "LineageEdge") {
        Ok(Some("verisimdb_lineage_graph"))
    } else if str_eq(t, "AccessPolicy") {
        Ok(Some("verisimdb_access_policies"))
    } else if str_eq(t, "Meta") {
        Ok(None)
    } else {
        let q = debug_str(t);
        let mut buf: Vec<char> = Vec::new();
        push_str(&mut buf, "unknown JSON-LD @type ");
        push_str(&mut buf, q.as_str());
        push_str(&mut buf, " in sidecar @graph");
        Err(string_from_chars(&buf))
    }
}

impl ProvenanceRow {
    /// The JSON-LD `@id` of the row.
    pub fn ld_id(&self) -> (r: String)
        ensures
            r@ == "urn:verisimdb:provenance:"@ + self.hash@,
    {
        let mut b: Vec<char> = Vec::new();
        push_str(&mut b, "urn:verisimdb:provenance:");
        push_str(&mut b, self.hash.as_str());
        string_from_chars(&b)
    }
}

impl ChainHead {
    /// The JSON-LD `@id` of the row.
    pub fn ld_id(&self) -> (r: String)
        ensures
            r@ == "urn:verisimdb:chain-head:"@ + self.entity_id@ + ":"@ + self.head_hash@,
    {
        let mut b: Vec<char> = Vec::new();
        push_str(&mut b, "urn:verisimdb:chain-head:");
        push_str(&mut b, self.entity_id.as_str());
        push_str(&mut b, ":");
        push_str(&mut b, self.head_hash.as_str());
        string_from_chars(&b)
    }
}

impl TemporalRow {
    /// The JSON-LD `@id` of the row.
    pub fn ld_id(&self) -> (r: String)
        ensures
            r@ == "urn:verisimdb:temporal:"@ + self.entity_id@ + ":"@ + self.table_name@ + ":"@
                + decimal(self.version as nat),
    {
        let mut b: Vec<char> = Vec::new();
        push_str(&mut b, "urn:verisimdb:temporal:");
        push_str(&mut b, self.entity_id.as_str());
        push_str(&mut b, ":");
        push_str(&mut b, self.table_name.as_str());
        push_str(&mut b, ":");
        push_u64(&mut b, self.version);
        string_from_chars(&b)
    }
}

impl LineageRow {
    /// The JSON-LD `@id` of the row.
    pub fn ld_id(&self) -> (r: String)
        ensures
            r@ == "urn:verisimdb:lineage:"@ + self.edge_id@,
    {
        let mut b: Vec<char> = Vec::new();
        push_str(&mut b, "urn:verisimdb:lineage:");
        push_str(&mut b, self.edge_id.as_str());
        string_from_chars(&b)
    }
}

impl AccessPolicyRow {
    /// The JSON-LD `@id` of the row.
    pub fn ld_id(&self) -> (r: String)
        ensures
            r@ == "urn:verisimdb:access:"@ + self.policy_id@,
    {
        let mut b: Vec<char> = Vec::new();
        push_str(&mut b, "urn:verisimdb:access:");
        push_str(&mut b, self.policy_id.as_str());
        string_from_chars(&b)
    }
}

/// The dimensions a scaffold declares: data and metadata, then each
/// enabled optional dimension in a fixed order.
pub open spec fn scaffold_dimension_names(o: OctadConfig) -> Seq<&'static str> {
    seq!["data", "metadata"] + (if o.enable_provenance {
        seq!["provenance"]
    } else {
        Seq::empty()
    }) + (if o.enable_lineage {
        seq!["lineage"]
    } else {
        Seq::empty()
    }) + (if o.enable_temporal {
        seq!["temporal"]
    } else {
        Seq::empty()
    }) + (if o.enable_access_control {
        seq!["access_control"]
    } else {
        Seq::empty()
    }) + (if o.enable_constraints {
        seq!["constraints"]
    } else {
        Seq::empty()
    }) + (if o.enable_simulation {
        seq!["simulation"]
    } else {
        Seq::empty()
    })
}

/// The dimensions a scaffold for `octad` declares.
pub fn scaffold_dimensions(octad: &OctadConfig) -> (r: Vec<&'static str>)
    ensures
        r@ == scaffold_dimension_names(*octad),
{
    let mut dims: Vec<&'static str> = Vec::new();
    dims.push("data");
    dims.push("metadata");
    if octad.enable_provenance {
        dims.push("provenance");
    }
    if octad.enable_lineage {
        dims.push("lineage");
    }
    if octad.enable_temporal {
        dims.push("temporal");
    }
    if octad.enable_access_control {
        dims.push("access_control");
    }
    if octad.enable_constraints {
        dims.push("constraints");
    }
    if octad.enable_simulation {
        dims.push("simulation");
    }
    assert(dims@ =~= scaffold_dimension_names(*octad));
    dims
}

/// The (empty) tables a plain-JSON scaffold holds for the enabled
/// dimensions that have runtime tables.
pub open spec fn scaffold_table_names(o: OctadConfig) -> Seq<&'static str> {
    (if o.enable_provenance {
        seq!["verisimdb_provenance_log", "verisimdb_provenance_chain_heads"]
    } else {
        Seq::empty()
    }) + (if o.enable_temporal {
        seq!["verisimdb_temporal_versions"]
    } else {
        Seq::empty()
    }) + (if o.enable_lineage {
        seq!["verisimdb_lineage_graph"]
    } else {
        Seq::empty()
    }) + (if o.enable_access_control {
        seq!["verisimdb_access_policies"]
    } else {
        Seq::empty()
    })
}

/// The tables a scaffold for `octad` holds.
pub fn scaffold_tables(octad: &OctadConfig) -> (r: Vec<&'static str>)
    ensures
        r@ == scaffold_table_names(*octad),
{
    let mut t: Vec<&'static str> = Vec::new();
    if octad.enable_provenance {
        t.push("verisimdb_provenance_log");
        t.push("verisimdb_provenance_chain_heads");
    }
    if octad.enable_temporal {
        t.push("verisimdb_temporal_versions");
    }
    if octad.enable_lineage {
        t.push("verisimdb_lineage_graph");
    }
    if octad.enable_access_control {
        t.push("verisimdb_access_policies");
    }
    assert(t@ =~= scaffold_table_names(*octad));
    t
}

} // verus!
