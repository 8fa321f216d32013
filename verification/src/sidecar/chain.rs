//! Provenance-chain queries over the sidecar model: branch tips, chain
//! verification (every branch walked back to a genesis entry, each entry
//! recomputing to its stored hash) and fork points. They serve the JSON
//! store and any backend that can load its rows into a [`SidecarData`].

use vstd::prelude::*;

use crate::abi::{opt_as_str, provenance_hash, ProvenanceEntry};
use crate::clock::{canonical_timestamp, spec_canonical_timestamp};
use crate::order::{insert_sorted_unique, seq_lt, strictly_sorted, views_of};
use crate::sidecar::json::{
    has_head, heads_of, heads_view, log_has_entry, log_has_hash, log_view, strings_view, ProvRowV,
    SidecarData, SidecarV,
};
use crate::tier1::provenance::ForkPoint;
use crate::text::str_eq;

verus! {
/// Index of the last row among the first `n` whose entity is `e` and whose
/// hash is `h` (the row a hash lookup finds); `-1` when there is none.
pub open spec fn last_index(log: Seq<ProvRowV>, e: Seq<char>, h: Seq<char>, n: int) -> int
    decreases n,
{
    if n <= 0 {
        -1
    } else if log[n - 1].entity_id == e && log[n - 1].hash == h {
        n - 1
    } else {
        last_index(log, e, h, n - 1)
    }
}

/// The entry with hash `h` in `e`'s chain, if any.
pub open spec fn lookup(log: Seq<ProvRowV>, e: Seq<char>, h: Seq<char>) -> int {
    last_index(log, e, h, log.len() as int)
}

/// The hash recomputed from a node's fields (its timestamp re-rendered as
/// chrono renders the instant it denotes) is `cursor`.
pub open spec fn node_ok(node: ProvRowV, e: Seq<char>, cursor: Seq<char>) -> bool {
    match spec_canonical_timestamp(node.timestamp) {
        Some(c) => provenance_hash(
            node.previous_hash,
            e,
            node.operation,
            node.actor,
            c,
            node.before_snapshot,
            node.transformation,
        ) == cursor,
        None => false,
    }
}

/// Walking back from `cursor` reaches a genesis entry within `fuel` steps,
/// every entry on the way recomputing to its hash.
pub open spec fn walk_ok(log: Seq<ProvRowV>, e: Seq<char>, cursor: Seq<char>, fuel: nat) -> bool
    decreases fuel,
{
    if fuel == 0 {
        false
    } else {
        let i = lookup(log, e, cursor);
        if i < 0 {
            false
        } else {
            let node = log[i];
            node_ok(node, e, cursor) && (node.previous_hash.len() == 0 || walk_ok(
                log,
                e,
                node.previous_hash,
                (fuel - 1) as nat,
            ))
        }
    }
}

/// Number of the first `n` rows that belong to entity `e`.
pub open spec fn entity_count(log: Seq<ProvRowV>, e: Seq<char>, n: int) -> nat
    decreases n,
{
    if n <= 0 {
        0
    } else {
        entity_count(log, e, n - 1) + if log[n - 1].entity_id == e {
            1nat
        } else {
            0nat
        }
    }
}

/// Row `i` is the entry a lookup of its hash finds.
pub open spec fn live_key(log: Seq<ProvRowV>, e: Seq<char>, i: int) -> bool {
    0 <= i < log.len() && log[i].entity_id == e && lookup(log, e, log[i].hash) == i
}

/// Some live entry of `e` chains from `h`.
pub open spec fn has_child(log: Seq<ProvRowV>, e: Seq<char>, h: Seq<char>) -> bool {
    h.len() > 0 && exists|j: int| live_key(log, e, j) && log[j].previous_hash == h
}

/// Every branch of `e`'s chain verifies: the walk from each recorded head
/// and from each entry nothing chains from reaches a genesis entry, every
/// entry recomputing to its hash. An entity with no entries verifies.
pub open spec fn chain_verifies(d: SidecarV, e: Seq<char>) -> bool {
    let n = entity_count(d.log, e, d.log.len() as int);
    n == 0 || ((forall|k: int|
        0 <= k < d.heads.len() && d.heads[k].entity_id == e ==> walk_ok(
            d.log,
            e,
            d.heads[k].head_hash,
            n,
        )) && (forall|i: int|
        live_key(d.log, e, i) && !has_child(d.log, e, d.log[i].hash) ==> walk_ok(
            d.log,
            e,
            d.log[i].hash,
            n,
        )))
}

/// Some of the first `n` rows of `e` has predecessor `p`.
pub open spec fn pred_before(log: Seq<ProvRowV>, e: Seq<char>, p: Seq<char>, n: int) -> bool {
    exists|k: int| 0 <= k < n && log[k].entity_id == e && log[k].previous_hash == p
}

proof fn lemma_pred_before_step(log: Seq<ProvRowV>, e: Seq<char>, p: Seq<char>, i: int)
    requires
        0 <= i < log.len(),
    ensures
        pred_before(log, e, p, i + 1) == (pred_before(log, e, p, i) || (log[i].entity_id == e
            && log[i].previous_hash == p)),
{
    if pred_before(log, e, p, i + 1) && !(log[i].entity_id == e && log[i].previous_hash == p) {
        let k = choose|k: int| 0 <= k < i + 1 && log[k].entity_id == e && log[k].previous_hash == p;
        assert(k != i);
    }
    if log[i].entity_id == e && log[i].previous_hash == p {
        assert(0 <= i < i + 1);
    }
}

/// Number of `e`'s entries whose predecessor is `p`.
pub open spec fn child_count(log: Seq<ProvRowV>, e: Seq<char>, p: Seq<char>, n: int) -> nat
    decreases n,
{
    if n <= 0 {
        0
    } else {
        child_count(log, e, p, n - 1) + if log[n - 1].entity_id == e && log[n - 1].previous_hash
            == p {
            1nat
        } else {
            0nat
        }
    }
}

/// Abstract fork point.
pub struct ForkV {
    pub predecessor: Seq<char>,
    pub children: nat,
}

/// Views of fork points.
pub open spec fn forks_view(v: Seq<ForkPoint>) -> Seq<ForkV> {
    v.map_values(|f: ForkPoint| ForkV { predecessor: f.predecessor@, children: f.children as nat })
}

/// `fs` lists exactly the predecessors with more than one child in `e`'s
/// log, each with its child count, in strictly increasing order.
pub open spec fn fork_points_of(log: Seq<ProvRowV>, e: Seq<char>, fs: Seq<ForkV>) -> bool {
    &&& forall|i: int, j: int| 0 <= i < j < fs.len() ==> seq_lt(fs[i].predecessor, fs[j].predecessor)
    &&& forall|i: int|
        0 <= i < fs.len() ==> fs[i].children == child_count(log, e, fs[i].predecessor, log.len() as int)
            && fs[i].children > 1
    &&& forall|p: Seq<char>|
        child_count(log, e, p, log.len() as int) > 1 ==> exists|i: int|
            0 <= i < fs.len() && fs[i].predecessor == p
}

/// The fork points among the first `j` candidate predecessors `pv`, in
/// their order.
pub open spec fn forks_in_prefix(pv: Seq<Seq<char>>, log: Seq<ProvRowV>, e: Seq<char>, j: int) -> Seq<ForkV>
    decreases j,
{
    if j <= 0 {
        Seq::empty()
    } else {
        let rest = forks_in_prefix(pv, log, e, j - 1);
        let c = child_count(log, e, pv[j - 1], log.len() as int);
        if c > 1 {
            rest.push(ForkV { predecessor: pv[j - 1], children: c })
        } else {
            rest
        }
    }
}

proof fn lemma_forks_in_prefix(pv: Seq<Seq<char>>, log: Seq<ProvRowV>, e: Seq<char>, j: int)
    requires
        strictly_sorted(pv),
        0 <= j <= pv.len(),
    ensures
        ({
            let fs = forks_in_prefix(pv, log, e, j);
            &&& forall|a: int|
                0 <= a < fs.len() ==> exists|b: int|
                    0 <= b < j && pv[b] == (#[trigger] fs[a]).predecessor
            &&& forall|i: int, k: int|
                0 <= i < k < fs.len() ==> seq_lt(fs[i].predecessor, fs[k].predecessor)
            &&& forall|i: int|
                0 <= i < fs.len() ==> fs[i].children == child_count(
                    log,
                    e,
                    fs[i].predecessor,
                    log.len() as int,
                ) && fs[i].children > 1
            &&& forall|b: int|
                0 <= b < j && child_count(log, e, #[trigger] pv[b], log.len() as int) > 1 ==> exists|
                    a: int,
                | 0 <= a < fs.len() && fs[a].predecessor == pv[b]
        }),
    decreases j,
{
    if j > 0 {
        lemma_forks_in_prefix(pv, log, e, j - 1);
        let rest = forks_in_prefix(pv, log, e, j - 1);
        let fs = forks_in_prefix(pv, log, e, j);
        let c = child_count(log, e, pv[j - 1], log.len() as int);
        if c > 1 {
            assert forall|a: int| 0 <= a < fs.len() implies exists|b: int|
                0 <= b < j && pv[b] == (#[trigger] fs[a]).predecessor by {
                if a < rest.len() {
                    assert(fs[a] == rest[a]);
                    let b = choose|b: int| 0 <= b < j - 1 && pv[b] == (#[trigger] rest[a]).predecessor;
                    assert(pv[b] == fs[a].predecessor);
                } else {
                    assert(pv[j - 1] == fs[a].predecessor);
                }
            }
            assert forall|i: int, k: int| 0 <= i < k < fs.len() implies seq_lt(
                fs[i].predecessor,
                fs[k].predecessor,
            ) by {
                assert(fs[i] == rest[i]);
                if k < rest.len() {
                    assert(fs[k] == rest[k]);
                } else {
                    let b = choose|b: int| 0 <= b < j - 1 && pv[b] == (#[trigger] rest[i]).predecessor;
                    assert(seq_lt(pv[b], pv[j - 1]));
                }
            }
            assert forall|b: int|
                0 <= b < j && child_count(log, e, #[trigger] pv[b], log.len() as int) > 1 implies exists|
                    a: int,
                | 0 <= a < fs.len() && fs[a].predecessor == pv[b] by {
                if b < j - 1 {
                    let a = choose|a: int| 0 <= a < rest.len() && rest[a].predecessor == pv[b];
                    assert(fs[a] == rest[a]);
                } else {
                    assert(fs[rest.len() as int].predecessor == pv[b]);
                }
            }
        } else {
            assert forall|a: int| 0 <= a < fs.len() implies exists|b: int|
                0 <= b < j && pv[b] == (#[trigger] fs[a]).predecessor by {
                let b = choose|b: int| 0 <= b < j - 1 && pv[b] == (#[trigger] rest[a]).predecessor;
                assert(pv[b] == fs[a].predecessor);
            }
        }
    }
}

proof fn lemma_child_count_positive(log: Seq<ProvRowV>, e: Seq<char>, p: Seq<char>, n: int)
    requires
        0 <= n <= log.len(),
        child_count(log, e, p, n) > 0,
    ensures
        exists|i: int| 0 <= i < n && log[i].entity_id == e && log[i].previous_hash == p,
    decreases n,
{
    if !(log[n - 1].entity_id == e && log[n - 1].previous_hash == p) {
        lemma_child_count_positive(log, e, p, n - 1);
    }
}

proof fn lemma_child_count_bound(log: Seq<ProvRowV>, e: Seq<char>, p: Seq<char>, n: int)
    requires
        0 <= n,
    ensures
        child_count(log, e, p, n) <= n,
    decreases n,
{
    if n > 0 {
        lemma_child_count_bound(log, e, p, n - 1);
    }
}

proof fn lemma_entity_count_bound(log: Seq<ProvRowV>, e: Seq<char>, n: int)
    requires
        0 <= n,
    ensures
        entity_count(log, e, n) <= n,
    decreases n,
{
    if n > 0 {
        lemma_entity_count_bound(log, e, n - 1);
    }
}

impl SidecarData {
    /// Current branch-tip hashes for `entity_id`.
    pub fn head_set(&self, entity_id: &str) -> (r: Vec<String>)
        ensures
            strings_view(r@) == heads_of(self@.heads, entity_id@),
    {
        let heads = &self.provenance_chain_heads;
        let mut r: Vec<String> = Vec::new();
        let n = heads.len();
        for i in 0..n
            invariant
                n == heads@.len(),
                heads_view(heads@) == self@.heads,
                strings_view(r@) == heads_of(heads_view(heads@).take(i as int), entity_id@),
        {
            let ghost hv = heads_view(heads@);
            assert(hv.take(i + 1).drop_last() == hv.take(i as int));
            if str_eq(heads[i].entity_id.as_str(), entity_id) {
                r.push(heads[i].head_hash.clone());
            }
            assert(strings_view(r@) == heads_of(hv.take(i + 1), entity_id@));
        }
        assert(heads_view(heads@).take(n as int) == heads_view(heads@));
        r
    }

    /// Whether `(entity_id, hash)` is a recorded head.
    pub(crate) fn has_head_exec(&self, entity_id: &str, hash: &str) -> (r: bool)
        ensures
            r == has_head(self@.heads, entity_id@, hash@),
    {
        let heads = &self.provenance_chain_heads;
        let n = heads.len();
        for i in 0..n
            invariant
                n == heads@.len(),
                heads_view(heads@) == self@.heads,
                forall|j: int|
                    0 <= j < i ==> !(heads@[j]@.entity_id == entity_id@ && heads@[j]@.head_hash
                        == hash@),
        {
            if str_eq(heads[i].entity_id.as_str(), entity_id) && str_eq(
                heads[i].head_hash.as_str(),
                hash,
            ) {
                assert(self@.heads[i as int] == heads@[i as int]@);
                return true;
            }
        }
        assert forall|j: int|
            0 <= j < self@.heads.len() implies !(self@.heads[j].entity_id
            == entity_id@ && self@.heads[j].head_hash == hash@) by {
            assert(self@.heads[j] == heads@[j]@);
        }
        false
    }

    /// Whether some log row has hash `hash`.
    pub(crate) fn log_has_hash_exec(&self, hash: &str) -> (r: bool)
        ensures
            r == log_has_hash(self@.log, hash@),
    {
        let log = &self.provenance_log;
        let n = log.len();
        for i in 0..n
            invariant
                n == log@.len(),
                log_view(log@) == self@.log,
                forall|j: int| 0 <= j < i ==> log@[j]@.hash != hash@,
        {
            if str_eq(log[i].hash.as_str(), hash) {
                assert(self@.log[i as int] == log@[i as int]@);
                return true;
            }
        }
        assert forall|j: int| 0 <= j < self@.log.len() implies self@.log[j].hash
            != hash@ by {
            assert(self@.log[j] == log@[j]@);
        }
        false
    }

    /// Whether some log row of `entity_id` has hash `hash`.
    pub(crate) fn log_has_entry_exec(&self, entity_id: &str, hash: &str) -> (r: bool)
        ensures
            r == log_has_entry(self@.log, entity_id@, hash@),
    {
        let log = &self.provenance_log;
        let n = log.len();
        for i in 0..n
            invariant
                n == log@.len(),
                log_view(log@) == self@.log,
                forall|j: int|
                    0 <= j < i ==> !(log@[j]@.entity_id == entity_id@ && log@[j]@.hash == hash@),
        {
            if str_eq(log[i].entity_id.as_str(), entity_id) && str_eq(log[i].hash.as_str(), hash) {
                assert(self@.log[i as int] == log@[i as int]@);
                return true;
            }
        }
        assert forall|j: int| 0 <= j < self@.log.len() implies !(
        self@.log[j].entity_id == entity_id@ && self@.log[j].hash == hash@) by {
            assert(self@.log[j] == log@[j]@);
        }
        false
    }

    /// Number of log rows of `entity_id`.
    pub(crate) fn entity_rows(&self, entity_id: &str) -> (r: usize)
        ensures
            r == entity_count(self@.log, entity_id@, self@.log.len() as int),
    {
        let log = &self.provenance_log;
        let n = log.len();
        let mut c: usize = 0;
        for i in 0..n
            invariant
                n == log@.len(),
                log_view(log@) == self@.log,
                c == entity_count(self@.log, entity_id@, i as int),
                c <= i,
        {
            if str_eq(log[i].entity_id.as_str(), entity_id) {
                c += 1;
            }
        }
        c
    }

    /// Index of the entry a lookup of `hash` in `entity_id`'s chain finds.
    pub(crate) fn lookup_exec(&self, entity_id: &str, hash: &str) -> (r: Option<usize>)
        ensures
            match r {
                Some(i) => i as int == lookup(self@.log, entity_id@, hash@) && i
                    < self@.log.len(),
                None => lookup(self@.log, entity_id@, hash@) < 0,
            },
    {
        let log = &self.provenance_log;
        let n = log.len();
        let mut k: usize = n;
        while k > 0
            invariant
                n == log@.len(),
                k <= n,
                log_view(log@) == self@.log,
                lookup(self@.log, entity_id@, hash@) == last_index(
                    self@.log,
                    entity_id@,
                    hash@,
                    k as int,
                ),
            decreases k,
        {
            if str_eq(log[k - 1].entity_id.as_str(), entity_id) && str_eq(
                log[k - 1].hash.as_str(),
                hash,
            ) {
                return Some(k - 1);
            }
            k -= 1;
        }
        None
    }

    /// Walk back from `cursor` for at most `fuel` entries.
    pub(crate) fn walk(&self, entity_id: &str, cursor: &str, fuel: usize) -> (r: bool)
        ensures
            r == walk_ok(self@.log, entity_id@, cursor@, fuel as nat),
    {
        let log = &self.provenance_log;
        let mut cur: String = cursor.to_owned();
        let mut f: usize = fuel;
        loop
            invariant
                log_view(log@) == self@.log,
                walk_ok(self@.log, entity_id@, cursor@, fuel as nat) == walk_ok(
                    self@.log,
                    entity_id@,
                    cur@,
                    f as nat,
                ),
            decreases f,
        {
            if f == 0 {
                return false;
            }
            let found = self.lookup_exec(entity_id, cur.as_str());
            match found {
                None => {
                    return false;
                },
                Some(i) => {
                    let node = &log[i];
                    assert(self@.log[i as int] == node@);
                    let canonical = match canonical_timestamp(node.timestamp.as_str()) {
                        None => {
                            return false;
                        },
                        Some(c) => c,
                    };
                    let recomputed = ProvenanceEntry::compute_hash(
                        node.previous_hash.as_str(),
                        entity_id,
                        node.operation.as_str(),
                        node.actor.as_str(),
                        canonical.as_str(),
                        opt_as_str(&node.before_snapshot),
                        opt_as_str(&node.transformation),
                    );
                    if recomputed != cur {
                        return false;
                    }
                    if node.previous_hash.as_str().is_empty() {
                        return true;
                    }
                    cur = node.previous_hash.clone();
                    f -= 1;
                },
            }
        }
    }

    /// Whether row `i` is live (the row a lookup of its hash finds).
    pub(crate) fn is_live(&self, entity_id: &str, i: usize) -> (r: bool)
        requires
            i < self@.log.len(),
        ensures
            r == live_key(self@.log, entity_id@, i as int),
    {
        let log = &self.provenance_log;
        assert(self@.log[i as int] == log@[i as int]@);
        if !str_eq(log[i].entity_id.as_str(), entity_id) {
            return false;
        }
        match self.lookup_exec(entity_id, log[i].hash.as_str()) {
            Some(j) => j == i,
            None => false,
        }
    }

    /// Whether some live entry of `entity_id` chains from `hash`.
    pub(crate) fn has_child_exec(&self, entity_id: &str, hash: &str) -> (r: bool)
        ensures
            r == has_child(self@.log, entity_id@, hash@),
    {
        if hash.is_empty() {
            return false;
        }
        let log = &self.provenance_log;
        let n = log.len();
        for j in 0..n
            invariant
                n == log@.len(),
                log_view(log@) == self@.log,
                hash@.len() > 0,
                forall|k: int|
                    0 <= k < j ==> !(live_key(self@.log, entity_id@, k)
                        && self@.log[k].previous_hash == hash@),
        {
            assert(self@.log[j as int] == log@[j as int]@);
            if self.is_live(entity_id, j) && str_eq(log[j].previous_hash.as_str(), hash) {
                assert(live_key(self@.log, entity_id@, j as int)
                    && self@.log[j as int].previous_hash == hash@);
                assert(hash@.len() > 0);
                assert(has_child(self@.log, entity_id@, hash@));
                return true;
            }
        }
        false
    }

    /// Verify every branch of `entity_id`'s chain (see [`chain_verifies`]): a
    /// forked entity is not a tampered one; each branch tip is walked back
    /// to a genesis entry and every entry must recompute to its stored hash
    /// and chain to a present predecessor.
    pub fn verify_chain(&self, entity_id: &str) -> (r: bool)
        ensures
            r == chain_verifies(self@, entity_id@),
    {
        let n = self.entity_rows(entity_id);
        if n == 0 {
            return true;
        }
        let ghost d = self@;
        let heads = &self.provenance_chain_heads;
        let hn = heads.len();
        for k in 0..hn
            invariant
                hn == heads@.len(),
                heads_view(heads@) == d.heads,
                d == self@,
                n > 0,
                n == entity_count(d.log, entity_id@, d.log.len() as int),
                forall|q: int|
                    0 <= q < k && d.heads[q].entity_id == entity_id@ ==> walk_ok(
                        d.log,
                        entity_id@,
                        d.heads[q].head_hash,
                        n as nat,
                    ),
        {
            assert(d.heads[k as int] == heads@[k as int]@);
            if str_eq(heads[k].entity_id.as_str(), entity_id) && !self.walk(
                entity_id,
                heads[k].head_hash.as_str(),
                n,
            ) {
                assert(!walk_ok(d.log, entity_id@, d.heads[k as int].head_hash, n as nat));
                assert(n > 0);
                assert(!chain_verifies(d, entity_id@));
                return false;
            }
        }
        let log = &self.provenance_log;
        let ln = log.len();
        for i in 0..ln
            invariant
                ln == log@.len(),
                log_view(log@) == d.log,
                d == self@,
                n > 0,
                n == entity_count(d.log, entity_id@, d.log.len() as int),
                forall|q: int|
                    0 <= q < d.heads.len() && d.heads[q].entity_id == entity_id@ ==> walk_ok(
                        d.log,
                        entity_id@,
                        d.heads[q].head_hash,
                        n as nat,
                    ),
                forall|q: int|
                    0 <= q < i && live_key(d.log, entity_id@, q) && !has_child(
                        d.log,
                        entity_id@,
                        d.log[q].hash,
                    ) ==> walk_ok(d.log, entity_id@, d.log[q].hash, n as nat),
        {
            assert(d.log[i as int] == log@[i as int]@);
            if self.is_live(entity_id, i) && !self.has_child_exec(entity_id, log[i].hash.as_str())
                && !self.walk(entity_id, log[i].hash.as_str(), n) {
                assert(live_key(d.log, entity_id@, i as int) && !has_child(
                    d.log,
                    entity_id@,
                    d.log[i as int].hash,
                ) && !walk_ok(d.log, entity_id@, d.log[i as int].hash, n as nat));
                assert(!chain_verifies(d, entity_id@));
                return false;
            }
        }
        true
    }

    /// The distinct predecessors of `entity_id`'s entries, sorted.
    pub(crate) fn distinct_predecessors(&self, entity_id: &str) -> (r: Vec<String>)
        ensures
            strictly_sorted(views_of(r@)),
            forall|p: Seq<char>|
                #![trigger views_of(r@).to_set().contains(p)]
                #![trigger pred_before(self@.log, entity_id@, p, self@.log.len() as int)]
                views_of(r@).to_set().contains(p) <==> pred_before(
                    self@.log,
                    entity_id@,
                    p,
                    self@.log.len() as int,
                ),
    {
        let log = &self.provenance_log;
        let ghost d = self@;
        let n = log.len();
        let mut preds: Vec<String> = Vec::new();
        for i in 0..n
            invariant
                n == log@.len(),
                log_view(log@) == d.log,
                strictly_sorted(views_of(preds@)),
                forall|p: Seq<char>|
                    #![trigger views_of(preds@).to_set().contains(p)]
                    #![trigger pred_before(d.log, entity_id@, p, i as int)]
                    views_of(preds@).to_set().contains(p) <==> pred_before(
                        d.log,
                        entity_id@,
                        p,
                        i as int,
                    ),
        {
            assert(d.log[i as int] == log@[i as int]@);
            let ghost before = views_of(preds@).to_set();
            if str_eq(log[i].entity_id.as_str(), entity_id) {
                insert_sorted_unique(&mut preds, log[i].previous_hash.clone());
            }
            assert forall|p: Seq<char>|
                #![trigger views_of(preds@).to_set().contains(p)]
                #![trigger pred_before(d.log, entity_id@, p, i + 1)]
                views_of(preds@).to_set().contains(p) <==> pred_before(
                    d.log,
                    entity_id@,
                    p,
                    i + 1,
                ) by {
                lemma_pred_before_step(d.log, entity_id@, p, i as int);
                assert(before.contains(p) == pred_before(d.log, entity_id@, p, i as int));
            }
        }
        preds
    }

    /// Number of `entity_id`'s entries whose predecessor is `pred`.
    pub(crate) fn child_count_exec(&self, entity_id: &str, pred: &str) -> (r: u64)
        ensures
            r == child_count(
                self@.log,
                entity_id@,
                pred@,
                self@.log.len() as int,
            ),
    {
        let log = &self.provenance_log;
        let ghost d = self@;
        let n = log.len();
        let mut c: u64 = 0;
        for i in 0..n
            invariant
                n == log@.len(),
                log_view(log@) == d.log,
                c == child_count(d.log, entity_id@, pred@, i as int),
                c <= i,
        {
            assert(d.log[i as int] == log@[i as int]@);
            if str_eq(log[i].entity_id.as_str(), entity_id) && str_eq(
                log[i].previous_hash.as_str(),
                pred,
            ) {
                c += 1;
            }
        }
        c
    }

    /// Every fork point in `entity_id`'s history (predecessors with more
    /// than one child), ordered by predecessor. Empty when the chain is
    /// linear.
    pub fn fork_points(&self, entity_id: &str) -> (r: Vec<ForkPoint>)
        ensures
            fork_points_of(self@.log, entity_id@, forks_view(r@)),
    {
        let ghost d = self@;
        let preds = self.distinct_predecessors(entity_id);
        let ghost pv = views_of(preds@);
        let mut r: Vec<ForkPoint> = Vec::new();
        let pn = preds.len();
        for j in 0..pn
            invariant
                pn == preds@.len(),
                pv == views_of(preds@),
                d == self@,
                forks_view(r@) == forks_in_prefix(pv, d.log, entity_id@, j as int),
        {
            let c = self.child_count_exec(entity_id, preds[j].as_str());
            let ghost old_r = forks_view(r@);
            if c > 1 {
                r.push(ForkPoint { predecessor: preds[j].clone(), children: c });
                assert(forks_view(r@) =~= old_r.push(
                    ForkV { predecessor: pv[j as int], children: c as nat },
                ));
            }
            assert(pv.take(j + 1).drop_last() == pv.take(j as int));
        }
        proof {
            assert(pv.take(pn as int) == pv);
            lemma_forks_in_prefix(pv, d.log, entity_id@, pn as int);
            let fs = forks_view(r@);
            assert forall|p: Seq<char>|
                child_count(d.log, entity_id@, p, d.log.len() as int) > 1 implies exists|i: int|
                0 <= i < fs.len() && fs[i].predecessor == p by {
                lemma_child_count_positive(d.log, entity_id@, p, d.log.len() as int);
                assert(pred_before(d.log, entity_id@, p, d.log.len() as int));
                assert(pv.to_set().contains(p));
                let b = choose|b: int| 0 <= b < pv.len() && pv[b] == p;
            }
        }
        r
    }
}

/// The entry at `k` of `e`'s log has predecessor `p`.
pub open spec fn child_at(log: Seq<ProvRowV>, e: Seq<char>, p: Seq<char>, k: int) -> bool {
    log[k].entity_id == e && log[k].previous_hash == p
}

proof fn lemma_child_count_witness(log: Seq<ProvRowV>, e: Seq<char>, p: Seq<char>, n: int)
    requires
        0 <= n <= log.len(),
    ensures
        child_count(log, e, p, n) > 0 <==> exists|i: int| 0 <= i < n && #[trigger] child_at(log, e, p, i),
        child_count(log, e, p, n) > 1 <==> exists|i: int, j: int|
            0 <= i < j < n && #[trigger] child_at(log, e, p, i) && #[trigger] child_at(log, e, p, j),
    decreases n,
{
    if n > 0 {
        lemma_child_count_witness(log, e, p, n - 1);
        if exists|i: int| 0 <= i < n && #[trigger] child_at(log, e, p, i) {
            let i = choose|i: int| 0 <= i < n && #[trigger] child_at(log, e, p, i);
            if i < n - 1 {
                assert(child_count(log, e, p, n - 1) > 0);
            }
        }
        if exists|i: int, j: int|
            0 <= i < j < n && #[trigger] child_at(log, e, p, i) && #[trigger] child_at(log, e, p, j) {
            let (i, j) = choose|i: int, j: int|
                0 <= i < j < n && #[trigger] child_at(log, e, p, i) && #[trigger] child_at(
                    log,
                    e,
                    p,
                    j,
                );
            if j < n - 1 {
                assert(child_count(log, e, p, n - 1) > 1);
            } else {
                assert(child_count(log, e, p, n - 1) > 0);
            }
        }
        if child_count(log, e, p, n) > 0 {
            if child_count(log, e, p, n - 1) > 0 {
                let i = choose|i: int| 0 <= i < n - 1 && #[trigger] child_at(log, e, p, i);
                assert(0 <= i < n && child_at(log, e, p, i));
            } else {
                assert(child_at(log, e, p, n - 1));
            }
        }
        if child_count(log, e, p, n) > 1 {
            if child_count(log, e, p, n - 1) > 1 {
                let (i, j) = choose|i: int, j: int|
                    0 <= i < j < n - 1 && #[trigger] child_at(log, e, p, i) && #[trigger] child_at(
                        log,
                        e,
                        p,
                        j,
                    );
                assert(0 <= i < j < n && child_at(log, e, p, i) && child_at(log, e, p, j));
            } else {
                let i = choose|i: int| 0 <= i < n - 1 && #[trigger] child_at(log, e, p, i);
                assert(child_at(log, e, p, n - 1));
                assert(0 <= i < n - 1 < n && child_at(log, e, p, i) && child_at(log, e, p, n - 1));
            }
        }
    }
}

/// An entity has no fork point exactly when no two of its entries share a
/// predecessor: a list of fork points (as [`SidecarData::fork_points`]
/// returns) is empty iff its history is linear.
pub proof fn law_no_fork_points_iff_linear(log: Seq<ProvRowV>, e: Seq<char>, fs: Seq<ForkV>)
    requires
        fork_points_of(log, e, fs),
    ensures
        fs.len() == 0 <==> forall|p: Seq<char>, i: int, j: int|
            0 <= i < j < log.len() && #[trigger] child_at(log, e, p, i) ==> !#[trigger] child_at(
                log,
                e,
                p,
                j,
            ),
{
    if fs.len() > 0 {
        let p = fs[0].predecessor;
        lemma_child_count_witness(log, e, p, log.len() as int);
        let (i, j) = choose|i: int, j: int|
            0 <= i < j < log.len() && #[trigger] child_at(log, e, p, i) && #[trigger] child_at(
                log,
                e,
                p,
                j,
            );
        assert(child_at(log, e, p, i) && child_at(log, e, p, j));
    } else {
        assert forall|p: Seq<char>, i: int, j: int|
            0 <= i < j < log.len() && #[trigger] child_at(log, e, p, i) implies !#[trigger] child_at(
            log,
            e,
            p,
            j,
        ) by {
            lemma_child_count_witness(log, e, p, log.len() as int);
            if child_at(log, e, p, j) {
                assert(child_count(log, e, p, log.len() as int) > 1);
            }
        }
    }
}

/// The stored hash of an entry is the provenance hash of its own fields,
/// its timestamp taken in chrono's canonical rendering.
pub open spec fn entry_recomputes(row: ProvRowV) -> bool {
    match spec_canonical_timestamp(row.timestamp) {
        Some(c) => row.hash == provenance_hash(
            row.previous_hash,
            row.entity_id,
            row.operation,
            row.actor,
            c,
            row.before_snapshot,
            row.transformation,
        ),
        None => false,
    }
}

/// Entry `j` is reached from entry `i` of `e`'s log by following `k`
/// predecessor links, each to the entry that a lookup of the (non-empty)
/// predecessor hash finds.
pub open spec fn reaches(log: Seq<ProvRowV>, e: Seq<char>, i: int, j: int, k: nat) -> bool
    decreases k,
{
    if k == 0 {
        i == j
    } else {
        0 <= i < log.len() && log[i].previous_hash.len() > 0 && reaches(
            log,
            e,
            lookup(log, e, log[i].previous_hash),
            j,
            (k - 1) as nat,
        )
    }
}

proof fn lemma_last_index_found(log: Seq<ProvRowV>, e: Seq<char>, h: Seq<char>, n: int)
    requires
        n <= log.len(),
    ensures
        last_index(log, e, h, n) >= 0 ==> last_index(log, e, h, n) < n && log[last_index(log, e, h, n)].entity_id == e
            && log[last_index(log, e, h, n)].hash == h,
    decreases n,
{
    if n > 0 {
        lemma_last_index_found(log, e, h, n - 1);
    }
}

proof fn lemma_walk_entries(log: Seq<ProvRowV>, e: Seq<char>, h: Seq<char>, f: nat, j: int, k: nat)
    requires
        walk_ok(log, e, h, f),
        reaches(log, e, lookup(log, e, h), j, k),
    ensures
        0 <= j < log.len(),
        log[j].entity_id == e,
        entry_recomputes(log[j]),
    decreases k,
{
    let i = lookup(log, e, h);
    lemma_last_index_found(log, e, h, log.len() as int);
    assert(f > 0 && i >= 0);
    assert(log[i].hash == h && log[i].entity_id == e);
    assert(entry_recomputes(log[i]));
    if k > 0 {
        lemma_walk_entries(log, e, log[i].previous_hash, (f - 1) as nat, j, (k - 1) as nat);
    }
}

proof fn lemma_entity_count_positive(log: Seq<ProvRowV>, e: Seq<char>, i: int, n: int)
    requires
        0 <= i < n <= log.len(),
        log[i].entity_id == e,
    ensures
        entity_count(log, e, n) > 0,
    decreases n,
{
    if i < n - 1 {
        lemma_entity_count_positive(log, e, i, n - 1);
    }
}

/// What a verified chain guarantees of its entries: when `e`'s chain
/// verifies, every entry reached by predecessor links from a recorded head
/// of `e` that names an entry, or from an entry of `e` that nothing chains
/// from, is an entry of `e` whose stored hash is the provenance hash of its
/// own fields. Genesis entries are included, so a chain whose reachable
/// entry has any field edited does not verify.
pub proof fn law_verified_chain_entries_recompute(d: SidecarV, e: Seq<char>, i: int, j: int, k: nat)
    requires
        chain_verifies(d, e),
        (exists|m: int|
            0 <= m < d.heads.len() && d.heads[m].entity_id == e && lookup(d.log, e, d.heads[m].head_hash)
                == i && 0 <= i) || (live_key(d.log, e, i) && !has_child(d.log, e, d.log[i].hash)),
        reaches(d.log, e, i, j, k),
    ensures
        0 <= j < d.log.len(),
        d.log[j].entity_id == e,
        entry_recomputes(d.log[j]),
{
    let n = entity_count(d.log, e, d.log.len() as int);
    if live_key(d.log, e, i) && !has_child(d.log, e, d.log[i].hash) {
        lemma_entity_count_positive(d.log, e, i, d.log.len() as int);
        assert(walk_ok(d.log, e, d.log[i].hash, n));
        lemma_walk_entries(d.log, e, d.log[i].hash, n, j, k);
    } else {
        let m = choose|m: int|
            0 <= m < d.heads.len() && d.heads[m].entity_id == e && lookup(d.log, e, d.heads[m].head_hash)
                == i && 0 <= i;
        let h = d.heads[m].head_hash;
        lemma_last_index_found(d.log, e, h, d.log.len() as int);
        lemma_entity_count_positive(d.log, e, i, d.log.len() as int);
        assert(walk_ok(d.log, e, h, n));
        lemma_walk_entries(d.log, e, h, n, j, k);
    }
}

} // verus!
