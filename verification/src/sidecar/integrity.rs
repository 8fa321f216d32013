//! Laws of the provenance log kept by [`JsonStore`](super::json::JsonStore):
//! what every append keeps, and why a log built by appends verifies.

use vstd::prelude::*;

use crate::clock::is_canonical_timestamp;
use crate::sidecar::chain::{
    chain_verifies, entity_count, has_child, last_index, live_key, lookup, node_ok, walk_ok,
};
use crate::sidecar::json::{
    append_fork, append_linear, has_head, heads_of, heads_with, heads_without, linear_parent,
    log_has_entry, log_has_hash, new_prov_row, HeadV, ProvRowV, SidecarV,
};

verus! {

/// The provenance log is well formed: hashes are unique, every entry
/// recomputes to its hash, every non-genesis entry chains to an earlier
/// entry of the same entity, and every recorded head is an entry.
pub open spec fn chain_wf(d: SidecarV) -> bool {
    &&& forall|i: int, j: int|
        0 <= i < j < d.log.len() ==> (#[trigger] d.log[i]).hash != (#[trigger] d.log[j]).hash
    &&& forall|i: int|
        0 <= i < d.log.len() ==> node_ok(
            #[trigger] d.log[i],
            d.log[i].entity_id,
            d.log[i].hash,
        )
    &&& forall|i: int|
        0 <= i < d.log.len() && (#[trigger] d.log[i]).previous_hash.len() > 0 ==> exists|j: int|
            0 <= j < i && d.log[j].entity_id == d.log[i].entity_id && (#[trigger] d.log[j]).hash
                == d.log[i].previous_hash
    &&& forall|k: int|
        0 <= k < d.heads.len() ==> log_has_entry(
            d.log,
            (#[trigger] d.heads[k]).entity_id,
            d.heads[k].head_hash,
        )
}

/// `x` is one of `base`.
pub open spec fn head_in(base: Seq<HeadV>, x: HeadV) -> bool {
    exists|j: int| 0 <= j < base.len() && base[j] == x
}

/// Every entry of `sub` is one of `base`.
pub open spec fn heads_sub(sub: Seq<HeadV>, base: Seq<HeadV>) -> bool {
    forall|k: int| 0 <= k < sub.len() ==> head_in(base, #[trigger] sub[k])
}

proof fn lemma_last_index_unique(log: Seq<ProvRowV>, e: Seq<char>, i: int, n: int)
    requires
        0 <= i < n <= log.len(),
        log[i].entity_id == e,
        forall|a: int, b: int|
            0 <= a < b < log.len() ==> (#[trigger] log[a]).hash != (#[trigger] log[b]).hash,
    ensures
        last_index(log, e, log[i].hash, n) == i,
    decreases n,
{
    if n - 1 != i {
        assert(log[n - 1].hash != log[i].hash);
        lemma_last_index_unique(log, e, i, n - 1);
    }
}

proof fn lemma_entity_count_monotone(log: Seq<ProvRowV>, e: Seq<char>, a: int, b: int)
    requires
        0 <= a <= b,
    ensures
        entity_count(log, e, a) <= entity_count(log, e, b),
    decreases b,
{
    if a < b {
        lemma_entity_count_monotone(log, e, a, b - 1);
    }
}

proof fn lemma_walk_from_entry(d: SidecarV, e: Seq<char>, i: int, fuel: nat)
    requires
        chain_wf(d),
        0 <= i < d.log.len(),
        d.log[i].entity_id == e,
        fuel >= entity_count(d.log, e, i + 1),
    ensures
        walk_ok(d.log, e, d.log[i].hash, fuel),
    decreases i,
{
    let log = d.log;
    lemma_last_index_unique(log, e, i, log.len() as int);
    assert(lookup(log, e, log[i].hash) == i);
    assert(node_ok(log[i], log[i].entity_id, log[i].hash));
    if log[i].previous_hash.len() > 0 {
        let j = choose|j: int|
            0 <= j < i && log[j].entity_id == log[i].entity_id && (#[trigger] log[j]).hash
                == log[i].previous_hash;
        lemma_entity_count_monotone(log, e, j + 1, i);
        lemma_walk_from_entry(d, e, j, (fuel - 1) as nat);
    }
}

/// A well-formed log verifies for every entity: each branch, walked back
/// from its head or from any entry, reaches a genesis entry with every
/// entry recomputing to its stored hash.
pub proof fn law_wf_log_verifies(d: SidecarV, e: Seq<char>)
    requires
        chain_wf(d),
    ensures
        chain_verifies(d, e),
{
    let n = entity_count(d.log, e, d.log.len() as int);
    assert forall|k: int| 0 <= k < d.heads.len() && d.heads[k].entity_id == e implies walk_ok(
        d.log,
        e,
        d.heads[k].head_hash,
        n,
    ) by {
        assert(log_has_entry(d.log, d.heads[k].entity_id, d.heads[k].head_hash));
        let i = choose|i: int|
            0 <= i < d.log.len() && d.log[i].entity_id == e && d.log[i].hash
                == d.heads[k].head_hash;
        lemma_entity_count_monotone(d.log, e, i + 1, d.log.len() as int);
        lemma_walk_from_entry(d, e, i, n);
    }
    assert forall|i: int|
        live_key(d.log, e, i) && !has_child(d.log, e, d.log[i].hash) implies walk_ok(
        d.log,
        e,
        d.log[i].hash,
        n,
    ) by {
        lemma_entity_count_monotone(d.log, e, i + 1, d.log.len() as int);
        lemma_walk_from_entry(d, e, i, n);
    }
}

/// The empty sidecar is well formed.
pub proof fn law_empty_log_wf(d: SidecarV)
    requires
        d.log.len() == 0,
        d.heads.len() == 0,
    ensures
        chain_wf(d),
{
}

proof fn lemma_heads_of_member(heads: Seq<HeadV>, e: Seq<char>, h: Seq<char>)
    requires
        heads_of(heads, e).contains(h),
    ensures
        has_head(heads, e, h),
    decreases heads.len(),
{
    if heads.len() > 0 {
        let rest = heads_of(heads.drop_last(), e);
        if heads.last().entity_id == e && heads.last().head_hash == h {
            assert(heads[heads.len() - 1].entity_id == e);
        } else {
            if heads.last().entity_id == e {
                assert(rest.push(heads.last().head_hash).contains(h));
                let k = choose|k: int|
                    0 <= k < rest.push(heads.last().head_hash).len() && rest.push(
                        heads.last().head_hash,
                    )[k] == h;
                assert(k < rest.len());
                assert(rest[k] == h);
            }
            assert(rest.contains(h));
            lemma_heads_of_member(heads.drop_last(), e, h);
            let k = choose|k: int|
                0 <= k < heads.drop_last().len() && heads.drop_last()[k].entity_id == e
                    && heads.drop_last()[k].head_hash == h;
            assert(heads[k] == heads.drop_last()[k]);
        }
    }
}

proof fn lemma_heads_without_subset(heads: Seq<HeadV>, e: Seq<char>, h: Seq<char>, k: int)
    requires
        0 <= k < heads_without(heads, e, h).len(),
    ensures
        head_in(heads, heads_without(heads, e, h)[k]),
    decreases heads.len(),
{
    if heads.len() > 0 {
        let rest = heads_without(heads.drop_last(), e, h);
        if heads.last().entity_id == e && heads.last().head_hash == h {
            lemma_heads_without_subset(heads.drop_last(), e, h, k);
            let j = choose|j: int|
                0 <= j < heads.drop_last().len() && heads.drop_last()[j] == rest[k];
            assert(heads[j] == heads.drop_last()[j]);
        } else if k < rest.len() {
            lemma_heads_without_subset(heads.drop_last(), e, h, k);
            let j = choose|j: int|
                0 <= j < heads.drop_last().len() && heads.drop_last()[j] == rest[k];
            assert(heads[j] == heads.drop_last()[j]);
            assert(heads_without(heads, e, h)[k] == rest[k]);
        } else {
            assert(heads_without(heads, e, h)[k] == heads[heads.len() - 1]);
        }
    }
}

/// The heads after recording `(e, h)` over a subset of well-formed heads,
/// where `h` is a new entry of `e`, are all entries.
proof fn lemma_heads_entries(
    old_log: Seq<ProvRowV>,
    new_log: Seq<ProvRowV>,
    base: Seq<HeadV>,
    sub: Seq<HeadV>,
    e: Seq<char>,
    h: Seq<char>,
)
    requires
        new_log.len() == old_log.len() + 1,
        forall|i: int| 0 <= i < old_log.len() ==> new_log[i] == old_log[i],
        new_log.last().entity_id == e,
        new_log.last().hash == h,
        forall|k: int|
            0 <= k < base.len() ==> log_has_entry(
                old_log,
                (#[trigger] base[k]).entity_id,
                base[k].head_hash,
            ),
        heads_sub(sub, base),
    ensures
        forall|k: int|
            0 <= k < heads_with(sub, e, h).len() ==> log_has_entry(
                new_log,
                (#[trigger] heads_with(sub, e, h)[k]).entity_id,
                heads_with(sub, e, h)[k].head_hash,
            ),
{
    let hw = heads_with(sub, e, h);
    assert forall|k: int| 0 <= k < hw.len() implies log_has_entry(
        new_log,
        (#[trigger] hw[k]).entity_id,
        hw[k].head_hash,
    ) by {
        if k < sub.len() {
            assert(hw[k] == sub[k]);
            assert(head_in(base, sub[k]));
            let j = choose|j: int| 0 <= j < base.len() && base[j] == sub[k];
            assert(log_has_entry(old_log, base[j].entity_id, base[j].head_hash));
            let i = choose|i: int|
                0 <= i < old_log.len() && old_log[i].entity_id == base[j].entity_id
                    && old_log[i].hash == base[j].head_hash;
            assert(new_log[i] == old_log[i]);
        } else {
            assert(new_log[new_log.len() - 1].entity_id == e);
        }
    }
}

/// Shared step: pushing a fresh entry whose parent (if any) is an entry of
/// the same entity keeps the log well formed.
proof fn lemma_push_entry_wf(d: SidecarV, row: ProvRowV, new_heads: Seq<HeadV>)
    requires
        chain_wf(d),
        !log_has_hash(d.log, row.hash),
        node_ok(row, row.entity_id, row.hash),
        row.previous_hash.len() > 0 ==> log_has_entry(d.log, row.entity_id, row.previous_hash),
        forall|k: int|
            0 <= k < new_heads.len() ==> log_has_entry(
                d.log.push(row),
                (#[trigger] new_heads[k]).entity_id,
                new_heads[k].head_hash,
            ),
    ensures
        chain_wf(SidecarV { log: d.log.push(row), heads: new_heads, ..d }),
{
    let nd = SidecarV { log: d.log.push(row), heads: new_heads, ..d };
    let n = d.log.len();
    assert forall|i: int, j: int| 0 <= i < j < nd.log.len() implies (#[trigger] nd.log[i]).hash
        != (#[trigger] nd.log[j]).hash by {
        if j == n {
            assert(nd.log[i] == d.log[i]);
            if d.log[i].hash == row.hash {
                assert(log_has_hash(d.log, row.hash));
            }
        } else {
            assert(nd.log[i] == d.log[i]);
            assert(nd.log[j] == d.log[j]);
        }
    }
    assert forall|i: int| 0 <= i < nd.log.len() implies node_ok(
        #[trigger] nd.log[i],
        nd.log[i].entity_id,
        nd.log[i].hash,
    ) by {
        if i < n {
            assert(nd.log[i] == d.log[i]);
        }
    }
    assert forall|i: int|
        0 <= i < nd.log.len() && (#[trigger] nd.log[i]).previous_hash.len() > 0 implies exists|
        j: int,
    |
        0 <= j < i && nd.log[j].entity_id == nd.log[i].entity_id && (#[trigger] nd.log[j]).hash
            == nd.log[i].previous_hash by {
        if i < n {
            assert(nd.log[i] == d.log[i]);
            let j = choose|j: int|
                0 <= j < i && d.log[j].entity_id == d.log[i].entity_id && (#[trigger] d.log[j]).hash
                    == d.log[i].previous_hash;
            assert(nd.log[j] == d.log[j]);
        } else {
            let j = choose|j: int|
                0 <= j < d.log.len() && d.log[j].entity_id == row.entity_id && d.log[j].hash
                    == row.previous_hash;
            assert(nd.log[j] == d.log[j]);
        }
    }
}

proof fn lemma_subset_refl(heads: Seq<HeadV>)
    ensures
        heads_sub(heads, heads),
{
    assert forall|k: int| 0 <= k < heads.len() implies head_in(heads, #[trigger] heads[k]) by {
        assert(0 <= k < heads.len() && heads[k] == heads[k]);
    }
}

/// A linear append keeps the log well formed (its timestamp in canonical
/// form, as the current time always is).
pub proof fn law_append_keeps_wf(
    d: SidecarV,
    e: Seq<char>,
    table: Seq<char>,
    op: Seq<char>,
    actor: Seq<char>,
    before: Option<Seq<char>>,
    transf: Option<Seq<char>>,
    ts: Seq<char>,
)
    requires
        chain_wf(d),
        is_canonical_timestamp(ts),
    ensures
        chain_wf(append_linear(d, e, table, op, actor, before, transf, ts).0),
{
    let hs = heads_of(d.heads, e);
    if hs.len() < 2 {
        let prev = linear_parent(hs);
        let row = new_prov_row(prev, e, table, op, actor, ts, before, transf);
        if !log_has_hash(d.log, row.hash) {
            if prev.len() > 0 {
                assert(hs.contains(prev)) by {
                    assert(hs[0] == prev);
                }
                lemma_heads_of_member(d.heads, e, prev);
                let k = choose|k: int|
                    0 <= k < d.heads.len() && d.heads[k].entity_id == e && d.heads[k].head_hash
                        == prev;
                assert(log_has_entry(d.log, d.heads[k].entity_id, d.heads[k].head_hash));
            }
            let heads1 = if prev.len() > 0 {
                heads_without(d.heads, e, prev)
            } else {
                d.heads
            };
            assert forall|k: int| 0 <= k < heads1.len() implies head_in(d.heads, #[trigger] heads1[k]) by {
                if prev.len() > 0 {
                    lemma_heads_without_subset(d.heads, e, prev, k);
                } else {
                    assert(d.heads[k] == heads1[k]);
                }
            }
            lemma_heads_entries(d.log, d.log.push(row), d.heads, heads1, e, row.hash);
            lemma_push_entry_wf(d, row, heads_with(heads1, e, row.hash));
        }
    }
}

/// A fork append keeps the log well formed (its timestamp in canonical
/// form, as the current time always is).
pub proof fn law_fork_keeps_wf(
    d: SidecarV,
    e: Seq<char>,
    table: Seq<char>,
    op: Seq<char>,
    actor: Seq<char>,
    before: Option<Seq<char>>,
    transf: Option<Seq<char>>,
    from: Seq<char>,
    ts: Seq<char>,
)
    requires
        chain_wf(d),
        is_canonical_timestamp(ts),
    ensures
        chain_wf(append_fork(d, e, table, op, actor, before, transf, from, ts).0),
{
    if log_has_entry(d.log, e, from) {
        let row = new_prov_row(from, e, table, op, actor, ts, before, transf);
        if !log_has_hash(d.log, row.hash) {
            lemma_subset_refl(d.heads);
            lemma_heads_entries(d.log, d.log.push(row), d.heads, d.heads, e, row.hash);
            lemma_push_entry_wf(d, row, heads_with(d.heads, e, row.hash));
            assert(append_fork(d, e, table, op, actor, before, transf, from, ts).0 == SidecarV {
                log: d.log.push(row),
                heads: heads_with(d.heads, e, row.hash),
                ..d
            });
        }
    }
}

proof fn lemma_head_in_heads_of(heads: Seq<HeadV>, e: Seq<char>, h: Seq<char>)
    requires
        has_head(heads, e, h),
    ensures
        heads_of(heads, e).contains(h),
    decreases heads.len(),
{
    let k = choose|k: int| 0 <= k < heads.len() && heads[k].entity_id == e && heads[k].head_hash == h;
    let rest = heads_of(heads.drop_last(), e);
    if k == heads.len() - 1 {
        assert(heads_of(heads, e) == rest.push(h));
        assert(rest.push(h)[rest.len() as int] == h);
    } else {
        assert(heads.drop_last()[k] == heads[k]);
        lemma_head_in_heads_of(heads.drop_last(), e, h);
        let j = choose|j: int| 0 <= j < rest.len() && rest[j] == h;
        if heads.last().entity_id == e {
            assert(rest.push(heads.last().head_hash)[j] == h);
        }
    }
}

proof fn lemma_heads_of_without(heads: Seq<HeadV>, e: Seq<char>, p: Seq<char>, x: Seq<char>)
    requires
        heads_of(heads_without(heads, e, p), e).contains(x),
    ensures
        heads_of(heads, e).contains(x),
        x != p,
    decreases heads.len(),
{
    if heads.len() > 0 {
        let w = heads_without(heads.drop_last(), e, p);
        let rest = heads_of(heads.drop_last(), e);
        let last = heads.last();
        if last.entity_id == e && last.head_hash == p {
            lemma_heads_of_without(heads.drop_last(), e, p, x);
            let j = choose|j: int| 0 <= j < rest.len() && rest[j] == x;
            assert(rest.push(last.head_hash)[j] == x);
        } else {
            let hw = heads_of(w.push(last), e);
            assert(w.push(last).drop_last() == w);
            assert(w.push(last).last() == last);
            if last.entity_id == e && x == last.head_hash {
                assert(rest.push(last.head_hash)[rest.len() as int] == x);
            } else {
                if last.entity_id == e {
                    assert(hw == heads_of(w, e).push(last.head_hash));
                    let j = choose|j: int| 0 <= j < hw.len() && hw[j] == x;
                    assert(j < heads_of(w, e).len());
                    assert(heads_of(w, e)[j] == x);
                } else {
                    assert(hw == heads_of(w, e));
                }
                lemma_heads_of_without(heads.drop_last(), e, p, x);
                let j = choose|j: int| 0 <= j < rest.len() && rest[j] == x;
                if last.entity_id == e {
                    assert(rest.push(last.head_hash)[j] == x);
                }
            }
        }
    }
}

proof fn lemma_heads_of_push_other(heads: Seq<HeadV>, e: Seq<char>, h: Seq<char>)
    ensures
        heads_of(heads.push(HeadV { entity_id: e, head_hash: h }), e) == heads_of(heads, e).push(h),
{
    let pushed = heads.push(HeadV { entity_id: e, head_hash: h });
    assert(pushed.drop_last() == heads);
}

/// A linear append on an entity with at most one branch tip leaves it with
/// exactly one: the new entry.
pub proof fn law_linear_append_single_head(
    d: SidecarV,
    e: Seq<char>,
    table: Seq<char>,
    op: Seq<char>,
    actor: Seq<char>,
    before: Option<Seq<char>>,
    transf: Option<Seq<char>>,
    ts: Seq<char>,
)
    requires
        heads_of(d.heads, e).len() <= 1,
        forall|k: int|
            0 <= k < heads_of(d.heads, e).len() ==> (#[trigger] heads_of(d.heads, e)[k]).len() > 0,
    ensures
        ({
            let (nd, r) = append_linear(d, e, table, op, actor, before, transf, ts);
            r matches Ok(h) ==> heads_of(nd.heads, e) == seq![h]
        }),
{
    let hs = heads_of(d.heads, e);
    let prev = linear_parent(hs);
    let row = new_prov_row(prev, e, table, op, actor, ts, before, transf);
    if !log_has_hash(d.log, row.hash) {
        let heads1 = if prev.len() > 0 {
            heads_without(d.heads, e, prev)
        } else {
            d.heads
        };
        let h1 = heads_of(heads1, e);
        if h1.len() > 0 {
            let x = h1[0];
            assert(h1.contains(x));
            if prev.len() > 0 {
                lemma_heads_of_without(d.heads, e, prev, x);
                let j = choose|j: int| 0 <= j < hs.len() && hs[j] == x;
                assert(false);
            } else {
                if hs.len() > 0 {
                    assert(hs[0].len() > 0);
                }
            }
        }
        if has_head(heads1, e, row.hash) {
            lemma_head_in_heads_of(heads1, e, row.hash);
        }
        lemma_heads_of_push_other(heads1, e, row.hash);
        assert(heads_of(heads1, e).push(row.hash) =~= seq![row.hash]);
    }
}

/// A fork keeps every branch tip of the entity and adds the new entry as
/// one more (in a well-formed log, whose heads are all entries).
pub proof fn law_fork_adds_head(
    d: SidecarV,
    e: Seq<char>,
    table: Seq<char>,
    op: Seq<char>,
    actor: Seq<char>,
    before: Option<Seq<char>>,
    transf: Option<Seq<char>>,
    from: Seq<char>,
    ts: Seq<char>,
)
    requires
        chain_wf(d),
    ensures
        ({
            let (nd, r) = append_fork(d, e, table, op, actor, before, transf, from, ts);
            r matches Ok(h) ==> heads_of(nd.heads, e) == heads_of(d.heads, e).push(h)
        }),
{
    if log_has_entry(d.log, e, from) {
        let row = new_prov_row(from, e, table, op, actor, ts, before, transf);
        if !log_has_hash(d.log, row.hash) {
            if has_head(d.heads, e, row.hash) {
                let k = choose|k: int|
                    0 <= k < d.heads.len() && d.heads[k].entity_id == e && d.heads[k].head_hash
                        == row.hash;
                assert(log_has_entry(d.log, d.heads[k].entity_id, d.heads[k].head_hash));
            }
            lemma_heads_of_push_other(d.heads, e, row.hash);
        }
    }
}

/// One provenance append: a linear append on the entity's tip, or a fork
/// from an ancestor, each with its arguments and its stamp.
pub enum ChainAppend {
    Linear {
        e: Seq<char>,
        table: Seq<char>,
        op: Seq<char>,
        actor: Seq<char>,
        before: Option<Seq<char>>,
        transf: Option<Seq<char>>,
        ts: Seq<char>,
    },
    Fork {
        e: Seq<char>,
        table: Seq<char>,
        op: Seq<char>,
        actor: Seq<char>,
        before: Option<Seq<char>>,
        transf: Option<Seq<char>>,
        from: Seq<char>,
        ts: Seq<char>,
    },
}

/// The stamp of an append.
pub open spec fn append_stamp(a: ChainAppend) -> Seq<char> {
    match a {
        ChainAppend::Linear { ts, .. } => ts,
        ChainAppend::Fork { ts, .. } => ts,
    }
}

/// The sidecar after one append (a refused append leaves it unchanged).
pub open spec fn apply_append(d: SidecarV, a: ChainAppend) -> SidecarV {
    match a {
        ChainAppend::Linear { e, table, op, actor, before, transf, ts } => append_linear(
            d,
            e,
            table,
            op,
            actor,
            before,
            transf,
            ts,
        ).0,
        ChainAppend::Fork { e, table, op, actor, before, transf, from, ts } => append_fork(
            d,
            e,
            table,
            op,
            actor,
            before,
            transf,
            from,
            ts,
        ).0,
    }
}

/// The sidecar after a sequence of appends, in order.
pub open spec fn apply_appends(d: SidecarV, appends: Seq<ChainAppend>) -> SidecarV
    decreases appends.len(),
{
    if appends.len() == 0 {
        d
    } else {
        apply_appends(apply_append(d, appends[0]), appends.drop_first())
    }
}

proof fn lemma_appends_keep_wf(d: SidecarV, appends: Seq<ChainAppend>)
    requires
        chain_wf(d),
        forall|i: int| 0 <= i < appends.len() ==> is_canonical_timestamp(
            append_stamp(#[trigger] appends[i]),
        ),
    ensures
        chain_wf(apply_appends(d, appends)),
    decreases appends.len(),
{
    if appends.len() > 0 {
        assert(is_canonical_timestamp(append_stamp(appends[0])));
        match appends[0] {
            ChainAppend::Linear { e, table, op, actor, before, transf, ts } => {
                law_append_keeps_wf(d, e, table, op, actor, before, transf, ts);
            },
            ChainAppend::Fork { e, table, op, actor, before, transf, from, ts } => {
                law_fork_keeps_wf(d, e, table, op, actor, before, transf, from, ts);
            },
        }
        let rest = appends.drop_first();
        assert forall|i: int| 0 <= i < rest.len() implies is_canonical_timestamp(
            append_stamp(#[trigger] rest[i]),
        ) by {
            assert(rest[i] == appends[i + 1]);
        }
        lemma_appends_keep_wf(apply_append(d, appends[0]), rest);
    }
}

/// A sidecar built from the empty one only by provenance appends and forks
/// (refused ones included), each stamped in canonical form as the current
/// time always is, verifies for every entity: forked entities and
/// entities with no entries included.
pub proof fn law_appended_log_verifies(d: SidecarV, appends: Seq<ChainAppend>, x: Seq<char>)
    requires
        d.log.len() == 0,
        d.heads.len() == 0,
        forall|i: int| 0 <= i < appends.len() ==> is_canonical_timestamp(
            append_stamp(#[trigger] appends[i]),
        ),
    ensures
        chain_verifies(apply_appends(d, appends), x),
{
    law_empty_log_wf(d);
    lemma_appends_keep_wf(d, appends);
    law_wf_log_verifies(apply_appends(d, appends), x);
}

} // verus!
