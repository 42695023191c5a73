//! Gathering and ordering of eviction candidates.
//!
//! One collection pass walks a snapshot of all tenants, enumerates the
//! resident layers of their active timelines, partitions each tenant's layers
//! against the tenant's min-resident-size reservation, and returns one flat
//! list of candidates, globally sorted in eviction order: candidates outside
//! any reservation (`Above`) come first, and within each partition the least
//! recently used layers come first.

use vstd::prelude::*;

use crate::config::EvictionOrder;
use crate::rel::{lemma_key_le_trans, RelativeKey};

verus! {

/// Identity and size of a resident layer, as the eviction engine sees it.
#[derive(Clone, Copy, Debug, PartialEq, Eq, Structural)]
pub struct EvictionLayer {
    pub tenant_id: u64,
    pub timeline_id: u64,
    pub layer_id: u64,
    pub file_size: u64,
}

/// A layer picked as a possible eviction victim, together with the access
/// data it is ranked by.
#[derive(Clone, Copy, Debug, PartialEq, Eq, Structural)]
pub struct EvictionCandidate {
    pub layer: EvictionLayer,
    /// Last activity, in microseconds since some fixed epoch.
    pub last_activity_ts: u64,
    /// Relative age within the owning tenant's resident set; only meaningful
    /// under [`EvictionOrder::RelativeAccessed`].
    pub relative_last_activity: RelativeKey,
}

/// Whether a candidate lies outside (`Above`) or inside (`Below`) its
/// tenant's min-resident-size reservation. `Above` sorts before `Below`, so
/// reservations are only broken once every unprotected layer is planned.
#[derive(Clone, Copy, Debug, PartialEq, Eq, Structural)]
pub enum MinResidentSizePartition {
    Above,
    Below,
}

/// The result of one collection pass.
pub enum EvictionCandidates {
    Cancelled,
    Finished(Vec<(MinResidentSizePartition, EvictionCandidate)>),
}

/// A resident layer of one timeline, as reported by the tenant registry.
#[derive(Clone, Copy, Debug, PartialEq, Eq, Structural)]
pub struct ResidentLayer {
    pub layer_id: u64,
    pub file_size: u64,
    pub last_activity_ts: u64,
}

/// What one timeline reports for a collection pass.
#[derive(Clone, Debug)]
pub struct TimelineSnapshot {
    pub timeline_id: u64,
    pub is_active: bool,
    pub resident_layers: Vec<ResidentLayer>,
    /// The largest layer size the timeline has observed, resident or not.
    pub max_layer_size: Option<u64>,
}

/// What one tenant reports for a collection pass.
#[derive(Clone, Debug)]
pub struct TenantSnapshot {
    pub tenant_id: u64,
    /// Tenants that are shutting down are skipped entirely.
    pub shutting_down: bool,
    /// Overrides the default min-resident-size (the largest observed layer).
    pub min_resident_size_override: Option<u64>,
    pub timelines: Vec<TimelineSnapshot>,
}

// ===== The gathering model =====

/// The layers one timeline contributes: all its resident layers when it is
/// active, nothing otherwise.
pub open spec fn spec_timeline_items(tenant_id: u64, tl: TimelineSnapshot) -> Seq<
    (EvictionLayer, u64),
> {
    if tl.is_active {
        tl.resident_layers@.map_values(
            |l: ResidentLayer|
                (
                    EvictionLayer {
                        tenant_id,
                        timeline_id: tl.timeline_id,
                        layer_id: l.layer_id,
                        file_size: l.file_size,
                    },
                    l.last_activity_ts,
                ),
        )
    } else {
        Seq::empty()
    }
}

/// The layers a sequence of timelines contributes, in timeline order.
pub open spec fn spec_items_of_timelines(tenant_id: u64, tls: Seq<TimelineSnapshot>) -> Seq<
    (EvictionLayer, u64),
>
    decreases tls.len(),
{
    if tls.len() == 0 {
        Seq::empty()
    } else {
        spec_items_of_timelines(tenant_id, tls.drop_last()) + spec_timeline_items(
            tenant_id,
            tls.last(),
        )
    }
}

/// The largest layer size any active timeline reports; 0 when none does.
pub open spec fn spec_max_layer_size_of(tls: Seq<TimelineSnapshot>) -> u64
    decreases tls.len(),
{
    if tls.len() == 0 {
        0u64
    } else {
        let rest = spec_max_layer_size_of(tls.drop_last());
        let cur = if tls.last().is_active {
            match tls.last().max_layer_size {
                Some(s) => s,
                None => 0u64,
            }
        } else {
            0u64
        };
        if cur > rest {
            cur
        } else {
            rest
        }
    }
}

/// A tenant's reservation: the override when set, otherwise the largest
/// observed layer size, so that at least one layer's worth can stay resident.
pub open spec fn spec_min_resident_size(t: TenantSnapshot) -> u64 {
    match t.min_resident_size_override {
        Some(s) => s,
        None => spec_max_layer_size_of(t.timelines@),
    }
}

/// Append the layers of one timeline to the gathered list.
fn extend_timeline_items(
    items: &mut Vec<(EvictionLayer, u64)>,
    tenant_id: u64,
    tl: &TimelineSnapshot,
)
    ensures
        final(items)@ == old(items)@ + spec_timeline_items(tenant_id, *tl),
{
    if tl.is_active {
        let ghost prev = items@;
        let mut k: usize = 0;
        while k < tl.resident_layers.len()
            invariant
                k <= tl.resident_layers.len(),
                tl.is_active,
                items@ == prev + spec_timeline_items(tenant_id, *tl).take(k as int),
            decreases tl.resident_layers.len() - k,
        {
            let l = tl.resident_layers[k];
            items.push(
                (
                    EvictionLayer {
                        tenant_id,
                        timeline_id: tl.timeline_id,
                        layer_id: l.layer_id,
                        file_size: l.file_size,
                    },
                    l.last_activity_ts,
                ),
            );
            proof {
                let full = spec_timeline_items(tenant_id, *tl);
                assert(full.take(k + 1) =~= full.take(k as int).push(full[k as int]));
            }
            k += 1;
        }
        proof {
            let full = spec_timeline_items(tenant_id, *tl);
            assert(full.take(tl.resident_layers@.len() as int) =~= full);
        }
    } else {
        proof {
            assert(items@ + spec_timeline_items(tenant_id, *tl) =~= items@);
        }
    }
}

/// Gather all eviction-eligible layers of one tenant, and the largest layer
/// size any of its active timelines reports.
///
/// When a cancellation token is given it is polled between timelines;
/// `None` is returned as soon as it has fired. Without a token the gathering
/// always completes.
fn gather_tenant_items(
    tenant: &TenantSnapshot,
    cancel: Option<&tokio_util::sync::CancellationToken>,
) -> (r: Option<(Vec<(EvictionLayer, u64)>, u64)>)
    ensures
        r matches Some(p) ==> p.0@ == spec_items_of_timelines(
            tenant.tenant_id,
            tenant.timelines@,
        ) && p.1 == spec_max_layer_size_of(tenant.timelines@),
        cancel is None ==> r is Some,
{
    let mut items: Vec<(EvictionLayer, u64)> = Vec::new();
    let mut max_layer_size: u64 = 0;
    let mut tj: usize = 0;
    while tj < tenant.timelines.len()
        invariant
            tj <= tenant.timelines.len(),
            items@ == spec_items_of_timelines(tenant.tenant_id, tenant.timelines@.take(tj as int)),
            max_layer_size == spec_max_layer_size_of(tenant.timelines@.take(tj as int)),
        decreases tenant.timelines.len() - tj,
    {
        let tl = &tenant.timelines[tj];
        extend_timeline_items(&mut items, tenant.tenant_id, tl);
        proof {
            assert(tenant.timelines@.take(tj + 1).drop_last() =~= tenant.timelines@.take(
                tj as int,
            ));
            assert(tenant.timelines@.take(tj + 1).last() == tenant.timelines@[tj as int]);
        }
        if tl.is_active {
            let observed = match tl.max_layer_size {
                Some(s) => s,
                None => 0u64,
            };
            if observed > max_layer_size {
                max_layer_size = observed;
            }
            if let Some(token) = cancel {
                if token.is_cancelled() {
                    return None;
                }
            }
        }
        tj += 1;
    }
    proof {
        assert(tenant.timelines@.take(tenant.timelines@.len() as int) =~= tenant.timelines@);
    }
    Some((items, max_layer_size))
}

// ===== Sorting a tenant's layers, most recently used first =====

/// Stable insertion of `x` into a list sorted by descending timestamp:
/// `x` goes after every element that is at least as recent.
pub open spec fn spec_insert_desc(x: (EvictionLayer, u64), s: Seq<(EvictionLayer, u64)>) -> Seq<
    (EvictionLayer, u64),
>
    decreases s.len(),
{
    if s.len() == 0 {
        seq![x]
    } else if s[0].1 >= x.1 {
        seq![s[0]] + spec_insert_desc(x, s.drop_first())
    } else {
        seq![x] + s
    }
}

/// The stable sort by descending timestamp: the unique order in which one
/// tenant's layers are walked, most recently used first.
pub open spec fn spec_sort_desc(s: Seq<(EvictionLayer, u64)>) -> Seq<(EvictionLayer, u64)>
    decreases s.len(),
{
    if s.len() == 0 {
        Seq::empty()
    } else {
        spec_insert_desc(s.last(), spec_sort_desc(s.drop_last()))
    }
}

/// Sorted by descending timestamp.
pub open spec fn spec_sorted_desc(s: Seq<(EvictionLayer, u64)>) -> bool {
    forall|i: int, j: int|
        #![trigger s[i], s[j]]
        0 <= i < j < s.len() ==> s[i].1 >= s[j].1
}

/// Where `spec_insert_desc` puts the new element: after the longest prefix of
/// elements at least as recent.
pub open spec fn spec_insert_pos_desc(x: (EvictionLayer, u64), s: Seq<(EvictionLayer, u64)>) -> int
    decreases s.len(),
{
    if s.len() == 0 {
        0
    } else if s[0].1 >= x.1 {
        1 + spec_insert_pos_desc(x, s.drop_first())
    } else {
        0
    }
}

proof fn lemma_insert_pos_desc(x: (EvictionLayer, u64), s: Seq<(EvictionLayer, u64)>)
    ensures
        0 <= spec_insert_pos_desc(x, s) <= s.len(),
        forall|k: int| 0 <= k < spec_insert_pos_desc(x, s) ==> (#[trigger] s[k]).1 >= x.1,
        spec_insert_pos_desc(x, s) < s.len() ==> s[spec_insert_pos_desc(x, s)].1 < x.1,
        spec_insert_desc(x, s) == s.insert(spec_insert_pos_desc(x, s), x),
    decreases s.len(),
{
    let pos = spec_insert_pos_desc(x, s);
    if s.len() == 0 {
        assert(spec_insert_desc(x, s) =~= s.insert(0, x));
    } else if s[0].1 >= x.1 {
        lemma_insert_pos_desc(x, s.drop_first());
        assert(forall|k: int|
            0 < k < pos ==> (#[trigger] s[k]).1 == s.drop_first()[k - 1].1);
        assert(spec_insert_desc(x, s) =~= s.insert(pos, x));
    } else {
        assert(spec_insert_desc(x, s) =~= s.insert(0, x));
    }
}

proof fn lemma_insert_desc_sorted(x: (EvictionLayer, u64), s: Seq<(EvictionLayer, u64)>)
    requires
        spec_sorted_desc(s),
    ensures
        spec_sorted_desc(spec_insert_desc(x, s)),
{
    lemma_insert_pos_desc(x, s);
    let pos = spec_insert_pos_desc(x, s);
    let r = s.insert(pos, x);
    assert forall|i: int, j: int|
        #![trigger r[i], r[j]]
        0 <= i < j < r.len() implies r[i].1 >= r[j].1 by {
        if i < pos {
            assert(r[i] == s[i]);
        } else if i == pos {
            assert(r[i] == x);
        } else {
            assert(r[i] == s[i - 1]);
        }
        if j < pos {
            assert(r[j] == s[j]);
        } else if j == pos {
            assert(r[j] == x);
        } else {
            assert(r[j] == s[j - 1]);
        }
    }
}

/// The MRU sort keeps the number of layers.
pub proof fn lemma_sort_desc_len(s: Seq<(EvictionLayer, u64)>)
    ensures
        spec_sort_desc(s).len() == s.len(),
    decreases s.len(),
{
    if s.len() > 0 {
        lemma_sort_desc_len(s.drop_last());
        lemma_insert_pos_desc(s.last(), spec_sort_desc(s.drop_last()));
    }
}

/// The MRU sort yields a list sorted by descending timestamp.
pub proof fn lemma_sort_desc_sorted(s: Seq<(EvictionLayer, u64)>)
    ensures
        spec_sorted_desc(spec_sort_desc(s)),
    decreases s.len(),
{
    if s.len() > 0 {
        lemma_sort_desc_sorted(s.drop_last());
        lemma_insert_desc_sorted(s.last(), spec_sort_desc(s.drop_last()));
    }
}

fn insert_sorted_desc(v: &mut Vec<(EvictionLayer, u64)>, x: (EvictionLayer, u64))
    ensures
        final(v)@ == spec_insert_desc(x, old(v)@),
{
    let mut j: usize = 0;
    while j < v.len() && v[j].1 >= x.1
        invariant
            j <= v@.len(),
            v@ == old(v)@,
            forall|k: int| 0 <= k < j ==> (#[trigger] v@[k]).1 >= x.1,
        decreases v@.len() - j,
    {
        j += 1;
    }
    proof {
        lemma_insert_pos_desc(x, v@);
        let pos = spec_insert_pos_desc(x, v@);
        if j < pos {
            assert(v@[j as int].1 >= x.1);
            assert(false);
        }
        if pos < j {
            assert(v@[pos].1 >= x.1);
            assert(false);
        }
    }
    v.insert(j, x);
}

/// Sort a tenant's gathered layers by descending last-activity timestamp,
/// stably.
pub fn sort_by_ts_desc(input: &Vec<(EvictionLayer, u64)>) -> (r: Vec<(EvictionLayer, u64)>)
    ensures
        r@ == spec_sort_desc(input@),
{
    let mut r: Vec<(EvictionLayer, u64)> = Vec::new();
    let mut i: usize = 0;
    while i < input.len()
        invariant
            i <= input.len(),
            r@ == spec_sort_desc(input@.take(i as int)),
        decreases input.len() - i,
    {
        insert_sorted_desc(&mut r, input[i]);
        proof {
            assert(input@.take(i + 1).drop_last() =~= input@.take(i as int));
            assert(input@.take(i + 1).last() == input@[i as int]);
        }
        i += 1;
    }
    proof {
        assert(input@.take(input@.len() as int) =~= input@);
    }
    r
}

// ===== The global eviction order =====

/// `Above` sorts before `Below`: reservations are only broken after every
/// unprotected layer has been considered.
pub open spec fn spec_partition_rank(p: MinResidentSizePartition) -> int {
    match p {
        MinResidentSizePartition::Above => 0,
        MinResidentSizePartition::Below => 1,
    }
}

/// The global eviction order: first by partition, then within a partition by
/// ascending absolute timestamp (`AbsoluteAccessed`) or ascending relative
/// age key (`RelativeAccessed`), oldest first either way.
pub open spec fn spec_eviction_le(
    order: EvictionOrder,
    a: (MinResidentSizePartition, EvictionCandidate),
    b: (MinResidentSizePartition, EvictionCandidate),
) -> bool {
    ||| spec_partition_rank(a.0) < spec_partition_rank(b.0)
    ||| (spec_partition_rank(a.0) == spec_partition_rank(b.0) && match order {
        EvictionOrder::AbsoluteAccessed => a.1.last_activity_ts <= b.1.last_activity_ts,
        EvictionOrder::RelativeAccessed { .. } => a.1.relative_last_activity.spec_le(
            &b.1.relative_last_activity,
        ),
    })
}

/// Every candidate's relative-age key is a well-formed ratio.
pub open spec fn spec_keys_wf(s: Seq<(MinResidentSizePartition, EvictionCandidate)>) -> bool {
    forall|i: int| 0 <= i < s.len() ==> (#[trigger] s[i]).1.relative_last_activity.wf()
}

/// The eviction order is total.
pub proof fn lemma_eviction_le_total(
    order: EvictionOrder,
    a: (MinResidentSizePartition, EvictionCandidate),
    b: (MinResidentSizePartition, EvictionCandidate),
)
    ensures
        spec_eviction_le(order, a, b) || spec_eviction_le(order, b, a),
{
}

/// The eviction order is transitive (given well-formed keys).
pub proof fn lemma_eviction_le_trans(
    order: EvictionOrder,
    a: (MinResidentSizePartition, EvictionCandidate),
    b: (MinResidentSizePartition, EvictionCandidate),
    c: (MinResidentSizePartition, EvictionCandidate),
)
    requires
        a.1.relative_last_activity.wf(),
        b.1.relative_last_activity.wf(),
        c.1.relative_last_activity.wf(),
        spec_eviction_le(order, a, b),
        spec_eviction_le(order, b, c),
    ensures
        spec_eviction_le(order, a, c),
{
    if spec_partition_rank(a.0) == spec_partition_rank(b.0) && spec_partition_rank(b.0)
        == spec_partition_rank(c.0) {
        match order {
            EvictionOrder::AbsoluteAccessed => {},
            EvictionOrder::RelativeAccessed { .. } => {
                lemma_key_le_trans(
                    a.1.relative_last_activity,
                    b.1.relative_last_activity,
                    c.1.relative_last_activity,
                );
            },
        }
    }
}

/// Stable insertion in eviction order: `x` goes after every element that
/// sorts no later.
pub open spec fn spec_insert_ord(
    order: EvictionOrder,
    x: (MinResidentSizePartition, EvictionCandidate),
    s: Seq<(MinResidentSizePartition, EvictionCandidate)>,
) -> Seq<(MinResidentSizePartition, EvictionCandidate)>
    decreases s.len(),
{
    if s.len() == 0 {
        seq![x]
    } else if spec_eviction_le(order, s[0], x) {
        seq![s[0]] + spec_insert_ord(order, x, s.drop_first())
    } else {
        seq![x] + s
    }
}

/// The stable sort in eviction order.
pub open spec fn spec_sort_ord(
    order: EvictionOrder,
    s: Seq<(MinResidentSizePartition, EvictionCandidate)>,
) -> Seq<(MinResidentSizePartition, EvictionCandidate)>
    decreases s.len(),
{
    if s.len() == 0 {
        Seq::empty()
    } else {
        spec_insert_ord(order, s.last(), spec_sort_ord(order, s.drop_last()))
    }
}

/// Sorted in eviction order.
pub open spec fn spec_sorted_ord(
    order: EvictionOrder,
    s: Seq<(MinResidentSizePartition, EvictionCandidate)>,
) -> bool {
    forall|i: int, j: int|
        #![trigger s[i], s[j]]
        0 <= i < j < s.len() ==> spec_eviction_le(order, s[i], s[j])
}

/// Where `spec_insert_ord` puts the new element.
pub open spec fn spec_insert_pos_ord(
    order: EvictionOrder,
    x: (MinResidentSizePartition, EvictionCandidate),
    s: Seq<(MinResidentSizePartition, EvictionCandidate)>,
) -> int
    decreases s.len(),
{
    if s.len() == 0 {
        0
    } else if spec_eviction_le(order, s[0], x) {
        1 + spec_insert_pos_ord(order, x, s.drop_first())
    } else {
        0
    }
}

proof fn lemma_insert_pos_ord(
    order: EvictionOrder,
    x: (MinResidentSizePartition, EvictionCandidate),
    s: Seq<(MinResidentSizePartition, EvictionCandidate)>,
)
    ensures
        0 <= spec_insert_pos_ord(order, x, s) <= s.len(),
        forall|k: int|
            0 <= k < spec_insert_pos_ord(order, x, s) ==> spec_eviction_le(
                order,
                #[trigger] s[k],
                x,
            ),
        spec_insert_pos_ord(order, x, s) < s.len() ==> !spec_eviction_le(
            order,
            s[spec_insert_pos_ord(order, x, s)],
            x,
        ),
        spec_insert_ord(order, x, s) == s.insert(spec_insert_pos_ord(order, x, s), x),
    decreases s.len(),
{
    let pos = spec_insert_pos_ord(order, x, s);
    if s.len() == 0 {
        assert(spec_insert_ord(order, x, s) =~= s.insert(0, x));
    } else if spec_eviction_le(order, s[0], x) {
        lemma_insert_pos_ord(order, x, s.drop_first());
        assert(forall|k: int| 0 < k < pos ==> #[trigger] s[k] == s.drop_first()[k - 1]);
        assert(spec_insert_ord(order, x, s) =~= s.insert(pos, x));
    } else {
        assert(spec_insert_ord(order, x, s) =~= s.insert(0, x));
    }
}

proof fn lemma_insert_ord_sorted(
    order: EvictionOrder,
    x: (MinResidentSizePartition, EvictionCandidate),
    s: Seq<(MinResidentSizePartition, EvictionCandidate)>,
)
    requires
        spec_sorted_ord(order, s),
        spec_keys_wf(s),
        x.1.relative_last_activity.wf(),
    ensures
        spec_sorted_ord(order, spec_insert_ord(order, x, s)),
{
    lemma_insert_pos_ord(order, x, s);
    let pos = spec_insert_pos_ord(order, x, s);
    let r = s.insert(pos, x);
    assert forall|i: int, j: int|
        #![trigger r[i], r[j]]
        0 <= i < j < r.len() implies spec_eviction_le(order, r[i], r[j]) by {
        if i < pos {
            assert(r[i] == s[i]);
        } else if i == pos {
            assert(r[i] == x);
        } else {
            assert(r[i] == s[i - 1]);
        }
        if j < pos {
            assert(r[j] == s[j]);
        } else if j == pos {
            assert(r[j] == x);
        } else {
            assert(r[j] == s[j - 1]);
        }
        if i == pos && pos < j {
            // x precedes s[j - 1]: the element at the insertion position does
            // not sort before x, so x sorts before it and everything after.
            lemma_eviction_le_total(order, x, s[j - 1]);
            if j - 1 > pos {
                lemma_eviction_le_trans(order, x, s[pos], s[j - 1]);
                if spec_eviction_le(order, s[j - 1], x) {
                    lemma_eviction_le_trans(order, s[pos], s[j - 1], x);
                }
            }
            if spec_eviction_le(order, s[j - 1], x) && j - 1 == pos {
                assert(false);
            }
        }
    }
}

/// The global sort yields a list sorted in eviction order.
pub proof fn lemma_sort_ord_sorted(
    order: EvictionOrder,
    s: Seq<(MinResidentSizePartition, EvictionCandidate)>,
)
    requires
        spec_keys_wf(s),
    ensures
        spec_sorted_ord(order, spec_sort_ord(order, s)),
        spec_keys_wf(spec_sort_ord(order, s)),
    decreases s.len(),
{
    if s.len() > 0 {
        assert(spec_keys_wf(s.drop_last()));
        lemma_sort_ord_sorted(order, s.drop_last());
        lemma_insert_pos_ord(order, s.last(), spec_sort_ord(order, s.drop_last()));
        lemma_insert_ord_sorted(order, s.last(), spec_sort_ord(order, s.drop_last()));
        let r = spec_sort_ord(order, s);
        let prev = spec_sort_ord(order, s.drop_last());
        let pos = spec_insert_pos_ord(order, s.last(), prev);
        assert forall|i: int|
            0 <= i < r.len() implies (#[trigger] r[i]).1.relative_last_activity.wf() by {
            if i < pos {
                assert(r[i] == prev[i]);
            } else if i == pos {
                assert(r[i] == s.last());
            } else {
                assert(r[i] == prev[i - 1]);
            }
        }
    }
}

fn eviction_le(
    order: EvictionOrder,
    a: &(MinResidentSizePartition, EvictionCandidate),
    b: &(MinResidentSizePartition, EvictionCandidate),
) -> (r: bool)
    ensures
        r == spec_eviction_le(order, *a, *b),
{
    let ra: u8 = match a.0 {
        MinResidentSizePartition::Above => 0,
        MinResidentSizePartition::Below => 1,
    };
    let rb: u8 = match b.0 {
        MinResidentSizePartition::Above => 0,
        MinResidentSizePartition::Below => 1,
    };
    if ra < rb {
        true
    } else if ra > rb {
        false
    } else {
        match order {
            EvictionOrder::AbsoluteAccessed => a.1.last_activity_ts <= b.1.last_activity_ts,
            EvictionOrder::RelativeAccessed { .. } => a.1.relative_last_activity.le(
                &b.1.relative_last_activity,
            ),
        }
    }
}

fn insert_sorted_ord(
    order: EvictionOrder,
    v: &mut Vec<(MinResidentSizePartition, EvictionCandidate)>,
    x: (MinResidentSizePartition, EvictionCandidate),
)
    ensures
        final(v)@ == spec_insert_ord(order, x, old(v)@),
{
    let mut j: usize = 0;
    while j < v.len() && eviction_le(order, &v[j], &x)
        invariant
            j <= v@.len(),
            v@ == old(v)@,
            forall|k: int| 0 <= k < j ==> spec_eviction_le(order, #[trigger] v@[k], x),
        decreases v@.len() - j,
    {
        j += 1;
    }
    proof {
        lemma_insert_pos_ord(order, x, v@);
        let pos = spec_insert_pos_ord(order, x, v@);
        if j < pos {
            assert(spec_eviction_le(order, v@[j as int], x));
            assert(false);
        }
        if pos < j {
            assert(spec_eviction_le(order, v@[pos], x));
            assert(false);
        }
    }
    v.insert(j, x);
}

/// Sort the flat candidate list in the global eviction order, stably.
pub fn sort_candidates(
    order: EvictionOrder,
    input: &Vec<(MinResidentSizePartition, EvictionCandidate)>,
) -> (r: Vec<(MinResidentSizePartition, EvictionCandidate)>)
    ensures
        r@ == spec_sort_ord(order, input@),
{
    let mut r: Vec<(MinResidentSizePartition, EvictionCandidate)> = Vec::new();
    let mut i: usize = 0;
    while i < input.len()
        invariant
            i <= input.len(),
            r@ == spec_sort_ord(order, input@.take(i as int)),
        decreases input.len() - i,
    {
        insert_sorted_ord(order, &mut r, input[i]);
        proof {
            assert(input@.take(i + 1).drop_last() =~= input@.take(i as int));
            assert(input@.take(i + 1).last() == input@[i as int]);
        }
        i += 1;
    }
    proof {
        assert(input@.take(input@.len() as int) =~= input@);
    }
    r
}

// ===== Partition and relative-age key assignment =====

/// Sum of the file sizes of the first `i` layers: the bytes of strictly more
/// recently used layers of the same tenant.
pub open spec fn spec_prefix_size_sum(s: Seq<(EvictionLayer, u64)>, i: int) -> int
    decreases i,
{
    if i <= 0 {
        0
    } else {
        spec_prefix_size_sum(s, i - 1) + s[i - 1].0.file_size
    }
}

proof fn lemma_prefix_size_sum_bound(s: Seq<(EvictionLayer, u64)>, i: int)
    requires
        0 <= i <= s.len(),
    ensures
        0 <= spec_prefix_size_sum(s, i) <= i * 0xffff_ffff_ffff_ffffu64,
    decreases i,
{
    if i > 0 {
        lemma_prefix_size_sum_bound(s, i - 1);
    }
}

/// The divider for relative-age keys of a tenant with `n` sorted layers.
///
/// With `highest_layer_count_loses_first` the whole count is used, biasing
/// the bottom of the `[0, 1]` range towards large tenants; otherwise one is
/// subtracted so that even the smallest tenants reach key 0. Tenants with 0
/// or 1 layers use a divider of 1.
pub open spec fn spec_total_layers(order: EvictionOrder, n: int) -> int {
    let fudge: int = if order.spec_highest_layer_count_loses_first() {
        0
    } else {
        1
    };
    if n - fudge > 0 {
        n - fudge
    } else {
        1
    }
}

/// The relative-age key of position `i` out of `n` MRU-sorted layers:
/// `(total - i) / total`, so the most recently used layer gets 1 (evicted
/// last) and keys fall towards 0 with age. Unused (and 0) under
/// `AbsoluteAccessed` order.
pub open spec fn spec_relative_key(order: EvictionOrder, n: int, i: int) -> RelativeKey {
    match order {
        EvictionOrder::AbsoluteAccessed => RelativeKey { numerator: 0, denominator: 1 },
        EvictionOrder::RelativeAccessed { .. } => RelativeKey {
            numerator: (spec_total_layers(order, n) - i) as u64,
            denominator: spec_total_layers(order, n) as u64,
        },
    }
}

/// What the `i`-th MRU-sorted layer of a tenant becomes: `Above` exactly when
/// the strictly more recent layers already fill the reservation, and the
/// relative-age key for its position.
pub open spec fn spec_assigned_at(
    sorted: Seq<(EvictionLayer, u64)>,
    min_resident_size: u64,
    order: EvictionOrder,
    i: int,
) -> (MinResidentSizePartition, EvictionCandidate) {
    (
        if spec_prefix_size_sum(sorted, i) > min_resident_size {
            MinResidentSizePartition::Above
        } else {
            MinResidentSizePartition::Below
        },
        EvictionCandidate {
            layer: sorted[i].0,
            last_activity_ts: sorted[i].1,
            relative_last_activity: spec_relative_key(order, sorted.len() as int, i),
        },
    )
}

/// The candidates of one tenant, in MRU order, partitioned and keyed.
pub open spec fn spec_assign(
    sorted: Seq<(EvictionLayer, u64)>,
    min_resident_size: u64,
    order: EvictionOrder,
) -> Seq<(MinResidentSizePartition, EvictionCandidate)> {
    Seq::new(sorted.len(), |i: int| spec_assigned_at(sorted, min_resident_size, order, i))
}

/// Walk a tenant's MRU-sorted layers, accumulating file sizes, and place each
/// layer in the `Above` partition exactly when the more recent layers already
/// exceed the reservation; give each its relative-age key.
pub fn assign_partitions(
    sorted: &Vec<(EvictionLayer, u64)>,
    min_resident_size: u64,
    order: EvictionOrder,
) -> (r: Vec<(MinResidentSizePartition, EvictionCandidate)>)
    ensures
        r@ == spec_assign(sorted@, min_resident_size, order),
        spec_keys_wf(r@),
{
    let n = sorted.len();
    let fudge: usize = if order.highest_layer_count_loses_first() {
        0
    } else {
        1
    };
    let total: usize = if n > fudge {
        n - fudge
    } else {
        1
    };
    assert(total == spec_total_layers(order, n as int));

    let mut out: Vec<(MinResidentSizePartition, EvictionCandidate)> = Vec::new();
    let mut cumsum: u128 = 0;
    let mut i: usize = 0;
    while i < n
        invariant
            n == sorted@.len(),
            total == spec_total_layers(order, n as int),
            1 <= total,
            n > 1 ==> total >= n - 1,
            i <= n,
            out@ == spec_assign(sorted@, min_resident_size, order).take(i as int),
            cumsum == spec_prefix_size_sum(sorted@, i as int),
        decreases n - i,
    {
        proof {
            lemma_prefix_size_sum_bound(sorted@, i as int);
        }
        let partition = if cumsum > min_resident_size as u128 {
            MinResidentSizePartition::Above
        } else {
            MinResidentSizePartition::Below
        };
        let key = match order {
            EvictionOrder::AbsoluteAccessed => RelativeKey::zero(),
            EvictionOrder::RelativeAccessed { .. } => {
                assert(i <= total);
                match RelativeKey::try_from_ratio((total - i) as u64, total as u64) {
                    Some(k) => k,
                    None => RelativeKey::zero(),
                }
            },
        };
        let entry = sorted[i];
        out.push(
            (
                partition,
                EvictionCandidate {
                    layer: entry.0,
                    last_activity_ts: entry.1,
                    relative_last_activity: key,
                },
            ),
        );
        proof {
            let full = spec_assign(sorted@, min_resident_size, order);
            assert(full.take(i + 1) =~= full.take(i as int).push(full[i as int]));
        }
        cumsum = cumsum + (entry.0.file_size as u128);
        i += 1;
    }
    proof {
        let full = spec_assign(sorted@, min_resident_size, order);
        assert(full.take(n as int) =~= full);
        assert(sorted@.len() <= u64::MAX);
        lemma_assign_keys_wf(sorted@, min_resident_size, order);
    }
    out
}

// ===== The collection pass =====

/// The candidates one tenant contributes: nothing while it is shutting down,
/// otherwise the resident layers of its active timelines, MRU-sorted,
/// partitioned against its reservation and keyed.
pub open spec fn spec_tenant_candidates(t: TenantSnapshot, order: EvictionOrder) -> Seq<
    (MinResidentSizePartition, EvictionCandidate),
> {
    if t.shutting_down {
        Seq::empty()
    } else {
        spec_assign(
            spec_sort_desc(spec_items_of_timelines(t.tenant_id, t.timelines@)),
            spec_min_resident_size(t),
            order,
        )
    }
}

/// All tenants' candidates concatenated in snapshot order, before the global
/// sort.
pub open spec fn spec_all_candidates(ts: Seq<TenantSnapshot>, order: EvictionOrder) -> Seq<
    (MinResidentSizePartition, EvictionCandidate),
>
    decreases ts.len(),
{
    if ts.len() == 0 {
        Seq::empty()
    } else {
        spec_all_candidates(ts.drop_last(), order) + spec_tenant_candidates(ts.last(), order)
    }
}

/// The full collection: gather, partition and key per tenant, then one global
/// stable sort in eviction order.
pub open spec fn spec_collect(ts: Seq<TenantSnapshot>, order: EvictionOrder) -> Seq<
    (MinResidentSizePartition, EvictionCandidate),
> {
    spec_sort_ord(order, spec_all_candidates(ts, order))
}

proof fn lemma_keys_wf_concat(
    a: Seq<(MinResidentSizePartition, EvictionCandidate)>,
    b: Seq<(MinResidentSizePartition, EvictionCandidate)>,
)
    requires
        spec_keys_wf(a),
        spec_keys_wf(b),
    ensures
        spec_keys_wf(a + b),
{
    assert forall|i: int|
        0 <= i < (a + b).len() implies ((a + b)[i]).1.relative_last_activity.wf() by {
        if i < a.len() {
            assert((a + b)[i] == a[i]);
        } else {
            assert((a + b)[i] == b[i - a.len()]);
        }
    }
}

/// The candidates of a single tenant, in that tenant's MRU order.
pub fn tenant_eviction_candidates(tenant: &TenantSnapshot, order: EvictionOrder) -> (r: Vec<
    (MinResidentSizePartition, EvictionCandidate),
>)
    ensures
        r@ == spec_tenant_candidates(*tenant, order),
        spec_keys_wf(r@),
{
    if tenant.shutting_down {
        return Vec::new();
    }
    match gather_tenant_items(tenant, None) {
        Some((items, max_layer_size)) => {
            let min_resident_size = match tenant.min_resident_size_override {
                Some(s) => s,
                None => max_layer_size,
            };
            let sorted = sort_by_ts_desc(&items);
            assign_partitions(&sorted, min_resident_size, order)
        },
        None => Vec::new(),
    }
}

/// One full collection pass over a tenant snapshot, with nothing to cancel
/// it: always returns the complete ordered candidate list.
pub fn collect_candidates(tenants: &Vec<TenantSnapshot>, eviction_order: EvictionOrder) -> (r: Vec<
    (MinResidentSizePartition, EvictionCandidate),
>)
    ensures
        r@ == spec_collect(tenants@, eviction_order),
        spec_sorted_ord(eviction_order, r@),
{
    let mut candidates: Vec<(MinResidentSizePartition, EvictionCandidate)> = Vec::new();
    let mut ti: usize = 0;
    while ti < tenants.len()
        invariant
            ti <= tenants.len(),
            candidates@ == spec_all_candidates(tenants@.take(ti as int), eviction_order),
            spec_keys_wf(candidates@),
        decreases tenants.len() - ti,
    {
        let mut assigned = tenant_eviction_candidates(&tenants[ti], eviction_order);
        proof {
            lemma_keys_wf_concat(candidates@, assigned@);
        }
        candidates.append(&mut assigned);
        proof {
            assert(tenants@.take(ti + 1).drop_last() =~= tenants@.take(ti as int));
            assert(tenants@.take(ti + 1).last() == tenants@[ti as int]);
        }
        ti += 1;
    }
    proof {
        assert(tenants@.take(tenants@.len() as int) =~= tenants@);
        lemma_sort_ord_sorted(eviction_order, candidates@);
    }
    sort_candidates(eviction_order, &candidates)
}

/// One full collection pass, honoring the cancellation token between tenants
/// and between timelines: either the complete ordered candidate list, or
/// `Cancelled` as soon as the token has fired.
pub fn collect_eviction_candidates(
    tenants: &Vec<TenantSnapshot>,
    eviction_order: EvictionOrder,
    cancel: &tokio_util::sync::CancellationToken,
) -> (r: EvictionCandidates)
    ensures
        r matches EvictionCandidates::Finished(l) ==> l@ == spec_collect(
            tenants@,
            eviction_order,
        ) && spec_sorted_ord(eviction_order, l@),
        tenants@.len() == 0 ==> r is Finished,
{
    let mut candidates: Vec<(MinResidentSizePartition, EvictionCandidate)> = Vec::new();
    let mut ti: usize = 0;
    while ti < tenants.len()
        invariant
            ti <= tenants.len(),
            candidates@ == spec_all_candidates(tenants@.take(ti as int), eviction_order),
            spec_keys_wf(candidates@),
        decreases tenants.len() - ti,
    {
        if cancel.is_cancelled() {
            return EvictionCandidates::Cancelled;
        }
        let tenant = &tenants[ti];
        if !tenant.shutting_down {
            match gather_tenant_items(tenant, Some(cancel)) {
                None => {
                    return EvictionCandidates::Cancelled;
                },
                Some((items, max_layer_size)) => {
                    let min_resident_size = match tenant.min_resident_size_override {
                        Some(s) => s,
                        None => max_layer_size,
                    };
                    let sorted = sort_by_ts_desc(&items);
                    let mut assigned = assign_partitions(&sorted, min_resident_size, eviction_order);
                    proof {
                        lemma_keys_wf_concat(candidates@, assigned@);
                    }
                    candidates.append(&mut assigned);
                },
            }
        }
        proof {
            assert(tenants@.take(ti + 1).drop_last() =~= tenants@.take(ti as int));
            assert(tenants@.take(ti + 1).last() == tenants@[ti as int]);
            if tenants@[ti as int].shutting_down {
                assert(candidates@ =~= spec_all_candidates(tenants@.take(ti + 1), eviction_order));
            }
        }
        ti += 1;
    }
    proof {
        assert(tenants@.take(tenants@.len() as int) =~= tenants@);
        lemma_sort_ord_sorted(eviction_order, candidates@);
    }
    EvictionCandidates::Finished(sort_candidates(eviction_order, &candidates))
}

// ===== Laws of the collection =====

/// How many layers one tenant's MRU list holds.
pub open spec fn spec_tenant_layer_count(t: TenantSnapshot) -> int {
    spec_items_of_timelines(t.tenant_id, t.timelines@).len() as int
}

/// Every tenant's layer count fits the machine's integers. Any snapshot held
/// in real vectors satisfies this; only unbounded mathematical sequences can
/// violate it.
pub open spec fn spec_counts_ok(ts: Seq<TenantSnapshot>) -> bool {
    forall|k: int| 0 <= k < ts.len() ==> spec_tenant_layer_count(#[trigger] ts[k]) <= u64::MAX
}

proof fn lemma_assign_keys_wf(
    sorted: Seq<(EvictionLayer, u64)>,
    min_resident_size: u64,
    order: EvictionOrder,
)
    requires
        sorted.len() <= u64::MAX,
    ensures
        spec_keys_wf(spec_assign(sorted, min_resident_size, order)),
{
    assert forall|i: int|
        0 <= i < spec_assign(sorted, min_resident_size, order).len() implies (
        #[trigger] spec_assign(sorted, min_resident_size, order)[i]).1.relative_last_activity.wf()
        by {
        assert(spec_assign(sorted, min_resident_size, order)[i] == spec_assigned_at(
            sorted,
            min_resident_size,
            order,
            i,
        ));
    }
}

proof fn lemma_all_candidates_keys_wf(ts: Seq<TenantSnapshot>, order: EvictionOrder)
    requires
        spec_counts_ok(ts),
    ensures
        spec_keys_wf(spec_all_candidates(ts, order)),
    decreases ts.len(),
{
    if ts.len() > 0 {
        assert(forall|k: int| 0 <= k < ts.len() - 1 ==> ts.drop_last()[k] == ts[k]);
        lemma_all_candidates_keys_wf(ts.drop_last(), order);
        if !ts.last().shutting_down {
            lemma_sort_desc_len(spec_items_of_timelines(ts.last().tenant_id, ts.last().timelines@));
            lemma_assign_keys_wf(
                spec_sort_desc(spec_items_of_timelines(ts.last().tenant_id, ts.last().timelines@)),
                spec_min_resident_size(ts.last()),
                order,
            );
        }
    }
}

/// The collected list is sorted in the global eviction order.
pub proof fn lemma_collect_sorted(ts: Seq<TenantSnapshot>, order: EvictionOrder)
    requires
        spec_counts_ok(ts),
    ensures
        spec_sorted_ord(order, spec_collect(ts, order)),
{
    lemma_all_candidates_keys_wf(ts, order);
    lemma_sort_ord_sorted(order, spec_all_candidates(ts, order));
}

/// Global ordering: every `Above` candidate precedes every `Below` candidate
/// in the collected list.
pub proof fn lemma_above_precedes_below(
    ts: Seq<TenantSnapshot>,
    order: EvictionOrder,
    i: int,
    j: int,
)
    requires
        spec_counts_ok(ts),
        0 <= i < spec_collect(ts, order).len(),
        0 <= j < spec_collect(ts, order).len(),
        spec_collect(ts, order)[i].0 is Above,
        spec_collect(ts, order)[j].0 is Below,
    ensures
        i < j,
{
    lemma_collect_sorted(ts, order);
}

/// Partitioning: within one tenant's MRU-sorted layers, a layer lies in the
/// `Above` partition exactly when the strictly more recently used layers
/// already sum to more than the reservation; the protected (`Below`) layers
/// form a prefix of the MRU order.
pub proof fn lemma_partitioning(
    sorted: Seq<(EvictionLayer, u64)>,
    min_resident_size: u64,
    order: EvictionOrder,
)
    ensures
        forall|i: int|
            0 <= i < sorted.len() ==> (spec_assign(sorted, min_resident_size, order)[i].0
                is Above <==> spec_prefix_size_sum(sorted, i) > min_resident_size),
        forall|i: int, j: int|
            0 <= i <= j < sorted.len() && spec_assign(sorted, min_resident_size, order)[j].0
                is Below ==> spec_assign(sorted, min_resident_size, order)[i].0 is Below,
{
    assert forall|i: int, j: int|
        0 <= i <= j < sorted.len() implies spec_prefix_size_sum(sorted, i)
        <= spec_prefix_size_sum(sorted, j) by {
        lemma_prefix_size_sum_monotone(sorted, i, j);
    }
}

proof fn lemma_prefix_size_sum_monotone(sorted: Seq<(EvictionLayer, u64)>, i: int, j: int)
    requires
        0 <= i <= j,
    ensures
        spec_prefix_size_sum(sorted, i) <= spec_prefix_size_sum(sorted, j),
    decreases j - i,
{
    if i < j {
        lemma_prefix_size_sum_monotone(sorted, i, j - 1);
    }
}

/// Relative-age keys: for a tenant with `n` MRU-sorted layers, every key is a
/// well-formed ratio in `[0, 1]`; the most recently used layer gets key 1;
/// the least recently used layer gets 0 when the divider excludes it
/// (`highest_layer_count_loses_first` off, at least two layers), and `1 / n`
/// when it does not.
pub proof fn lemma_relative_keys(
    sorted: Seq<(EvictionLayer, u64)>,
    min_resident_size: u64,
    order: EvictionOrder,
)
    requires
        order is RelativeAccessed,
        sorted.len() <= u64::MAX,
    ensures
        forall|i: int|
            0 <= i < sorted.len() ==> (#[trigger] spec_assign(
                sorted,
                min_resident_size,
                order,
            )[i]).1.relative_last_activity.wf(),
        sorted.len() > 0 ==> {
            let mru = spec_assign(sorted, min_resident_size, order)[0].1.relative_last_activity;
            mru.numerator == mru.denominator
        },
        sorted.len() >= 2 && !order.spec_highest_layer_count_loses_first() ==> spec_assign(
            sorted,
            min_resident_size,
            order,
        )[sorted.len() - 1].1.relative_last_activity.numerator == 0,
        sorted.len() > 0 && order.spec_highest_layer_count_loses_first() ==> {
            let lru = spec_assign(
                sorted,
                min_resident_size,
                order,
            )[sorted.len() - 1].1.relative_last_activity;
            lru.numerator == 1 && lru.denominator == sorted.len()
        },
{
}

} // verus!
