//! Phase 1 of an iteration: deciding how many candidates must be evicted.
//!
//! The planner walks the ordered candidate list, simulating each eviction on
//! the pressure-triggering usage snapshot, and stops as soon as the projected
//! usage no longer reports pressure. If it has to reach into the `Below`
//! partition — breaking tenant reservations and falling back to global LRU —
//! it records the projection at that point separately.

use vstd::prelude::*;

use crate::candidates::{EvictionCandidate, MinResidentSizePartition};
use crate::usage::Usage;

verus! {

/// The projected usage if every planned eviction succeeds.
#[derive(Clone, Copy, Debug)]
pub struct PlannedUsage<U> {
    /// The projection right before the plan (if ever) reached into the
    /// `Below` partition; the final projection when it never did.
    pub respecting_tenant_min_resident_size: U,
    /// The final projection, present exactly when the plan reached into the
    /// `Below` partition.
    pub fallback_to_global_lru: Option<U>,
}

/// The usage snapshot after the first `k` candidates have all been evicted.
pub open spec fn spec_usage_after<U: Usage>(
    u: U,
    cands: Seq<(MinResidentSizePartition, EvictionCandidate)>,
    k: int,
) -> U
    decreases k,
{
    if k <= 0 {
        u
    } else {
        spec_usage_after(u, cands, k - 1).spec_add(cands[k - 1].1.layer.file_size)
    }
}

/// Whether simulating the first `k` evictions stays within machine limits.
pub open spec fn spec_can_add_prefix<U: Usage>(
    u: U,
    cands: Seq<(MinResidentSizePartition, EvictionCandidate)>,
    k: int,
) -> bool
    decreases k,
{
    if k <= 0 {
        true
    } else {
        spec_can_add_prefix(u, cands, k - 1) && spec_usage_after(u, cands, k - 1).spec_can_add(
            cands[k - 1].1.layer.file_size,
        )
    }
}

proof fn lemma_can_add_prefix_step<U: Usage>(
    u: U,
    cands: Seq<(MinResidentSizePartition, EvictionCandidate)>,
    k: int,
    j: int,
)
    requires
        spec_can_add_prefix(u, cands, k),
        0 <= j < k,
    ensures
        spec_usage_after(u, cands, j).spec_can_add(cands[j].1.layer.file_size),
    decreases k,
{
    if j < k - 1 {
        lemma_can_add_prefix_step(u, cands, k - 1, j);
    }
}

/// The position of the first planned candidate that lies in the `Below`
/// partition, if the first `k` contain one: the point where the plan breaks
/// tenant reservations.
pub open spec fn spec_first_below(
    cands: Seq<(MinResidentSizePartition, EvictionCandidate)>,
    k: int,
) -> Option<int>
    decreases k,
{
    if k <= 0 {
        None
    } else {
        match spec_first_below(cands, k - 1) {
            Some(w) => Some(w),
            None => if cands[k - 1].0 is Below {
                Some(k - 1)
            } else {
                None
            },
        }
    }
}

/// What a correct plan looks like: `k` is the length of the shortest prefix
/// whose eviction relieves pressure (the whole list when nothing suffices),
/// the fallback projection is present exactly when that prefix reaches into
/// the `Below` partition, and the reservation-respecting projection is
/// snapshotted right before the first `Below` candidate (or is the final
/// projection when the reservation held).
pub open spec fn spec_plan_ok<U: Usage>(
    usage_pre: U,
    cands: Seq<(MinResidentSizePartition, EvictionCandidate)>,
    planned: PlannedUsage<U>,
    k: int,
) -> bool {
    &&& 0 <= k <= cands.len()
    &&& forall|j: int| 0 <= j < k ==> spec_usage_after(usage_pre, cands, j).spec_has_pressure()
    &&& k < cands.len() ==> !spec_usage_after(usage_pre, cands, k).spec_has_pressure()
    &&& planned.fallback_to_global_lru == (match spec_first_below(cands, k) {
        Some(_) => Some(spec_usage_after(usage_pre, cands, k)),
        None => None::<U>,
    })
    &&& planned.respecting_tenant_min_resident_size == (match spec_first_below(cands, k) {
        Some(w) => spec_usage_after(usage_pre, cands, w),
        None => spec_usage_after(usage_pre, cands, k),
    })
}

/// Whether simulating every candidate's eviction on `usage` stays within
/// machine limits, checked at run time.
pub fn can_simulate_all<U: Usage>(
    usage: &U,
    candidates: &Vec<(MinResidentSizePartition, EvictionCandidate)>,
) -> (r: bool)
    ensures
        r == spec_can_add_prefix(*usage, candidates@, candidates@.len() as int),
{
    let mut probe: U = *usage;
    let mut i: usize = 0;
    while i < candidates.len()
        invariant
            i <= candidates@.len(),
            probe == spec_usage_after(*usage, candidates@, i as int),
            spec_can_add_prefix(*usage, candidates@, i as int),
        decreases candidates@.len() - i,
    {
        let bytes = candidates[i].1.layer.file_size;
        if !probe.can_add(bytes) {
            proof {
                lemma_cannot_add_prefix(*usage, candidates@, i as int, candidates@.len() as int);
            }
            return false;
        }
        probe.add_available_bytes(bytes);
        i += 1;
    }
    true
}

proof fn lemma_cannot_add_prefix<U: Usage>(
    u: U,
    cands: Seq<(MinResidentSizePartition, EvictionCandidate)>,
    j: int,
    k: int,
)
    requires
        0 <= j < k,
        !spec_usage_after(u, cands, j).spec_can_add(cands[j].1.layer.file_size),
    ensures
        !spec_can_add_prefix(u, cands, k),
    decreases k,
{
    if j < k - 1 {
        lemma_cannot_add_prefix(u, cands, j, k - 1);
    }
}

/// Walk the ordered candidates, accumulating projected evictions on
/// `usage_pre`, and return the projections together with the number of
/// candidates to evict: the shortest prefix whose eviction relieves pressure
/// (all of them when even that does not suffice).
pub fn plan_evictions<U: Usage>(
    usage_pre: &U,
    candidates: &Vec<(MinResidentSizePartition, EvictionCandidate)>,
) -> (r: (PlannedUsage<U>, usize))
    requires
        spec_can_add_prefix(*usage_pre, candidates@, candidates@.len() as int),
    ensures
        spec_plan_ok(*usage_pre, candidates@, r.0, r.1 as int),
{
    let mut usage_planned: U = *usage_pre;
    let mut warned: Option<U> = None;
    let mut i: usize = 0;
    while i < candidates.len() && usage_planned.has_pressure()
        invariant
            i <= candidates@.len(),
            spec_can_add_prefix(*usage_pre, candidates@, candidates@.len() as int),
            usage_planned == spec_usage_after(*usage_pre, candidates@, i as int),
            forall|j: int|
                0 <= j < i ==> spec_usage_after(*usage_pre, candidates@, j).spec_has_pressure(),
            match spec_first_below(candidates@, i as int) {
                Some(w) => warned == Some(spec_usage_after(*usage_pre, candidates@, w)),
                None => warned is None,
            },
        decreases candidates@.len() - i,
    {
        let entry = candidates[i];
        if entry.0 == MinResidentSizePartition::Below && warned.is_none() {
            // The reservation-respecting plan cannot absorb the pressure:
            // remember the projection at the point of fallback.
            warned = Some(usage_planned);
        }
        proof {
            lemma_can_add_prefix_step(
                *usage_pre,
                candidates@,
                candidates@.len() as int,
                i as int,
            );
        }
        usage_planned.add_available_bytes(entry.1.layer.file_size);
        i += 1;
    }
    let planned = match warned {
        Some(respecting) => PlannedUsage {
            respecting_tenant_min_resident_size: respecting,
            fallback_to_global_lru: Some(usage_planned),
        },
        None => PlannedUsage {
            respecting_tenant_min_resident_size: usage_planned,
            fallback_to_global_lru: None,
        },
    };
    (planned, i)
}

} // verus!
