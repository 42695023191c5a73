//! Phase 2 of an iteration: accounting for the executed evictions.
//!
//! The planned evictions run outside this crate, on a bounded task pool with
//! a per-layer timeout. Each task reports one [`EvictionOutcome`]; this
//! module turns the reported outcomes into the iteration's post-run
//! accounting: successful evictions free their bytes on the projected usage,
//! failures (including timeouts) are counted with their sizes, and task
//! errors change nothing.

use vstd::prelude::*;

use crate::usage::Usage;

verus! {

/// At most this many eviction tasks run concurrently.
pub const MAX_CONCURRENT_EVICTIONS: usize = 1000;

/// Each eviction is given this long before it counts as failed.
pub const LAYER_EVICTION_TIMEOUT_SECS: u64 = 5;

/// How the eviction of one layer ended.
#[derive(Clone, Copy, Debug, PartialEq, Eq, Structural)]
pub enum EvictionOutcome {
    /// The local copy was dropped.
    Evicted,
    /// The local copy was already gone.
    NotFound,
    /// The layer was concurrently re-downloaded.
    Downloaded,
    /// `evict_and_wait` did not finish within the per-layer budget; it may
    /// still complete later, but is counted as failed.
    TimedOut,
    /// The eviction task itself failed (for example panicked); logged by the
    /// caller, no accounting change.
    TaskError,
}

/// Count and total file size of a set of layers.
#[derive(Clone, Copy, Debug, PartialEq, Eq, Structural)]
pub struct LayerCount {
    pub file_sizes: u64,
    pub count: usize,
}

impl Default for LayerCount {
    /// No layers.
    fn default() -> (r: Self)
        ensures
            r.file_sizes == 0,
            r.count == 0,
    {
        LayerCount { file_sizes: 0, count: 0 }
    }
}

/// The executor's post-run accounting.
#[derive(Clone, Copy, Debug)]
pub struct AssumedUsage<U> {
    /// The expected usage after phase 2, by internal accounting.
    pub projected_after: U,
    /// The layers that failed to evict.
    pub failed: LayerCount,
}

/// Failed outcomes are counted and sized; a task error is not.
pub open spec fn spec_is_failure(o: EvictionOutcome) -> bool {
    o is NotFound || o is Downloaded || o is TimedOut
}

/// The projected usage after the first `k` reported outcomes: each
/// successful eviction frees its file size.
pub open spec fn spec_projected_after<U: Usage>(
    u: U,
    results: Seq<(u64, EvictionOutcome)>,
    k: int,
) -> U
    decreases k,
{
    if k <= 0 {
        u
    } else {
        let prev = spec_projected_after(u, results, k - 1);
        if results[k - 1].1 is Evicted {
            prev.spec_add(results[k - 1].0)
        } else {
            prev
        }
    }
}

/// How many of the first `k` outcomes failed.
pub open spec fn spec_failed_count(results: Seq<(u64, EvictionOutcome)>, k: int) -> int
    decreases k,
{
    if k <= 0 {
        0
    } else {
        spec_failed_count(results, k - 1) + if spec_is_failure(results[k - 1].1) {
            1int
        } else {
            0int
        }
    }
}

/// The total file size of the failures among the first `k` outcomes.
pub open spec fn spec_failed_sizes(results: Seq<(u64, EvictionOutcome)>, k: int) -> int
    decreases k,
{
    if k <= 0 {
        0
    } else {
        spec_failed_sizes(results, k - 1) + if spec_is_failure(results[k - 1].1) {
            results[k - 1].0 as int
        } else {
            0int
        }
    }
}

/// Whether accounting the successes among the first `k` outcomes stays
/// within machine limits.
pub open spec fn spec_can_account<U: Usage>(
    u: U,
    results: Seq<(u64, EvictionOutcome)>,
    k: int,
) -> bool
    decreases k,
{
    if k <= 0 {
        true
    } else {
        spec_can_account(u, results, k - 1) && (results[k - 1].1 is Evicted
            ==> spec_projected_after(u, results, k - 1).spec_can_add(results[k - 1].0))
    }
}

proof fn lemma_can_account_step<U: Usage>(
    u: U,
    results: Seq<(u64, EvictionOutcome)>,
    k: int,
    j: int,
)
    requires
        spec_can_account(u, results, k),
        0 <= j < k,
        results[j].1 is Evicted,
    ensures
        spec_projected_after(u, results, j).spec_can_add(results[j].0),
    decreases k,
{
    if j < k - 1 {
        lemma_can_account_step(u, results, k - 1, j);
    }
}

proof fn lemma_failed_count_bound(results: Seq<(u64, EvictionOutcome)>, k: int)
    requires
        0 <= k,
    ensures
        0 <= spec_failed_count(results, k) <= k,
    decreases k,
{
    if k > 0 {
        lemma_failed_count_bound(results, k - 1);
    }
}

proof fn lemma_failed_sizes_monotone(results: Seq<(u64, EvictionOutcome)>, j: int, k: int)
    requires
        0 <= j <= k,
    ensures
        0 <= spec_failed_sizes(results, j) <= spec_failed_sizes(results, k),
    decreases k - j,
{
    if j < k {
        lemma_failed_sizes_monotone(results, j, k - 1);
    } else {
        lemma_failed_sizes_nonneg(results, j);
    }
}

proof fn lemma_failed_sizes_nonneg(results: Seq<(u64, EvictionOutcome)>, k: int)
    requires
        0 <= k,
    ensures
        0 <= spec_failed_sizes(results, k),
    decreases k,
{
    if k > 0 {
        lemma_failed_sizes_nonneg(results, k - 1);
    }
}

/// Whether folding every reported outcome stays within machine limits,
/// checked at run time.
pub fn can_account_all<U: Usage>(usage: &U, results: &Vec<(u64, EvictionOutcome)>) -> (r: bool)
    ensures
        r == (spec_can_account(*usage, results@, results@.len() as int) && spec_failed_sizes(
            results@,
            results@.len() as int,
        ) <= u64::MAX),
{
    let mut probe: U = *usage;
    let mut failed_sizes: u64 = 0;
    let mut i: usize = 0;
    while i < results.len()
        invariant
            i <= results@.len(),
            probe == spec_projected_after(*usage, results@, i as int),
            spec_can_account(*usage, results@, i as int),
            failed_sizes == spec_failed_sizes(results@, i as int),
        decreases results@.len() - i,
    {
        let (file_size, outcome) = results[i];
        match outcome {
            EvictionOutcome::Evicted => {
                if !probe.can_add(file_size) {
                    proof {
                        lemma_cannot_account(*usage, results@, i as int, results@.len() as int);
                    }
                    return false;
                }
                probe.add_available_bytes(file_size);
            },
            EvictionOutcome::NotFound | EvictionOutcome::Downloaded | EvictionOutcome::TimedOut => {
                if file_size > u64::MAX - failed_sizes {
                    proof {
                        lemma_failed_sizes_monotone(results@, i + 1, results@.len() as int);
                    }
                    return false;
                }
                failed_sizes = failed_sizes + file_size;
            },
            EvictionOutcome::TaskError => {},
        }
        i += 1;
    }
    true
}

proof fn lemma_cannot_account<U: Usage>(
    u: U,
    results: Seq<(u64, EvictionOutcome)>,
    j: int,
    k: int,
)
    requires
        0 <= j < k,
        results[j].1 is Evicted,
        !spec_projected_after(u, results, j).spec_can_add(results[j].0),
    ensures
        !spec_can_account(u, results, k),
    decreases k,
{
    if j < k - 1 {
        lemma_cannot_account(u, results, j, k - 1);
    }
}

/// Fold the reported per-layer outcomes into the executor's accounting:
/// every successful eviction frees its bytes on the projected usage, every
/// failure is counted with its size, task errors change nothing.
pub fn account_evictions<U: Usage>(usage_pre: &U, results: &Vec<(u64, EvictionOutcome)>) -> (r:
    AssumedUsage<U>)
    requires
        spec_can_account(*usage_pre, results@, results@.len() as int),
        spec_failed_sizes(results@, results@.len() as int) <= u64::MAX,
    ensures
        r.projected_after == spec_projected_after(*usage_pre, results@, results@.len() as int),
        r.failed.count == spec_failed_count(results@, results@.len() as int),
        r.failed.file_sizes == spec_failed_sizes(results@, results@.len() as int),
{
    let mut usage_assumed: U = *usage_pre;
    let mut evictions_failed = LayerCount::default();
    let mut i: usize = 0;
    while i < results.len()
        invariant
            i <= results@.len(),
            spec_can_account(*usage_pre, results@, results@.len() as int),
            spec_failed_sizes(results@, results@.len() as int) <= u64::MAX,
            usage_assumed == spec_projected_after(*usage_pre, results@, i as int),
            evictions_failed.count == spec_failed_count(results@, i as int),
            evictions_failed.file_sizes == spec_failed_sizes(results@, i as int),
        decreases results@.len() - i,
    {
        let (file_size, outcome) = results[i];
        match outcome {
            EvictionOutcome::Evicted => {
                proof {
                    lemma_can_account_step(
                        *usage_pre,
                        results@,
                        results@.len() as int,
                        i as int,
                    );
                }
                usage_assumed.add_available_bytes(file_size);
            },
            EvictionOutcome::NotFound | EvictionOutcome::Downloaded | EvictionOutcome::TimedOut => {
                proof {
                    lemma_failed_count_bound(results@, i as int);
                    lemma_failed_sizes_monotone(results@, i + 1, results@.len() as int);
                    lemma_failed_sizes_nonneg(results@, i as int);
                }
                evictions_failed.file_sizes = evictions_failed.file_sizes + file_size;
                evictions_failed.count = evictions_failed.count + 1;
            },
            EvictionOutcome::TaskError => {},
        }
        i += 1;
    }
    AssumedUsage { projected_after: usage_assumed, failed: evictions_failed }
}

} // verus!
