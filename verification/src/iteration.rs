//! The decision steps of one eviction iteration.
//!
//! An iteration is: probe, plan (collect and select victims), execute the
//! evictions, account. The asynchronous executor lives outside this crate,
//! so an iteration is driven in two steps: [`plan_iteration`] runs
//! everything up to the point where evictions must actually be issued, and
//! [`finish_iteration`] folds the reported outcomes into the final
//! [`IterationOutcome`]. At most one iteration runs at a time per [`State`];
//! an overlapping attempt is rejected.

use vstd::prelude::*;

use crate::candidates::{
    collect_eviction_candidates, spec_collect, spec_sorted_ord, EvictionCandidate,
    EvictionCandidates, MinResidentSizePartition, TenantSnapshot,
};
use crate::config::EvictionOrder;
use crate::executor::{
    account_evictions, can_account_all, spec_can_account, spec_failed_count, spec_failed_sizes,
    spec_projected_after, AssumedUsage, EvictionOutcome,
};
use crate::planner::{
    can_simulate_all, plan_evictions, spec_can_add_prefix, spec_plan_ok, PlannedUsage,
};
use crate::usage::Usage;

verus! {

/// Serializes iterations within one process: the periodic loop and any
/// ad-hoc trigger share one `State`, and only one of them may hold it.
pub struct State {
    running: bool,
}

impl State {
    /// Whether an iteration currently holds the guard.
    pub closed spec fn spec_running(&self) -> bool {
        self.running
    }

    pub fn new() -> (r: State)
        ensures
            !r.spec_running(),
    {
        State { running: false }
    }

    pub fn is_running(&self) -> (r: bool)
        ensures
            r == self.spec_running(),
    {
        self.running
    }
}

/// Why an iteration could not run to an outcome.
#[derive(Clone, Copy, Debug, PartialEq, Eq, Structural)]
pub enum IterationError {
    /// Another iteration holds the serialization guard.
    AlreadyExecuting,
    /// Simulating the evictions would overflow the byte accounting.
    AccountingOverflow,
}

/// The outcome of one iteration.
#[derive(Debug)]
pub enum IterationOutcome<U> {
    NoPressure,
    Cancelled,
    Finished(IterationOutcomeFinished<U>),
}

/// The record of a completed iteration.
#[derive(Clone, Copy, Debug)]
pub struct IterationOutcomeFinished<U> {
    /// The actual usage observed before the iteration started.
    pub before: U,
    /// The expected usage according to internal accounting, after phase 1.
    pub planned: PlannedUsage<U>,
    /// The outcome of phase 2, where the evictions actually run. If every
    /// planned eviction succeeds, its projection equals the planned one.
    pub assumed: AssumedUsage<U>,
}

/// What the caller must do after planning.
pub enum IterationPlan<U> {
    /// The iteration is already over; the guard has been released.
    Done(IterationOutcome<U>),
    /// Issue the first `evict_count` candidate evictions, then hand their
    /// outcomes to [`finish_iteration`]. The guard stays held.
    Execute {
        candidates: Vec<(MinResidentSizePartition, EvictionCandidate)>,
        planned: PlannedUsage<U>,
        evict_count: usize,
    },
}

/// Run an iteration up to the point where evictions must be issued: acquire
/// the guard (rejecting overlap), check for pressure, collect candidates
/// (honoring the cancellation token) and plan the evictions.
pub fn plan_iteration<U: Usage>(
    state: &mut State,
    usage_pre: &U,
    tenants: &Vec<TenantSnapshot>,
    eviction_order: EvictionOrder,
    cancel: &tokio_util::sync::CancellationToken,
) -> (r: Result<IterationPlan<U>, IterationError>)
    ensures
        old(state).spec_running() ==> (r matches Err(IterationError::AlreadyExecuting)
            && final(state).spec_running()),
        !old(state).spec_running() ==> {
            &&& (final(state).spec_running() <==> (r matches Ok(p) && p is Execute))
            &&& match r {
                Ok(plan) => match plan {
                    IterationPlan::Done(outcome) => match outcome {
                        IterationOutcome::NoPressure => !usage_pre.spec_has_pressure(),
                        IterationOutcome::Cancelled => usage_pre.spec_has_pressure()
                            && tenants@.len() > 0,
                        IterationOutcome::Finished(_) => false,
                    },
                    IterationPlan::Execute { candidates, planned, evict_count } => {
                        &&& usage_pre.spec_has_pressure()
                        &&& candidates@ == spec_collect(tenants@, eviction_order)
                        &&& spec_sorted_ord(eviction_order, candidates@)
                        &&& spec_can_add_prefix(
                            *usage_pre,
                            candidates@,
                            candidates@.len() as int,
                        )
                        &&& spec_plan_ok(*usage_pre, candidates@, planned, evict_count as int)
                    },
                },
                Err(e) => {
                    &&& e is AccountingOverflow
                    &&& usage_pre.spec_has_pressure()
                    &&& !spec_can_add_prefix(
                        *usage_pre,
                        spec_collect(tenants@, eviction_order),
                        spec_collect(tenants@, eviction_order).len() as int,
                    )
                },
            }
        },
{
    if state.running {
        return Err(IterationError::AlreadyExecuting);
    }
    state.running = true;

    if !usage_pre.has_pressure() {
        state.running = false;
        return Ok(IterationPlan::Done(IterationOutcome::NoPressure));
    }

    let candidates = match collect_eviction_candidates(tenants, eviction_order, cancel) {
        EvictionCandidates::Cancelled => {
            state.running = false;
            return Ok(IterationPlan::Done(IterationOutcome::Cancelled));
        },
        EvictionCandidates::Finished(partitioned) => partitioned,
    };

    if !can_simulate_all(usage_pre, &candidates) {
        state.running = false;
        return Err(IterationError::AccountingOverflow);
    }

    let (planned, evict_count) = plan_evictions(usage_pre, &candidates);
    Ok(IterationPlan::Execute { candidates, planned, evict_count })
}

/// Fold the reported eviction outcomes into the iteration's result and
/// release the guard. A cancelled execution yields `Cancelled`: no
/// `Finished` record is emitted for it.
pub fn finish_iteration<U: Usage>(
    state: &mut State,
    usage_pre: &U,
    planned: PlannedUsage<U>,
    results: &Vec<(u64, EvictionOutcome)>,
    cancelled: bool,
) -> (r: Result<IterationOutcome<U>, IterationError>)
    ensures
        !final(state).spec_running(),
        cancelled ==> (r matches Ok(o) && o is Cancelled),
        !cancelled ==> match r {
            Ok(outcome) => match outcome {
                IterationOutcome::Finished(f) => {
                    &&& f.before == *usage_pre
                    &&& f.planned == planned
                    &&& spec_can_account(*usage_pre, results@, results@.len() as int)
                    &&& spec_failed_sizes(results@, results@.len() as int) <= u64::MAX
                    &&& f.assumed.projected_after == spec_projected_after(
                        *usage_pre,
                        results@,
                        results@.len() as int,
                    )
                    &&& f.assumed.failed.count == spec_failed_count(
                        results@,
                        results@.len() as int,
                    )
                    &&& f.assumed.failed.file_sizes == spec_failed_sizes(
                        results@,
                        results@.len() as int,
                    )
                },
                _ => false,
            },
            Err(e) => e is AccountingOverflow && !(spec_can_account(
                *usage_pre,
                results@,
                results@.len() as int,
            ) && spec_failed_sizes(results@, results@.len() as int) <= u64::MAX),
        },
{
    state.running = false;

    if cancelled {
        return Ok(IterationOutcome::Cancelled);
    }

    if !can_account_all(usage_pre, results) {
        return Err(IterationError::AccountingOverflow);
    }

    let assumed = account_evictions(usage_pre, results);
    Ok(
        IterationOutcome::Finished(
            IterationOutcomeFinished { before: *usage_pre, planned, assumed },
        ),
    )
}

} // verus!
