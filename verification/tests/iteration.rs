//! End-to-end tests of planning, executing and finishing an iteration.

use disk_usage_eviction::candidates::{
    collect_candidates, MinResidentSizePartition, ResidentLayer, TenantSnapshot, TimelineSnapshot,
};
use disk_usage_eviction::config::{DiskUsageEvictionTaskConfig, EvictionOrder, Percent};
use disk_usage_eviction::executor::{
    account_evictions, EvictionOutcome, LAYER_EVICTION_TIMEOUT_SECS, MAX_CONCURRENT_EVICTIONS,
};
use disk_usage_eviction::filesystem_level_usage::Usage;
use disk_usage_eviction::iteration::{
    finish_iteration, plan_iteration, IterationError, IterationOutcome, IterationPlan, State,
};
use disk_usage_eviction::planner::plan_evictions;

fn config(max_usage_pct: u8, min_avail_bytes: u64) -> DiskUsageEvictionTaskConfig {
    DiskUsageEvictionTaskConfig {
        max_usage_pct: Percent::new(max_usage_pct).unwrap(),
        min_avail_bytes,
        period_millis: 60_000,
        eviction_order: EvictionOrder::AbsoluteAccessed,
    }
}

fn layer(layer_id: u64, file_size: u64, last_activity_ts: u64) -> ResidentLayer {
    ResidentLayer { layer_id, file_size, last_activity_ts }
}

fn tenant_of(tenant_id: u64, layers: Vec<ResidentLayer>) -> TenantSnapshot {
    let max_layer_size = layers.iter().map(|l| l.file_size).max();
    TenantSnapshot {
        tenant_id,
        shutting_down: false,
        min_resident_size_override: Some(150),
        timelines: vec![TimelineSnapshot {
            timeline_id: 1,
            is_active: true,
            resident_layers: layers,
            max_layer_size,
        }],
    }
}

/// Two tenants, five layers of 100 bytes each, reservation 150.
fn two_tenant_snapshot() -> Vec<TenantSnapshot> {
    vec![
        tenant_of(
            1,
            vec![
                layer(1, 100, 2003),
                layer(2, 100, 1900),
                layer(3, 100, 1830),
                layer(4, 100, 2030),
                layer(5, 100, 2058),
            ],
        ),
        tenant_of(
            2,
            vec![
                layer(1, 100, 2000),
                layer(2, 100, 1905),
                layer(3, 100, 1829),
                layer(4, 100, 2040),
                layer(5, 100, 2045),
            ],
        ),
    ]
}

#[test]
fn no_pressure_iteration_short_circuits() {
    // 1 GiB total, 900 MiB available: far below 85% used.
    let usage = Usage {
        config: config(85, 0),
        total_bytes: 1 << 30,
        avail_bytes: 900 << 20,
    };
    let mut state = State::new();
    let token = tokio_util::sync::CancellationToken::new();
    let plan = plan_iteration(&mut state, &usage, &two_tenant_snapshot(), EvictionOrder::AbsoluteAccessed, &token);
    assert!(matches!(plan, Ok(IterationPlan::Done(IterationOutcome::NoPressure))));
    assert!(!state.is_running());
}

#[test]
fn reservation_suffices_for_small_pressure() {
    // Pressure wants 300 bytes: the three oldest Above layers are planned,
    // and the reservation is respected.
    let usage = Usage {
        config: config(100, 300),
        total_bytes: 100_000,
        avail_bytes: 0,
    };
    let candidates = collect_candidates(&two_tenant_snapshot(), EvictionOrder::AbsoluteAccessed);
    let (planned, evict_count) = plan_evictions(&usage, &candidates);
    assert_eq!(evict_count, 3);
    assert!(planned.fallback_to_global_lru.is_none());
    assert_eq!(planned.respecting_tenant_min_resident_size.avail_bytes, 300);
    let victims: Vec<(u64, u64)> = candidates[..evict_count]
        .iter()
        .map(|(_, c)| (c.layer.tenant_id, c.layer.layer_id))
        .collect();
    assert_eq!(victims, vec![(2, 3), (1, 3), (1, 2)]);
}

#[test]
fn reservation_insufficient_falls_back_to_global_lru() {
    // Pressure wants 900 bytes: all six Above candidates and three Below
    // candidates are planned, and the fallback projection is recorded.
    let usage = Usage {
        config: config(100, 900),
        total_bytes: 100_000,
        avail_bytes: 0,
    };
    let candidates = collect_candidates(&two_tenant_snapshot(), EvictionOrder::AbsoluteAccessed);
    let (planned, evict_count) = plan_evictions(&usage, &candidates);
    assert_eq!(evict_count, 9);
    assert!(candidates[..6]
        .iter()
        .all(|(p, _)| *p == MinResidentSizePartition::Above));
    assert!(candidates[6..]
        .iter()
        .all(|(p, _)| *p == MinResidentSizePartition::Below));
    // The reservation-respecting projection stops at the Above partition.
    assert_eq!(planned.respecting_tenant_min_resident_size.avail_bytes, 600);
    let fallback = planned.fallback_to_global_lru.expect("fallback must be recorded");
    assert_eq!(fallback.avail_bytes, 900);
}

#[test]
fn execution_failures_are_counted() {
    // Ten planned candidates: 2 NotFound, 1 timeout, 7 successes. The
    // projection frees the seven successful sizes; the three failures are
    // counted with theirs.
    let usage = Usage {
        config: config(100, 1_000),
        total_bytes: 100_000,
        avail_bytes: 0,
    };
    let results: Vec<(u64, EvictionOutcome)> = vec![
        (100, EvictionOutcome::Evicted),
        (101, EvictionOutcome::NotFound),
        (102, EvictionOutcome::Evicted),
        (103, EvictionOutcome::Evicted),
        (104, EvictionOutcome::NotFound),
        (105, EvictionOutcome::Evicted),
        (106, EvictionOutcome::TimedOut),
        (107, EvictionOutcome::Evicted),
        (108, EvictionOutcome::Evicted),
        (109, EvictionOutcome::Evicted),
    ];
    let assumed = account_evictions(&usage, &results);
    assert_eq!(
        assumed.projected_after.avail_bytes,
        100 + 102 + 103 + 105 + 107 + 108 + 109
    );
    assert_eq!(assumed.failed.count, 3);
    assert_eq!(assumed.failed.file_sizes, 101 + 104 + 106);
}

#[test]
fn downloaded_layers_count_as_failures() {
    // A concurrently re-downloaded layer keeps its bytes on disk: it is
    // accounted exactly like a failed eviction.
    let usage = Usage {
        config: config(100, 1_000),
        total_bytes: 100_000,
        avail_bytes: 0,
    };
    let results: Vec<(u64, EvictionOutcome)> = vec![
        (40, EvictionOutcome::Downloaded),
        (60, EvictionOutcome::Evicted),
    ];
    let assumed = account_evictions(&usage, &results);
    assert_eq!(assumed.projected_after.avail_bytes, 60);
    assert_eq!(assumed.failed.count, 1);
    assert_eq!(assumed.failed.file_sizes, 40);
}

#[test]
fn task_errors_change_no_accounting() {
    let usage = Usage {
        config: config(100, 1_000),
        total_bytes: 100_000,
        avail_bytes: 50,
    };
    let results: Vec<(u64, EvictionOutcome)> = vec![
        (10, EvictionOutcome::TaskError),
        (20, EvictionOutcome::Evicted),
        (30, EvictionOutcome::TaskError),
    ];
    let assumed = account_evictions(&usage, &results);
    assert_eq!(assumed.projected_after.avail_bytes, 70);
    assert_eq!(assumed.failed.count, 0);
    assert_eq!(assumed.failed.file_sizes, 0);
}

#[test]
fn cancellation_mid_execute_yields_cancelled() {
    // The executor was cancelled with work in flight: the iteration ends in
    // Cancelled, and no Finished record is emitted.
    let usage = Usage {
        config: config(100, 900),
        total_bytes: 100_000,
        avail_bytes: 0,
    };
    let mut state = State::new();
    let token = tokio_util::sync::CancellationToken::new();
    let plan = plan_iteration(&mut state, &usage, &two_tenant_snapshot(), EvictionOrder::AbsoluteAccessed, &token);
    let planned = match plan {
        Ok(IterationPlan::Execute { planned, .. }) => planned,
        _ => panic!("pressure exists, the iteration must reach execution"),
    };
    assert!(state.is_running());
    // Partial results were gathered before cancellation; they do not matter.
    let partial: Vec<(u64, EvictionOutcome)> = vec![(100, EvictionOutcome::Evicted)];
    let outcome = finish_iteration(&mut state, &usage, planned, &partial, true);
    match outcome {
        Ok(IterationOutcome::Cancelled) => {}
        Ok(IterationOutcome::Finished(_)) => panic!("no Finished record may be emitted"),
        _ => panic!("expected the Cancelled outcome"),
    }
    assert!(!state.is_running());
}

#[test]
fn overlapping_iteration_is_rejected() {
    let usage = Usage {
        config: config(100, 900),
        total_bytes: 100_000,
        avail_bytes: 0,
    };
    let mut state = State::new();
    let token = tokio_util::sync::CancellationToken::new();
    let first = plan_iteration(&mut state, &usage, &two_tenant_snapshot(), EvictionOrder::AbsoluteAccessed, &token);
    let planned = match first {
        Ok(IterationPlan::Execute { planned, .. }) => planned,
        _ => panic!("pressure exists, the iteration must reach execution"),
    };
    // A second caller tries to run an iteration while the first executes.
    let second = plan_iteration(&mut state, &usage, &two_tenant_snapshot(), EvictionOrder::AbsoluteAccessed, &token);
    assert!(matches!(second, Err(IterationError::AlreadyExecuting)));
    // After the first iteration finishes, the guard is free again.
    let outcome = finish_iteration(&mut state, &usage, planned, &Vec::new(), false);
    assert!(matches!(outcome, Ok(IterationOutcome::Finished(_))));
    let third = plan_iteration(&mut state, &usage, &two_tenant_snapshot(), EvictionOrder::AbsoluteAccessed, &token);
    assert!(matches!(third, Ok(IterationPlan::Execute { .. })));
}

#[test]
fn finished_iteration_records_all_three_projections() {
    let usage = Usage {
        config: config(100, 300),
        total_bytes: 100_000,
        avail_bytes: 0,
    };
    let mut state = State::new();
    let token = tokio_util::sync::CancellationToken::new();
    let (candidates, planned, evict_count) = match plan_iteration(
        &mut state,
        &usage,
        &two_tenant_snapshot(),
        EvictionOrder::AbsoluteAccessed,
        &token,
    ) {
        Ok(IterationPlan::Execute { candidates, planned, evict_count }) => {
            (candidates, planned, evict_count)
        }
        _ => panic!("pressure exists, the iteration must reach execution"),
    };
    assert_eq!(evict_count, 3);
    // Execute: two succeed, one times out.
    let results: Vec<(u64, EvictionOutcome)> = vec![
        (candidates[0].1.layer.file_size, EvictionOutcome::Evicted),
        (candidates[1].1.layer.file_size, EvictionOutcome::TimedOut),
        (candidates[2].1.layer.file_size, EvictionOutcome::Evicted),
    ];
    let outcome = finish_iteration(&mut state, &usage, planned, &results, false);
    match outcome {
        Ok(IterationOutcome::Finished(f)) => {
            assert_eq!(f.before.avail_bytes, 0);
            assert_eq!(f.planned.respecting_tenant_min_resident_size.avail_bytes, 300);
            assert_eq!(f.assumed.projected_after.avail_bytes, 200);
            assert_eq!(f.assumed.failed.count, 1);
            assert_eq!(f.assumed.failed.file_sizes, 100);
        }
        _ => panic!("expected a finished iteration"),
    }
}

#[test]
fn accounting_overflow_is_rejected_not_wrapped() {
    // An absurd snapshot whose simulation would overflow the byte counter is
    // rejected with a distinct error instead of wrapping around.
    let usage = Usage {
        config: config(100, u64::MAX),
        total_bytes: u64::MAX,
        avail_bytes: u64::MAX - 50,
    };
    let mut state = State::new();
    let token = tokio_util::sync::CancellationToken::new();
    let tenants = vec![tenant_of(1, vec![layer(1, 100, 10), layer(2, 100, 20)])];
    let plan = plan_iteration(&mut state, &usage, &tenants, EvictionOrder::AbsoluteAccessed, &token);
    assert!(matches!(plan, Err(IterationError::AccountingOverflow)));
    assert!(!state.is_running());

    let results: Vec<(u64, EvictionOutcome)> = vec![(100, EvictionOutcome::Evicted)];
    let outcome = finish_iteration(&mut state, &usage, planned_stub(&usage), &results, false);
    assert!(matches!(outcome, Err(IterationError::AccountingOverflow)));
}

fn planned_stub(usage: &Usage) -> disk_usage_eviction::planner::PlannedUsage<Usage> {
    disk_usage_eviction::planner::PlannedUsage {
        respecting_tenant_min_resident_size: *usage,
        fallback_to_global_lru: None,
    }
}

#[test]
fn executor_constants_are_the_tuned_values() {
    assert_eq!(MAX_CONCURRENT_EVICTIONS, 1000);
    assert_eq!(LAYER_EVICTION_TIMEOUT_SECS, 5);
}
