//! Tests of the pressure predicate and the usage snapshot.

use disk_usage_eviction::config::{DiskUsageEvictionTaskConfig, EvictionOrder, Percent};
use disk_usage_eviction::filesystem_level_usage::{get, Statvfs, Usage};
use disk_usage_eviction::usage::Usage as _;

fn testing_config(max_usage_pct: u8, min_avail_bytes: u64) -> DiskUsageEvictionTaskConfig {
    DiskUsageEvictionTaskConfig {
        max_usage_pct: Percent::new(max_usage_pct).unwrap(),
        min_avail_bytes,
        period_millis: u64::MAX,
        eviction_order: EvictionOrder::default(),
    }
}

#[test]
fn max_usage_pct_pressure() {
    let mut usage = Usage {
        config: testing_config(85, 0),
        total_bytes: 100_000,
        avail_bytes: 0,
    };

    assert!(usage.has_pressure(), "expected pressure at 100%");

    usage.add_available_bytes(14_000);
    assert!(usage.has_pressure(), "expected pressure at 86%");

    usage.add_available_bytes(999);
    assert!(usage.has_pressure(), "expected pressure at 85.001%");

    usage.add_available_bytes(1);
    assert!(usage.has_pressure(), "expected pressure at precisely 85%");

    usage.add_available_bytes(1);
    assert!(!usage.has_pressure(), "no pressure at 84.999%");

    usage.add_available_bytes(999);
    assert!(!usage.has_pressure(), "no pressure at 84%");

    usage.add_available_bytes(16_000);
    assert!(!usage.has_pressure());
}

#[test]
fn pressure_boundary_at_threshold() {
    // Exactly 85% used is still pressure; one byte more available is not.
    let at_threshold = Usage {
        config: testing_config(85, 0),
        total_bytes: 100_000,
        avail_bytes: 15_000,
    };
    assert!(at_threshold.has_pressure());

    let below_threshold = Usage {
        config: testing_config(85, 0),
        total_bytes: 100_000,
        avail_bytes: 15_001,
    };
    assert!(!below_threshold.has_pressure());
}

#[test]
fn min_avail_bytes_is_independently_sufficient() {
    // Usage percentage is far below the maximum, yet the absolute floor
    // triggers pressure on its own.
    let usage = Usage {
        config: testing_config(85, 1_000_000),
        total_bytes: 5_000_000,
        avail_bytes: 999_999,
    };
    // Only 80% used, yet fewer bytes available than the configured floor.
    assert!(usage.has_pressure());

    let relieved = Usage {
        avail_bytes: 1_000_000,
        ..usage
    };
    assert!(!relieved.has_pressure());
}

#[test]
fn pressure_formula_on_samples() {
    // has_pressure == (avail < min_avail) || (floor(100 * used / total) >= max_pct)
    let samples: [(u64, u64, u8, u64, bool); 6] = [
        (100, 1, 99, 0, true),     // 99% used
        (100, 2, 99, 0, false),    // 98% used
        (1000, 500, 50, 0, true),  // exactly 50%
        (1000, 501, 50, 0, false), // 49.9% floors to 49
        (0, 0, 0, 0, true),        // zero total: pct 0, but 0 >= 0
        (0, 0, 1, 0, false),       // zero total: pct 0 < 1 and avail not below floor
    ];
    for (total_bytes, avail_bytes, max_pct, min_avail, expected) in samples {
        let usage = Usage {
            config: testing_config(max_pct, min_avail),
            total_bytes,
            avail_bytes,
        };
        assert_eq!(usage.has_pressure(), expected, "sample ({total_bytes}, {avail_bytes}, {max_pct}, {min_avail})");
    }
}

#[test]
fn adding_available_bytes_only_relieves() {
    // A concrete check of monotonicity: freeing bytes never creates pressure.
    let mut usage = Usage {
        config: testing_config(85, 10_000),
        total_bytes: 100_000,
        avail_bytes: 20_000,
    };
    assert!(!usage.has_pressure());
    for _ in 0..8 {
        usage.add_available_bytes(10_000);
        assert!(!usage.has_pressure());
    }
}

#[test]
fn percent_accepts_only_0_to_100() {
    assert!(Percent::new(0).is_some());
    assert!(Percent::new(100).is_some());
    assert!(Percent::new(101).is_none());
    assert_eq!(Percent::new(85).unwrap().get(), 85);
}

#[test]
fn statvfs_uses_fragment_size_when_positive() {
    let config = testing_config(85, 0);
    let usage = get(
        Statvfs {
            fragment_size: 4096,
            block_size: 512,
            blocks: 1000,
            blocks_available: 250,
        },
        config,
    );
    assert_eq!(usage.total_bytes, 4096 * 1000);
    assert_eq!(usage.avail_bytes, 4096 * 250);
}

#[test]
fn statvfs_falls_back_to_block_size() {
    let config = testing_config(85, 0);
    let usage = get(
        Statvfs {
            fragment_size: 0,
            block_size: 512,
            blocks: 1000,
            blocks_available: 100,
        },
        config,
    );
    assert_eq!(usage.total_bytes, 512 * 1000);
    assert_eq!(usage.avail_bytes, 512 * 100);
}

#[test]
fn eviction_order_default_and_flag() {
    assert_eq!(EvictionOrder::default(), EvictionOrder::AbsoluteAccessed);
    assert!(!EvictionOrder::AbsoluteAccessed.highest_layer_count_loses_first());
    assert!(
        EvictionOrder::RelativeAccessed { highest_layer_count_loses_first: true }
            .highest_layer_count_loses_first()
    );
    assert!(
        !EvictionOrder::RelativeAccessed { highest_layer_count_loses_first: false }
            .highest_layer_count_loses_first()
    );
}
