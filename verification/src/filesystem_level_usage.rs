//! Filesystem-level usage snapshots and the pressure predicate.
//!
//! A snapshot records the capacity and the available bytes of the filesystem
//! holding the tenant data. Pressure exists when either threshold of the
//! configuration is crossed: fewer available bytes than `min_avail_bytes`, or
//! a used percentage of at least `max_usage_pct`.

use vstd::arithmetic::div_mod::{
    lemma_div_is_ordered, lemma_div_pos_is_pos, lemma_multiply_divide_lt,
};
use vstd::prelude::*;

use crate::config::DiskUsageEvictionTaskConfig;
use crate::usage;

verus! {

/// The integer percentage of the filesystem that is used:
/// `floor(100 * (1 - avail / total))`.
///
/// When `avail >= total` (including a zero-sized filesystem) the used share
/// is taken as zero.
pub open spec fn spec_usage_pct(total_bytes: u64, avail_bytes: u64) -> int {
    if avail_bytes >= total_bytes {
        0
    } else {
        (100 * (total_bytes - avail_bytes)) / (total_bytes as int)
    }
}

/// The pressure predicate: available bytes below the configured minimum, or
/// used percentage at or above the configured maximum. Either threshold is
/// independently sufficient.
pub open spec fn spec_pressure(
    total_bytes: u64,
    avail_bytes: u64,
    max_usage_pct: u8,
    min_avail_bytes: u64,
) -> bool {
    ||| avail_bytes < min_avail_bytes
    ||| spec_usage_pct(total_bytes, avail_bytes) >= max_usage_pct
}

/// The used percentage always lies in `0..=100`.
pub proof fn lemma_usage_pct_bounds(total_bytes: u64, avail_bytes: u64)
    ensures
        0 <= spec_usage_pct(total_bytes, avail_bytes) <= 100,
{
    if avail_bytes < total_bytes {
        let diff = total_bytes - avail_bytes;
        lemma_div_pos_is_pos(100 * diff, total_bytes as int);
        assert(100 * diff < (total_bytes as int) * 101) by (nonlinear_arith)
            requires
                0 < diff <= total_bytes,
        ;
        lemma_multiply_divide_lt(100 * diff, total_bytes as int, 101);
    }
}

/// More available bytes never means a higher used percentage.
pub proof fn lemma_usage_pct_anti_monotone(total_bytes: u64, avail1: u64, avail2: u64)
    requires
        avail1 <= avail2,
    ensures
        spec_usage_pct(total_bytes, avail2) <= spec_usage_pct(total_bytes, avail1),
{
    if avail2 < total_bytes {
        lemma_div_is_ordered(
            100 * (total_bytes - avail2),
            100 * (total_bytes - avail1),
            total_bytes as int,
        );
    } else {
        lemma_usage_pct_bounds(total_bytes, avail1);
    }
}

/// A filesystem usage snapshot together with the thresholds it is judged by.
#[derive(Clone, Copy, Debug)]
pub struct Usage {
    pub config: DiskUsageEvictionTaskConfig,
    /// Filesystem capacity.
    pub total_bytes: u64,
    /// Available (unprivileged-accessible) filesystem space.
    pub avail_bytes: u64,
}

impl usage::Usage for Usage {
    open spec fn spec_has_pressure(&self) -> bool {
        spec_pressure(
            self.total_bytes,
            self.avail_bytes,
            self.config.max_usage_pct.spec_get(),
            self.config.min_avail_bytes,
        )
    }

    open spec fn spec_add(&self, bytes: u64) -> Self {
        Usage { avail_bytes: (self.avail_bytes + bytes) as u64, ..*self }
    }

    open spec fn spec_can_add(&self, bytes: u64) -> bool {
        self.avail_bytes + bytes <= u64::MAX
    }

    fn has_pressure(&self) -> (r: bool) {
        let usage_pct: u64 = if self.avail_bytes >= self.total_bytes {
            0
        } else {
            let diff: u128 = (self.total_bytes - self.avail_bytes) as u128;
            proof {
                lemma_usage_pct_bounds(self.total_bytes, self.avail_bytes);
            }
            ((100 * diff) / (self.total_bytes as u128)) as u64
        };
        assert(usage_pct == spec_usage_pct(self.total_bytes, self.avail_bytes));

        self.avail_bytes < self.config.min_avail_bytes
            || usage_pct >= self.config.max_usage_pct.get() as u64
    }

    fn can_add(&self, bytes: u64) -> (r: bool) {
        bytes <= u64::MAX - self.avail_bytes
    }

    fn add_available_bytes(&mut self, bytes: u64) {
        self.avail_bytes = self.avail_bytes + bytes;
    }
}

/// Freeing bytes only ever relieves pressure: if a snapshot still reports
/// pressure after bytes were added, it already reported pressure before.
pub proof fn lemma_add_available_bytes_monotone(u: Usage, bytes: u64)
    requires
        u.avail_bytes + bytes <= u64::MAX,
    ensures
        usage::Usage::spec_has_pressure(&usage::Usage::spec_add(&u, bytes))
            ==> usage::Usage::spec_has_pressure(&u),
{
    lemma_usage_pct_anti_monotone(u.total_bytes, u.avail_bytes, (u.avail_bytes + bytes) as u64);
}

/// The raw numbers a `statvfs` probe of the tenants directory reports, as far
/// as the engine reads them.
#[derive(Clone, Copy, Debug, PartialEq, Eq, Structural)]
pub struct Statvfs {
    pub fragment_size: u64,
    pub block_size: u64,
    pub blocks: u64,
    pub blocks_available: u64,
}

impl Statvfs {
    /// The authoritative block size: the fragment size when positive,
    /// otherwise the block size.
    pub open spec fn spec_blocksize(&self) -> u64 {
        if self.fragment_size > 0 {
            self.fragment_size
        } else {
            self.block_size
        }
    }
}

/// Turn a `statvfs` probe result into a usage snapshot:
/// `avail_bytes = blocks_available * blocksize` and
/// `total_bytes = blocks * blocksize`, always using the
/// unprivileged-accessible "available" counter.
pub fn get(stat: Statvfs, config: DiskUsageEvictionTaskConfig) -> (r: Usage)
    requires
        stat.blocks * stat.spec_blocksize() <= u64::MAX,
        stat.blocks_available * stat.spec_blocksize() <= u64::MAX,
    ensures
        r.config == config,
        r.total_bytes == stat.blocks * stat.spec_blocksize(),
        r.avail_bytes == stat.blocks_available * stat.spec_blocksize(),
{
    let blocksize = if stat.fragment_size > 0 {
        stat.fragment_size
    } else {
        stat.block_size
    };

    let avail_bytes = stat.blocks_available * blocksize;
    let total_bytes = stat.blocks * blocksize;

    Usage { config, total_bytes, avail_bytes }
}

} // verus!
