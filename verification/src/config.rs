//! Configuration of the disk-usage-based eviction task.

use vstd::prelude::*;

verus! {

/// An integer percentage, guaranteed to lie in `0..=100`.
#[derive(Clone, Copy, Debug, PartialEq, Eq, Structural)]
pub struct Percent(u8);

impl Percent {
    /// The raw percentage value.
    pub closed spec fn spec_get(&self) -> u8 {
        self.0
    }

    /// Well-formed percentages never exceed 100.
    pub open spec fn wf(&self) -> bool {
        self.spec_get() <= 100
    }

    /// Accepts exactly the values `0..=100`.
    pub fn new(pct: u8) -> (r: Option<Percent>)
        ensures
            r is Some <==> pct <= 100,
            r matches Some(p) ==> p.spec_get() == pct && p.wf(),
    {
        if pct <= 100 {
            Some(Percent(pct))
        } else {
            None
        }
    }

    pub fn get(&self) -> (r: u8)
        ensures
            r == self.spec_get(),
    {
        self.0
    }
}

/// Selects the sort order for eviction candidates *after* the per-tenant
/// `min_resident_size` partitioning.
#[derive(Clone, Copy, Debug, PartialEq, Eq, Structural)]
pub enum EvictionOrder {
    /// Order the layers to be evicted by how recently they have been accessed
    /// in absolute time.
    ///
    /// This strategy is unfair when some tenants grow faster than others
    /// towards the slower growing.
    AbsoluteAccessed,
    /// Order the layers to be evicted by how recently they have been accessed
    /// relatively within the set of resident layers of a tenant.
    RelativeAccessed { highest_layer_count_loses_first: bool },
}

impl EvictionOrder {
    pub open spec fn spec_highest_layer_count_loses_first(&self) -> bool {
        match self {
            EvictionOrder::AbsoluteAccessed => false,
            EvictionOrder::RelativeAccessed { highest_layer_count_loses_first } =>
                *highest_layer_count_loses_first,
        }
    }

    /// Return true if, with [`EvictionOrder::RelativeAccessed`] order, the
    /// tenants with the highest layer counts should be the first ones to have
    /// their layers evicted.
    pub fn highest_layer_count_loses_first(&self) -> (r: bool)
        ensures
            r == self.spec_highest_layer_count_loses_first(),
    {
        match self {
            EvictionOrder::AbsoluteAccessed => false,
            EvictionOrder::RelativeAccessed { highest_layer_count_loses_first } =>
                *highest_layer_count_loses_first,
        }
    }
}

impl Default for EvictionOrder {
    /// The default order is by absolute last access time.
    fn default() -> (r: Self)
        ensures
            r == EvictionOrder::AbsoluteAccessed,
    {
        EvictionOrder::AbsoluteAccessed
    }
}

/// Configuration of the eviction task.
///
/// Pressure exists when the used share of the filesystem is at least
/// `max_usage_pct`, or when fewer than `min_avail_bytes` are available;
/// either threshold alone suffices. The task runs every `period_millis`
/// milliseconds, after an initial random delay within one period.
#[derive(Clone, Copy, Debug, PartialEq, Eq, Structural)]
pub struct DiskUsageEvictionTaskConfig {
    pub max_usage_pct: Percent,
    pub min_avail_bytes: u64,
    pub period_millis: u64,
    pub eviction_order: EvictionOrder,
}

impl DiskUsageEvictionTaskConfig {
    /// Well-formedness of the configuration.
    pub open spec fn wf(&self) -> bool {
        self.max_usage_pct.wf()
    }
}

} // verus!
