//! Disk-usage-driven layer eviction engine for a multi-tenant page-storage
//! service.
//!
//! When the filesystem holding tenant data runs low on space, the engine
//! selects resident layers to evict (dropping the local copy while keeping the
//! remote one) until internal accounting says the node is back below the
//! configured thresholds, while trying to keep a minimum resident working set
//! per tenant.
//!
//! The engine is split into a filesystem probe ([`filesystem_level_usage`]),
//! a candidate collector ([`candidates`]), a planner ([`planner`]), the
//! executor's accounting ([`executor`]) and the per-iteration decision steps
//! ([`iteration`]). Asynchronous plumbing (timers, task pools, the actual
//! eviction calls) lives outside this crate and drives these steps.

pub mod cancel;
pub mod candidates;
pub mod config;
pub mod executor;
pub mod filesystem_level_usage;
pub mod iteration;
pub mod planner;
pub mod rel;
pub mod usage;
