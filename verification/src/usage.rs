//! The capability through which the planner and the executor's accounting see
//! filesystem usage.
//!
//! The engine treats a usage snapshot abstractly: it can ask whether the
//! snapshot is under disk pressure, and it can simulate freeing bytes. Both
//! the real filesystem probe and mock probes implement this trait.

use vstd::prelude::*;

verus! {

/// A snapshot of filesystem usage, as far as the eviction engine cares:
/// it either is or is not under pressure, and freeing bytes moves it towards
/// relief.
pub trait Usage: Sized + Clone + Copy {
    /// Whether this snapshot is under disk pressure.
    spec fn spec_has_pressure(&self) -> bool;

    /// The snapshot after `bytes` more bytes have become available.
    spec fn spec_add(&self, bytes: u64) -> Self;

    /// Whether accounting `bytes` more available bytes stays within machine
    /// limits.
    spec fn spec_can_add(&self, bytes: u64) -> bool;

    fn has_pressure(&self) -> (r: bool)
        ensures
            r == self.spec_has_pressure(),
    ;

    fn can_add(&self, bytes: u64) -> (r: bool)
        ensures
            r == self.spec_can_add(bytes),
    ;

    fn add_available_bytes(&mut self, bytes: u64)
        requires
            old(self).spec_can_add(bytes),
        ensures
            *final(self) == old(self).spec_add(bytes),
    ;
}

} // verus!
