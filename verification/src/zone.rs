//! Guards that stand for the exclusive use of a zone.
use vstd::prelude::*;

verus! {

/// Exclusive use of one zone, from the moment the coordinator hands it out until it is given
/// back to that coordinator. It cannot be copied, and only the coordinator makes one.
///
/// A guard carries the mark of the coordinator that it came from, and goes back only where that is
/// known to be the mark. Nothing happens when a guard is dropped: its zone then stays held for good.
#[must_use]
pub struct ZoneGuard {
    zone: usize,
    origin: Ghost<int>,
}

impl ZoneGuard {
    /// The zone that the guard holds.
    pub closed spec fn held_zone(self) -> int {
        self.zone as int
    }

    /// The mark of the coordinator that handed the guard out.
    pub closed spec fn origin(self) -> int {
        self.origin@
    }

    /// A guard for `zone`, with the mark of its coordinator.
    pub(crate) fn for_zone(zone: usize, origin: Ghost<int>) -> (guard: Self)
        ensures
            guard.held_zone() == zone,
            guard.origin() == origin@,
    {
        ZoneGuard { zone, origin }
    }

    /// The zone that the guard holds.
    pub fn zone(&self) -> (zone: usize)
        ensures
            zone == self.held_zone(),
    {
        self.zone
    }
}

} // verus!
