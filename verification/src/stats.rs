//! The coordinator's running totals.
use vstd::prelude::*;

verus! {

/// What has happened since the coordinator was made.
#[derive(Debug, Clone, Copy, PartialEq, Eq, Structural)]
pub struct CoordinatorStats {
    pub total_tasks_created: u32,
    pub total_tasks_completed: u32,
    pub total_zone_access_attempts: u32,
    pub total_zone_access_grants: u32,
    /// Attempts that found the zone held.
    pub total_zone_denials: u32,
    pub total_heartbeats_received: u32,
    pub total_timeouts_detected: u32,
}

impl CoordinatorStats {
    /// Every total at zero.
    pub open spec fn zero() -> Self {
        CoordinatorStats {
            total_tasks_created: 0,
            total_tasks_completed: 0,
            total_zone_access_attempts: 0,
            total_zone_access_grants: 0,
            total_zone_denials: 0,
            total_heartbeats_received: 0,
            total_timeouts_detected: 0,
        }
    }

    /// `n` more tasks created.
    pub open spec fn plus_created(self, n: int) -> Self {
        CoordinatorStats { total_tasks_created: (self.total_tasks_created + n) as u32, ..self }
    }

    /// One more task completed.
    pub open spec fn plus_completed(self) -> Self {
        CoordinatorStats { total_tasks_completed: (self.total_tasks_completed + 1) as u32, ..self }
    }

    /// One more attempt to enter a zone.
    pub open spec fn plus_attempt(self) -> Self {
        CoordinatorStats {
            total_zone_access_attempts: (self.total_zone_access_attempts + 1) as u32,
            ..self
        }
    }

    /// One more zone granted.
    pub open spec fn plus_grant(self) -> Self {
        CoordinatorStats {
            total_zone_access_grants: (self.total_zone_access_grants + 1) as u32,
            ..self
        }
    }

    /// One more zone denied.
    pub open spec fn plus_denial(self) -> Self {
        CoordinatorStats { total_zone_denials: (self.total_zone_denials + 1) as u32, ..self }
    }

    /// One more heartbeat received.
    pub open spec fn plus_heartbeat(self) -> Self {
        CoordinatorStats {
            total_heartbeats_received: (self.total_heartbeats_received + 1) as u32,
            ..self
        }
    }

    /// `n` more timeouts detected.
    pub open spec fn plus_timeouts(self, n: int) -> Self {
        CoordinatorStats {
            total_timeouts_detected: (self.total_timeouts_detected + n) as u32,
            ..self
        }
    }
}

impl Default for CoordinatorStats {
    fn default() -> (stats: Self)
        ensures
            stats == CoordinatorStats::zero(),
    {
        CoordinatorStats {
            total_tasks_created: 0,
            total_tasks_completed: 0,
            total_zone_access_attempts: 0,
            total_zone_access_grants: 0,
            total_zone_denials: 0,
            total_heartbeats_received: 0,
            total_timeouts_detected: 0,
        }
    }
}

} // verus!
