//! Zones: each is held by at most one guard at a time.
use crate::coordinator::RobotCoordinator;
use crate::robot::RobotStatus;
use crate::text;
use crate::zone::ZoneGuard;
use vstd::prelude::*;

verus! {

impl RobotCoordinator {
    /// Asks for exclusive use of `zone` on behalf of robot `robot_id`. The zone stays held until
    /// the guard is given back, with `leave_zone` or `release_zone`.
    pub fn request_zone(&mut self, robot_id: u32, zone: usize) -> (answer: Result<
        ZoneGuard,
        String,
    >)
        requires
            old(self).wf(),
            old(self)@.stats.total_zone_access_attempts < u32::MAX,
        ensures
            final(self).wf(),
            final(self).origin() == old(self).origin(),
            final(self)@ == old(self)@.zone_requested(robot_id, zone as int),
            match answer {
                Ok(zone_guard) => {
                    &&& old(self)@.zone_refusal(robot_id, zone as int) is None
                    &&& zone_guard.held_zone() == zone
                    &&& zone_guard.origin() == old(self).origin()
                },
                Err(message) => old(self)@.zone_refusal(robot_id, zone as int) == Some(message@),
            },
    {
        self.stats.total_zone_access_attempts = self.stats.total_zone_access_attempts + 1;

        if zone >= self.zones.len() {
            return Err(text::numbered_message("Zone ", zone as u64, " does not exist"));
        }
        match self.find_robot(robot_id) {
            None => Err(text::numbered_message("Robot ", robot_id as u64, " not found")),
            Some(index) => {
                if self.robots[index].status == RobotStatus::Offline {
                    return Err(text::numbered_message("Robot ", robot_id as u64, " is offline"));
                }
                if self.zones[zone] {
                    self.stats.total_zone_denials = self.stats.total_zone_denials + 1;
                    return Err(text::numbered_message("Zone ", zone as u64, " is occupied"));
                }
                self.zones[zone] = true;
                self.robots[index].current_zone = Some(zone as u32);
                self.stats.total_zone_access_grants = self.stats.total_zone_access_grants + 1;
                Ok(ZoneGuard::for_zone(zone, self.origin))
            },
        }
    }

    /// Gives the guard back and records that robot `robot_id` left `zone`. The answer is whether
    /// the robot stood in that zone; the guard is taken back in any case.
    ///
    /// The guard must be one of this coordinator's own. Where it is not, the robot leaves with
    /// `record_departure`, and the guard goes back to its own coordinator with `release_zone`.
    pub fn leave_zone(&mut self, zone_guard: ZoneGuard, robot_id: u32, zone: usize) -> (left: bool)
        requires
            old(self).wf(),
            zone_guard.origin() == old(self).origin(),
        ensures
            final(self).wf(),
            final(self).origin() == old(self).origin(),
            final(self)@ == old(self)@.zone_left(zone_guard.held_zone(), robot_id, zone as int),
            left == old(self)@.may_leave(robot_id, zone as int),
    {
        self.release_zone(zone_guard);
        self.record_departure(robot_id, zone)
    }

    /// Records that robot `robot_id` left `zone`, and takes no guard back. The answer is whether
    /// the robot stood in that zone.
    pub fn record_departure(&mut self, robot_id: u32, zone: usize) -> (left: bool)
        requires
            old(self).wf(),
        ensures
            final(self).wf(),
            final(self).origin() == old(self).origin(),
            final(self)@ == old(self)@.departed(robot_id, zone as int),
            left == old(self)@.may_leave(robot_id, zone as int),
    {
        if zone >= self.zones.len() {
            return false;
        }
        match self.find_robot(robot_id) {
            None => false,
            Some(index) => {
                if self.robots[index].current_zone == Some(zone as u32) {
                    self.robots[index].current_zone = None;
                    true
                } else {
                    false
                }
            },
        }
    }

    /// Gives the guard back and nothing more: what a robot that goes away does to its zone.
    pub fn release_zone(&mut self, zone_guard: ZoneGuard)
        requires
            old(self).wf(),
            zone_guard.origin() == old(self).origin(),
        ensures
            final(self).wf(),
            final(self).origin() == old(self).origin(),
            final(self)@ == old(self)@.zone_released(zone_guard.held_zone()),
    {
        let zone: usize = zone_guard.zone();
        if zone < self.zones.len() {
            self.zones[zone] = false;
        }
    }

    /// Whether `zone` is held. A zone that does not exist is not.
    pub fn is_zone_occupied(&self, zone: usize) -> (occupied: bool)
        ensures
            occupied == self@.zone_held(zone as int),
    {
        zone < self.zones.len() && self.zones[zone]
    }
}

} // verus!
