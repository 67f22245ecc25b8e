//! Heartbeats: who is heard of, and who has fallen silent.
use crate::clock;
use crate::coordinator::RobotCoordinator;
use crate::filtering;
use crate::model::CoordinatorState;
use crate::robot::{Robot, RobotStatus};
use std::time::Instant;
use vstd::prelude::*;

verus! {

/// The pause between two sweeps of the heartbeat monitor.
pub const MONITOR_INTERVAL_MS: u64 = 500;

impl RobotCoordinator {
    /// Records a heartbeat of robot `robot_id` at `now`. The answer is whether there is such a
    /// robot.
    pub fn heartbeat_at(&mut self, robot_id: u32, now: Instant) -> (known: bool)
        requires
            old(self).wf(),
            old(self)@.has_robot(robot_id) ==> old(self)@.stats.total_heartbeats_received < u32::MAX,
        ensures
            final(self).wf(),
            final(self).origin() == old(self).origin(),
            final(self)@ == old(self)@.heartbeat_received(robot_id, now),
            known == old(self)@.has_robot(robot_id),
    {
        match self.find_robot(robot_id) {
            None => false,
            Some(index) => {
                self.robots[index].heartbeat_at(now);
                self.stats.total_heartbeats_received = self.stats.total_heartbeats_received + 1;
                true
            },
        }
    }

    /// Records a heartbeat of robot `robot_id` at the present reading of the clock.
    pub fn heartbeat(&mut self, robot_id: u32) -> (known: bool)
        requires
            old(self).wf(),
            old(self)@.has_robot(robot_id) ==> old(self)@.stats.total_heartbeats_received < u32::MAX,
        ensures
            final(self).wf(),
            final(self).origin() == old(self).origin(),
            exists|now: Instant|
                {
                    &&& clock::is_reading(now)
                    &&& final(self)@ == #[trigger] old(self)@.heartbeat_received(robot_id, now)
                },
            known == old(self)@.has_robot(robot_id),
    {
        let now = clock::reading();
        self.heartbeat_at(robot_id, now)
    }

    /// Takes every robot offline that has timed out at `now`, and brings back every offline robot
    /// that has not. The answer lists the robots taken offline.
    pub fn check_heartbeats_at(&mut self, now: Instant) -> (timed_out: Vec<u32>)
        requires
            old(self).wf(),
            old(self)@.stats.total_timeouts_detected + old(self)@.newly_timed_out(now).len()
                <= u32::MAX,
        ensures
            final(self).wf(),
            final(self).origin() == old(self).origin(),
            final(self)@ == old(self)@.heartbeats_checked(now),
            timed_out@ == old(self)@.newly_timed_out_ids(now),
    {
        let mut timed_out: Vec<u32> = Vec::new();
        let mut index: usize = 0;
        let ghost before = self@;
        let ghost new = |robot: Robot| robot.newly_timed_out(now);
        proof {
            reveal(Seq::filter);
        }
        while index < self.robots.len()
            invariant
                before == old(self)@,
                before.wf(),
                self.origin() == old(self).origin(),
                new == (|robot: Robot| robot.newly_timed_out(now)),
                before.stats.total_timeouts_detected + before.newly_timed_out(now).len()
                    <= u32::MAX,
                index <= self.robots.len(),
                self.robots.len() == before.robots.len(),
                forall|i: int|
                    0 <= i < index ==> self.robots[i] == #[trigger] before.robots[i].after_check(
                        now,
                    ),
                forall|i: int| index <= i < before.robots.len() ==> self.robots[i] == before.robots[i],
                self@ == (CoordinatorState {
                    robots: self.robots@,
                    stats: before.stats.plus_timeouts(
                        before.robots.take(index as int).filter(new).len() as int,
                    ),
                    ..before
                }),
                timed_out@ == before.robots.take(index as int).filter(new).map_values(
                    |robot: Robot| robot.id,
                ),
            decreases self.robots.len() - index,
        {
            proof {
                filtering::lemma_filter_step(before.robots, index as int, new);
                filtering::lemma_filter_prefix(before.robots, index + 1, new);
            }
            if self.robots[index].is_timed_out_at(now) {
                if self.robots[index].status != RobotStatus::Offline {
                    self.robots[index].status = RobotStatus::Offline;
                    self.robots[index].current_zone = None;
                    timed_out.push(self.robots[index].id);
                    self.stats.total_timeouts_detected = self.stats.total_timeouts_detected + 1;
                }
            } else {
                if self.robots[index].status == RobotStatus::Offline {
                    self.robots[index].status = RobotStatus::Idle;
                }
            }
            index = index + 1;
        }
        proof {
            assert(before.robots.take(index as int) =~= before.robots);
            assert(self@.robots =~= before.heartbeats_checked(now).robots);
        }
        timed_out
    }

    /// Checks the heartbeats at the present reading of the clock.
    pub fn check_heartbeats(&mut self) -> (timed_out: Vec<u32>)
        requires
            old(self).wf(),
            old(self)@.stats.total_timeouts_detected + old(self)@.not_offline().len() <= u32::MAX,
        ensures
            final(self).wf(),
            final(self).origin() == old(self).origin(),
            exists|now: Instant|
                {
                    &&& clock::is_reading(now)
                    &&& final(self)@ == #[trigger] old(self)@.heartbeats_checked(now)
                    &&& timed_out@ == old(self)@.newly_timed_out_ids(now)
                },
    {
        let now = clock::reading();
        proof {
            self@.lemma_newly_timed_out_bound(now);
        }
        self.check_heartbeats_at(now)
    }

    /// One sweep of the monitor: takes every robot offline that has timed out at `now`, and brings
    /// none back. The answer lists the robots taken offline.
    pub fn sweep_heartbeats_at(&mut self, now: Instant) -> (timed_out: Vec<u32>)
        requires
            old(self).wf(),
            old(self)@.stats.total_timeouts_detected + old(self)@.newly_timed_out(now).len()
                <= u32::MAX,
        ensures
            final(self).wf(),
            final(self).origin() == old(self).origin(),
            final(self)@ == old(self)@.heartbeats_swept(now),
            timed_out@ == old(self)@.newly_timed_out_ids(now),
    {
        let mut timed_out: Vec<u32> = Vec::new();
        let mut index: usize = 0;
        let ghost before = self@;
        let ghost new = |robot: Robot| robot.newly_timed_out(now);
        proof {
            reveal(Seq::filter);
        }
        while index < self.robots.len()
            invariant
                before == old(self)@,
                before.wf(),
                self.origin() == old(self).origin(),
                new == (|robot: Robot| robot.newly_timed_out(now)),
                index <= self.robots.len(),
                self.robots.len() == before.robots.len(),
                forall|i: int|
                    0 <= i < index ==> self.robots[i] == #[trigger] before.robots[i].after_sweep(
                        now,
                    ),
                forall|i: int| index <= i < before.robots.len() ==> self.robots[i] == before.robots[i],
                self@ == (CoordinatorState { robots: self.robots@, ..before }),
                timed_out@ == before.robots.take(index as int).filter(new).map_values(
                    |robot: Robot| robot.id,
                ),
            decreases self.robots.len() - index,
        {
            proof {
                filtering::lemma_filter_step(before.robots, index as int, new);
            }
            if self.robots[index].is_timed_out_at(now) && self.robots[index].status
                != RobotStatus::Offline {
                self.robots[index].status = RobotStatus::Offline;
                self.robots[index].current_zone = None;
                timed_out.push(self.robots[index].id);
            }
            index = index + 1;
        }
        proof {
            assert(before.robots.take(index as int) =~= before.robots);
            assert(self@.robots =~= before.heartbeats_swept(now).robots);
        }
        self.stats.total_timeouts_detected = self.stats.total_timeouts_detected
            + timed_out.len() as u32;
        timed_out
    }

    /// One sweep of the monitor at the present reading of the clock.
    pub fn sweep_heartbeats(&mut self) -> (timed_out: Vec<u32>)
        requires
            old(self).wf(),
            old(self)@.stats.total_timeouts_detected + old(self)@.not_offline().len() <= u32::MAX,
        ensures
            final(self).wf(),
            final(self).origin() == old(self).origin(),
            exists|now: Instant|
                {
                    &&& clock::is_reading(now)
                    &&& final(self)@ == #[trigger] old(self)@.heartbeats_swept(now)
                    &&& timed_out@ == old(self)@.newly_timed_out_ids(now)
                },
    {
        let now = clock::reading();
        proof {
            self@.lemma_newly_timed_out_bound(now);
        }
        self.sweep_heartbeats_at(now)
    }

    /// Records that the heartbeat monitor is to run.
    pub fn start_monitoring(&mut self)
        requires
            old(self).wf(),
        ensures
            final(self).wf(),
            final(self).origin() == old(self).origin(),
            final(self)@ == old(self)@.monitoring_set(true),
    {
        self.monitoring_active = true;
    }

    /// Records that the heartbeat monitor is to stop.
    pub fn stop_monitoring(&mut self)
        requires
            old(self).wf(),
        ensures
            final(self).wf(),
            final(self).origin() == old(self).origin(),
            final(self)@ == old(self)@.monitoring_set(false),
    {
        self.monitoring_active = false;
    }

    /// Whether the heartbeat monitor is to run.
    pub fn is_monitoring(&self) -> (active: bool)
        ensures
            active == self@.monitoring,
    {
        self.monitoring_active
    }
}

} // verus!
