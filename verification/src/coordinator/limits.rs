//! Whether the running totals, which are kept in 32 bits, have room for what an operation would add.
use crate::coordinator::RobotCoordinator;
use crate::filtering;
use crate::robot::{Robot, RobotStatus};
use std::time::Instant;
use vstd::prelude::*;

verus! {

impl RobotCoordinator {
    /// Whether the totals have room for what `claim_next_task` would add.
    pub fn claim_fits(&self) -> (fits: bool)
        ensures
            fits == (self@.tries_next_zone() ==> self@.stats.total_zone_access_attempts < u32::MAX),
    {
        if self.task_queue.len() == 0 {
            return true;
        }
        self.task_queue[0].zone as usize >= self.zones.len()
            || self.stats.total_zone_access_attempts < u32::MAX
    }

    /// Whether the totals have room for what `complete_task` would add.
    pub fn completion_fits(&self, robot_id: u32) -> (fits: bool)
        requires
            self.wf(),
        ensures
            fits == (self@.may_complete(robot_id) ==> {
                &&& self@.stats.total_tasks_completed < u32::MAX
                &&& self@.robot(robot_id).tasks_completed < u32::MAX
            }),
    {
        match self.find_robot(robot_id) {
            None => true,
            Some(index) => self.robots[index].status != RobotStatus::Busy
                || self.stats.total_tasks_completed < u32::MAX
                && self.robots[index].tasks_completed < u32::MAX,
        }
    }

    /// Whether the totals have room for what `heartbeat` would add.
    pub fn heartbeat_fits(&self, robot_id: u32) -> (fits: bool)
        requires
            self.wf(),
        ensures
            fits == (self@.has_robot(robot_id) ==> self@.stats.total_heartbeats_received
                < u32::MAX),
    {
        self.find_robot(robot_id).is_none() || self.stats.total_heartbeats_received < u32::MAX
    }

    /// Whether the totals have room for what a check or a sweep at `now` would add.
    pub fn timeouts_fit_at(&self, now: Instant) -> (fits: bool)
        ensures
            fits == (self@.stats.total_timeouts_detected + self@.newly_timed_out(now).len()
                <= u32::MAX),
    {
        let mut count: usize = 0;
        let mut index: usize = 0;
        let ghost new = |robot: Robot| robot.newly_timed_out(now);
        proof {
            reveal(Seq::filter);
        }
        while index < self.robots.len()
            invariant
                new == (|robot: Robot| robot.newly_timed_out(now)),
                count <= index <= self.robots.len(),
                count == self.robots@.take(index as int).filter(new).len(),
            decreases self.robots.len() - index,
        {
            proof {
                filtering::lemma_filter_step(self.robots@, index as int, new);
            }
            if self.robots[index].is_timed_out_at(now) && self.robots[index].status
                != RobotStatus::Offline {
                count = count + 1;
            }
            index = index + 1;
        }
        assert(self.robots@.take(index as int) =~= self.robots@);
        count <= (u32::MAX - self.stats.total_timeouts_detected) as usize
    }
}

} // verus!
