//! Who can be reached, and a summary of the whole.
use crate::clock;
use crate::coordinator::RobotCoordinator;
use crate::filtering;
use crate::model::CoordinatorState;
use crate::robot::{Robot, RobotStatus};
use crate::stats::CoordinatorStats;
use crate::text;
use std::time::Instant;
use vstd::prelude::*;

verus! {

/// A summary of a coordinator at one moment.
#[derive(Debug, Clone, Copy, PartialEq, Eq, Structural)]
pub struct StatusReport {
    pub queue_length: usize,
    pub total_robots: usize,
    /// Robots that can be reached.
    pub online_robots: usize,
    /// Robots that cannot, marked so or not.
    pub offline_robots: usize,
    /// Robots at work that can be reached.
    pub busy_robots: usize,
    /// Idle robots that can be reached.
    pub idle_robots: usize,
    pub stats: CoordinatorStats,
}

/// A line with a number behind its label.
pub open spec fn report_line(label: Seq<char>, n: nat) -> Seq<char> {
    text::numbered(label, n, "\n"@)
}

fn push_line(out: &mut String, label: &str, n: u64)
    ensures
        final(out)@ == old(out)@ + report_line(label@, n as nat),
{
    let line = text::numbered_message(label, n, "\n");
    out.append(line.as_str());
}

impl StatusReport {
    /// The report as text, from its title to its last total.
    pub open spec fn as_text(self) -> Seq<char> {
        "===== Robot Coordinator Status Report =====\n"@
            + report_line("Task Queue Length: "@, self.queue_length as nat)
            + report_line("Total Robots: "@, self.total_robots as nat)
            + report_line("Online Robots: "@, self.online_robots as nat)
            + report_line("Offline Robots: "@, self.offline_robots as nat)
            + report_line("Busy Robots: "@, self.busy_robots as nat)
            + report_line("Idle Robots: "@, self.idle_robots as nat)
            + "\n--- Statistics ---\n"@
            + report_line("Tasks Created: "@, self.stats.total_tasks_created as nat)
            + report_line("Tasks Completed: "@, self.stats.total_tasks_completed as nat)
            + report_line("Zone Access Attempts: "@, self.stats.total_zone_access_attempts as nat)
            + report_line("Zone Access Grants: "@, self.stats.total_zone_access_grants as nat)
            + report_line("Zone Denials: "@, self.stats.total_zone_denials as nat)
            + report_line("Heartbeats Received: "@, self.stats.total_heartbeats_received as nat)
            + report_line("Timeouts Detected: "@, self.stats.total_timeouts_detected as nat)
    }

    /// Writes the report as text.
    pub fn to_text(&self) -> (out: String)
        ensures
            out@ == self.as_text(),
    {
        let mut out = "===== Robot Coordinator Status Report =====\n".to_owned();
        push_line(&mut out, "Task Queue Length: ", self.queue_length as u64);
        push_line(&mut out, "Total Robots: ", self.total_robots as u64);
        push_line(&mut out, "Online Robots: ", self.online_robots as u64);
        push_line(&mut out, "Offline Robots: ", self.offline_robots as u64);
        push_line(&mut out, "Busy Robots: ", self.busy_robots as u64);
        push_line(&mut out, "Idle Robots: ", self.idle_robots as u64);
        out.append("\n--- Statistics ---\n");
        push_line(&mut out, "Tasks Created: ", self.stats.total_tasks_created as u64);
        push_line(&mut out, "Tasks Completed: ", self.stats.total_tasks_completed as u64);
        push_line(&mut out, "Zone Access Attempts: ", self.stats.total_zone_access_attempts as u64);
        push_line(&mut out, "Zone Access Grants: ", self.stats.total_zone_access_grants as u64);
        push_line(&mut out, "Zone Denials: ", self.stats.total_zone_denials as u64);
        push_line(&mut out, "Heartbeats Received: ", self.stats.total_heartbeats_received as u64);
        push_line(&mut out, "Timeouts Detected: ", self.stats.total_timeouts_detected as u64);
        out
    }
}

impl CoordinatorState {
    /// Whether `report` sums up the state at `now`.
    pub open spec fn summed_up_by(self, report: StatusReport, now: Instant) -> bool {
        &&& report.queue_length == self.queue.len()
        &&& report.total_robots == self.robots.len()
        &&& report.online_robots == self.online(now).len()
        &&& report.offline_robots == self.unreachable(now).len()
        &&& report.busy_robots == self.busy(now).len()
        &&& report.idle_robots == self.idle(now).len()
        &&& report.stats == self.stats
    }
}

impl RobotCoordinator {
    /// The number of robots that are idle and can be reached at `now`.
    pub fn idle_robot_count_at(&self, now: Instant) -> (count: usize)
        ensures
            count == self@.idle(now).len(),
    {
        let mut count: usize = 0;
        let mut index: usize = 0;
        let ghost idle = |robot: Robot| robot.idle_at(now);
        proof {
            reveal(Seq::filter);
        }
        while index < self.robots.len()
            invariant
                idle == (|robot: Robot| robot.idle_at(now)),
                count <= index <= self.robots.len(),
                count == self.robots@.take(index as int).filter(idle).len(),
            decreases self.robots.len() - index,
        {
            proof {
                filtering::lemma_filter_step(self.robots@, index as int, idle);
            }
            if self.robots[index].status == RobotStatus::Idle && !self.robots[index].is_timed_out_at(
                now,
            ) {
                count = count + 1;
            }
            index = index + 1;
        }
        assert(self.robots@.take(index as int) =~= self.robots@);
        count
    }

    /// The number of robots that are idle and can be reached at the present reading of the clock.
    pub fn idle_robot_count(&self) -> (count: usize)
        ensures
            exists|now: Instant|
                clock::is_reading(now) && count == (#[trigger] self@.idle(now)).len(),
    {
        let now = clock::reading();
        self.idle_robot_count_at(now)
    }

    /// The robots marked offline, in the order in which they were registered.
    pub fn get_offline_robots(&self) -> (robots: Vec<Robot>)
        ensures
            robots@ == self@.offline(),
    {
        let mut robots: Vec<Robot> = Vec::new();
        let mut index: usize = 0;
        let ghost offline = |robot: Robot| robot.status == RobotStatus::Offline;
        proof {
            reveal(Seq::filter);
        }
        while index < self.robots.len()
            invariant
                offline == (|robot: Robot| robot.status == RobotStatus::Offline),
                index <= self.robots.len(),
                robots@ == self.robots@.take(index as int).filter(offline),
            decreases self.robots.len() - index,
        {
            proof {
                filtering::lemma_filter_step(self.robots@, index as int, offline);
            }
            if self.robots[index].status == RobotStatus::Offline {
                robots.push(self.robots[index].clone());
            }
            index = index + 1;
        }
        assert(self.robots@.take(index as int) =~= self.robots@);
        robots
    }

    /// The robots that can be reached at `now`, in the order in which they were registered.
    pub fn get_online_robots_at(&self, now: Instant) -> (robots: Vec<Robot>)
        ensures
            robots@ == self@.online(now),
    {
        let mut robots: Vec<Robot> = Vec::new();
        let mut index: usize = 0;
        let ghost online = |robot: Robot| robot.online_at(now);
        proof {
            reveal(Seq::filter);
        }
        while index < self.robots.len()
            invariant
                online == (|robot: Robot| robot.online_at(now)),
                index <= self.robots.len(),
                robots@ == self.robots@.take(index as int).filter(online),
            decreases self.robots.len() - index,
        {
            proof {
                filtering::lemma_filter_step(self.robots@, index as int, online);
            }
            if self.robots[index].status != RobotStatus::Offline
                && !self.robots[index].is_timed_out_at(now) {
                robots.push(self.robots[index].clone());
            }
            index = index + 1;
        }
        assert(self.robots@.take(index as int) =~= self.robots@);
        robots
    }

    /// The robots that can be reached at the present reading of the clock.
    pub fn get_online_robots(&self) -> (robots: Vec<Robot>)
        ensures
            exists|now: Instant|
                clock::is_reading(now) && robots@ == #[trigger] self@.online(now),
    {
        let now = clock::reading();
        self.get_online_robots_at(now)
    }

    /// A summary at `now`.
    pub fn status_report_at(&self, now: Instant) -> (report: StatusReport)
        ensures
            self@.summed_up_by(report, now),
    {
        let mut online: usize = 0;
        let mut offline: usize = 0;
        let mut busy: usize = 0;
        let mut idle: usize = 0;
        let mut index: usize = 0;
        let ghost is_online = |robot: Robot| robot.online_at(now);
        let ghost is_offline = |robot: Robot| !robot.online_at(now);
        let ghost is_busy = |robot: Robot| robot.busy_at(now);
        let ghost is_idle = |robot: Robot| robot.idle_at(now);
        proof {
            reveal(Seq::filter);
        }
        while index < self.robots.len()
            invariant
                is_online == (|robot: Robot| robot.online_at(now)),
                is_offline == (|robot: Robot| !robot.online_at(now)),
                is_busy == (|robot: Robot| robot.busy_at(now)),
                is_idle == (|robot: Robot| robot.idle_at(now)),
                index <= self.robots.len(),
                online <= index,
                offline <= index,
                busy <= index,
                idle <= index,
                online == self.robots@.take(index as int).filter(is_online).len(),
                offline == self.robots@.take(index as int).filter(is_offline).len(),
                busy == self.robots@.take(index as int).filter(is_busy).len(),
                idle == self.robots@.take(index as int).filter(is_idle).len(),
            decreases self.robots.len() - index,
        {
            proof {
                filtering::lemma_filter_step(self.robots@, index as int, is_online);
                filtering::lemma_filter_step(self.robots@, index as int, is_offline);
                filtering::lemma_filter_step(self.robots@, index as int, is_busy);
                filtering::lemma_filter_step(self.robots@, index as int, is_idle);
            }
            let robot = &self.robots[index];
            let timed_out = robot.is_timed_out_at(now);
            if timed_out || robot.status == RobotStatus::Offline {
                offline = offline + 1;
            } else {
                online = online + 1;
            }
            if !timed_out && robot.status == RobotStatus::Busy {
                busy = busy + 1;
            }
            if !timed_out && robot.status == RobotStatus::Idle {
                idle = idle + 1;
            }
            index = index + 1;
        }
        assert(self.robots@.take(index as int) =~= self.robots@);
        StatusReport {
            queue_length: self.task_queue.len(),
            total_robots: self.robots.len(),
            online_robots: online,
            offline_robots: offline,
            busy_robots: busy,
            idle_robots: idle,
            stats: self.stats,
        }
    }

    /// A summary at the present reading of the clock.
    pub fn status_report(&self) -> (report: StatusReport)
        ensures
            exists|now: Instant|
                clock::is_reading(now) && #[trigger] self@.summed_up_by(report, now),
    {
        let now = clock::reading();
        self.status_report_at(now)
    }
}

} // verus!
