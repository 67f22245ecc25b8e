//! Robots and their heartbeats.
use crate::clock;
use std::time::Instant;
use vstd::prelude::*;

verus! {

/// How long a robot may stay silent before it counts as timed out: three seconds.
pub const HEARTBEAT_TIMEOUT_NANOS: u128 = 3_000_000_000;

/// What a robot is doing.
#[derive(Debug, Clone, Copy, PartialEq, Eq, Structural)]
pub enum RobotStatus {
    Online,
    /// Its heartbeat timed out.
    Offline,
    Busy,
    Idle,
}

/// A robot as the coordinator knows it.
#[derive(Debug)]
pub struct Robot {
    pub id: u32,
    pub name: String,
    pub status: RobotStatus,
    pub current_zone: Option<u32>,
    pub last_heartbeat: Instant,
    pub tasks_completed: u32,
}

impl Clone for Robot {
    fn clone(&self) -> (copy: Self)
        ensures
            copy == *self,
    {
        Robot {
            id: self.id,
            name: self.name.clone(),
            status: self.status,
            current_zone: self.current_zone,
            last_heartbeat: self.last_heartbeat,
            tasks_completed: self.tasks_completed,
        }
    }
}

impl Robot {
    /// Whether the robot has been silent for longer than the timeout at `now`.
    pub open spec fn timed_out_at(self, now: Instant) -> bool {
        clock::nanos_between(self.last_heartbeat, now) > HEARTBEAT_TIMEOUT_NANOS
    }

    /// The robot after a heartbeat at `now`.
    pub open spec fn after_heartbeat(self, now: Instant) -> Robot {
        Robot {
            last_heartbeat: now,
            status: if self.status == RobotStatus::Offline {
                RobotStatus::Idle
            } else {
                self.status
            },
            ..self
        }
    }

    /// The robot at work on a task in `zone`.
    pub open spec fn assigned_to(self, zone: u32) -> Robot {
        Robot { status: RobotStatus::Busy, current_zone: Some(zone), ..self }
    }

    /// The robot after its task: idle, in no zone, with one more task to its name.
    pub open spec fn after_completion(self) -> Robot {
        Robot {
            status: RobotStatus::Idle,
            current_zone: None,
            tasks_completed: (self.tasks_completed + 1) as u32,
            ..self
        }
    }

    /// The robot with its place recorded as `zone`.
    pub open spec fn placed_in(self, zone: Option<u32>) -> Robot {
        Robot { current_zone: zone, ..self }
    }

    /// Whether a timeout is noticed at `now` that was not noticed before.
    pub open spec fn newly_timed_out(self, now: Instant) -> bool {
        self.timed_out_at(now) && self.status != RobotStatus::Offline
    }

    /// The robot after a sweep at `now` that only takes silent robots offline.
    pub open spec fn after_sweep(self, now: Instant) -> Robot {
        if self.newly_timed_out(now) {
            Robot { status: RobotStatus::Offline, current_zone: None, ..self }
        } else {
            self
        }
    }

    /// The robot after a check at `now`, which also brings back an offline robot that has been
    /// heard of since.
    pub open spec fn after_check(self, now: Instant) -> Robot {
        if !self.timed_out_at(now) && self.status == RobotStatus::Offline {
            Robot { status: RobotStatus::Idle, ..self }
        } else {
            self.after_sweep(now)
        }
    }

    /// Whether the robot can be reached at `now`.
    pub open spec fn online_at(self, now: Instant) -> bool {
        self.status != RobotStatus::Offline && !self.timed_out_at(now)
    }

    /// Whether the robot is idle and can be reached at `now`.
    pub open spec fn idle_at(self, now: Instant) -> bool {
        self.status == RobotStatus::Idle && !self.timed_out_at(now)
    }

    /// Whether the robot is busy and can be reached at `now`.
    pub open spec fn busy_at(self, now: Instant) -> bool {
        self.status == RobotStatus::Busy && !self.timed_out_at(now)
    }

    /// A new robot: idle, in no zone, its first heartbeat taken from the clock.
    pub fn new(id: u32, name: &str) -> (robot: Self)
        ensures
            robot.id == id,
            robot.name@ == name@,
            robot.status == RobotStatus::Idle,
            robot.current_zone == None::<u32>,
            robot.tasks_completed == 0,
            clock::is_reading(robot.last_heartbeat),
    {
        Robot {
            id,
            name: name.to_owned(),
            status: RobotStatus::Idle,
            current_zone: None,
            last_heartbeat: clock::reading(),
            tasks_completed: 0,
        }
    }

    /// Records a heartbeat at `now`; a robot that was offline is idle again.
    pub fn heartbeat_at(&mut self, now: Instant)
        ensures
            *final(self) == old(self).after_heartbeat(now),
    {
        self.last_heartbeat = now;
        if self.status == RobotStatus::Offline {
            self.status = RobotStatus::Idle;
        }
    }

    /// Records a heartbeat at the present reading of the clock.
    pub fn heartbeat(&mut self)
        ensures
            exists|now: Instant|
                clock::is_reading(now) && *final(self) == #[trigger] old(self).after_heartbeat(now),
    {
        let now = clock::reading();
        self.heartbeat_at(now);
    }

    /// Whether the robot counts as timed out at `now`.
    pub fn is_timed_out_at(&self, now: Instant) -> (timed_out: bool)
        ensures
            timed_out == self.timed_out_at(now),
    {
        clock::nanos_since(now, self.last_heartbeat) > HEARTBEAT_TIMEOUT_NANOS
    }

    /// Whether the robot counts as timed out at the present reading of the clock.
    pub fn is_timed_out(&self) -> (timed_out: bool)
        ensures
            exists|now: Instant|
                clock::is_reading(now) && timed_out == #[trigger] self.timed_out_at(now),
    {
        let now = clock::reading();
        self.is_timed_out_at(now)
    }
}

} // verus!
