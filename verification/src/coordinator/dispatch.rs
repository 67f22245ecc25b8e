//! Dispatch: a task leaves the queue only together with its zone.
use crate::clock;
use crate::coordinator::RobotCoordinator;
use crate::messages;
use crate::model::CoordinatorState;
use crate::robot::RobotStatus;
use crate::task::Task;
use crate::text;
use crate::zone::ZoneGuard;
use std::time::Instant;
use vstd::prelude::*;

verus! {

/// How a dispatch attempt ended.
///
/// A task leaves the queue only when its zone is free. If the zone is held, the task goes back to
/// the queue, so that a later attempt can take it. `G` is what stands for the use of the zone.
pub enum DispatchOutcome<G = ZoneGuard> {
    Assigned { task: Task, zone_guard: G },
    QueueEmpty,
    ZoneBusy { task_id: u32, zone: u32 },
}

/// What a worker does after a dispatch.
pub enum WorkerStep<G = ZoneGuard> {
    /// Work for so long, then leave the zone with its guard and report the task as done.
    Work { duration_ms: u64, zone: usize, zone_guard: G },
    /// Wait for so long, then ask again.
    Wait { pause_ms: u64 },
    /// Stop: there is nothing left to do.
    Stop,
}

impl<G> DispatchOutcome<G> {
    /// What a worker that waits `pause_ms` for a held zone does next.
    pub fn into_step(self, pause_ms: u64) -> (step: WorkerStep<G>)
        ensures
            step == (match self {
                DispatchOutcome::Assigned { task, zone_guard } => WorkerStep::Work {
                    duration_ms: task.duration_ms,
                    zone: task.zone as usize,
                    zone_guard,
                },
                DispatchOutcome::ZoneBusy { .. } => WorkerStep::Wait { pause_ms },
                DispatchOutcome::QueueEmpty => WorkerStep::Stop,
            }),
    {
        match self {
            DispatchOutcome::Assigned { task, zone_guard } => WorkerStep::Work {
                duration_ms: task.duration_ms,
                zone: task.zone as usize,
                zone_guard,
            },
            DispatchOutcome::ZoneBusy { .. } => WorkerStep::Wait { pause_ms },
            DispatchOutcome::QueueEmpty => WorkerStep::Stop,
        }
    }
}

/// How an attempt to take the next task together with its zone ended.
pub enum TaskClaim {
    Claimed { task: Task, zone_guard: ZoneGuard },
    QueueEmpty,
    ZoneBusy { task_id: u32, zone: u32 },
}

impl CoordinatorState {
    /// Whether `claim` is the answer to an attempt to take the next task with its zone.
    pub open spec fn claim_answer(self, claim: Result<TaskClaim, String>) -> bool {
        if self.queue.len() == 0 {
            claim matches Ok(TaskClaim::QueueEmpty)
        } else if !self.has_zone(self.next_zone()) {
            claim matches Err(message) && message@ == messages::zone_missing(self.next_zone())
        } else if self.zones[self.next_zone()] {
            claim matches Ok(TaskClaim::ZoneBusy { task_id, zone }) && task_id == self.queue[0].id
                && zone == self.queue[0].zone
        } else {
            claim matches Ok(TaskClaim::Claimed { task, zone_guard }) && task == self.queue[0]
                && zone_guard.held_zone() == self.next_zone()
        }
    }

    /// Whether `answer` is the answer when `task`, claimed together with its zone, is offered to
    /// robot `id` at `now`.
    pub open spec fn assignment_answer(
        self,
        id: u32,
        task: Task,
        now: Instant,
        answer: Result<DispatchOutcome, String>,
    ) -> bool {
        match self.assign_refusal(id, now) {
            Some(why) => answer matches Err(message) && message@ == why,
            None => answer matches Ok(DispatchOutcome::Assigned { task: given, zone_guard })
                && given == task && zone_guard.held_zone() == task.zone,
        }
    }

    /// Whether `answer` is the answer to a dispatch for robot `id` that looked at the robot at
    /// `checked_at`, and once more at `assigned_at` when it had a task and its zone in hand.
    pub open spec fn dispatch_answer(
        self,
        id: u32,
        checked_at: Instant,
        assigned_at: Instant,
        answer: Result<DispatchOutcome, String>,
    ) -> bool {
        if self.dispatch_refusal(id, checked_at) is Some {
            answer matches Err(message) && Some(message@) == self.dispatch_refusal(id, checked_at)
        } else if self.queue.len() == 0 {
            answer matches Ok(DispatchOutcome::QueueEmpty)
        } else if !self.has_zone(self.next_zone()) {
            answer matches Err(message) && message@ == messages::zone_missing(self.next_zone())
        } else if self.zones[self.next_zone()] {
            answer matches Ok(DispatchOutcome::ZoneBusy { task_id, zone }) && task_id
                == self.queue[0].id && zone == self.queue[0].zone
        } else {
            self.assignment_answer(id, self.queue[0], assigned_at, answer)
        }
    }
}

impl RobotCoordinator {
    /// Whether robot `robot_id` can be given work at `now`.
    pub fn check_dispatch(&self, robot_id: u32, now: Instant) -> (result: Result<(), String>)
        requires
            self.wf(),
        ensures
            match result {
                Ok(()) => self@.dispatch_refusal(robot_id, now) is None,
                Err(message) => self@.dispatch_refusal(robot_id, now) == Some(message@),
            },
    {
        match self.find_robot(robot_id) {
            None => Err(text::numbered_message("Robot ", robot_id as u64, " not found")),
            Some(index) => {
                let robot = &self.robots[index];
                if robot.status == RobotStatus::Offline || robot.is_timed_out_at(now) {
                    Err(text::numbered_message("Robot ", robot_id as u64, " is offline"))
                } else if robot.status == RobotStatus::Busy {
                    Err(text::numbered_message("Robot ", robot_id as u64, " is already busy"))
                } else {
                    Ok(())
                }
            },
        }
    }

    /// Takes the next task together with its zone. If the zone is held, the task moves to the
    /// end of the queue; if there is no such zone, the task stays where it is.
    pub fn claim_next_task(&mut self) -> (claim: Result<TaskClaim, String>)
        requires
            old(self).wf(),
            old(self)@.tries_next_zone() ==> old(self)@.stats.total_zone_access_attempts < u32::MAX,
        ensures
            final(self).wf(),
            final(self).origin() == old(self).origin(),
            final(self)@ == old(self)@.after_claim(),
            old(self)@.claim_answer(claim),
            claim matches Ok(TaskClaim::Claimed { zone_guard, .. }) ==> {
                let stats = final(self)@.stats;
                &&& zone_guard.origin() == old(self).origin()
                &&& stats.total_zone_access_grants + stats.total_zone_denials
                    < stats.total_zone_access_attempts
            },
    {
        match self.task_queue.pop_front() {
            None => Ok(TaskClaim::QueueEmpty),
            Some(task) => {
                let zone: usize = task.zone as usize;
                if zone >= self.zones.len() {
                    self.task_queue.push_front(task);
                    return Err(text::numbered_message("Zone ", zone as u64, " does not exist"));
                }
                self.stats.total_zone_access_attempts = self.stats.total_zone_access_attempts + 1;
                if self.zones[zone] {
                    let task_id: u32 = task.id;
                    let task_zone: u32 = task.zone;
                    self.task_queue.push_back(task);
                    self.stats.total_zone_denials = self.stats.total_zone_denials + 1;
                    return Ok(TaskClaim::ZoneBusy { task_id, zone: task_zone });
                }
                self.zones[zone] = true;
                Ok(TaskClaim::Claimed { task, zone_guard: ZoneGuard::for_zone(zone, self.origin) })
            },
        }
    }

    /// Gives back a task that could not be assigned, and its zone.
    fn return_claim(&mut self, task: Task, zone_guard: ZoneGuard)
        requires
            old(self).wf(),
            zone_guard.origin() == old(self).origin(),
        ensures
            final(self).wf(),
            final(self).origin() == old(self).origin(),
            final(self)@ == (CoordinatorState {
                queue: seq![task] + old(self)@.queue,
                ..old(self)@.zone_released(zone_guard.held_zone())
            }),
    {
        self.release_zone(zone_guard);
        self.task_queue.push_front(task);
    }

    /// Gives a claimed task and its zone to robot `robot_id`, after one more look at the robot at
    /// `now`. If the robot can no longer take it, the task returns to the head of the queue and
    /// the zone is free again.
    pub fn assign_claimed_task(
        &mut self,
        robot_id: u32,
        task: Task,
        zone_guard: ZoneGuard,
        now: Instant,
    ) -> (answer: Result<DispatchOutcome, String>)
        requires
            old(self).wf(),
            zone_guard.origin() == old(self).origin(),
            zone_guard.held_zone() == task.zone,
            old(self)@.stats.total_zone_access_grants + old(self)@.stats.total_zone_denials
                < old(self)@.stats.total_zone_access_attempts,
        ensures
            final(self).wf(),
            final(self).origin() == old(self).origin(),
            final(self)@ == old(self)@.after_assignment(robot_id, task, now),
            old(self)@.assignment_answer(robot_id, task, now, answer),
            answer matches Ok(DispatchOutcome::Assigned { zone_guard: given, .. })
                ==> given.origin() == old(self).origin(),
    {
        match self.find_robot(robot_id) {
            None => {
                self.return_claim(task, zone_guard);
                Err(text::numbered_message("Robot ", robot_id as u64, " not found"))
            },
            Some(index) => {
                if self.robots[index].status == RobotStatus::Offline
                    || self.robots[index].is_timed_out_at(now) {
                    self.return_claim(task, zone_guard);
                    return Err(text::numbered_message("Robot ", robot_id as u64, " became offline"));
                }
                if self.robots[index].status == RobotStatus::Busy {
                    self.return_claim(task, zone_guard);
                    return Err(text::numbered_message("Robot ", robot_id as u64, " became busy"));
                }
                self.robots[index].status = RobotStatus::Busy;
                self.robots[index].current_zone = Some(task.zone);
                self.stats.total_zone_access_grants = self.stats.total_zone_access_grants + 1;
                Ok(DispatchOutcome::Assigned { task, zone_guard })
            },
        }
    }

    /// Gives the next task, together with its zone, to robot `robot_id`.
    ///
    /// If the zone is held, the answer is [`DispatchOutcome::ZoneBusy`] and the task moves to the
    /// end of the queue: it is kept, and work for other zones can go on at the next attempts.
    pub fn dispatch_next_task(&mut self, robot_id: u32) -> (answer: Result<DispatchOutcome, String>)
        requires
            old(self).wf(),
            old(self)@.has_robot(robot_id) && old(self)@.tries_next_zone()
                ==> old(self)@.stats.total_zone_access_attempts < u32::MAX,
        ensures
            final(self).wf(),
            final(self).origin() == old(self).origin(),
            exists|checked_at: Instant, assigned_at: Instant|
                {
                    &&& clock::is_reading(checked_at)
                    &&& clock::is_reading(assigned_at)
                    &&& final(self)@ == #[trigger] old(self)@.after_dispatch(
                        robot_id,
                        checked_at,
                        assigned_at,
                    )
                    &&& old(self)@.dispatch_answer(robot_id, checked_at, assigned_at, answer)
                },
            answer matches Ok(DispatchOutcome::Assigned { zone_guard, .. })
                ==> zone_guard.origin() == old(self).origin(),
    {
        let checked_at = clock::reading();
        if let Err(message) = self.check_dispatch(robot_id, checked_at) {
            assert(old(self)@.after_dispatch(robot_id, checked_at, checked_at) == self@);
            return Err(message);
        }
        let claim = self.claim_next_task();
        match claim {
            Err(message) => {
                assert(old(self)@.after_dispatch(robot_id, checked_at, checked_at) == self@);
                Err(message)
            },
            Ok(TaskClaim::QueueEmpty) => Ok(DispatchOutcome::QueueEmpty),
            Ok(TaskClaim::ZoneBusy { task_id, zone }) => {
                assert(old(self)@.after_dispatch(robot_id, checked_at, checked_at) == self@);
                Ok(DispatchOutcome::ZoneBusy { task_id, zone })
            },
            Ok(TaskClaim::Claimed { task, zone_guard }) => {
                let assigned_at = clock::reading();
                let answer = self.assign_claimed_task(robot_id, task, zone_guard, assigned_at);
                assert(old(self)@.after_dispatch(robot_id, checked_at, assigned_at) == self@);
                answer
            },
        }
    }
}

} // verus!
