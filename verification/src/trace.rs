//! Sequences of operations, and what they make of a coordinator.
use crate::model::CoordinatorState;
use crate::robot::{Robot, RobotStatus};
use crate::task::Task;
use std::time::Instant;
use vstd::multiset::Multiset;
use vstd::prelude::*;

verus! {

/// One operation of a coordinator, with what it was given and the clock readings that it took.
pub enum Event {
    Register(Robot),
    AddTask(Task),
    AddTasks(Seq<Task>),
    RequestTask(u32),
    CompleteTask(u32),
    RequestZone { robot_id: u32, zone: int },
    LeaveZone { held: int, robot_id: u32, zone: int },
    ReleaseZone { held: int },
    Depart { robot_id: u32, zone: int },
    Claim,
    Assign { robot_id: u32, task: Task, now: Instant },
    Dispatch { robot_id: u32, checked_at: Instant, assigned_at: Instant },
    Heartbeat { robot_id: u32, now: Instant },
    CheckHeartbeats { now: Instant },
    SweepHeartbeats { now: Instant },
    SetMonitoring(bool),
}

impl Event {
    /// Whether a robot that the event registers, if it does, has no completed task yet.
    pub open spec fn registers_no_veteran(self) -> bool {
        self matches Event::Register(robot) ==> robot.tasks_completed == 0
    }

    /// Whether a robot that the event registers, if it does, is not at work.
    pub open spec fn registers_no_worker(self) -> bool {
        self matches Event::Register(robot) ==> robot.status != RobotStatus::Busy
    }

    /// Whether the event leaves the queue in its order: it may add at the end and take from the
    /// head, but it tries no zone, and so sends no task back.
    pub open spec fn keeps_queue_order(self) -> bool {
        !(self is Claim) && !(self is Assign) && !(self is Dispatch)
    }

    /// Whether the event is a whole operation, and not one of the two steps of a dispatch that can
    /// be taken apart.
    pub open spec fn is_whole(self) -> bool {
        !(self is Claim) && !(self is Assign)
    }

    /// Whether the event asks neither for a task without its zone nor for a zone without a task.
    pub open spec fn pairs_tasks_with_zones(self) -> bool {
        !(self is RequestZone) && !(self is RequestTask)
    }

    /// The tasks that the event adds, in their order.
    pub open spec fn adds(self) -> Seq<Task> {
        match self {
            Event::AddTask(task) => seq![task],
            Event::AddTasks(tasks) => tasks,
            _ => Seq::empty(),
        }
    }

    /// Whether a batch of tasks that the event adds, if it does, is small enough to be counted.
    pub open spec fn is_countable(self) -> bool {
        self matches Event::AddTasks(batch) ==> batch.len() <= u32::MAX
    }
}

/// The tasks that `events` add, in their order.
pub open spec fn added_in_order(events: Seq<Event>) -> Seq<Task>
    decreases events.len(),
{
    if events.len() == 0 {
        Seq::empty()
    } else {
        added_in_order(events.drop_last()) + events.last().adds()
    }
}

impl CoordinatorState {
    /// The state after `event`.
    pub open spec fn after(self, event: Event) -> Self {
        match event {
            Event::Register(robot) => self.robot_registered(robot),
            Event::AddTask(task) => self.task_added(task),
            Event::AddTasks(tasks) => self.tasks_added(tasks),
            Event::RequestTask(id) => self.task_requested(id),
            Event::CompleteTask(id) => self.task_completed(id),
            Event::RequestZone { robot_id, zone } => self.zone_requested(robot_id, zone),
            Event::LeaveZone { held, robot_id, zone } => self.zone_left(held, robot_id, zone),
            Event::ReleaseZone { held } => self.zone_released(held),
            Event::Depart { robot_id, zone } => self.departed(robot_id, zone),
            Event::Claim => self.after_claim(),
            Event::Assign { robot_id, task, now } => self.after_assignment(robot_id, task, now),
            Event::Dispatch { robot_id, checked_at, assigned_at } => self.after_dispatch(
                robot_id,
                checked_at,
                assigned_at,
            ),
            Event::Heartbeat { robot_id, now } => self.heartbeat_received(robot_id, now),
            Event::CheckHeartbeats { now } => self.heartbeats_checked(now),
            Event::SweepHeartbeats { now } => self.heartbeats_swept(now),
            Event::SetMonitoring(active) => self.monitoring_set(active),
        }
    }

    /// Whether `event` can happen here: no total that it moves is at its limit, and a claimed task
    /// is assigned only while the attempt that claimed it is unanswered.
    pub open spec fn admits(self, event: Event) -> bool {
        match event {
            Event::AddTask(_) => self.stats.total_tasks_created < u32::MAX,
            Event::AddTasks(tasks) => self.stats.total_tasks_created
                + CoordinatorState::created_step(tasks.len()) <= u32::MAX,
            Event::CompleteTask(id) => self.may_complete(id) ==> {
                &&& self.stats.total_tasks_completed < u32::MAX
                &&& self.robot(id).tasks_completed < u32::MAX
            },
            Event::RequestZone { .. } => self.stats.total_zone_access_attempts < u32::MAX,
            Event::Claim => self.tries_next_zone() ==> self.stats.total_zone_access_attempts
                < u32::MAX,
            Event::Assign { .. } => self.stats.total_zone_access_grants
                + self.stats.total_zone_denials < self.stats.total_zone_access_attempts,
            Event::Dispatch { robot_id, .. } => self.has_robot(robot_id) && self.tries_next_zone()
                ==> self.stats.total_zone_access_attempts < u32::MAX,
            Event::Heartbeat { robot_id, .. } => self.has_robot(robot_id)
                ==> self.stats.total_heartbeats_received < u32::MAX,
            Event::CheckHeartbeats { now } => self.stats.total_timeouts_detected
                + self.newly_timed_out(now).len() <= u32::MAX,
            Event::SweepHeartbeats { now } => self.stats.total_timeouts_detected
                + self.newly_timed_out(now).len() <= u32::MAX,
            _ => true,
        }
    }

    /// The state after `events`, one after the other.
    pub open spec fn after_all(self, events: Seq<Event>) -> Self
        decreases events.len(),
    {
        if events.len() == 0 {
            self
        } else {
            self.after_all(events.drop_last()).after(events.last())
        }
    }

    /// Whether `events` can happen here, one after the other.
    pub open spec fn admits_all(self, events: Seq<Event>) -> bool
        decreases events.len(),
    {
        events.len() > 0 ==> {
            &&& self.admits_all(events.drop_last())
            &&& self.after_all(events.drop_last()).admits(events.last())
        }
    }

    /// Whether `event` gives back the guard for `zone`.
    pub open spec fn gives_back(self, event: Event, zone: int) -> bool {
        match event {
            Event::LeaveZone { held, .. } => held == zone,
            Event::ReleaseZone { held } => held == zone,
            Event::Assign { robot_id, task, now } => task.zone == zone && self.assign_refusal(
                robot_id,
                now,
            ) is Some,
            _ => false,
        }
    }

    /// How many robots `events` register.
    pub open spec fn registrations(self, events: Seq<Event>) -> nat
        decreases events.len(),
    {
        if events.len() == 0 {
            0
        } else {
            let middle = self.after_all(events.drop_last());
            self.registrations(events.drop_last()) + match events.last() {
                Event::Register(robot) => if middle.has_robot(robot.id) {
                    0nat
                } else {
                    1nat
                },
                _ => 0nat,
            }
        }
    }

    /// Whether `event` hands out a guard for `zone`.
    pub open spec fn grants(self, event: Event, zone: int) -> bool {
        match event {
            Event::RequestZone { robot_id, zone: wanted } => wanted == zone && self.zone_refusal(
                robot_id,
                wanted,
            ) is None,
            Event::Claim => self.takes_next(event) && self.next_zone() == zone,
            Event::Dispatch { .. } => self.takes_next(event) && self.next_zone() == zone,
            _ => false,
        }
    }

    /// How many more guards for `zone` are handed out by `events` than given back.
    pub open spec fn guards_out(self, events: Seq<Event>, zone: int) -> int
        decreases events.len(),
    {
        if events.len() == 0 {
            0
        } else {
            let middle = self.after_all(events.drop_last());
            let earlier = self.guards_out(events.drop_last(), zone);
            if middle.grants(events.last(), zone) {
                earlier + 1
            } else if middle.gives_back(events.last(), zone) {
                earlier - 1
            } else {
                earlier
            }
        }
    }

    /// Whether a guard for `zone` is out whenever one of `events` gives one back.
    pub open spec fn gives_back_what_is_out(self, events: Seq<Event>, zone: int) -> bool
        decreases events.len(),
    {
        events.len() > 0 ==> {
            &&& self.gives_back_what_is_out(events.drop_last(), zone)
            &&& self.after_all(events.drop_last()).gives_back(events.last(), zone)
                ==> self.guards_out(events.drop_last(), zone) > 0
        }
    }

    /// Whether none of `events` gives back the guard for `zone`.
    pub open spec fn guard_stays_out(self, events: Seq<Event>, zone: int) -> bool
        decreases events.len(),
    {
        events.len() > 0 ==> {
            &&& self.guard_stays_out(events.drop_last(), zone)
            &&& !self.after_all(events.drop_last()).gives_back(events.last(), zone)
        }
    }

    /// The tasks that `event` adds.
    pub open spec fn added(self, event: Event) -> Multiset<Task> {
        match event {
            Event::AddTask(task) => Multiset::singleton(task),
            Event::AddTasks(tasks) => tasks.to_multiset(),
            _ => Multiset::empty(),
        }
    }

    /// The claimed tasks that `event` sends back to the queue.
    pub open spec fn returned(self, event: Event) -> Multiset<Task> {
        match event {
            Event::Assign { robot_id, task, now } => if self.assign_refusal(
                robot_id,
                now,
            ) is Some {
                Multiset::singleton(task)
            } else {
                Multiset::empty()
            },
            _ => Multiset::empty(),
        }
    }

    /// Whether `event` takes the next task out of the queue.
    pub open spec fn takes_next(self, event: Event) -> bool {
        match event {
            Event::RequestTask(id) => self.may_request(id) && self.queue.len() > 0,
            Event::Claim => self.tries_next_zone() && !self.zones[self.next_zone()],
            Event::Dispatch { robot_id, checked_at, assigned_at } => {
                &&& self.dispatch_refusal(robot_id, checked_at) is None
                &&& self.tries_next_zone()
                &&& !self.zones[self.next_zone()]
                &&& self.assign_refusal(robot_id, assigned_at) is None
            },
            _ => false,
        }
    }

    /// The tasks that `event` hands out.
    pub open spec fn handed_out(self, event: Event) -> Multiset<Task> {
        if self.takes_next(event) {
            Multiset::singleton(self.queue[0])
        } else {
            Multiset::empty()
        }
    }

    /// The tasks that `events` add.
    pub open spec fn all_added(self, events: Seq<Event>) -> Multiset<Task>
        decreases events.len(),
    {
        if events.len() == 0 {
            Multiset::empty()
        } else {
            self.all_added(events.drop_last()).add(
                self.after_all(events.drop_last()).added(events.last()),
            )
        }
    }

    /// The claimed tasks that `events` send back to the queue.
    pub open spec fn all_returned(self, events: Seq<Event>) -> Multiset<Task>
        decreases events.len(),
    {
        if events.len() == 0 {
            Multiset::empty()
        } else {
            self.all_returned(events.drop_last()).add(
                self.after_all(events.drop_last()).returned(events.last()),
            )
        }
    }

    /// The tasks that `events` hand out.
    pub open spec fn all_handed_out(self, events: Seq<Event>) -> Multiset<Task>
        decreases events.len(),
    {
        if events.len() == 0 {
            Multiset::empty()
        } else {
            self.all_handed_out(events.drop_last()).add(
                self.after_all(events.drop_last()).handed_out(events.last()),
            )
        }
    }

    /// Whether `event` ends an attempt to enter a zone without a grant and without a denial: the
    /// zone does not exist, or the robot is not there, is offline, or has become unfit for the task
    /// that was claimed for it.
    pub open spec fn refuses_attempt(self, event: Event) -> bool {
        match event {
            Event::RequestZone { robot_id, zone } => !self.has_zone(zone) || !self.may_request(
                robot_id,
            ),
            Event::Assign { robot_id, now, .. } => self.assign_refusal(robot_id, now) is Some,
            Event::Dispatch { robot_id, checked_at, assigned_at } => {
                &&& self.dispatch_refusal(robot_id, checked_at) is None
                &&& self.tries_next_zone()
                &&& !self.zones[self.next_zone()]
                &&& self.assign_refusal(robot_id, assigned_at) is Some
            },
            _ => false,
        }
    }

    /// How many attempts `events` end without a grant and without a denial.
    pub open spec fn refused_attempts(self, events: Seq<Event>) -> nat
        decreases events.len(),
    {
        if events.len() == 0 {
            0
        } else {
            self.refused_attempts(events.drop_last()) + if self.after_all(
                events.drop_last(),
            ).refuses_attempt(events.last()) {
                1nat
            } else {
                0nat
            }
        }
    }

    /// Whether `event` leaves no robot with a task that it will never report as done: no robot at
    /// work asks for another task, is taken offline, or is registered as such.
    pub open spec fn keeps_work(self, event: Event) -> bool {
        match event {
            Event::Register(robot) => robot.status != RobotStatus::Busy,
            Event::RequestTask(id) => self.takes_next(event) ==> self.robot(id).status
                != RobotStatus::Busy,
            Event::CheckHeartbeats { now } => self.no_worker_times_out(now),
            Event::SweepHeartbeats { now } => self.no_worker_times_out(now),
            _ => true,
        }
    }

    /// Whether no robot at work has timed out at `now`.
    pub open spec fn no_worker_times_out(self, now: Instant) -> bool {
        forall|i: int|
            0 <= i < self.robots.len() && (#[trigger] self.robots[i]).status == RobotStatus::Busy
                ==> !self.robots[i].timed_out_at(now)
    }

    /// Whether each of `events` in turn leaves no robot with a task that it will never report.
    pub open spec fn all_keep_work(self, events: Seq<Event>) -> bool
        decreases events.len(),
    {
        events.len() > 0 ==> {
            &&& self.all_keep_work(events.drop_last())
            &&& self.after_all(events.drop_last()).keeps_work(events.last())
        }
    }

    /// The tasks that `events` take out of the queue, in the order in which they leave it.
    pub open spec fn taken_in_order(self, events: Seq<Event>) -> Seq<Task>
        decreases events.len(),
    {
        if events.len() == 0 {
            Seq::empty()
        } else {
            let middle = self.after_all(events.drop_last());
            let earlier = self.taken_in_order(events.drop_last());
            if middle.takes_next(events.last()) {
                earlier.push(middle.queue[0])
            } else {
                earlier
            }
        }
    }

    /// How many more tasks `events` claim than they offer to a robot.
    pub open spec fn open_claims(self, events: Seq<Event>) -> int
        decreases events.len(),
    {
        if events.len() == 0 {
            0
        } else {
            let earlier = self.open_claims(events.drop_last());
            if events.last() is Claim && self.after_all(events.drop_last()).takes_next(
                events.last(),
            ) {
                earlier + 1
            } else if events.last() is Assign {
                earlier - 1
            } else {
                earlier
            }
        }
    }
}

} // verus!
