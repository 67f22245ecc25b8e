//! What the coordinator holds, and what each operation makes of it.
use crate::filtering;
use crate::messages;
use crate::robot::{Robot, RobotStatus};
use crate::stats::CoordinatorStats;
use crate::task::Task;
use std::time::Instant;
use vstd::prelude::*;

verus! {

/// The contents of a coordinator.
#[verifier::ext_equal]
pub struct CoordinatorState {
    /// The tasks that wait, the next one first.
    pub queue: Seq<Task>,
    /// For each zone, whether a guard for it is out.
    pub zones: Seq<bool>,
    /// The robots, in the order in which they were registered.
    pub robots: Seq<Robot>,
    pub stats: CoordinatorStats,
    /// Whether the heartbeat monitor is meant to run.
    pub monitoring: bool,
}

impl CoordinatorState {
    /// A coordinator of `num_zones` free zones and nothing else.
    pub open spec fn initial(num_zones: nat) -> Self {
        CoordinatorState {
            queue: Seq::empty(),
            zones: Seq::new(num_zones, |z: int| false),
            robots: Seq::empty(),
            stats: CoordinatorStats::zero(),
            monitoring: false,
        }
    }

    /// No two robots share an identifier.
    pub open spec fn unique_ids(self) -> bool {
        forall|i: int, j: int|
            0 <= i < j < self.robots.len() ==> self.robots[i].id != self.robots[j].id
    }

    /// Every grant and every denial answers an attempt of its own.
    pub open spec fn attempts_cover(self) -> bool {
        self.stats.total_zone_access_grants + self.stats.total_zone_denials
            <= self.stats.total_zone_access_attempts
    }

    /// What every operation keeps.
    pub open spec fn wf(self) -> bool {
        &&& self.unique_ids()
        &&& self.attempts_cover()
        &&& self.zones.len() <= u32::MAX
    }

    // Robots

    /// Whether a robot `id` is registered.
    pub open spec fn has_robot(self, id: u32) -> bool {
        exists|i: int| 0 <= i < self.robots.len() && self.robots[i].id == id
    }

    /// The place of robot `id` among the robots.
    pub open spec fn robot_index(self, id: u32) -> int {
        choose|i: int| 0 <= i < self.robots.len() && self.robots[i].id == id
    }

    /// Robot `id`.
    pub open spec fn robot(self, id: u32) -> Robot {
        self.robots[self.robot_index(id)]
    }

    /// The state with `robot` in place of robot `id`.
    pub open spec fn with_robot(self, id: u32, robot: Robot) -> Self {
        CoordinatorState { robots: self.robots.update(self.robot_index(id), robot), ..self }
    }

    /// After `robot` asked to be registered.
    pub open spec fn robot_registered(self, robot: Robot) -> Self {
        if self.has_robot(robot.id) {
            self
        } else {
            CoordinatorState { robots: self.robots.push(robot), ..self }
        }
    }

    // Tasks

    /// After `task` was added.
    pub open spec fn task_added(self, task: Task) -> Self {
        CoordinatorState { queue: self.queue.push(task), stats: self.stats.plus_created(1), ..self }
    }

    /// How far the count of created tasks moves when `n` tasks are added at once: the count is
    /// kept in 32 bits, and so is this.
    pub open spec fn created_step(n: nat) -> u32 {
        (n as usize) as u32
    }

    /// After `tasks` were added, in their order.
    pub open spec fn tasks_added(self, tasks: Seq<Task>) -> Self {
        CoordinatorState {
            queue: self.queue + tasks,
            stats: self.stats.plus_created(Self::created_step(tasks.len()) as int),
            ..self
        }
    }

    /// Whether robot `id` may ask for a task.
    pub open spec fn may_request(self, id: u32) -> bool {
        self.has_robot(id) && self.robot(id).status != RobotStatus::Offline
    }

    /// After robot `id` asked for a task.
    pub open spec fn task_requested(self, id: u32) -> Self {
        if self.may_request(id) && self.queue.len() > 0 {
            CoordinatorState {
                queue: self.queue.drop_first(),
                ..self.with_robot(id, self.robot(id).assigned_to(self.queue[0].zone))
            }
        } else {
            self
        }
    }

    /// Whether robot `id` has a task to complete.
    pub open spec fn may_complete(self, id: u32) -> bool {
        self.has_robot(id) && self.robot(id).status == RobotStatus::Busy
    }

    /// After robot `id` reported its task as done.
    pub open spec fn task_completed(self, id: u32) -> Self {
        if self.may_complete(id) {
            CoordinatorState {
                stats: self.stats.plus_completed(),
                ..self.with_robot(id, self.robot(id).after_completion())
            }
        } else {
            self
        }
    }

    // Zones

    /// Whether `zone` exists.
    pub open spec fn has_zone(self, zone: int) -> bool {
        0 <= zone < self.zones.len()
    }

    /// Whether a guard for `zone` is out.
    pub open spec fn zone_held(self, zone: int) -> bool {
        self.has_zone(zone) && self.zones[zone]
    }

    /// After the guard for `zone` came back.
    pub open spec fn zone_released(self, zone: int) -> Self {
        if self.has_zone(zone) {
            CoordinatorState { zones: self.zones.update(zone, false), ..self }
        } else {
            self
        }
    }

    /// Why robot `id` is refused `zone`, if it is.
    pub open spec fn zone_refusal(self, id: u32, zone: int) -> Option<Seq<char>> {
        if !self.has_zone(zone) {
            Some(messages::zone_missing(zone))
        } else if !self.has_robot(id) {
            Some(messages::robot_not_found(id))
        } else if self.robot(id).status == RobotStatus::Offline {
            Some(messages::robot_offline(id))
        } else if self.zones[zone] {
            Some(messages::zone_occupied(zone))
        } else {
            None
        }
    }

    /// After robot `id` asked for `zone`. Every request counts as an attempt; one that fails on
    /// nothing but the zone being held counts as a denial.
    pub open spec fn zone_requested(self, id: u32, zone: int) -> Self {
        if !self.has_zone(zone) || !self.may_request(id) {
            CoordinatorState { stats: self.stats.plus_attempt(), ..self }
        } else if self.zones[zone] {
            CoordinatorState { stats: self.stats.plus_attempt().plus_denial(), ..self }
        } else {
            CoordinatorState {
                zones: self.zones.update(zone, true),
                stats: self.stats.plus_attempt().plus_grant(),
                ..self.with_robot(id, self.robot(id).placed_in(Some(zone as u32)))
            }
        }
    }

    /// Whether robot `id` stands in `zone`, and so can leave it.
    pub open spec fn may_leave(self, id: u32, zone: int) -> bool {
        self.has_zone(zone) && self.has_robot(id) && self.robot(id).current_zone == Some(
            zone as u32,
        )
    }

    /// After robot `id` said that it leaves `zone`.
    pub open spec fn departed(self, id: u32, zone: int) -> Self {
        if self.may_leave(id, zone) {
            self.with_robot(id, self.robot(id).placed_in(None))
        } else {
            self
        }
    }

    /// After robot `id` gave back the guard for `held` and said that it leaves `zone`. The guard
    /// is taken back in any case.
    pub open spec fn zone_left(self, held: int, id: u32, zone: int) -> Self {
        self.zone_released(held).departed(id, zone)
    }

    // Dispatch

    /// Why robot `id` cannot be given work at `now`, if it cannot.
    pub open spec fn dispatch_refusal(self, id: u32, now: Instant) -> Option<Seq<char>> {
        if !self.has_robot(id) {
            Some(messages::robot_not_found(id))
        } else if !self.robot(id).online_at(now) {
            Some(messages::robot_offline(id))
        } else if self.robot(id).status == RobotStatus::Busy {
            Some(messages::robot_already_busy(id))
        } else {
            None
        }
    }

    /// Why robot `id` cannot take on at `now` a task that was claimed for it, if it cannot.
    pub open spec fn assign_refusal(self, id: u32, now: Instant) -> Option<Seq<char>> {
        if !self.has_robot(id) {
            Some(messages::robot_not_found(id))
        } else if !self.robot(id).online_at(now) {
            Some(messages::robot_became_offline(id))
        } else if self.robot(id).status == RobotStatus::Busy {
            Some(messages::robot_became_busy(id))
        } else {
            None
        }
    }

    /// The zone of the next task.
    pub open spec fn next_zone(self) -> int {
        self.queue[0].zone as int
    }

    /// Whether there is a next task, and its zone exists: only then is the zone tried.
    pub open spec fn tries_next_zone(self) -> bool {
        self.queue.len() > 0 && self.has_zone(self.next_zone())
    }

    /// After the next task found its zone held: it waits again, behind all others.
    pub open spec fn next_deferred(self) -> Self {
        CoordinatorState {
            queue: self.queue.drop_first().push(self.queue[0]),
            stats: self.stats.plus_attempt().plus_denial(),
            ..self
        }
    }

    /// After the next task was taken together with its zone.
    pub open spec fn next_claimed(self) -> Self {
        CoordinatorState {
            queue: self.queue.drop_first(),
            zones: self.zones.update(self.next_zone(), true),
            stats: self.stats.plus_attempt(),
            ..self
        }
    }

    /// After an attempt to take the next task together with its zone.
    pub open spec fn after_claim(self) -> Self {
        if !self.tries_next_zone() {
            self
        } else if self.zones[self.next_zone()] {
            self.next_deferred()
        } else {
            self.next_claimed()
        }
    }

    /// After `task`, claimed together with its zone, was offered to robot `id` at `now`. A robot
    /// that cannot take it sends the task back to the head of the queue, and the guard back too.
    pub open spec fn after_assignment(self, id: u32, task: Task, now: Instant) -> Self {
        if self.assign_refusal(id, now) is Some {
            CoordinatorState {
                queue: seq![task] + self.queue,
                ..self.zone_released(task.zone as int)
            }
        } else {
            CoordinatorState {
                stats: self.stats.plus_grant(),
                ..self.with_robot(id, self.robot(id).assigned_to(task.zone))
            }
        }
    }

    /// After the next task went to robot `id`, with its zone.
    pub open spec fn next_assigned(self, id: u32) -> Self {
        CoordinatorState {
            queue: self.queue.drop_first(),
            zones: self.zones.update(self.next_zone(), true),
            stats: self.stats.plus_attempt().plus_grant(),
            ..self.with_robot(id, self.robot(id).assigned_to(self.queue[0].zone))
        }
    }

    /// After a dispatch for robot `id` that looked at the robot at `checked_at`, and once more at
    /// `assigned_at` when it had a task and its zone in hand.
    pub open spec fn after_dispatch(
        self,
        id: u32,
        checked_at: Instant,
        assigned_at: Instant,
    ) -> Self {
        if self.dispatch_refusal(id, checked_at) is Some || !self.tries_next_zone() {
            self
        } else if self.zones[self.next_zone()] {
            self.next_deferred()
        } else if self.assign_refusal(id, assigned_at) is Some {
            CoordinatorState { stats: self.stats.plus_attempt(), ..self }
        } else {
            self.next_assigned(id)
        }
    }

    // Heartbeats

    /// After a heartbeat of robot `id` at `now`.
    pub open spec fn heartbeat_received(self, id: u32, now: Instant) -> Self {
        if self.has_robot(id) {
            CoordinatorState {
                stats: self.stats.plus_heartbeat(),
                ..self.with_robot(id, self.robot(id).after_heartbeat(now))
            }
        } else {
            self
        }
    }

    /// The robots whose timeout is first noticed at `now`.
    pub open spec fn newly_timed_out(self, now: Instant) -> Seq<Robot> {
        self.robots.filter(|robot: Robot| robot.newly_timed_out(now))
    }

    /// Their identifiers.
    pub open spec fn newly_timed_out_ids(self, now: Instant) -> Seq<u32> {
        self.newly_timed_out(now).map_values(|robot: Robot| robot.id)
    }

    /// The robots that are not marked offline.
    pub open spec fn not_offline(self) -> Seq<Robot> {
        self.robots.filter(|robot: Robot| robot.status != RobotStatus::Offline)
    }

    /// Only robots that are not yet offline can newly time out.
    pub(crate) proof fn lemma_newly_timed_out_bound(self, now: Instant)
        ensures
            self.newly_timed_out(now).len() <= self.not_offline().len(),
    {
        filtering::lemma_filter_narrower(
            self.robots,
            |robot: Robot| robot.newly_timed_out(now),
            |robot: Robot| robot.status != RobotStatus::Offline,
        );
    }

    /// After the heartbeats were checked at `now`.
    pub open spec fn heartbeats_checked(self, now: Instant) -> Self {
        CoordinatorState {
            robots: self.robots.map_values(|robot: Robot| robot.after_check(now)),
            stats: self.stats.plus_timeouts(self.newly_timed_out(now).len() as int),
            ..self
        }
    }

    /// After the monitor swept the robots at `now`.
    pub open spec fn heartbeats_swept(self, now: Instant) -> Self {
        CoordinatorState {
            robots: self.robots.map_values(|robot: Robot| robot.after_sweep(now)),
            stats: self.stats.plus_timeouts(self.newly_timed_out(now).len() as int),
            ..self
        }
    }

    /// The robots marked offline.
    pub open spec fn offline(self) -> Seq<Robot> {
        self.robots.filter(|robot: Robot| robot.status == RobotStatus::Offline)
    }

    /// The robots that can be reached at `now`.
    pub open spec fn online(self, now: Instant) -> Seq<Robot> {
        self.robots.filter(|robot: Robot| robot.online_at(now))
    }

    /// The robots that cannot be reached at `now`.
    pub open spec fn unreachable(self, now: Instant) -> Seq<Robot> {
        self.robots.filter(|robot: Robot| !robot.online_at(now))
    }

    /// The robots that are idle and can be reached at `now`.
    pub open spec fn idle(self, now: Instant) -> Seq<Robot> {
        self.robots.filter(|robot: Robot| robot.idle_at(now))
    }

    /// The robots that are busy and can be reached at `now`.
    pub open spec fn busy(self, now: Instant) -> Seq<Robot> {
        self.robots.filter(|robot: Robot| robot.busy_at(now))
    }

    /// After the monitor was started or stopped.
    pub open spec fn monitoring_set(self, active: bool) -> Self {
        CoordinatorState { monitoring: active, ..self }
    }
}

} // verus!
