//! The coordinator: its robots and its task queue.
use crate::messages;
use crate::model::CoordinatorState;
use crate::robot::{Robot, RobotStatus};
use crate::stats::CoordinatorStats;
use crate::task::Task;
use crate::text;
use std::collections::VecDeque;
use vstd::prelude::*;

pub mod dispatch;
pub mod heartbeats;
pub mod limits;
pub mod report;
pub mod zones;

verus! {

/// Registers robots, queues tasks, hands out zones and watches heartbeats.
pub struct RobotCoordinator {
    task_queue: VecDeque<Task>,
    /// For each zone, whether a guard for it is out.
    zones: Vec<bool>,
    robots: Vec<Robot>,
    stats: CoordinatorStats,
    monitoring_active: bool,
    origin: Ghost<int>,
}

impl View for RobotCoordinator {
    type V = CoordinatorState;

    closed spec fn view(&self) -> CoordinatorState {
        CoordinatorState {
            queue: self.task_queue@,
            zones: self.zones@,
            robots: self.robots@,
            stats: self.stats,
            monitoring: self.monitoring_active,
        }
    }
}

impl RobotCoordinator {
    /// What every operation keeps.
    pub open spec fn wf(&self) -> bool {
        self@.wf()
    }

    /// The mark of this coordinator, which never changes. The guards that it hands out carry it, and
    /// it takes back no guard that is not known to carry it. No two marks are said to differ; but of
    /// a guard from elsewhere nothing shows that it carries this one, so it cannot be given back
    /// here.
    pub closed spec fn origin(&self) -> int {
        self.origin@
    }

    /// A coordinator of `num_zones` free zones, without robots or tasks.
    pub fn new(num_zones: u32) -> (coordinator: Self)
        ensures
            coordinator.wf(),
            coordinator@ == CoordinatorState::initial(num_zones as nat),
    {
        let mut zones: Vec<bool> = Vec::with_capacity(num_zones as usize);
        for _zone in made: 0..num_zones
            invariant
                zones@ == Seq::new(made.index() as nat, |z: int| false),
        {
            zones.push(false);
        }
        RobotCoordinator {
            task_queue: VecDeque::new(),
            zones,
            robots: Vec::new(),
            stats: CoordinatorStats::default(),
            monitoring_active: false,
            origin: Ghost(arbitrary()),
        }
    }

    /// Where robot `id` stands among the robots.
    fn find_robot(&self, id: u32) -> (found: Option<usize>)
        requires
            self.wf(),
        ensures
            match found {
                Some(index) => {
                    &&& self@.has_robot(id)
                    &&& index == self@.robot_index(id)
                    &&& index < self.robots.len()
                    &&& self.robots[index as int].id == id
                },
                None => !self@.has_robot(id),
            },
    {
        let mut index: usize = 0;
        while index < self.robots.len()
            invariant
                self.wf(),
                forall|i: int| 0 <= i < index ==> self.robots[i].id != id,
            decreases self.robots.len() - index,
        {
            if self.robots[index].id == id {
                return Some(index);
            }
            index = index + 1;
        }
        None
    }

    /// Registers `robot`. A robot whose identifier is taken is refused.
    pub fn register_robot(&mut self, robot: Robot) -> (result: Result<(), String>)
        requires
            old(self).wf(),
        ensures
            final(self).wf(),
            final(self).origin() == old(self).origin(),
            final(self)@ == old(self)@.robot_registered(robot),
            match result {
                Ok(()) => !old(self)@.has_robot(robot.id),
                Err(message) => {
                    &&& old(self)@.has_robot(robot.id)
                    &&& message@ == messages::duplicate_robot(robot.id)
                },
            },
    {
        if self.find_robot(robot.id).is_some() {
            return Err(
                text::numbered_message("Robot with ID ", robot.id as u64, " already exists"),
            );
        }
        self.robots.push(robot);
        Ok(())
    }

    /// The number of registered robots.
    pub fn robot_count(&self) -> (count: usize)
        ensures
            count == self@.robots.len(),
    {
        self.robots.len()
    }

    /// The number of tasks that wait.
    pub fn queue_length(&self) -> (length: usize)
        ensures
            length == self@.queue.len(),
    {
        self.task_queue.len()
    }

    /// The running totals.
    pub fn get_stats(&self) -> (stats: CoordinatorStats)
        ensures
            stats == self@.stats,
    {
        self.stats
    }

    /// Puts `task` at the end of the queue.
    pub fn add_task(&mut self, task: Task)
        requires
            old(self).wf(),
            old(self)@.stats.total_tasks_created < u32::MAX,
        ensures
            final(self).wf(),
            final(self).origin() == old(self).origin(),
            final(self)@ == old(self)@.task_added(task),
    {
        self.task_queue.push_back(task);
        self.stats.total_tasks_created = self.stats.total_tasks_created + 1;
    }

    /// Puts `tasks` at the end of the queue, in their order.
    pub fn add_tasks(&mut self, tasks: Vec<Task>)
        requires
            old(self).wf(),
            old(self)@.stats.total_tasks_created + CoordinatorState::created_step(tasks@.len())
                <= u32::MAX,
        ensures
            final(self).wf(),
            final(self).origin() == old(self).origin(),
            final(self)@ == old(self)@.tasks_added(tasks@),
    {
        let added: u32 = tasks.len() as u32;
        for task in waiting: tasks
            invariant
                self.origin() == old(self).origin(),
                self@ == (CoordinatorState {
                    queue: old(self)@.queue + tasks@.take(waiting.index()),
                    ..old(self)@
                }),
        {
            self.task_queue.push_back(task);
        }
        self.stats.total_tasks_created = self.stats.total_tasks_created + added;
    }

    /// Hands the next task to robot `robot_id`, without its zone. An unknown or offline robot
    /// gets none.
    pub fn request_task(&mut self, robot_id: u32) -> (task: Option<Task>)
        requires
            old(self).wf(),
        ensures
            final(self).wf(),
            final(self).origin() == old(self).origin(),
            final(self)@ == old(self)@.task_requested(robot_id),
            task == (if old(self)@.may_request(robot_id) && old(self)@.queue.len() > 0 {
                Some(old(self)@.queue[0])
            } else {
                None
            }),
    {
        match self.find_robot(robot_id) {
            None => None,
            Some(index) => {
                if self.robots[index].status == RobotStatus::Offline {
                    return None;
                }
                let task = self.task_queue.pop_front();
                if let Some(next) = &task {
                    self.robots[index].status = RobotStatus::Busy;
                    self.robots[index].current_zone = Some(next.zone);
                }
                task
            },
        }
    }

    /// Records that robot `robot_id` finished its task.
    pub fn complete_task(&mut self, robot_id: u32) -> (result: Result<(), String>)
        requires
            old(self).wf(),
            old(self)@.may_complete(robot_id) ==> {
                &&& old(self)@.stats.total_tasks_completed < u32::MAX
                &&& old(self)@.robot(robot_id).tasks_completed < u32::MAX
            },
        ensures
            final(self).wf(),
            final(self).origin() == old(self).origin(),
            final(self)@ == old(self)@.task_completed(robot_id),
            match result {
                Ok(()) => old(self)@.may_complete(robot_id),
                Err(message) => {
                    &&& !old(self)@.may_complete(robot_id)
                    &&& message@ == if old(self)@.has_robot(robot_id) {
                        messages::robot_not_busy(robot_id)
                    } else {
                        messages::robot_not_found(robot_id)
                    }
                },
            },
    {
        match self.find_robot(robot_id) {
            None => Err(text::numbered_message("Robot ", robot_id as u64, " not found")),
            Some(index) => {
                if self.robots[index].status != RobotStatus::Busy {
                    return Err(text::numbered_message("Robot ", robot_id as u64, " is not busy"));
                }
                self.robots[index].status = RobotStatus::Idle;
                self.robots[index].current_zone = None;
                self.robots[index].tasks_completed = self.robots[index].tasks_completed + 1;
                self.stats.total_tasks_completed = self.stats.total_tasks_completed + 1;
                Ok(())
            },
        }
    }
}

} // verus!
