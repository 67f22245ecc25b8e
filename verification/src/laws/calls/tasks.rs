//! Calls that register robots and move tasks.
use crate::coordinator::RobotCoordinator;
use crate::laws::calls;
use crate::model::CoordinatorState;
use crate::robot::{Robot, RobotStatus};
use crate::stats::CoordinatorStats;
use crate::task::Task;
use crate::text;
use vstd::prelude::*;

verus! {

/// A new coordinator has the zones that it was asked for, all free, and nothing else; every total is
/// zero.
pub proof fn law_new_coordinator(num_zones: u32, c: RobotCoordinator)
    requires
        call_ensures(RobotCoordinator::new, (num_zones,), c),
    ensures
        c@.zones.len() == num_zones,
        forall|z: int| 0 <= z < num_zones ==> !(#[trigger] c@.zones[z]),
        c@.queue.len() == 0,
        c@.robots.len() == 0,
        !c@.monitoring,
        c@.stats.total_tasks_created == 0,
        c@.stats.total_tasks_completed == 0,
        c@.stats.total_zone_access_attempts == 0,
        c@.stats.total_zone_access_grants == 0,
        c@.stats.total_zone_denials == 0,
        c@.stats.total_heartbeats_received == 0,
        c@.stats.total_timeouts_detected == 0,
{
}

/// A robot is registered, as it is and behind all others, exactly if no robot has its identifier.
pub proof fn law_register_robot(c: &mut RobotCoordinator, robot: Robot, result: Result<(), String>)
    requires
        call_ensures(RobotCoordinator::register_robot, (c, robot), result),
    ensures
        result is Ok <==> !calls::is_known(old(c)@.robots, robot.id),
        result is Ok ==> final(c)@ == (CoordinatorState {
            robots: old(c)@.robots.push(robot),
            ..old(c)@
        }),
        result matches Err(message) ==> final(c)@ == old(c)@ && message@ == "Robot with ID "@
            + text::decimal(robot.id as nat) + " already exists"@,
{
    if calls::is_known(old(c)@.robots, robot.id) {
        let i = choose|i: int|
            0 <= i < old(c)@.robots.len() && (#[trigger] old(c)@.robots[i]).id == robot.id;
        assert(old(c)@.has_robot(robot.id));
    } else {
        calls::lemma_no_place(old(c)@, robot.id);
    }
}

/// The counts count what is there.
pub proof fn law_counts(c: RobotCoordinator, robots: usize, tasks: usize, stats: CoordinatorStats)
    requires
        call_ensures(RobotCoordinator::robot_count, (&c,), robots),
        call_ensures(RobotCoordinator::queue_length, (&c,), tasks),
        call_ensures(RobotCoordinator::get_stats, (&c,), stats),
    ensures
        robots == c@.robots.len(),
        tasks == c@.queue.len(),
        stats == c@.stats,
{
}

/// A task that is added waits behind all others, as it is, and is counted once.
pub proof fn law_add_task(c: &mut RobotCoordinator, task: Task)
    requires
        call_ensures(RobotCoordinator::add_task, (c, task), ()),
        old(c)@.stats.total_tasks_created < u32::MAX,
    ensures
        final(c)@ == (CoordinatorState {
            queue: old(c)@.queue.push(task),
            stats: CoordinatorStats {
                total_tasks_created: (old(c)@.stats.total_tasks_created + 1) as u32,
                ..old(c)@.stats
            },
            ..old(c)@
        }),
        final(c)@.stats.total_tasks_created == old(c)@.stats.total_tasks_created + 1,
{
}

/// Tasks that are added at once wait behind all others, in their order, and each is counted once as
/// long as the total has room for them all.
pub proof fn law_add_tasks(c: &mut RobotCoordinator, tasks: Vec<Task>)
    requires
        call_ensures(RobotCoordinator::add_tasks, (c, tasks), ()),
    ensures
        final(c)@ == (CoordinatorState {
            queue: old(c)@.queue + tasks@,
            stats: CoordinatorStats {
                total_tasks_created: final(c)@.stats.total_tasks_created,
                ..old(c)@.stats
            },
            ..old(c)@
        }),
        old(c)@.stats.total_tasks_created + tasks@.len() <= u32::MAX
            ==> final(c)@.stats.total_tasks_created == old(c)@.stats.total_tasks_created
            + tasks@.len(),
{
}

/// The total is kept in thirty-two bits, and so is what a batch adds to it: of a batch that is too
/// large for them, the rest is counted.
pub proof fn law_large_batch_is_counted(c: &mut RobotCoordinator, tasks: Vec<Task>)
    requires
        call_ensures(RobotCoordinator::add_tasks, (c, tasks), ()),
        old(c)@.stats.total_tasks_created + tasks@.len() % 0x1_0000_0000 <= u32::MAX,
    ensures
        final(c)@.stats.total_tasks_created == old(c)@.stats.total_tasks_created + tasks@.len()
            % 0x1_0000_0000,
{
    let n = tasks@.len() as u64;
    assert(n as u32 == n % 0x1_0000_0000u64) by (bit_vector);
    assert(tasks.len() == tasks@.len());
}

/// A registered robot that is not offline gets the first task that waits, and none exactly if none
/// waits. The task leaves the queue, and the robot is busy in the task's zone.
pub proof fn law_request_task(c: &mut RobotCoordinator, id: u32, task: Option<Task>, i: int)
    requires
        call_ensures(RobotCoordinator::request_task, (c, id), task),
        calls::distinct_ids(old(c)@.robots),
        calls::stands_at(old(c)@.robots, id, i),
    ensures
        task is Some <==> old(c)@.queue.len() > 0 && old(c)@.robots[i].status
            != RobotStatus::Offline,
        task is None ==> final(c)@ == old(c)@,
        task matches Some(next) ==> {
            let before = old(c)@;
            &&& before.queue == seq![next] + final(c)@.queue
            &&& final(c)@ == (CoordinatorState {
                queue: final(c)@.queue,
                robots: before.robots.update(
                    i,
                    Robot {
                        status: RobotStatus::Busy,
                        current_zone: Some(next.zone),
                        ..before.robots[i]
                    },
                ),
                ..before
            })
        },
{
    calls::lemma_place(old(c)@, id, i);
    if task is Some {
        assert(old(c)@.queue =~= seq![old(c)@.queue[0]] + final(c)@.queue);
    }
}

/// A robot at work, and no other, completes its task: it is idle in no zone afterwards, with one
/// more task to its name, and the total grows by one.
pub proof fn law_complete_task(
    c: &mut RobotCoordinator,
    id: u32,
    result: Result<(), String>,
    i: int,
)
    requires
        call_ensures(RobotCoordinator::complete_task, (c, id), result),
        calls::distinct_ids(old(c)@.robots),
        calls::stands_at(old(c)@.robots, id, i),
        old(c)@.robots[i].status == RobotStatus::Busy ==> old(c)@.stats.total_tasks_completed
            < u32::MAX && old(c)@.robots[i].tasks_completed < u32::MAX,
    ensures
        result is Ok <==> old(c)@.robots[i].status == RobotStatus::Busy,
        result matches Err(message) ==> final(c)@ == old(c)@ && message@ == "Robot "@
            + text::decimal(id as nat) + " is not busy"@,
        result is Ok ==> {
            let before = old(c)@;
            &&& final(c)@.stats.total_tasks_completed == before.stats.total_tasks_completed + 1
            &&& final(c)@.robots[i].tasks_completed == before.robots[i].tasks_completed + 1
            &&& final(c)@ == (CoordinatorState {
                robots: before.robots.update(
                    i,
                    Robot {
                        status: RobotStatus::Idle,
                        current_zone: None,
                        tasks_completed: (before.robots[i].tasks_completed + 1) as u32,
                        ..before.robots[i]
                    },
                ),
                stats: CoordinatorStats {
                    total_tasks_completed: (before.stats.total_tasks_completed + 1) as u32,
                    ..before.stats
                },
                ..before
            })
        },
{
    calls::lemma_place(old(c)@, id, i);
}

/// A robot that is not registered gets no task and completes none.
pub proof fn law_unknown_robot_has_no_task(
    c: &mut RobotCoordinator,
    id: u32,
    task: Option<Task>,
    d: &mut RobotCoordinator,
    result: Result<(), String>,
)
    requires
        call_ensures(RobotCoordinator::request_task, (c, id), task),
        !calls::is_known(old(c)@.robots, id),
        call_ensures(RobotCoordinator::complete_task, (d, id), result),
        !calls::is_known(old(d)@.robots, id),
    ensures
        task is None,
        final(c)@ == old(c)@,
        result matches Err(message) && message@ == "Robot "@ + text::decimal(id as nat)
            + " not found"@,
        final(d)@ == old(d)@,
{
    calls::lemma_no_place(old(c)@, id);
    calls::lemma_no_place(old(d)@, id);
}

} // verus!
