//! When the calls can be made.
use crate::benchmark;
use crate::benchmark::Config;
use crate::coordinator::RobotCoordinator;
use crate::laws::calls;
use crate::model::CoordinatorState;
use crate::robot::{Robot, RobotStatus};
use crate::task::Task;
use crate::zone::ZoneGuard;
use std::time::Instant;
use vstd::prelude::*;

verus! {

/// Whether the robots are told apart, no more grants and denials are counted than attempts, and the
/// zones can be numbered.
pub open spec fn is_sound(state: CoordinatorState) -> bool {
    &&& calls::distinct_ids(state.robots)
    &&& state.stats.total_zone_access_grants + state.stats.total_zone_denials
        <= state.stats.total_zone_access_attempts
    &&& state.zones.len() <= u32::MAX
}

/// Whether every total has room for one more, and that of the timeouts for one more of each robot.
pub open spec fn has_room(state: CoordinatorState) -> bool {
    &&& state.stats.total_tasks_created < u32::MAX
    &&& state.stats.total_tasks_completed < u32::MAX
    &&& state.stats.total_zone_access_attempts < u32::MAX
    &&& state.stats.total_heartbeats_received < u32::MAX
    &&& state.stats.total_timeouts_detected + state.robots.len() <= u32::MAX
    &&& forall|i: int|
        0 <= i < state.robots.len() ==> (#[trigger] state.robots[i]).tasks_completed < u32::MAX
}

/// A new coordinator is sound and has room.
pub proof fn law_new_coordinator_is_sound(num_zones: u32, c: RobotCoordinator)
    requires
        call_ensures(RobotCoordinator::new, (num_zones,), c),
    ensures
        is_sound(c@),
        has_room(c@),
{
}

/// What every call keeps is that the coordinator is sound, and nothing more.
pub proof fn law_well_formed_is_sound(c: RobotCoordinator)
    ensures
        c.wf() <==> is_sound(c@),
{
}

/// Every call can be made of a sound coordinator whose totals have room, whatever the robot, the
/// zone, the task and the instant.
pub proof fn law_calls_are_open(
    c: &mut RobotCoordinator,
    robot: Robot,
    task: Task,
    id: u32,
    zone: usize,
    now: Instant,
)
    requires
        is_sound(old(c)@),
        has_room(old(c)@),
    ensures
        call_requires(RobotCoordinator::register_robot, (c, robot)),
        call_requires(RobotCoordinator::add_task, (c, task)),
        call_requires(RobotCoordinator::request_task, (c, id)),
        call_requires(RobotCoordinator::complete_task, (c, id)),
        call_requires(RobotCoordinator::request_zone, (c, id, zone)),
        call_requires(RobotCoordinator::record_departure, (c, id, zone)),
        call_requires(RobotCoordinator::claim_next_task, (c,)),
        call_requires(RobotCoordinator::dispatch_next_task, (c, id)),
        call_requires(RobotCoordinator::heartbeat_at, (c, id, now)),
        call_requires(RobotCoordinator::heartbeat, (c, id)),
        call_requires(RobotCoordinator::check_heartbeats_at, (c, now)),
        call_requires(RobotCoordinator::check_heartbeats, (c,)),
        call_requires(RobotCoordinator::sweep_heartbeats_at, (c, now)),
        call_requires(RobotCoordinator::sweep_heartbeats, (c,)),
        call_requires(RobotCoordinator::start_monitoring, (c,)),
        call_requires(RobotCoordinator::stop_monitoring, (c,)),
{
    if old(c)@.has_robot(id) {
        assert(old(c)@.robots[old(c)@.robot_index(id)].tasks_completed < u32::MAX);
    }
    old(c)@.robots.lemma_filter_len(|robot: Robot| robot.newly_timed_out(now));
    old(c)@.robots.lemma_filter_len(|robot: Robot| robot.status != RobotStatus::Offline);
}

/// Every batch of tasks that can be counted can be added.
pub proof fn law_batches_are_open(c: &mut RobotCoordinator, tasks: Vec<Task>)
    requires
        is_sound(old(c)@),
        old(c)@.stats.total_tasks_created + tasks@.len() <= u32::MAX,
    ensures
        call_requires(RobotCoordinator::add_tasks, (c, tasks)),
{
}

/// A guard can be given back to the coordinator that it came from, whatever is said of the robot, and
/// a claimed task can be offered to any robot while its attempt is not answered.
pub proof fn law_guards_can_be_given_back(
    c: &mut RobotCoordinator,
    guard: ZoneGuard,
    id: u32,
    zone: usize,
    task: Task,
    now: Instant,
)
    requires
        is_sound(old(c)@),
        guard.origin() == old(c).origin(),
    ensures
        call_requires(RobotCoordinator::release_zone, (c, guard)),
        call_requires(RobotCoordinator::leave_zone, (c, guard, id, zone)),
        guard.held_zone() == task.zone && old(c)@.stats.total_zone_access_grants
            + old(c)@.stats.total_zone_denials < old(c)@.stats.total_zone_access_attempts
            ==> call_requires(
            RobotCoordinator::assign_claimed_task,
            (c, id, task, guard, now),
        ),
{
}

/// What only looks at a coordinator can be called of any that is sound.
pub proof fn law_looks_are_open(c: RobotCoordinator, id: u32, zone: usize, now: Instant)
    requires
        is_sound(c@),
    ensures
        call_requires(RobotCoordinator::robot_count, (&c,)),
        call_requires(RobotCoordinator::queue_length, (&c,)),
        call_requires(RobotCoordinator::get_stats, (&c,)),
        call_requires(RobotCoordinator::is_zone_occupied, (&c, zone)),
        call_requires(RobotCoordinator::is_monitoring, (&c,)),
        call_requires(RobotCoordinator::check_dispatch, (&c, id, now)),
        call_requires(RobotCoordinator::idle_robot_count_at, (&c, now)),
        call_requires(RobotCoordinator::idle_robot_count, (&c,)),
        call_requires(RobotCoordinator::get_offline_robots, (&c,)),
        call_requires(RobotCoordinator::get_online_robots_at, (&c, now)),
        call_requires(RobotCoordinator::get_online_robots, (&c,)),
        call_requires(RobotCoordinator::status_report_at, (&c, now)),
        call_requires(RobotCoordinator::status_report, (&c,)),
        call_requires(RobotCoordinator::claim_fits, (&c,)),
        call_requires(RobotCoordinator::completion_fits, (&c, id)),
        call_requires(RobotCoordinator::heartbeat_fits, (&c, id)),
        call_requires(RobotCoordinator::timeouts_fit_at, (&c, now)),
{
}

/// Every command line can be read, every value of an option too, and every run can be prepared that
/// has a zone for its tasks.
pub proof fn law_benchmark_is_open(
    args: Vec<String>,
    flag: &str,
    value: Option<String>,
    config: Config,
    robots: u32,
)
    ensures
        call_requires(benchmark::parse_args, (&args,)),
        call_requires(benchmark::parse_positive::<u32>, (flag, value)),
        call_requires(benchmark::parse_positive::<u64>, (flag, value)),
        config.tasks == 0 || config.zones > 0 ==> call_requires(
            benchmark::prepare_run,
            (&config, robots),
        ),
{
}

} // verus!
