//! Calls that say who can be reached, sum up the whole, and say whether the totals have room.
use crate::clock;
use crate::coordinator::report::StatusReport;
use crate::coordinator::RobotCoordinator;
use crate::filtering;
use crate::laws::calls;
use crate::robot::{Robot, RobotStatus};
use crate::text;
use std::time::Instant;
use vstd::prelude::*;

verus! {

/// The idle robots that are counted are those whose status is idle and that have not been silent for
/// more than three seconds.
pub proof fn law_idle_robot_count_at(c: RobotCoordinator, now: Instant, count: usize)
    requires
        call_ensures(RobotCoordinator::idle_robot_count_at, (&c, now), count),
    ensures
        count == c@.robots.filter(
            |robot: Robot| robot.status == RobotStatus::Idle && !calls::is_silent(robot, now),
        ).len(),
{
    filtering::lemma_filter_same(
        c@.robots,
        |robot: Robot| robot.idle_at(now),
        |robot: Robot| robot.status == RobotStatus::Idle && !calls::is_silent(robot, now),
    );
}

/// The same at a reading of the clock.
pub proof fn law_idle_robot_count(c: RobotCoordinator, count: usize)
    requires
        call_ensures(RobotCoordinator::idle_robot_count, (&c,), count),
    ensures
        exists|now: Instant|
            #[trigger] clock::is_reading(now) && count == c@.robots.filter(
                |robot: Robot| robot.status == RobotStatus::Idle && !calls::is_silent(robot, now),
            ).len(),
{
    let now = choose|now: Instant|
        clock::is_reading(now) && count == (#[trigger] c@.idle(now)).len();
    filtering::lemma_filter_same(
        c@.robots,
        |robot: Robot| robot.idle_at(now),
        |robot: Robot| robot.status == RobotStatus::Idle && !calls::is_silent(robot, now),
    );
    assert(clock::is_reading(now));
}

/// The offline robots are those whose status is offline, as they are and in their order.
pub proof fn law_get_offline_robots(c: RobotCoordinator, robots: Vec<Robot>)
    requires
        call_ensures(RobotCoordinator::get_offline_robots, (&c,), robots),
    ensures
        robots@ == c@.robots.filter(|robot: Robot| robot.status == RobotStatus::Offline),
{
    filtering::lemma_filter_same(
        c@.robots,
        |robot: Robot| robot.status == RobotStatus::Offline,
        |robot: Robot| robot.status == RobotStatus::Offline,
    );
}

/// The online robots are those whose status is not offline and that have not been silent for more
/// than three seconds, as they are and in their order.
pub proof fn law_get_online_robots_at(c: RobotCoordinator, now: Instant, robots: Vec<Robot>)
    requires
        call_ensures(RobotCoordinator::get_online_robots_at, (&c, now), robots),
    ensures
        robots@ == c@.robots.filter(
            |robot: Robot| robot.status != RobotStatus::Offline && !calls::is_silent(robot, now),
        ),
{
    filtering::lemma_filter_same(
        c@.robots,
        |robot: Robot| robot.online_at(now),
        |robot: Robot| robot.status != RobotStatus::Offline && !calls::is_silent(robot, now),
    );
}

/// The same at a reading of the clock.
pub proof fn law_get_online_robots(c: RobotCoordinator, robots: Vec<Robot>)
    requires
        call_ensures(RobotCoordinator::get_online_robots, (&c,), robots),
    ensures
        exists|now: Instant|
            #[trigger] clock::is_reading(now) && robots@ == c@.robots.filter(
                |robot: Robot|
                    robot.status != RobotStatus::Offline && !calls::is_silent(robot, now),
            ),
{
    let now = choose|now: Instant|
        clock::is_reading(now) && robots@ == #[trigger] c@.online(now);
    filtering::lemma_filter_same(
        c@.robots,
        |robot: Robot| robot.online_at(now),
        |robot: Robot| robot.status != RobotStatus::Offline && !calls::is_silent(robot, now),
    );
    assert(clock::is_reading(now));
}

/// Whether the numbers of a report are those of the tasks that wait, of all robots, of the robots
/// that are neither offline nor silent, of the others, and of the busy and the idle ones that are
/// not silent.
pub open spec fn counts_at(c: RobotCoordinator, now: Instant, report: StatusReport) -> bool {
    &&& report.queue_length == c@.queue.len()
    &&& report.total_robots == c@.robots.len()
    &&& report.online_robots == c@.robots.filter(
        |robot: Robot| robot.status != RobotStatus::Offline && !calls::is_silent(robot, now),
    ).len()
    &&& report.offline_robots == c@.robots.filter(
        |robot: Robot| robot.status == RobotStatus::Offline || calls::is_silent(robot, now),
    ).len()
    &&& report.busy_robots == c@.robots.filter(
        |robot: Robot| robot.status == RobotStatus::Busy && !calls::is_silent(robot, now),
    ).len()
    &&& report.idle_robots == c@.robots.filter(
        |robot: Robot| robot.status == RobotStatus::Idle && !calls::is_silent(robot, now),
    ).len()
    &&& report.stats == c@.stats
}

proof fn lemma_counts(c: RobotCoordinator, now: Instant, report: StatusReport)
    requires
        c@.summed_up_by(report, now),
    ensures
        counts_at(c, now, report),
{
    filtering::lemma_filter_same(
        c@.robots,
        |robot: Robot| robot.online_at(now),
        |robot: Robot| robot.status != RobotStatus::Offline && !calls::is_silent(robot, now),
    );
    filtering::lemma_filter_same(
        c@.robots,
        |robot: Robot| !robot.online_at(now),
        |robot: Robot| robot.status == RobotStatus::Offline || calls::is_silent(robot, now),
    );
    filtering::lemma_filter_same(
        c@.robots,
        |robot: Robot| robot.busy_at(now),
        |robot: Robot| robot.status == RobotStatus::Busy && !calls::is_silent(robot, now),
    );
    filtering::lemma_filter_same(
        c@.robots,
        |robot: Robot| robot.idle_at(now),
        |robot: Robot| robot.status == RobotStatus::Idle && !calls::is_silent(robot, now),
    );
}

/// A report counts the busy robots as busy and the idle ones as idle, those that have not been silent
/// for more than three seconds, and everything else by its name.
pub proof fn law_status_report_at(c: RobotCoordinator, now: Instant, report: StatusReport)
    requires
        call_ensures(RobotCoordinator::status_report_at, (&c, now), report),
    ensures
        counts_at(c, now, report),
{
    lemma_counts(c, now, report);
}

/// The same at a reading of the clock.
pub proof fn law_status_report(c: RobotCoordinator, report: StatusReport)
    requires
        call_ensures(RobotCoordinator::status_report, (&c,), report),
    ensures
        exists|now: Instant| #[trigger] clock::is_reading(now) && counts_at(c, now, report),
{
    let now = choose|now: Instant|
        clock::is_reading(now) && #[trigger] c@.summed_up_by(report, now);
    lemma_counts(c, now, report);
    assert(clock::is_reading(now));
}

/// A report and the other calls agree: its idle robots are those that `idle_robot_count_at` counts,
/// its online robots those that `get_online_robots_at` lists, its tasks and its robots those that
/// `queue_length` and `robot_count` count.
pub proof fn law_report_agrees(
    c: RobotCoordinator,
    now: Instant,
    report: StatusReport,
    idle: usize,
    online: Vec<Robot>,
    tasks: usize,
    robots: usize,
)
    requires
        call_ensures(RobotCoordinator::status_report_at, (&c, now), report),
        call_ensures(RobotCoordinator::idle_robot_count_at, (&c, now), idle),
        call_ensures(RobotCoordinator::get_online_robots_at, (&c, now), online),
        call_ensures(RobotCoordinator::queue_length, (&c,), tasks),
        call_ensures(RobotCoordinator::robot_count, (&c,), robots),
    ensures
        report.idle_robots == idle,
        report.online_robots == online@.len(),
        report.queue_length == tasks,
        report.total_robots == robots,
        report.online_robots + report.offline_robots == robots,
{
    filtering::lemma_filter_partition(
        c@.robots,
        |robot: Robot| robot.online_at(now),
        |robot: Robot| !robot.online_at(now),
    );
}

/// The text of a report gives each of its numbers on a line of its own, behind its name.
pub proof fn law_report_text(report: StatusReport, out: String)
    requires
        call_ensures(StatusReport::to_text, (&report,), out),
    ensures
        out@ == "===== Robot Coordinator Status Report =====\n"@ + ("Task Queue Length: "@
            + text::decimal(report.queue_length as nat) + "\n"@) + ("Total Robots: "@
            + text::decimal(report.total_robots as nat) + "\n"@) + ("Online Robots: "@
            + text::decimal(report.online_robots as nat) + "\n"@) + ("Offline Robots: "@
            + text::decimal(report.offline_robots as nat) + "\n"@) + ("Busy Robots: "@
            + text::decimal(report.busy_robots as nat) + "\n"@) + ("Idle Robots: "@ + text::decimal(
            report.idle_robots as nat,
        ) + "\n"@) + "\n--- Statistics ---\n"@ + ("Tasks Created: "@ + text::decimal(
            report.stats.total_tasks_created as nat,
        ) + "\n"@) + ("Tasks Completed: "@ + text::decimal(
            report.stats.total_tasks_completed as nat,
        ) + "\n"@) + ("Zone Access Attempts: "@ + text::decimal(
            report.stats.total_zone_access_attempts as nat,
        ) + "\n"@) + ("Zone Access Grants: "@ + text::decimal(
            report.stats.total_zone_access_grants as nat,
        ) + "\n"@) + ("Zone Denials: "@ + text::decimal(report.stats.total_zone_denials as nat)
            + "\n"@) + ("Heartbeats Received: "@ + text::decimal(
            report.stats.total_heartbeats_received as nat,
        ) + "\n"@) + ("Timeouts Detected: "@ + text::decimal(
            report.stats.total_timeouts_detected as nat,
        ) + "\n"@),
{
}

/// A claim fits unless it would try a zone with the attempts at their limit.
pub proof fn law_claim_fits(c: RobotCoordinator, fits: bool)
    requires
        call_ensures(RobotCoordinator::claim_fits, (&c,), fits),
    ensures
        !fits <==> {
            &&& c@.queue.len() > 0
            &&& c@.queue[0].zone < c@.zones.len()
            &&& c@.stats.total_zone_access_attempts == u32::MAX
        },
{
}

/// A completion or a heartbeat of a registered robot fits unless it would be counted with a total at
/// its limit.
pub proof fn law_completion_and_heartbeat_fit(
    c: RobotCoordinator,
    id: u32,
    completion: bool,
    heartbeat: bool,
    i: int,
)
    requires
        call_ensures(RobotCoordinator::completion_fits, (&c, id), completion),
        call_ensures(RobotCoordinator::heartbeat_fits, (&c, id), heartbeat),
        calls::distinct_ids(c@.robots),
        calls::stands_at(c@.robots, id, i),
    ensures
        !completion <==> {
            &&& c@.robots[i].status == RobotStatus::Busy
            &&& c@.stats.total_tasks_completed == u32::MAX || c@.robots[i].tasks_completed
                == u32::MAX
        },
        !heartbeat <==> c@.stats.total_heartbeats_received == u32::MAX,
{
    calls::lemma_place(c@, id, i);
}

/// What is reported of a robot that is not registered always fits.
pub proof fn law_unknown_robot_fits(
    c: RobotCoordinator,
    id: u32,
    completion: bool,
    heartbeat: bool,
)
    requires
        call_ensures(RobotCoordinator::completion_fits, (&c, id), completion),
        call_ensures(RobotCoordinator::heartbeat_fits, (&c, id), heartbeat),
        !calls::is_known(c@.robots, id),
    ensures
        completion,
        heartbeat,
{
    calls::lemma_no_place(c@, id);
}

/// Timeouts fit if the robots that are silent and not yet offline can all be counted.
pub proof fn law_timeouts_fit_at(c: RobotCoordinator, now: Instant, fits: bool)
    requires
        call_ensures(RobotCoordinator::timeouts_fit_at, (&c, now), fits),
    ensures
        fits <==> c@.stats.total_timeouts_detected + c@.robots.filter(
            |robot: Robot| robot.status != RobotStatus::Offline && calls::is_silent(robot, now),
        ).len() <= u32::MAX,
{
    filtering::lemma_filter_same(
        c@.robots,
        |robot: Robot| robot.newly_timed_out(now),
        |robot: Robot| robot.status != RobotStatus::Offline && calls::is_silent(robot, now),
    );
}

} // verus!
