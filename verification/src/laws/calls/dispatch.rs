//! Calls that dispatch tasks.
use crate::clock;
use crate::coordinator::dispatch::{DispatchOutcome, TaskClaim, WorkerStep};
use crate::coordinator::RobotCoordinator;
use crate::laws::calls;
use crate::model::CoordinatorState;
use crate::robot::{Robot, RobotStatus};
use crate::stats::CoordinatorStats;
use crate::task::Task;
use crate::text;
use crate::zone::ZoneGuard;
use std::time::Instant;
use vstd::prelude::*;

verus! {

/// A registered robot can be given work exactly if it is not offline, has been heard of within the
/// last three seconds and is not busy.
pub proof fn law_check_dispatch(
    c: RobotCoordinator,
    id: u32,
    now: Instant,
    result: Result<(), String>,
    i: int,
)
    requires
        call_ensures(RobotCoordinator::check_dispatch, (&c, id, now), result),
        calls::distinct_ids(c@.robots),
        calls::stands_at(c@.robots, id, i),
    ensures
        result is Ok <==> {
            &&& c@.robots[i].status != RobotStatus::Offline
            &&& !calls::is_silent(c@.robots[i], now)
            &&& c@.robots[i].status != RobotStatus::Busy
        },
        result matches Err(message) ==> message@ == "Robot "@ + text::decimal(id as nat) + (
        if c@.robots[i].status == RobotStatus::Offline || calls::is_silent(c@.robots[i], now) {
            " is offline"@
        } else {
            " is already busy"@
        }),
{
    calls::lemma_place(c@, id, i);
}

/// A robot that is not registered can be given no work.
pub proof fn law_check_dispatch_unknown(
    c: RobotCoordinator,
    id: u32,
    now: Instant,
    result: Result<(), String>,
)
    requires
        call_ensures(RobotCoordinator::check_dispatch, (&c, id, now), result),
        !calls::is_known(c@.robots, id),
    ensures
        result matches Err(message) && message@ == "Robot "@ + text::decimal(id as nat)
            + " not found"@,
{
    calls::lemma_no_place(c@, id);
}

/// A claim finds no task exactly if none waits. A task for a zone that does not exist stays where it
/// is; a task whose zone is held moves behind all others, counted as denied; a task whose zone is
/// free is taken, and its zone with it.
pub proof fn law_claim_next_task(c: &mut RobotCoordinator, claim: Result<TaskClaim, String>)
    requires
        call_ensures(RobotCoordinator::claim_next_task, (c,), claim),
        old(c)@.queue.len() > 0 && old(c)@.queue[0].zone < old(c)@.zones.len()
            ==> calls::can_count_attempt(old(c)@.stats),
    ensures
        claim matches Ok(TaskClaim::QueueEmpty) <==> old(c)@.queue.len() == 0,
        old(c)@.queue.len() == 0 ==> final(c)@ == old(c)@,
        old(c)@.queue.len() > 0 ==> {
            let before = old(c)@;
            let first = before.queue[0];
            let zone = first.zone as int;
            let rest = before.queue.subrange(1, before.queue.len() as int);
            if zone >= before.zones.len() {
                &&& claim matches Err(message) && message@ == "Zone "@ + text::decimal(
                    first.zone as nat,
                ) + " does not exist"@
                &&& final(c)@ == before
            } else if before.zones[zone] {
                &&& claim matches Ok(TaskClaim::ZoneBusy { task_id, zone: busy }) && task_id
                    == first.id && busy == first.zone
                &&& final(c)@ == (CoordinatorState {
                    queue: rest.push(first),
                    stats: CoordinatorStats {
                        total_zone_access_attempts: (before.stats.total_zone_access_attempts
                            + 1) as u32,
                        total_zone_denials: (before.stats.total_zone_denials + 1) as u32,
                        ..before.stats
                    },
                    ..before
                })
            } else {
                &&& claim matches Ok(TaskClaim::Claimed { task, zone_guard }) && task == first
                    && zone_guard.held_zone() == zone && zone_guard.origin() == old(c).origin()
                &&& final(c)@ == (CoordinatorState {
                    queue: rest,
                    zones: before.zones.update(zone, true),
                    stats: CoordinatorStats {
                        total_zone_access_attempts: (before.stats.total_zone_access_attempts
                            + 1) as u32,
                        ..before.stats
                    },
                    ..before
                })
            }
        },
{
    if old(c)@.queue.len() > 0 {
        assert(old(c)@.queue.drop_first() =~= old(c)@.queue.subrange(
            1,
            old(c)@.queue.len() as int,
        ));
    }
}

/// A claimed task goes to its robot, with its zone, exactly if the robot is not offline, has been
/// heard of within the last three seconds and is not busy. Otherwise the task is first in the queue
/// again, the zone is free, and no other trace is left.
pub proof fn law_assign_claimed_task(
    c: &mut RobotCoordinator,
    id: u32,
    task: Task,
    guard: ZoneGuard,
    now: Instant,
    answer: Result<DispatchOutcome, String>,
    i: int,
)
    requires
        call_ensures(RobotCoordinator::assign_claimed_task, (c, id, task, guard, now), answer),
        calls::distinct_ids(old(c)@.robots),
        calls::stands_at(old(c)@.robots, id, i),
        old(c)@.stats.total_zone_access_grants < u32::MAX,
    ensures
        ({
            let before = old(c)@;
            let away = before.robots[i].status == RobotStatus::Offline || calls::is_silent(
                before.robots[i],
                now,
            );
            if away || before.robots[i].status == RobotStatus::Busy {
                &&& answer matches Err(message) && message@ == "Robot "@ + text::decimal(id as nat)
                    + (if away {
                    " became offline"@
                } else {
                    " became busy"@
                })
                &&& final(c)@ == (CoordinatorState {
                    queue: seq![task] + before.queue,
                    zones: if task.zone < before.zones.len() {
                        before.zones.update(task.zone as int, false)
                    } else {
                        before.zones
                    },
                    ..before
                })
            } else {
                &&& answer matches Ok(DispatchOutcome::Assigned { task: given, zone_guard })
                    && given == task && zone_guard.held_zone() == task.zone && zone_guard.origin()
                    == old(c).origin()
                &&& final(c)@ == (CoordinatorState {
                    robots: before.robots.update(
                        i,
                        Robot {
                            status: RobotStatus::Busy,
                            current_zone: Some(task.zone),
                            ..before.robots[i]
                        },
                    ),
                    stats: CoordinatorStats {
                        total_zone_access_grants: (before.stats.total_zone_access_grants
                            + 1) as u32,
                        ..before.stats
                    },
                    ..before
                })
            }
        }),
{
    calls::lemma_place(old(c)@, id, i);
}

/// A task claimed for a robot that is not registered is first in the queue again, and its zone free.
pub proof fn law_assign_claimed_task_unknown(
    c: &mut RobotCoordinator,
    id: u32,
    task: Task,
    guard: ZoneGuard,
    now: Instant,
    answer: Result<DispatchOutcome, String>,
)
    requires
        call_ensures(RobotCoordinator::assign_claimed_task, (c, id, task, guard, now), answer),
        !calls::is_known(old(c)@.robots, id),
    ensures
        answer matches Err(message) && message@ == "Robot "@ + text::decimal(id as nat)
            + " not found"@,
        final(c)@ == (CoordinatorState {
            queue: seq![task] + old(c)@.queue,
            zones: if task.zone < old(c)@.zones.len() {
                old(c)@.zones.update(task.zone as int, false)
            } else {
                old(c)@.zones
            },
            ..old(c)@
        }),
{
    calls::lemma_no_place(old(c)@, id);
}

/// What the answer to a dispatch says of the state that it met, whatever the clock showed. No task
/// waits if the queue is said to be empty. A zone that is said to be busy is held, and is that of
/// the first task, which waits behind all others now. A task that is assigned was the first, its
/// zone was free and is held now, and its robot, which was neither busy nor offline, is busy there.
/// Where there is no answer but an error, no task, no zone and no robot has moved.
pub proof fn law_dispatch_answers_are_true(
    c: &mut RobotCoordinator,
    id: u32,
    answer: Result<DispatchOutcome, String>,
    i: int,
)
    requires
        call_ensures(RobotCoordinator::dispatch_next_task, (c, id), answer),
        calls::distinct_ids(old(c)@.robots),
        calls::stands_at(old(c)@.robots, id, i),
    ensures
        answer matches Ok(DispatchOutcome::QueueEmpty) ==> old(c)@.queue.len() == 0 && final(c)@
            == old(c)@,
        answer matches Ok(DispatchOutcome::ZoneBusy { task_id, zone }) ==> {
            let before = old(c)@;
            &&& before.queue.len() > 0
            &&& task_id == before.queue[0].id
            &&& zone == before.queue[0].zone
            &&& zone < before.zones.len()
            &&& before.zones[zone as int]
            &&& final(c)@.queue == before.queue.subrange(1, before.queue.len() as int).push(
                before.queue[0],
            )
            &&& final(c)@.zones == before.zones
            &&& final(c)@.robots == before.robots
        },
        answer matches Ok(DispatchOutcome::Assigned { task, zone_guard }) ==> {
            let before = old(c)@;
            &&& before.queue == seq![task] + final(c)@.queue
            &&& task.zone < before.zones.len()
            &&& !before.zones[task.zone as int]
            &&& zone_guard.held_zone() == task.zone
            &&& zone_guard.origin() == old(c).origin()
            &&& final(c)@.zones == before.zones.update(task.zone as int, true)
            &&& before.robots[i].status != RobotStatus::Offline
            &&& before.robots[i].status != RobotStatus::Busy
            &&& final(c)@.robots == before.robots.update(
                i,
                Robot {
                    status: RobotStatus::Busy,
                    current_zone: Some(task.zone),
                    ..before.robots[i]
                },
            )
        },
        answer is Err ==> {
            &&& final(c)@.queue == old(c)@.queue
            &&& final(c)@.zones == old(c)@.zones
            &&& final(c)@.robots == old(c)@.robots
        },
{
    calls::lemma_place(old(c)@, id, i);
    if old(c)@.queue.len() > 0 {
        let rest = old(c)@.queue.subrange(1, old(c)@.queue.len() as int);
        assert(old(c)@.queue.drop_first() =~= rest);
        assert(old(c)@.queue =~= seq![old(c)@.queue[0]] + rest);
    }
}

/// What a dispatch does for a registered robot, given the readings at which it looked at the robot.
/// A robot fit for work at both is told that the queue is empty exactly if it is, that the zone of
/// the first task is busy exactly if it is held, and gets the first task exactly if its zone is
/// free, whatever the robot did before.
pub proof fn law_dispatch_next_task(
    c: &mut RobotCoordinator,
    id: u32,
    answer: Result<DispatchOutcome, String>,
    i: int,
)
    requires
        call_ensures(RobotCoordinator::dispatch_next_task, (c, id), answer),
        calls::distinct_ids(old(c)@.robots),
        calls::stands_at(old(c)@.robots, id, i),
        old(c)@.queue.len() > 0 && old(c)@.queue[0].zone < old(c)@.zones.len()
            ==> calls::can_count_attempt(old(c)@.stats),
    ensures
        exists|checked_at: Instant, assigned_at: Instant|
            {
                let before = old(c)@;
                let robot = before.robots[i];
                let first = before.queue[0];
                let counted = CoordinatorStats {
                    total_zone_access_attempts: (before.stats.total_zone_access_attempts
                        + 1) as u32,
                    ..before.stats
                };
                let name = "Robot "@ + text::decimal(id as nat);
                &&& #[trigger] clock::is_reading(checked_at)
                &&& #[trigger] clock::is_reading(assigned_at)
                &&& if robot.status == RobotStatus::Offline || calls::is_silent(robot, checked_at) {
                    &&& answer matches Err(message) && message@ == name + " is offline"@
                    &&& final(c)@ == before
                } else if robot.status == RobotStatus::Busy {
                    &&& answer matches Err(message) && message@ == name + " is already busy"@
                    &&& final(c)@ == before
                } else if before.queue.len() == 0 {
                    &&& answer matches Ok(DispatchOutcome::QueueEmpty)
                    &&& final(c)@ == before
                } else if first.zone >= before.zones.len() {
                    &&& answer matches Err(message) && message@ == "Zone "@ + text::decimal(
                        first.zone as nat,
                    ) + " does not exist"@
                    &&& final(c)@ == before
                } else if before.zones[first.zone as int] {
                    &&& answer matches Ok(DispatchOutcome::ZoneBusy { task_id, zone }) && task_id
                        == first.id && zone == first.zone
                    &&& final(c)@.stats == (CoordinatorStats {
                        total_zone_denials: (before.stats.total_zone_denials + 1) as u32,
                        ..counted
                    })
                } else if calls::is_silent(robot, assigned_at) {
                    &&& answer matches Err(message) && message@ == name + " became offline"@
                    &&& final(c)@ == (CoordinatorState { stats: counted, ..before })
                } else {
                    &&& answer matches Ok(DispatchOutcome::Assigned { task, .. }) && task == first
                    &&& final(c)@.stats == (CoordinatorStats {
                        total_zone_access_grants: (before.stats.total_zone_access_grants
                            + 1) as u32,
                        ..counted
                    })
                }
            },
        final(c)@.monitoring == old(c)@.monitoring,
{
    calls::lemma_place(old(c)@, id, i);
    let (checked_at, assigned_at) = choose|checked_at: Instant, assigned_at: Instant|
        {
            &&& clock::is_reading(checked_at)
            &&& clock::is_reading(assigned_at)
            &&& final(c)@ == #[trigger] old(c)@.after_dispatch(id, checked_at, assigned_at)
            &&& old(c)@.dispatch_answer(id, checked_at, assigned_at, answer)
        };
    assert(clock::is_reading(checked_at) && clock::is_reading(assigned_at));
}

/// A dispatch for a robot that is not registered fails and changes nothing.
pub proof fn law_dispatch_next_task_unknown(
    c: &mut RobotCoordinator,
    id: u32,
    answer: Result<DispatchOutcome, String>,
)
    requires
        call_ensures(RobotCoordinator::dispatch_next_task, (c, id), answer),
        !calls::is_known(old(c)@.robots, id),
    ensures
        answer matches Err(message) && message@ == "Robot "@ + text::decimal(id as nat)
            + " not found"@,
        final(c)@ == old(c)@,
{
    calls::lemma_no_place(old(c)@, id);
}

/// A worker that got a task works for as long as the task takes, in the task's zone and with the
/// guard that came with it; one that met a held zone waits and asks again; only one that found
/// nothing to do stops.
pub proof fn law_worker_step<G>(outcome: DispatchOutcome<G>, pause_ms: u64, step: WorkerStep<G>)
    requires
        call_ensures(DispatchOutcome::<G>::into_step, (outcome, pause_ms), step),
    ensures
        step is Stop <==> outcome is QueueEmpty,
        step matches WorkerStep::Wait { pause_ms: pause } ==> outcome is ZoneBusy && pause
            == pause_ms,
        outcome is ZoneBusy ==> step is Wait,
        outcome matches DispatchOutcome::Assigned { task, zone_guard } ==> (step matches
            WorkerStep::Work { duration_ms, zone, zone_guard: guard } && duration_ms
            == task.duration_ms && zone == task.zone && guard == zone_guard),
{
}

} // verus!
