//! What the running totals say.
use crate::laws::invariants;
use crate::laws::tasks;
use crate::model::CoordinatorState;
use crate::robot::{Robot, RobotStatus};
use crate::stats::CoordinatorStats;
use crate::trace::Event;
use vstd::prelude::*;

verus! {

/// Whether no total of `later` is below that of `earlier`.
pub open spec fn no_total_below(earlier: CoordinatorStats, later: CoordinatorStats) -> bool {
    &&& earlier.total_tasks_created <= later.total_tasks_created
    &&& earlier.total_tasks_completed <= later.total_tasks_completed
    &&& earlier.total_zone_access_attempts <= later.total_zone_access_attempts
    &&& earlier.total_zone_access_grants <= later.total_zone_access_grants
    &&& earlier.total_zone_denials <= later.total_zone_denials
    &&& earlier.total_heartbeats_received <= later.total_heartbeats_received
    &&& earlier.total_timeouts_detected <= later.total_timeouts_detected
}

/// No total ever decreases.
#[verifier::rlimit(40)]
pub proof fn law_totals_never_decrease(state: CoordinatorState, events: Seq<Event>)
    requires
        state.wf(),
        state.admits_all(events),
    ensures
        no_total_below(state.stats, state.after_all(events).stats),
    decreases events.len(),
{
    if events.len() > 0 {
        let earlier = events.drop_last();
        law_totals_never_decrease(state, earlier);
        invariants::law_operations_keep_wf(state, earlier);
    }
}

proof fn lemma_created_counts_added(state: CoordinatorState, events: Seq<Event>)
    requires
        state.admits_all(events),
        forall|i: int| 0 <= i < events.len() ==> (#[trigger] events[i]).is_countable(),
    ensures
        state.after_all(events).stats.total_tasks_created == state.stats.total_tasks_created
            + state.all_added(events).len(),
    decreases events.len(),
{
    if events.len() > 0 {
        lemma_created_counts_added(state, events.drop_last());
        assert(events[events.len() - 1].is_countable());
        if let Event::AddTasks(batch) = events.last() {
            batch.to_multiset_ensures();
        }
    }
}

/// Every task that was created waits or has been handed out. A claimed task that was sent back
/// waits again, and was handed out for nothing.
pub proof fn law_created_tasks_are_accounted_for(num_zones: nat, events: Seq<Event>)
    requires
        CoordinatorState::initial(num_zones).admits_all(events),
        forall|i: int| 0 <= i < events.len() ==> (#[trigger] events[i]).is_countable(),
    ensures
        ({
            let start = CoordinatorState::initial(num_zones);
            let end = start.after_all(events);
            end.stats.total_tasks_created + start.all_returned(events).len() == end.queue.len()
                + start.all_handed_out(events).len()
        }),
{
    let start = CoordinatorState::initial(num_zones);
    let end = start.after_all(events);
    lemma_created_counts_added(start, events);
    tasks::law_no_task_is_ever_lost(start, events);
    start.queue.to_multiset_ensures();
    end.queue.to_multiset_ensures();
    assert(end.queue.to_multiset().add(start.all_handed_out(events)).len() == end.queue.len()
        + start.all_handed_out(events).len());
    assert(start.queue.to_multiset().add(start.all_added(events)).add(
        start.all_returned(events),
    ).len() == start.all_added(events).len() + start.all_returned(events).len());
}

#[verifier::rlimit(40)]
proof fn lemma_attempt_is_answered(state: CoordinatorState, event: Event)
    requires
        state.wf(),
        state.admits(event),
    ensures
        ({
            let before = state.stats;
            let after = state.after(event).stats;
            let answered = after.total_zone_access_grants + after.total_zone_denials
                - before.total_zone_access_grants - before.total_zone_denials;
            let refused: int = if state.refuses_attempt(event) {
                1
            } else {
                0
            };
            let opened: int = if event is Claim && state.takes_next(event) {
                1
            } else if event is Assign {
                -1
            } else {
                0
            };
            after.total_zone_access_attempts - before.total_zone_access_attempts == answered
                + refused + opened
        }),
{
}

/// Every attempt to enter a zone is granted, denied, refused for another reason, or belongs to a
/// claim that is still open. So every open claim has an attempt that is not answered yet.
pub proof fn law_attempts_are_accounted_for(num_zones: nat, events: Seq<Event>)
    requires
        num_zones <= u32::MAX,
        CoordinatorState::initial(num_zones).admits_all(events),
    ensures
        ({
            let start = CoordinatorState::initial(num_zones);
            let stats = start.after_all(events).stats;
            let unanswered = stats.total_zone_access_attempts - stats.total_zone_access_grants
                - stats.total_zone_denials;
            &&& unanswered == start.refused_attempts(events) + start.open_claims(events)
            &&& start.open_claims(events) <= unanswered
        }),
    decreases events.len(),
{
    let start = CoordinatorState::initial(num_zones);
    if events.len() > 0 {
        law_attempts_are_accounted_for(num_zones, events.drop_last());
        invariants::law_operations_keep_wf(start, events.drop_last());
        lemma_attempt_is_answered(start.after_all(events.drop_last()), events.last());
    }
}

/// Dispatches that are not taken apart leave no claim open.
pub proof fn law_whole_operations_leave_no_claim_open(state: CoordinatorState, events: Seq<Event>)
    requires
        forall|i: int| 0 <= i < events.len() ==> (#[trigger] events[i]).is_whole(),
    ensures
        state.open_claims(events) == 0,
    decreases events.len(),
{
    if events.len() > 0 {
        law_whole_operations_leave_no_claim_open(state, events.drop_last());
        assert(events[events.len() - 1].is_whole());
    }
}

/// Then every attempt to enter a zone is granted, denied or refused for another reason.
pub proof fn law_every_attempt_is_answered(num_zones: nat, events: Seq<Event>)
    requires
        num_zones <= u32::MAX,
        CoordinatorState::initial(num_zones).admits_all(events),
        forall|i: int| 0 <= i < events.len() ==> (#[trigger] events[i]).is_whole(),
    ensures
        ({
            let start = CoordinatorState::initial(num_zones);
            let stats = start.after_all(events).stats;
            stats.total_zone_access_attempts == stats.total_zone_access_grants
                + stats.total_zone_denials + start.refused_attempts(events)
        }),
{
    law_attempts_are_accounted_for(num_zones, events);
    law_whole_operations_leave_no_claim_open(CoordinatorState::initial(num_zones), events);
}

/// The tasks that the robots have to their names.
pub open spec fn tasks_of(robots: Seq<Robot>) -> int
    decreases robots.len(),
{
    if robots.len() == 0 {
        0
    } else {
        tasks_of(robots.drop_last()) + robots.last().tasks_completed
    }
}

proof fn lemma_tasks_of_same(robots: Seq<Robot>, others: Seq<Robot>)
    requires
        robots.len() == others.len(),
        forall|i: int|
            0 <= i < robots.len() ==> (#[trigger] robots[i]).tasks_completed
                == others[i].tasks_completed,
    ensures
        tasks_of(robots) == tasks_of(others),
    decreases robots.len(),
{
    if robots.len() > 0 {
        let fewer = robots.drop_last();
        lemma_tasks_of_same(fewer, others.drop_last());
        assert(robots[robots.len() - 1].tasks_completed == others[robots.len()
            - 1].tasks_completed);
    }
}

proof fn lemma_tasks_of_update(robots: Seq<Robot>, i: int, robot: Robot)
    requires
        0 <= i < robots.len(),
    ensures
        tasks_of(robots.update(i, robot)) == tasks_of(robots) - robots[i].tasks_completed
            + robot.tasks_completed,
    decreases robots.len(),
{
    let updated = robots.update(i, robot);
    if i < robots.len() - 1 {
        assert(updated.drop_last() =~= robots.drop_last().update(i, robot));
        lemma_tasks_of_update(robots.drop_last(), i, robot);
    } else {
        assert(updated.drop_last() =~= robots.drop_last());
    }
}

#[verifier::rlimit(40)]
proof fn lemma_completed_moves_together(state: CoordinatorState, event: Event)
    requires
        state.admits(event),
        event.registers_no_veteran(),
    ensures
        state.after(event).stats.total_tasks_completed - tasks_of(state.after(event).robots)
            == state.stats.total_tasks_completed - tasks_of(state.robots),
{
    let after = state.after(event);
    match event {
        Event::Register(robot) => {
            if !state.has_robot(robot.id) {
                assert(after.robots.drop_last() =~= state.robots);
            }
        },
        Event::CompleteTask(id) => {
            if state.may_complete(id) {
                lemma_tasks_of_update(
                    state.robots,
                    state.robot_index(id),
                    state.robot(id).after_completion(),
                );
            }
        },
        _ => {
            invariants::lemma_operation_keeps_robots(state, event);
            assert forall|i: int| 0 <= i < after.robots.len() implies (
            #[trigger] after.robots[i]).tasks_completed == state.robots[i].tasks_completed by {}
            lemma_tasks_of_same(after.robots, state.robots);
        },
    }
}

/// The total of completed tasks is what the robots have to their names, taken together.
pub proof fn law_completed_total_is_the_sum(num_zones: nat, events: Seq<Event>)
    requires
        CoordinatorState::initial(num_zones).admits_all(events),
        forall|i: int| 0 <= i < events.len() ==> (#[trigger] events[i]).registers_no_veteran(),
    ensures
        ({
            let end = CoordinatorState::initial(num_zones).after_all(events);
            end.stats.total_tasks_completed == tasks_of(end.robots)
        }),
    decreases events.len(),
{
    if events.len() > 0 {
        law_completed_total_is_the_sum(num_zones, events.drop_last());
        let middle = CoordinatorState::initial(num_zones).after_all(events.drop_last());
        assert(events[events.len() - 1].registers_no_veteran());
        lemma_completed_moves_together(middle, events.last());
    }
}

/// The number of robots at work.
pub open spec fn at_work(robots: Seq<Robot>) -> nat
    decreases robots.len(),
{
    if robots.len() == 0 {
        0
    } else {
        at_work(robots.drop_last()) + if robots.last().status == RobotStatus::Busy {
            1nat
        } else {
            0nat
        }
    }
}

proof fn lemma_at_work_no_more(robots: Seq<Robot>, others: Seq<Robot>)
    requires
        robots.len() == others.len(),
        forall|i: int|
            0 <= i < robots.len() && (#[trigger] robots[i]).status == RobotStatus::Busy
                ==> others[i].status == RobotStatus::Busy,
    ensures
        at_work(robots) <= at_work(others),
    decreases robots.len(),
{
    if robots.len() > 0 {
        let fewer = robots.drop_last();
        lemma_at_work_no_more(fewer, others.drop_last());
        let last = robots.len() - 1;
        assert(robots[last].status == RobotStatus::Busy ==> others[last].status
            == RobotStatus::Busy);
    }
}

proof fn lemma_at_work_update(robots: Seq<Robot>, i: int, robot: Robot)
    requires
        0 <= i < robots.len(),
    ensures
        at_work(robots.update(i, robot)) == at_work(robots) - (if robots[i].status
            == RobotStatus::Busy {
            1int
        } else {
            0int
        }) + (if robot.status == RobotStatus::Busy {
            1int
        } else {
            0int
        }),
    decreases robots.len(),
{
    let updated = robots.update(i, robot);
    if i < robots.len() - 1 {
        assert(updated.drop_last() =~= robots.drop_last().update(i, robot));
        lemma_at_work_update(robots.drop_last(), i, robot);
    } else {
        assert(updated.drop_last() =~= robots.drop_last());
    }
}

#[verifier::rlimit(40)]
proof fn lemma_work_needs_a_task(state: CoordinatorState, event: Event)
    requires
        state.wf(),
        state.admits(event),
        event.registers_no_worker(),
    ensures
        ({
            let after = state.after(event);
            let gained = after.stats.total_tasks_completed + at_work(after.robots)
                - state.stats.total_tasks_completed - at_work(state.robots);
            let taken = state.handed_out(event).len() - state.returned(event).len();
            let opened: int = if event is Claim && state.takes_next(event) {
                1
            } else if event is Assign {
                -1
            } else {
                0
            };
            let granted = after.stats.total_zone_access_grants
                - state.stats.total_zone_access_grants;
            &&& gained + opened <= taken
            &&& state.keeps_work(event) ==> gained + opened == taken
            &&& state.keeps_work(event) && event.pairs_tasks_with_zones() ==> gained == granted
        }),
{
    let after = state.after(event);
    match event {
        Event::Register(robot) => {
            if !state.has_robot(robot.id) {
                assert(after.robots.drop_last() =~= state.robots);
            }
        },
        Event::CompleteTask(id) => {
            if state.may_complete(id) {
                lemma_at_work_update(
                    state.robots,
                    state.robot_index(id),
                    state.robot(id).after_completion(),
                );
            }
        },
        Event::RequestTask(id) => {
            if state.takes_next(event) {
                lemma_at_work_update(
                    state.robots,
                    state.robot_index(id),
                    state.robot(id).assigned_to(state.queue[0].zone),
                );
            }
        },
        Event::Dispatch { robot_id, checked_at, assigned_at } => {
            if state.takes_next(event) {
                lemma_at_work_update(
                    state.robots,
                    state.robot_index(robot_id),
                    state.robot(robot_id).assigned_to(state.queue[0].zone),
                );
            }
        },
        Event::Assign { robot_id, task, now } => {
            if state.assign_refusal(robot_id, now) is None {
                lemma_at_work_update(
                    state.robots,
                    state.robot_index(robot_id),
                    state.robot(robot_id).assigned_to(task.zone),
                );
            }
        },
        _ => {
            invariants::lemma_operation_keeps_robots(state, event);
            lemma_at_work_no_more(after.robots, state.robots);
            if state.keeps_work(event) {
                lemma_at_work_no_more(state.robots, after.robots);
            }
        },
    }
}

/// Every completed task was handed out, and so was the task of every robot at work and of every
/// open claim.
pub proof fn law_completed_tasks_were_handed_out(num_zones: nat, events: Seq<Event>)
    requires
        num_zones <= u32::MAX,
        CoordinatorState::initial(num_zones).admits_all(events),
        forall|i: int| 0 <= i < events.len() ==> (#[trigger] events[i]).registers_no_worker(),
    ensures
        ({
            let start = CoordinatorState::initial(num_zones);
            let end = start.after_all(events);
            end.stats.total_tasks_completed + at_work(end.robots) + start.open_claims(events)
                <= start.all_handed_out(events).len() - start.all_returned(events).len()
        }),
    decreases events.len(),
{
    if events.len() > 0 {
        law_completed_tasks_were_handed_out(num_zones, events.drop_last());
        assert(events[events.len() - 1].registers_no_worker());
        let start = CoordinatorState::initial(num_zones);
        invariants::law_operations_keep_wf(start, events.drop_last());
        lemma_work_needs_a_task(start.after_all(events.drop_last()), events.last());
    }
}

proof fn lemma_kept_work_was_handed_out(num_zones: nat, events: Seq<Event>)
    requires
        num_zones <= u32::MAX,
        CoordinatorState::initial(num_zones).admits_all(events),
        CoordinatorState::initial(num_zones).all_keep_work(events),
    ensures
        ({
            let start = CoordinatorState::initial(num_zones);
            let end = start.after_all(events);
            end.stats.total_tasks_completed + at_work(end.robots) + start.open_claims(events)
                == start.all_handed_out(events).len() - start.all_returned(events).len()
        }),
    decreases events.len(),
{
    if events.len() > 0 {
        lemma_kept_work_was_handed_out(num_zones, events.drop_last());
        let start = CoordinatorState::initial(num_zones);
        invariants::law_operations_keep_wf(start, events.drop_last());
        lemma_work_needs_a_task(start.after_all(events.drop_last()), events.last());
    }
}

/// Every created task is completed, in the hands of a robot at work, part of an open claim, or
/// waiting, as long as no robot at work asks for another task or is taken offline. So once no robot
/// is at work, no claim open and the queue empty, all that was created is completed.
pub proof fn law_work_is_accounted_for(num_zones: nat, events: Seq<Event>)
    requires
        num_zones <= u32::MAX,
        CoordinatorState::initial(num_zones).admits_all(events),
        CoordinatorState::initial(num_zones).all_keep_work(events),
        forall|i: int| 0 <= i < events.len() ==> (#[trigger] events[i]).is_countable(),
    ensures
        ({
            let start = CoordinatorState::initial(num_zones);
            let end = start.after_all(events);
            end.stats.total_tasks_created == end.stats.total_tasks_completed + at_work(end.robots)
                + start.open_claims(events) + end.queue.len()
        }),
{
    lemma_kept_work_was_handed_out(num_zones, events);
    law_created_tasks_are_accounted_for(num_zones, events);
}

/// Where tasks and zones are handed out only together, every grant is a task that is completed or
/// in the hands of a robot at work, as long as no robot at work is taken offline.
pub proof fn law_grants_are_worked_off(num_zones: nat, events: Seq<Event>)
    requires
        num_zones <= u32::MAX,
        CoordinatorState::initial(num_zones).admits_all(events),
        CoordinatorState::initial(num_zones).all_keep_work(events),
        forall|i: int| 0 <= i < events.len() ==> (#[trigger] events[i]).pairs_tasks_with_zones(),
    ensures
        ({
            let end = CoordinatorState::initial(num_zones).after_all(events);
            end.stats.total_zone_access_grants == end.stats.total_tasks_completed + at_work(
                end.robots,
            )
        }),
    decreases events.len(),
{
    if events.len() > 0 {
        law_grants_are_worked_off(num_zones, events.drop_last());
        assert(events[events.len() - 1].pairs_tasks_with_zones());
        let start = CoordinatorState::initial(num_zones);
        invariants::law_operations_keep_wf(start, events.drop_last());
        lemma_work_needs_a_task(start.after_all(events.drop_last()), events.last());
    }
}

/// No more tasks are completed than were created, and those that wait are not among them, as long
/// as no more tasks are offered to robots than were claimed.
pub proof fn law_completed_never_exceeds_created(num_zones: nat, events: Seq<Event>)
    requires
        num_zones <= u32::MAX,
        CoordinatorState::initial(num_zones).admits_all(events),
        CoordinatorState::initial(num_zones).open_claims(events) >= 0,
        forall|i: int| 0 <= i < events.len() ==> (#[trigger] events[i]).registers_no_worker(),
        forall|i: int| 0 <= i < events.len() ==> (#[trigger] events[i]).is_countable(),
    ensures
        ({
            let end = CoordinatorState::initial(num_zones).after_all(events);
            end.stats.total_tasks_completed + end.queue.len() <= end.stats.total_tasks_created
        }),
{
    law_completed_tasks_were_handed_out(num_zones, events);
    law_created_tasks_are_accounted_for(num_zones, events);
}

} // verus!
