//! What dispatch promises.
use crate::laws::tasks;
use crate::model::CoordinatorState;
use crate::robot::RobotStatus;
use crate::task::Task;
use crate::trace::Event;
use std::time::Instant;
use vstd::multiset::Multiset;
use vstd::prelude::*;

verus! {

/// A dispatch is a claim followed by an assignment, for a robot that can be given work.
pub proof fn law_dispatch_is_claim_then_assignment(
    state: CoordinatorState,
    id: u32,
    checked_at: Instant,
    assigned_at: Instant,
)
    requires
        state.dispatch_refusal(id, checked_at) is None,
    ensures
        state.takes_next(Event::Claim) ==> state.after_dispatch(id, checked_at, assigned_at)
            == state.after_claim().after_assignment(id, state.queue[0], assigned_at),
        !state.takes_next(Event::Claim) ==> state.after_dispatch(id, checked_at, assigned_at)
            == state.after_claim(),
{
}

/// A claim that cannot be assigned leaves the queue, the zones and the robots as they were.
pub proof fn law_failed_assignment_restores(state: CoordinatorState, id: u32, now: Instant)
    requires
        state.takes_next(Event::Claim),
        state.assign_refusal(id, now) is Some,
    ensures
        state.after_claim().after_assignment(id, state.queue[0], now) == (
        CoordinatorState { stats: state.stats.plus_attempt(), ..state }),
{
}

/// A robot that is unknown or marked offline gets neither work nor a zone; all that its requests
/// leave behind is the count of the attempts to enter a zone.
pub proof fn law_offline_robot_gets_no_work(
    state: CoordinatorState,
    id: u32,
    checked_at: Instant,
    assigned_at: Instant,
    zone: int,
)
    requires
        !state.has_robot(id) || state.robot(id).status == RobotStatus::Offline,
    ensures
        state.task_requested(id) == state,
        state.dispatch_refusal(id, checked_at) is Some,
        state.after_dispatch(id, checked_at, assigned_at) == state,
        state.zone_refusal(id, zone) is Some,
        state.zone_requested(id, zone) == (CoordinatorState {
            stats: state.stats.plus_attempt(),
            ..state
        }),
        !state.may_complete(id),
{
}

/// A robot that has timed out is given no work by a dispatch, marked offline or not.
pub proof fn law_timed_out_robot_is_not_dispatched(
    state: CoordinatorState,
    id: u32,
    checked_at: Instant,
    assigned_at: Instant,
)
    requires
        state.has_robot(id),
        state.robot(id).timed_out_at(checked_at) || state.robot(id).timed_out_at(assigned_at),
    ensures
        !state.takes_next(Event::Dispatch { robot_id: id, checked_at, assigned_at }),
        state.after_dispatch(id, checked_at, assigned_at).robots == state.robots,
        state.after_dispatch(id, checked_at, assigned_at).zones == state.zones,
{
}

/// A robot at work is given no second task by a dispatch.
pub proof fn law_busy_robot_is_not_dispatched(
    state: CoordinatorState,
    id: u32,
    checked_at: Instant,
    assigned_at: Instant,
)
    requires
        state.has_robot(id),
        state.robot(id).status == RobotStatus::Busy,
    ensures
        state.dispatch_refusal(id, checked_at) is Some,
        state.after_dispatch(id, checked_at, assigned_at) == state,
{
}

/// A task whose zone is held goes to the end of the queue: no other task moves among the others.
pub proof fn law_busy_zone_requeues(
    state: CoordinatorState,
    id: u32,
    checked_at: Instant,
    assigned_at: Instant,
)
    requires
        state.dispatch_refusal(id, checked_at) is None,
        state.tries_next_zone(),
        state.zone_held(state.next_zone()),
    ensures
        ({
            let after = state.after_dispatch(id, checked_at, assigned_at);
            &&& after.queue.len() == state.queue.len()
            &&& after.queue.last() == state.queue[0]
            &&& after.queue.drop_last() == state.queue.drop_first()
            &&& after.queue.to_multiset() == state.queue.to_multiset()
            &&& after.robots == state.robots
            &&& after.zones == state.zones
        }),
{
    let event = Event::Dispatch { robot_id: id, checked_at, assigned_at };
    tasks::law_no_task_is_lost(state, event);
    let after = state.after(event);
    assert(after.queue.to_multiset().add(state.handed_out(event)) =~= after.queue.to_multiset());
}

/// Dispatches for one robot, with the clock readings of each.
pub open spec fn dispatches(id: u32, times: Seq<(Instant, Instant)>) -> Seq<Event> {
    times.map_values(
        |time: (Instant, Instant)|
            Event::Dispatch { robot_id: id, checked_at: time.0, assigned_at: time.1 },
    )
}

/// Dispatches lose no task and make none up: what waits afterwards and what was handed out is what
/// waited before.
pub proof fn law_dispatches_keep_every_task(state: CoordinatorState, events: Seq<Event>)
    requires
        forall|i: int| 0 <= i < events.len() ==> (#[trigger] events[i]) is Dispatch,
    ensures
        state.after_all(events).queue.to_multiset().add(state.all_handed_out(events))
            == state.queue.to_multiset(),
{
    lemma_dispatches_add_nothing(state, events);
    tasks::law_no_task_is_ever_lost(state, events);
    let start = state.queue.to_multiset();
    assert(start.add(Multiset::empty()).add(Multiset::empty()) =~= start);
}

proof fn lemma_dispatches_add_nothing(state: CoordinatorState, events: Seq<Event>)
    requires
        forall|i: int| 0 <= i < events.len() ==> (#[trigger] events[i]) is Dispatch,
    ensures
        state.all_added(events) == Multiset::<Task>::empty(),
        state.all_returned(events) == Multiset::<Task>::empty(),
    decreases events.len(),
{
    if events.len() > 0 {
        lemma_dispatches_add_nothing(state, events.drop_last());
        assert(events[events.len() - 1] is Dispatch);
        assert(Multiset::<Task>::empty().add(Multiset::empty()) =~= Multiset::<Task>::empty());
    }
}

/// Work for other zones goes on: tasks whose zones are held are put off, one at each attempt, and
/// give way to the first task whose zone is free, which goes to the robot at the attempt after
/// theirs, while they keep their order behind the rest of the queue. The robot must be fit for work at every attempt, and every one of
/// the tasks before must be bound for a zone that exists.
pub proof fn law_free_zone_is_reached(
    state: CoordinatorState,
    id: u32,
    times: Seq<(Instant, Instant)>,
    checked_at: Instant,
    assigned_at: Instant,
)
    requires
        times.len() < state.queue.len(),
        forall|i: int|
            0 <= i < times.len() ==> state.zone_held((#[trigger] state.queue[i]).zone as int),
        forall|i: int|
            0 <= i < times.len() ==> state.dispatch_refusal(id, (#[trigger] times[i]).0) is None,
        state.has_zone(state.queue[times.len() as int].zone as int),
        !state.zone_held(state.queue[times.len() as int].zone as int),
        state.dispatch_refusal(id, checked_at) is None,
        state.assign_refusal(id, assigned_at) is None,
    ensures
        ({
            let k = times.len() as int;
            let before = state.after_all(dispatches(id, times));
            let after = before.after_dispatch(id, checked_at, assigned_at);
            &&& forall|i: int|
                0 <= i < k ==> {
                    let now = #[trigger] state.after_all(dispatches(id, times.take(i)));
                    &&& now.queue[0] == state.queue[i]
                    &&& now.dispatch_refusal(id, times[i].0) is None
                    &&& now.zone_held(now.next_zone())
                }
            &&& before.queue == state.queue.skip(k) + state.queue.take(k)
            &&& before.handed_out(Event::Dispatch { robot_id: id, checked_at, assigned_at })
                == Multiset::singleton(state.queue[k])
            &&& after.queue == state.queue.skip(k + 1) + state.queue.take(k)
            &&& after.robots == state.with_robot(
                id,
                state.robot(id).assigned_to(state.queue[k].zone),
            ).robots
            &&& after.zones == state.zones.update(state.queue[k].zone as int, true)
        }),
{
    lemma_deferrals_rotate(state, id, times);
    assert forall|i: int| 0 <= i < times.len() implies {
        let now = #[trigger] state.after_all(dispatches(id, times.take(i)));
        &&& now.queue[0] == state.queue[i]
        &&& now.dispatch_refusal(id, times[i].0) is None
        &&& now.zone_held(now.next_zone())
    } by {
        lemma_deferrals_rotate(state, id, times.take(i));
    }
}

proof fn lemma_deferrals_rotate(state: CoordinatorState, id: u32, times: Seq<(Instant, Instant)>)
    requires
        times.len() <= state.queue.len(),
        forall|i: int|
            0 <= i < times.len() ==> state.zone_held((#[trigger] state.queue[i]).zone as int),
        forall|i: int|
            0 <= i < times.len() ==> state.dispatch_refusal(id, (#[trigger] times[i]).0) is None,
    ensures
        state.after_all(dispatches(id, times)) == (CoordinatorState {
            queue: state.queue.skip(times.len() as int) + state.queue.take(times.len() as int),
            stats: state.after_all(dispatches(id, times)).stats,
            ..state
        }),
    decreases times.len(),
{
    let k = times.len() as int;
    if k > 0 {
        let earlier = times.drop_last();
        lemma_deferrals_rotate(state, id, earlier);
        assert(dispatches(id, times).drop_last() =~= dispatches(id, earlier));
        let middle = state.after_all(dispatches(id, earlier));
        assert(middle.queue.drop_first().push(middle.queue[0]) =~= state.queue.skip(k)
            + state.queue.take(k));
    }
}

/// A dispatched task that is carried out leaves its zone free and its robot idle, with one more
/// task to its name.
pub proof fn law_work_is_carried_out(
    state: CoordinatorState,
    id: u32,
    checked_at: Instant,
    assigned_at: Instant,
)
    requires
        state.wf(),
        state.takes_next(Event::Dispatch { robot_id: id, checked_at, assigned_at }),
    ensures
        ({
            let zone = state.next_zone();
            let at_work = state.after_dispatch(id, checked_at, assigned_at);
            let left = at_work.zone_left(zone, id, zone);
            let done = left.task_completed(id);
            &&& at_work.may_leave(id, zone)
            &&& left.may_complete(id)
            &&& done.zones == state.zones
            &&& done.queue == state.queue.drop_first()
            &&& done.robots == state.with_robot(id, state.robot(id).after_completion()).robots
            &&& done.stats == state.stats.plus_attempt().plus_grant().plus_completed()
            &&& !done.may_complete(id)
        }),
{
    let zone = state.next_zone();
    let index = state.robot_index(id);
    let at_work = state.after_dispatch(id, checked_at, assigned_at);
    let left = at_work.zone_left(zone, id, zone);
    assert(at_work.robots[index].id == id);
    assert(left.robots[index].id == id);
    assert(left.task_completed(id).robots[index].id == id);
}

/// A task is completed once: a second report is refused.
pub proof fn law_completion_counts_once(state: CoordinatorState, id: u32)
    requires
        state.wf(),
        state.may_complete(id),
    ensures
        state.task_completed(id).robot(id) == state.robot(id).after_completion(),
        !state.task_completed(id).may_complete(id),
        state.task_completed(id).task_completed(id) == state.task_completed(id),
{
    assert(state.task_completed(id).robots[state.robot_index(id)].id == id);
}

} // verus!
