//! What every operation keeps.
use crate::model::CoordinatorState;
use crate::robot::Robot;
use crate::trace::Event;
use vstd::prelude::*;

verus! {

/// An operation keeps every robot in its place, with its identifier and its name.
#[verifier::rlimit(40)]
pub(crate) proof fn lemma_operation_keeps_robots(state: CoordinatorState, event: Event)
    ensures
        state.robots.len() <= state.after(event).robots.len(),
        !(event is Register) ==> state.robots.len() == state.after(event).robots.len(),
        forall|i: int|
            0 <= i < state.robots.len() ==> {
                &&& (#[trigger] state.after(event).robots[i]).id == state.robots[i].id
                &&& state.after(event).robots[i].name == state.robots[i].name
            },
{
}

/// An operation keeps the identifiers of the robots distinct, and never lets the grants and
/// denials exceed the attempts.
#[verifier::rlimit(40)]
pub proof fn law_operation_keeps_wf(state: CoordinatorState, event: Event)
    requires
        state.wf(),
        state.admits(event),
    ensures
        state.after(event).wf(),
{
    lemma_operation_keeps_robots(state, event);
    assert(state.after(event).unique_ids());
}

/// So does any sequence of operations.
pub proof fn law_operations_keep_wf(state: CoordinatorState, events: Seq<Event>)
    requires
        state.wf(),
        state.admits_all(events),
    ensures
        state.after_all(events).wf(),
    decreases events.len(),
{
    if events.len() > 0 {
        law_operations_keep_wf(state, events.drop_last());
        law_operation_keeps_wf(state.after_all(events.drop_last()), events.last());
    }
}

/// A robot stays registered: whatever happens, its place, its identifier and its name remain.
pub proof fn law_robots_stay_registered(state: CoordinatorState, events: Seq<Event>, i: int)
    requires
        0 <= i < state.robots.len(),
    ensures
        i < state.after_all(events).robots.len(),
        state.after_all(events).robots[i].id == state.robots[i].id,
        state.after_all(events).robots[i].name == state.robots[i].name,
    decreases events.len(),
{
    if events.len() > 0 {
        law_robots_stay_registered(state, events.drop_last(), i);
        lemma_operation_keeps_robots(state.after_all(events.drop_last()), events.last());
    }
}

/// A second robot with an identifier that is taken changes nothing.
pub proof fn law_duplicate_registration_changes_nothing(
    state: CoordinatorState,
    robot: Robot,
    other: Robot,
)
    requires
        robot.id == other.id,
    ensures
        state.robot_registered(robot).has_robot(other.id),
        state.robot_registered(robot).robot_registered(other) == state.robot_registered(robot),
{
    let registered = state.robot_registered(robot);
    if !state.has_robot(robot.id) {
        assert(registered.robots[state.robots.len() as int].id == other.id);
    }
}

/// There are as many robots as registrations were accepted.
pub proof fn law_robots_are_the_registered(num_zones: nat, events: Seq<Event>)
    ensures
        ({
            let start = CoordinatorState::initial(num_zones);
            start.after_all(events).robots.len() == start.registrations(events)
        }),
    decreases events.len(),
{
    if events.len() > 0 {
        law_robots_are_the_registered(num_zones, events.drop_last());
        let middle = CoordinatorState::initial(num_zones).after_all(events.drop_last());
        lemma_operation_keeps_robots(middle, events.last());
    }
}

} // verus!
