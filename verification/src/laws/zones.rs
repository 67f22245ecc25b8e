//! Mutual exclusion. A coordinator takes back no guards but its own, so the guards of these laws are
//! the guards that it handed out.
use crate::model::CoordinatorState;
use crate::trace::Event;
use std::time::Instant;
use vstd::prelude::*;

verus! {

/// A zone stays held until its guard is given back.
#[verifier::rlimit(40)]
pub proof fn law_held_zone_stays_held(state: CoordinatorState, events: Seq<Event>, zone: int)
    requires
        state.zone_held(zone),
        state.guard_stays_out(events, zone),
    ensures
        state.after_all(events).zone_held(zone),
    decreases events.len(),
{
    if events.len() > 0 {
        law_held_zone_stays_held(state, events.drop_last(), zone);
    }
}

/// While a zone is held, every request for it, by whatever robot, is refused, and every task bound
/// for it is put off.
pub proof fn law_held_zone_excludes(
    state: CoordinatorState,
    zone: int,
    id: u32,
    checked_at: Instant,
    assigned_at: Instant,
)
    requires
        state.zone_held(zone),
    ensures
        state.zone_refusal(id, zone) is Some,
        state.zone_requested(id, zone).zones == state.zones,
        state.queue.len() > 0 && state.next_zone() == zone ==> {
            &&& !state.takes_next(Event::Claim)
            &&& state.after_claim() == state.next_deferred()
            &&& !state.takes_next(Event::Dispatch { robot_id: id, checked_at, assigned_at })
            &&& state.after_dispatch(id, checked_at, assigned_at).robots == state.robots
        },
{
}

/// Every way to get a guard starts from a zone that is free and leaves it held.
pub proof fn law_grants_hold_the_zone(
    state: CoordinatorState,
    id: u32,
    zone: int,
    checked_at: Instant,
    assigned_at: Instant,
)
    ensures
        state.zone_refusal(id, zone) is None ==> {
            &&& !state.zone_held(zone)
            &&& state.zone_requested(id, zone).zone_held(zone)
        },
        state.takes_next(Event::Claim) ==> {
            &&& !state.zone_held(state.next_zone())
            &&& state.after_claim().zone_held(state.next_zone())
        },
        state.takes_next(Event::Dispatch { robot_id: id, checked_at, assigned_at }) ==> {
            &&& !state.zone_held(state.next_zone())
            &&& state.after_dispatch(id, checked_at, assigned_at).zone_held(state.next_zone())
        },
{
}

/// No two guards for one zone: once a request for a zone is granted, and whatever happens short of
/// its guard coming back, every other request for it is refused, and every task bound for it is
/// put off.
pub proof fn law_mutual_exclusion(
    state: CoordinatorState,
    first: u32,
    zone: int,
    events: Seq<Event>,
    second: u32,
    checked_at: Instant,
    assigned_at: Instant,
)
    requires
        state.zone_refusal(first, zone) is None,
        state.zone_requested(first, zone).guard_stays_out(events, zone),
    ensures
        ({
            let later = state.zone_requested(first, zone).after_all(events);
            &&& later.zone_held(zone)
            &&& later.zone_refusal(second, zone) is Some
            &&& later.queue.len() > 0 && later.next_zone() == zone ==> {
                &&& !later.takes_next(Event::Claim)
                &&& !later.takes_next(
                    Event::Dispatch { robot_id: second, checked_at, assigned_at },
                )
            }
        }),
{
    law_held_zone_stays_held(state.zone_requested(first, zone), events, zone);
}

/// The same once a task was taken together with its zone, by a claim or a dispatch.
pub proof fn law_mutual_exclusion_of_tasks(
    state: CoordinatorState,
    grant: Event,
    events: Seq<Event>,
    second: u32,
    checked_at: Instant,
    assigned_at: Instant,
)
    requires
        grant is Claim || grant is Dispatch,
        state.takes_next(grant),
        state.after(grant).guard_stays_out(events, state.next_zone()),
    ensures
        ({
            let zone = state.next_zone();
            let later = state.after(grant).after_all(events);
            &&& later.zone_held(zone)
            &&& later.zone_refusal(second, zone) is Some
            &&& later.queue.len() > 0 && later.next_zone() == zone ==> {
                &&& !later.takes_next(Event::Claim)
                &&& !later.takes_next(
                    Event::Dispatch { robot_id: second, checked_at, assigned_at },
                )
            }
        }),
{
    law_held_zone_stays_held(state.after(grant), events, state.next_zone());
}

#[verifier::rlimit(40)]
proof fn lemma_guard_moves_with_zone(state: CoordinatorState, event: Event, zone: int)
    ensures
        state.grants(event, zone) ==> !state.zone_held(zone) && state.after(event).zone_held(zone),
        state.gives_back(event, zone) ==> !state.after(event).zone_held(zone),
        !state.grants(event, zone) && !state.gives_back(event, zone) ==> state.after(
            event,
        ).zone_held(zone) == state.zone_held(zone),
{
}

/// At most one guard for a zone is out at any time, and one is out exactly when the zone is held,
/// whatever was done since the coordinator was made, as long as no guard is given back that is not
/// out.
pub proof fn law_one_guard_per_zone(num_zones: nat, events: Seq<Event>, zone: int)
    requires
        CoordinatorState::initial(num_zones).gives_back_what_is_out(events, zone),
    ensures
        ({
            let start = CoordinatorState::initial(num_zones);
            start.guards_out(events, zone) == if start.after_all(events).zone_held(zone) {
                1int
            } else {
                0int
            }
        }),
    decreases events.len(),
{
    if events.len() > 0 {
        law_one_guard_per_zone(num_zones, events.drop_last(), zone);
        let middle = CoordinatorState::initial(num_zones).after_all(events.drop_last());
        lemma_guard_moves_with_zone(middle, events.last(), zone);
    }
}

/// Zones do not affect one another: a request for one, or its return, leaves the others as they
/// are, and the answer to a request depends on no other zone.
pub proof fn law_zones_are_independent(
    state: CoordinatorState,
    id: u32,
    zone: int,
    other: int,
    second: u32,
)
    requires
        state.wf(),
        zone != other,
        state.has_zone(other),
    ensures
        state.zone_requested(id, zone).zones[other] == state.zones[other],
        state.zone_left(zone, id, zone).zones[other] == state.zones[other],
        state.zone_requested(id, zone).zone_refusal(second, other) == state.zone_refusal(
            second,
            other,
        ),
{
    let after = state.zone_requested(id, zone);
    assert forall|i: int| 0 <= i < state.robots.len() implies {
        &&& after.robots[i].id == state.robots[i].id
        &&& after.robots[i].status == state.robots[i].status
    } by {}
}

/// A zone that was granted and left is free again, for any robot that may ask, and the robot that
/// left is in no zone.
pub proof fn law_leaving_frees_the_zone(state: CoordinatorState, id: u32, zone: int, second: u32)
    requires
        state.wf(),
        state.zone_refusal(id, zone) is None,
    ensures
        state.zone_requested(id, zone).may_leave(id, zone),
        state.zone_requested(id, zone).zone_left(zone, id, zone).zones == state.zones,
        state.zone_requested(id, zone).zone_left(zone, id, zone).robot(id) == state.robot(
            id,
        ).placed_in(None),
        !state.zone_requested(id, zone).zone_left(zone, id, zone).zone_held(zone),
        state.may_request(second) ==> state.zone_requested(id, zone).zone_left(
            zone,
            id,
            zone,
        ).zone_refusal(second, zone) is None,
{
    let left = state.zone_requested(id, zone).zone_left(zone, id, zone);
    assert(left.robots[state.robot_index(id)].id == id);
    if state.may_request(second) {
        assert(left.robots[state.robot_index(second)].id == second);
    }
}

} // verus!
