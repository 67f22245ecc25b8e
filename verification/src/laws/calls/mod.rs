//! What each call does, told by its arguments, its answer, and the fields of the state before and
//! after it.
//!
//! The laws here speak of calls: `call_ensures` holds of a function, its arguments and its answer
//! whenever the function gives that answer to those arguments.
use crate::clock;
use crate::model::CoordinatorState;
use crate::robot::Robot;
use crate::stats::CoordinatorStats;
use std::time::Instant;
use vstd::prelude::*;

pub mod access;
pub mod benchmark;
pub mod dispatch;
pub mod heartbeats;
pub mod options;
pub mod reports;
pub mod tasks;
pub mod values;
pub mod zones;

verus! {

/// Whether no two robots share an identifier.
pub open spec fn distinct_ids(robots: Seq<Robot>) -> bool {
    forall|i: int, j: int| 0 <= i < j < robots.len() ==> robots[i].id != robots[j].id
}

/// Whether `id` is the identifier of a robot.
pub open spec fn is_known(robots: Seq<Robot>, id: u32) -> bool {
    exists|i: int| 0 <= i < robots.len() && (#[trigger] robots[i]).id == id
}

/// Whether the robot stands at `i`, with `id` as its identifier.
pub open spec fn stands_at(robots: Seq<Robot>, id: u32, i: int) -> bool {
    0 <= i < robots.len() && robots[i].id == id
}

/// Whether more than three seconds lie between the robot's last heartbeat and `now`.
pub open spec fn is_silent(robot: Robot, now: Instant) -> bool {
    clock::instant_nanos(now) - clock::instant_nanos(robot.last_heartbeat) > 3_000_000_000
}

/// Whether an attempt to enter a zone can be counted, and its grant or denial too.
pub open spec fn can_count_attempt(stats: CoordinatorStats) -> bool {
    &&& stats.total_zone_access_attempts < u32::MAX
    &&& stats.total_zone_access_grants + stats.total_zone_denials
        <= stats.total_zone_access_attempts
}

/// A robot's place is the one that the state knows it by.
pub(crate) proof fn lemma_place(state: CoordinatorState, id: u32, i: int)
    requires
        distinct_ids(state.robots),
        stands_at(state.robots, id, i),
    ensures
        state.has_robot(id),
        state.robot_index(id) == i,
        state.robot(id) == state.robots[i],
{
}

/// A robot that nobody knows is not registered.
pub(crate) proof fn lemma_no_place(state: CoordinatorState, id: u32)
    requires
        !is_known(state.robots, id),
    ensures
        !state.has_robot(id),
{
    if state.has_robot(id) {
        assert(state.robots[state.robot_index(id)].id == id);
    }
}

} // verus!
