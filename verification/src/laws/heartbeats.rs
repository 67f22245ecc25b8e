//! What heartbeats, checks and sweeps promise.
use crate::clock;
use crate::coordinator::report::StatusReport;
use crate::filtering;
use crate::laws::invariants;
use crate::model::CoordinatorState;
use crate::robot::{Robot, RobotStatus, HEARTBEAT_TIMEOUT_NANOS};
use crate::trace::Event;
use std::time::Instant;
use vstd::prelude::*;

verus! {

/// A robot that has timed out stays so as time goes on, until it is heard of again.
pub proof fn law_timeout_persists(robot: Robot, now: Instant, later: Instant)
    requires
        robot.timed_out_at(now),
        clock::instant_nanos(now) <= clock::instant_nanos(later),
    ensures
        robot.timed_out_at(later),
{
}

/// After a heartbeat a robot is not marked offline, and it can be reached for exactly the length
/// of the timeout.
pub proof fn law_heartbeat_lasts(robot: Robot, beat: Instant, now: Instant)
    ensures
        robot.after_heartbeat(beat).status != RobotStatus::Offline,
        robot.after_heartbeat(beat).online_at(now) == (clock::nanos_between(beat, now)
            <= HEARTBEAT_TIMEOUT_NANOS),
{
}

/// A heartbeat that the coordinator receives brings its robot back and touches no other.
pub proof fn law_heartbeat_brings_back(
    state: CoordinatorState,
    id: u32,
    beat: Instant,
    now: Instant,
)
    requires
        state.wf(),
        state.has_robot(id),
    ensures
        state.heartbeat_received(id, beat).has_robot(id),
        state.heartbeat_received(id, beat).robot(id) == state.robot(id).after_heartbeat(beat),
        state.heartbeat_received(id, beat).robot(id).online_at(now) == (clock::nanos_between(
            beat,
            now,
        ) <= HEARTBEAT_TIMEOUT_NANOS),
        forall|i: int|
            0 <= i < state.robots.len() && state.robots[i].id != id ==> (
            #[trigger] state.heartbeat_received(id, beat).robots[i]) == state.robots[i],
{
    let after = state.heartbeat_received(id, beat);
    assert(after.robots[state.robot_index(id)].id == id);
}

proof fn lemma_none_newly_timed_out(state: CoordinatorState, now: Instant)
    requires
        forall|i: int|
            0 <= i < state.robots.len() ==> !(#[trigger] state.robots[i]).newly_timed_out(now),
    ensures
        state.newly_timed_out(now).len() == 0,
{
    let new = |robot: Robot| robot.newly_timed_out(now);
    let found = state.newly_timed_out(now);
    if found.len() > 0 {
        state.robots.lemma_filter_pred(new, 0);
        state.robots.lemma_filter_contains_rev(new, found[0]);
    }
}

/// Whether every robot that has timed out at one of the two instants has timed out at the other.
pub open spec fn none_crosses(state: CoordinatorState, now: Instant, later: Instant) -> bool {
    forall|i: int|
        0 <= i < state.robots.len() ==> (#[trigger] state.robots[i]).timed_out_at(later)
            == state.robots[i].timed_out_at(now)
}

/// A check settles who is offline: afterwards a robot is marked offline exactly if it has timed
/// out. A second check finds nothing and changes nothing, at the same time or at any other at which
/// no robot has crossed the mark: a timeout is reported once, and not once per check.
pub proof fn law_check_settles(state: CoordinatorState, now: Instant, later: Instant)
    requires
        none_crosses(state, now, later),
    ensures
        ({
            let after = state.heartbeats_checked(now);
            &&& forall|i: int|
                0 <= i < after.robots.len() ==> ((#[trigger] after.robots[i]).status
                    == RobotStatus::Offline) == after.robots[i].timed_out_at(later)
            &&& after.newly_timed_out_ids(later) == Seq::<u32>::empty()
            &&& after.heartbeats_checked(later) == after
        }),
{
    lemma_none_newly_timed_out(state.heartbeats_checked(now), later);
}

/// Whether a robot `id` is in the list.
pub open spec fn lists(robots: Seq<Robot>, id: u32) -> bool {
    exists|k: int| 0 <= k < robots.len() && (#[trigger] robots[k]).id == id
}

proof fn lemma_filter_lists(state: CoordinatorState, keep: spec_fn(Robot) -> bool, id: u32)
    requires
        state.unique_ids(),
    ensures
        lists(state.robots.filter(keep), id) <==> state.has_robot(id) && keep(state.robot(id)),
{
    let kept = state.robots.filter(keep);
    if lists(kept, id) {
        let k = choose|k: int| 0 <= k < kept.len() && (#[trigger] kept[k]).id == id;
        state.robots.lemma_filter_pred(keep, k);
        state.robots.lemma_filter_contains_rev(keep, kept[k]);
    }
    if state.has_robot(id) && keep(state.robot(id)) {
        let i = state.robot_index(id);
        state.robots.lemma_filter_contains(keep, i);
    }
}

/// After a check, and as long as no robot crosses the mark, the offline and the online robots split
/// the registered ones: the offline ones are those that cannot be reached, every robot is in
/// exactly one of the two lists, and the lists hold no one else.
pub proof fn law_check_splits_the_robots(
    state: CoordinatorState,
    now: Instant,
    later: Instant,
    id: u32,
)
    requires
        state.unique_ids(),
        none_crosses(state, now, later),
    ensures
        ({
            let after = state.heartbeats_checked(now);
            &&& after.offline() == after.unreachable(later)
            &&& after.offline().len() + after.online(later).len() == after.robots.len()
            &&& lists(after.offline(), id) || lists(after.online(later), id) <==> state.has_robot(id)
            &&& !(lists(after.offline(), id) && lists(after.online(later), id))
        }),
{
    let after = state.heartbeats_checked(now);
    let offline = |robot: Robot| robot.status == RobotStatus::Offline;
    let online = |robot: Robot| robot.online_at(later);
    let unreachable = |robot: Robot| !robot.online_at(later);
    law_check_settles(state, now, later);
    invariants::lemma_operation_keeps_robots(state, Event::CheckHeartbeats { now });
    filtering::lemma_filter_same(after.robots, offline, unreachable);
    filtering::lemma_filter_partition(after.robots, online, unreachable);
    lemma_filter_lists(after, offline, id);
    lemma_filter_lists(after, online, id);
    assert(after.has_robot(id) == state.has_robot(id)) by {
        if state.has_robot(id) {
            assert(after.robots[state.robot_index(id)].id == id);
        }
    }
}

/// A sweep takes no robot back online, and a second one at the same time finds nothing and
/// changes nothing.
pub proof fn law_sweep_settles(state: CoordinatorState, now: Instant)
    ensures
        ({
            let after = state.heartbeats_swept(now);
            &&& forall|i: int|
                0 <= i < after.robots.len() ==> ((#[trigger] after.robots[i]).status
                    == RobotStatus::Offline) == (state.robots[i].status == RobotStatus::Offline
                    || state.robots[i].timed_out_at(now))
            &&& after.newly_timed_out_ids(now) == Seq::<u32>::empty()
            &&& after.heartbeats_swept(now) == after
        }),
{
    lemma_none_newly_timed_out(state.heartbeats_swept(now), now);
}

/// The monitor and a check at the same time count no timeout twice: a check after a sweep gives
/// what the check alone would have given.
pub proof fn law_sweep_then_check(state: CoordinatorState, now: Instant)
    requires
        state.stats.total_timeouts_detected + state.newly_timed_out(now).len() <= u32::MAX,
    ensures
        state.heartbeats_swept(now).heartbeats_checked(now) == state.heartbeats_checked(now),
{
    lemma_none_newly_timed_out(state.heartbeats_swept(now), now);
}

proof fn lemma_filter_keeps_distinct(robots: Seq<Robot>, keep: spec_fn(Robot) -> bool)
    requires
        forall|i: int, j: int| 0 <= i < j < robots.len() ==> robots[i].id != robots[j].id,
    ensures
        forall|i: int, j: int|
            0 <= i < j < robots.filter(keep).len() ==> robots.filter(keep)[i].id
                != robots.filter(keep)[j].id,
    decreases robots.len(),
{
    reveal(Seq::filter);
    if robots.len() > 0 {
        let fewer = robots.drop_last();
        lemma_filter_keeps_distinct(fewer, keep);
        if keep(robots.last()) {
            let kept = fewer.filter(keep);
            assert forall|i: int| 0 <= i < kept.len() implies kept[i].id != robots.last().id by {
                fewer.lemma_filter_contains_rev(keep, kept[i]);
            }
        }
    }
}

/// Each timeout is reported once: the answer of a check or a sweep names no robot twice, and names
/// exactly the robots that were not marked offline and have timed out.
pub proof fn law_timeouts_are_reported_once(state: CoordinatorState, now: Instant, id: u32)
    requires
        state.wf(),
    ensures
        state.newly_timed_out_ids(now).no_duplicates(),
        state.newly_timed_out_ids(now).contains(id) <==> state.has_robot(id) && state.robot(
            id,
        ).newly_timed_out(now),
{
    let new = |robot: Robot| robot.newly_timed_out(now);
    let found = state.newly_timed_out(now);
    let ids = state.newly_timed_out_ids(now);
    lemma_filter_keeps_distinct(state.robots, new);
    lemma_filter_lists(state, new, id);
    if lists(found, id) {
        let k = choose|k: int| 0 <= k < found.len() && (#[trigger] found[k]).id == id;
        assert(ids[k] == id);
    }
}

/// A report counts every robot once, as one that can be reached or one that cannot, and no robot
/// is both busy and idle.
pub proof fn law_report_partitions(state: CoordinatorState, report: StatusReport, now: Instant)
    requires
        state.summed_up_by(report, now),
    ensures
        report.online_robots + report.offline_robots == report.total_robots,
        report.busy_robots + report.idle_robots <= report.online_robots,
{
    filtering::lemma_filter_partition(
        state.robots,
        |robot: Robot| robot.online_at(now),
        |robot: Robot| !robot.online_at(now),
    );
    filtering::lemma_filter_disjoint(
        state.robots,
        |robot: Robot| robot.busy_at(now),
        |robot: Robot| robot.idle_at(now),
        |robot: Robot| robot.online_at(now),
    );
}

} // verus!
