//! Calls that record and check heartbeats.
use crate::clock;
use crate::coordinator::heartbeats::MONITOR_INTERVAL_MS;
use crate::coordinator::RobotCoordinator;
use crate::laws::calls;
use crate::model::CoordinatorState;
use crate::robot::{Robot, RobotStatus};
use crate::stats::CoordinatorStats;
use std::time::Instant;
use vstd::prelude::*;

verus! {

/// A heartbeat of a registered robot is recorded at its instant and counted; a robot that was offline
/// is idle, and any other goes on with what it does.
pub proof fn law_heartbeat_at(c: &mut RobotCoordinator, id: u32, now: Instant, known: bool, i: int)
    requires
        call_ensures(RobotCoordinator::heartbeat_at, (c, id, now), known),
        calls::distinct_ids(old(c)@.robots),
        calls::stands_at(old(c)@.robots, id, i),
        old(c)@.stats.total_heartbeats_received < u32::MAX,
    ensures
        known,
        final(c)@.stats.total_heartbeats_received == old(c)@.stats.total_heartbeats_received + 1,
        final(c)@ == (CoordinatorState {
            robots: old(c)@.robots.update(
                i,
                Robot {
                    last_heartbeat: now,
                    status: if old(c)@.robots[i].status == RobotStatus::Offline {
                        RobotStatus::Idle
                    } else {
                        old(c)@.robots[i].status
                    },
                    ..old(c)@.robots[i]
                },
            ),
            stats: CoordinatorStats {
                total_heartbeats_received: (old(c)@.stats.total_heartbeats_received + 1) as u32,
                ..old(c)@.stats
            },
            ..old(c)@
        }),
{
    calls::lemma_place(old(c)@, id, i);
}

/// The same of a heartbeat at a reading of the clock.
pub proof fn law_heartbeat(c: &mut RobotCoordinator, id: u32, known: bool, i: int)
    requires
        call_ensures(RobotCoordinator::heartbeat, (c, id), known),
        calls::distinct_ids(old(c)@.robots),
        calls::stands_at(old(c)@.robots, id, i),
        old(c)@.stats.total_heartbeats_received < u32::MAX,
    ensures
        known,
        clock::is_reading(final(c)@.robots[i].last_heartbeat),
        final(c)@.stats.total_heartbeats_received == old(c)@.stats.total_heartbeats_received + 1,
        final(c)@ == (CoordinatorState {
            robots: old(c)@.robots.update(
                i,
                Robot {
                    last_heartbeat: final(c)@.robots[i].last_heartbeat,
                    status: if old(c)@.robots[i].status == RobotStatus::Offline {
                        RobotStatus::Idle
                    } else {
                        old(c)@.robots[i].status
                    },
                    ..old(c)@.robots[i]
                },
            ),
            stats: CoordinatorStats {
                total_heartbeats_received: (old(c)@.stats.total_heartbeats_received + 1) as u32,
                ..old(c)@.stats
            },
            ..old(c)@
        }),
{
    calls::lemma_place(old(c)@, id, i);
    let now = choose|now: Instant|
        {
            &&& clock::is_reading(now)
            &&& final(c)@ == #[trigger] old(c)@.heartbeat_received(id, now)
        };
    assert(final(c)@.robots[i].last_heartbeat == now);
}

/// A heartbeat of a robot that is not registered is not recorded.
pub proof fn law_heartbeat_unknown(
    c: &mut RobotCoordinator,
    d: &mut RobotCoordinator,
    id: u32,
    now: Instant,
    known: bool,
    found: bool,
)
    requires
        call_ensures(RobotCoordinator::heartbeat_at, (c, id, now), known),
        !calls::is_known(old(c)@.robots, id),
        call_ensures(RobotCoordinator::heartbeat, (d, id), found),
        !calls::is_known(old(d)@.robots, id),
    ensures
        !known,
        final(c)@ == old(c)@,
        !found,
        final(d)@ == old(d)@,
{
    calls::lemma_no_place(old(c)@, id);
    calls::lemma_no_place(old(d)@, id);
}

/// Whether `timed_out` names, in their order, the robots that were not offline before and are
/// offline after, with the total of timeouts grown by their number, the places of those robots
/// forgotten, and nothing changed but statuses and places.
pub open spec fn reports_who_went_offline(
    before: CoordinatorState,
    timed_out: Seq<u32>,
    after: CoordinatorState,
) -> bool {
    &&& after.robots.len() == before.robots.len()
    &&& timed_out == ids_gone_offline(before.robots, after.robots)
    &&& after.stats.total_timeouts_detected == before.stats.total_timeouts_detected
        + timed_out.len()
    &&& after == (CoordinatorState {
        robots: after.robots,
        stats: CoordinatorStats {
            total_timeouts_detected: after.stats.total_timeouts_detected,
            ..before.stats
        },
        ..before
    })
    &&& forall|i: int|
        0 <= i < before.robots.len() ==> (#[trigger] after.robots[i]) == (Robot {
            status: after.robots[i].status,
            current_zone: if before.robots[i].status != RobotStatus::Offline
                && after.robots[i].status == RobotStatus::Offline {
                None
            } else {
                before.robots[i].current_zone
            },
            ..before.robots[i]
        })
}

/// The identifiers of the robots that are offline in `after` and were not in `before`, in their
/// order.
pub open spec fn ids_gone_offline(before: Seq<Robot>, after: Seq<Robot>) -> Seq<u32>
    decreases before.len(),
{
    if before.len() == 0 {
        Seq::empty()
    } else {
        let earlier = ids_gone_offline(before.drop_last(), after.take(before.len() - 1));
        if before.last().status != RobotStatus::Offline && after[before.len() - 1].status
            == RobotStatus::Offline {
            earlier.push(before.last().id)
        } else {
            earlier
        }
    }
}

proof fn lemma_ids_gone_offline(before: Seq<Robot>, after: Seq<Robot>, new: spec_fn(Robot) -> bool)
    requires
        before.len() == after.len(),
        forall|i: int|
            0 <= i < before.len() ==> new(#[trigger] before[i]) == (before[i].status
                != RobotStatus::Offline && after[i].status == RobotStatus::Offline),
    ensures
        ids_gone_offline(before, after) == before.filter(new).map_values(|robot: Robot| robot.id),
    decreases before.len(),
{
    reveal(Seq::filter);
    if before.len() > 0 {
        let fewer = before.drop_last();
        let shorter = after.take(before.len() - 1);
        assert forall|i: int| 0 <= i < fewer.len() implies new(#[trigger] fewer[i]) == (
        fewer[i].status != RobotStatus::Offline && shorter[i].status == RobotStatus::Offline) by {
            assert(fewer[i] == before[i]);
        }
        lemma_ids_gone_offline(fewer, shorter, new);
        assert(new(before[before.len() - 1]) == (before.last().status != RobotStatus::Offline
            && after[before.len() - 1].status == RobotStatus::Offline));
    }
    assert(ids_gone_offline(before, after) =~= before.filter(new).map_values(
        |robot: Robot| robot.id,
    ));
}

proof fn lemma_reported(
    before: CoordinatorState,
    now: Instant,
    timed_out: Seq<u32>,
    after: CoordinatorState,
)
    requires
        before.stats.total_timeouts_detected + timed_out.len() <= u32::MAX,
        timed_out == before.newly_timed_out_ids(now),
        after == before.heartbeats_checked(now) || after == before.heartbeats_swept(now),
    ensures
        reports_who_went_offline(before, timed_out, after),
{
    let new = |robot: Robot| robot.newly_timed_out(now);
    lemma_ids_gone_offline(before.robots, after.robots, new);
}

/// A check leaves exactly those robots offline that have been silent for more than three seconds.
/// It reports, counts and displaces exactly those that were not offline before, busy or not; one
/// that is back is idle, and any other goes on with what it does.
pub proof fn law_check_heartbeats_at(
    c: &mut RobotCoordinator,
    now: Instant,
    timed_out: Vec<u32>,
)
    requires
        call_ensures(RobotCoordinator::check_heartbeats_at, (c, now), timed_out),
        old(c)@.stats.total_timeouts_detected + timed_out@.len() <= u32::MAX,
    ensures
        reports_who_went_offline(old(c)@, timed_out@, final(c)@),
        forall|i: int|
            0 <= i < old(c)@.robots.len() ==> (#[trigger] final(c)@.robots[i]).status == (
            if calls::is_silent(old(c)@.robots[i], now) {
                RobotStatus::Offline
            } else if old(c)@.robots[i].status == RobotStatus::Offline {
                RobotStatus::Idle
            } else {
                old(c)@.robots[i].status
            }),
{
    lemma_reported(old(c)@, now, timed_out@, final(c)@);
}

/// The same of a check at a reading of the clock.
pub proof fn law_check_heartbeats(c: &mut RobotCoordinator, timed_out: Vec<u32>)
    requires
        call_ensures(RobotCoordinator::check_heartbeats, (c,), timed_out),
        old(c)@.stats.total_timeouts_detected + timed_out@.len() <= u32::MAX,
    ensures
        reports_who_went_offline(old(c)@, timed_out@, final(c)@),
        exists|now: Instant|
            {
                &&& #[trigger] clock::is_reading(now)
                &&& forall|i: int|
                    0 <= i < old(c)@.robots.len() ==> (#[trigger] final(c)@.robots[i]).status == (
                    if calls::is_silent(old(c)@.robots[i], now) {
                        RobotStatus::Offline
                    } else if old(c)@.robots[i].status == RobotStatus::Offline {
                        RobotStatus::Idle
                    } else {
                        old(c)@.robots[i].status
                    })
            },
{
    let now = choose|now: Instant|
        {
            &&& clock::is_reading(now)
            &&& final(c)@ == #[trigger] old(c)@.heartbeats_checked(now)
            &&& timed_out@ == old(c)@.newly_timed_out_ids(now)
        };
    lemma_reported(old(c)@, now, timed_out@, final(c)@);
    assert(clock::is_reading(now));
}

/// A sweep takes exactly those robots offline that have been silent for more than three seconds, and
/// brings none back. It reports, counts and displaces exactly those that were not offline before,
/// busy or not.
pub proof fn law_sweep_heartbeats_at(
    c: &mut RobotCoordinator,
    now: Instant,
    timed_out: Vec<u32>,
)
    requires
        call_ensures(RobotCoordinator::sweep_heartbeats_at, (c, now), timed_out),
        old(c)@.stats.total_timeouts_detected + timed_out@.len() <= u32::MAX,
    ensures
        reports_who_went_offline(old(c)@, timed_out@, final(c)@),
        forall|i: int|
            0 <= i < old(c)@.robots.len() ==> (#[trigger] final(c)@.robots[i]).status == (
            if calls::is_silent(old(c)@.robots[i], now) {
                RobotStatus::Offline
            } else {
                old(c)@.robots[i].status
            }),
{
    lemma_reported(old(c)@, now, timed_out@, final(c)@);
}

/// The same of a sweep at a reading of the clock.
pub proof fn law_sweep_heartbeats(c: &mut RobotCoordinator, timed_out: Vec<u32>)
    requires
        call_ensures(RobotCoordinator::sweep_heartbeats, (c,), timed_out),
        old(c)@.stats.total_timeouts_detected + timed_out@.len() <= u32::MAX,
    ensures
        reports_who_went_offline(old(c)@, timed_out@, final(c)@),
        exists|now: Instant|
            {
                &&& #[trigger] clock::is_reading(now)
                &&& forall|i: int|
                    0 <= i < old(c)@.robots.len() ==> (#[trigger] final(c)@.robots[i]).status == (
                    if calls::is_silent(old(c)@.robots[i], now) {
                        RobotStatus::Offline
                    } else {
                        old(c)@.robots[i].status
                    })
            },
{
    let now = choose|now: Instant|
        {
            &&& clock::is_reading(now)
            &&& final(c)@ == #[trigger] old(c)@.heartbeats_swept(now)
            &&& timed_out@ == old(c)@.newly_timed_out_ids(now)
        };
    lemma_reported(old(c)@, now, timed_out@, final(c)@);
    assert(clock::is_reading(now));
}

/// The monitor is to run after it was started and until it is stopped, with half a second between
/// two sweeps; neither changes anything else.
pub proof fn law_monitoring(
    c: &mut RobotCoordinator,
    d: &mut RobotCoordinator,
    e: RobotCoordinator,
    active: bool,
)
    requires
        call_ensures(RobotCoordinator::start_monitoring, (c,), ()),
        call_ensures(RobotCoordinator::stop_monitoring, (d,), ()),
        call_ensures(RobotCoordinator::is_monitoring, (&e,), active),
    ensures
        final(c)@ == (CoordinatorState { monitoring: true, ..old(c)@ }),
        final(d)@ == (CoordinatorState { monitoring: false, ..old(d)@ }),
        active == e@.monitoring,
        MONITOR_INTERVAL_MS == 500,
{
}

} // verus!
