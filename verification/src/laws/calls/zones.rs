//! Calls that take and give back zones.
use crate::coordinator::RobotCoordinator;
use crate::laws::calls;
use crate::model::CoordinatorState;
use crate::robot::{Robot, RobotStatus};
use crate::stats::CoordinatorStats;
use crate::text;
use crate::zone::ZoneGuard;
use vstd::prelude::*;

verus! {

/// A registered robot that is not offline is granted every zone that exists and is free, and no
/// other. A grant holds the zone, places the robot in it and counts as a grant; a denial is counted
/// if the zone was held, and only then; every request counts as an attempt.
pub proof fn law_request_zone(
    c: &mut RobotCoordinator,
    id: u32,
    zone: usize,
    answer: Result<ZoneGuard, String>,
    i: int,
)
    requires
        call_ensures(RobotCoordinator::request_zone, (c, id, zone), answer),
        calls::distinct_ids(old(c)@.robots),
        calls::stands_at(old(c)@.robots, id, i),
        calls::can_count_attempt(old(c)@.stats),
    ensures
        answer is Ok <==> {
            &&& zone < old(c)@.zones.len()
            &&& !old(c)@.zones[zone as int]
            &&& old(c)@.robots[i].status != RobotStatus::Offline
        },
        answer matches Ok(guard) ==> {
            let before = old(c)@;
            &&& guard.held_zone() == zone
            &&& guard.origin() == old(c).origin()
            &&& final(c)@ == (CoordinatorState {
                zones: before.zones.update(zone as int, true),
                robots: before.robots.update(
                    i,
                    Robot { current_zone: Some(zone as u32), ..before.robots[i] },
                ),
                stats: CoordinatorStats {
                    total_zone_access_attempts: (before.stats.total_zone_access_attempts
                        + 1) as u32,
                    total_zone_access_grants: (before.stats.total_zone_access_grants + 1) as u32,
                    ..before.stats
                },
                ..before
            })
        },
        answer matches Err(message) ==> {
            let before = old(c)@;
            let missing = zone >= before.zones.len();
            let offline = before.robots[i].status == RobotStatus::Offline;
            &&& message@ == if missing {
                "Zone "@ + text::decimal(zone as nat) + " does not exist"@
            } else if offline {
                "Robot "@ + text::decimal(id as nat) + " is offline"@
            } else {
                "Zone "@ + text::decimal(zone as nat) + " is occupied"@
            }
            &&& final(c)@ == (CoordinatorState {
                stats: CoordinatorStats {
                    total_zone_access_attempts: (before.stats.total_zone_access_attempts
                        + 1) as u32,
                    total_zone_denials: (before.stats.total_zone_denials + if missing || offline {
                        0int
                    } else {
                        1int
                    }) as u32,
                    ..before.stats
                },
                ..before
            })
        },
{
    calls::lemma_place(old(c)@, id, i);
}

/// A robot that is not registered is granted no zone; its request counts as an attempt and changes
/// nothing else.
pub proof fn law_request_zone_unknown(
    c: &mut RobotCoordinator,
    id: u32,
    zone: usize,
    answer: Result<ZoneGuard, String>,
)
    requires
        call_ensures(RobotCoordinator::request_zone, (c, id, zone), answer),
        !calls::is_known(old(c)@.robots, id),
        calls::can_count_attempt(old(c)@.stats),
    ensures
        answer matches Err(message) && message@ == if zone >= old(c)@.zones.len() {
            "Zone "@ + text::decimal(zone as nat) + " does not exist"@
        } else {
            "Robot "@ + text::decimal(id as nat) + " not found"@
        },
        final(c)@ == (CoordinatorState {
            stats: CoordinatorStats {
                total_zone_access_attempts: (old(c)@.stats.total_zone_access_attempts + 1) as u32,
                ..old(c)@.stats
            },
            ..old(c)@
        }),
{
    calls::lemma_no_place(old(c)@, id);
}

/// What a robot that leaves a zone does: it is in no zone afterwards if it stood in that one, and
/// the answer says whether it did. Nothing else changes.
pub proof fn law_record_departure(
    c: &mut RobotCoordinator,
    id: u32,
    zone: usize,
    left: bool,
    i: int,
)
    requires
        call_ensures(RobotCoordinator::record_departure, (c, id, zone), left),
        calls::distinct_ids(old(c)@.robots),
        calls::stands_at(old(c)@.robots, id, i),
    ensures
        left <==> zone < old(c)@.zones.len() && old(c)@.robots[i].current_zone == Some(zone as u32),
        final(c)@ == (CoordinatorState {
            robots: if left {
                old(c)@.robots.update(i, Robot { current_zone: None, ..old(c)@.robots[i] })
            } else {
                old(c)@.robots
            },
            ..old(c)@
        }),
{
    calls::lemma_place(old(c)@, id, i);
}

/// A guard that is given back frees its zone, and no other, whatever else is said.
pub proof fn law_leave_zone(
    c: &mut RobotCoordinator,
    guard: ZoneGuard,
    id: u32,
    zone: usize,
    left: bool,
    i: int,
)
    requires
        call_ensures(RobotCoordinator::leave_zone, (c, guard, id, zone), left),
        calls::distinct_ids(old(c)@.robots),
        calls::stands_at(old(c)@.robots, id, i),
    ensures
        left <==> zone < old(c)@.zones.len() && old(c)@.robots[i].current_zone == Some(zone as u32),
        final(c)@ == (CoordinatorState {
            zones: if 0 <= guard.held_zone() < old(c)@.zones.len() {
                old(c)@.zones.update(guard.held_zone(), false)
            } else {
                old(c)@.zones
            },
            robots: if left {
                old(c)@.robots.update(i, Robot { current_zone: None, ..old(c)@.robots[i] })
            } else {
                old(c)@.robots
            },
            ..old(c)@
        }),
{
    calls::lemma_place(old(c)@, id, i);
    assert(old(c)@.robots[i].id == id);
    calls::lemma_place(old(c)@.zone_released(guard.held_zone()), id, i);
}

/// A robot that is not registered leaves nothing; its guard is taken back all the same.
pub proof fn law_leave_zone_unknown(
    c: &mut RobotCoordinator,
    guard: ZoneGuard,
    id: u32,
    zone: usize,
    left: bool,
    d: &mut RobotCoordinator,
    departed: bool,
)
    requires
        call_ensures(RobotCoordinator::record_departure, (d, id, zone), departed),
        !calls::is_known(old(d)@.robots, id),
        call_ensures(RobotCoordinator::leave_zone, (c, guard, id, zone), left),
        !calls::is_known(old(c)@.robots, id),
    ensures
        !departed,
        final(d)@ == old(d)@,
        !left,
        final(c)@ == (CoordinatorState {
            zones: if 0 <= guard.held_zone() < old(c)@.zones.len() {
                old(c)@.zones.update(guard.held_zone(), false)
            } else {
                old(c)@.zones
            },
            ..old(c)@
        }),
{
    calls::lemma_no_place(old(d)@, id);
    calls::lemma_no_place(old(c)@.zone_released(guard.held_zone()), id);
}

/// A guard that is given back on its own frees its zone and changes nothing else.
pub proof fn law_release_zone(c: &mut RobotCoordinator, guard: ZoneGuard)
    requires
        call_ensures(RobotCoordinator::release_zone, (c, guard), ()),
    ensures
        final(c)@ == (CoordinatorState {
            zones: if 0 <= guard.held_zone() < old(c)@.zones.len() {
                old(c)@.zones.update(guard.held_zone(), false)
            } else {
                old(c)@.zones
            },
            ..old(c)@
        }),
{
}

/// A zone is occupied if it exists and is held.
pub proof fn law_is_zone_occupied(c: RobotCoordinator, zone: usize, occupied: bool)
    requires
        call_ensures(RobotCoordinator::is_zone_occupied, (&c, zone), occupied),
    ensures
        occupied <==> zone < c@.zones.len() && c@.zones[zone as int],
{
}

/// A zone that was granted is not granted again by the next request for it, whichever robot asks.
pub proof fn law_granted_zone_is_taken(
    c: &mut RobotCoordinator,
    id: u32,
    zone: usize,
    guard: ZoneGuard,
    i: int,
    d: &mut RobotCoordinator,
    second: u32,
    answer: Result<ZoneGuard, String>,
)
    requires
        call_ensures(RobotCoordinator::request_zone, (c, id, zone), Ok(guard)),
        calls::distinct_ids(old(c)@.robots),
        calls::stands_at(old(c)@.robots, id, i),
        old(c)@.stats.total_zone_access_attempts < u32::MAX - 1,
        calls::can_count_attempt(old(c)@.stats),
        final(c)@ == old(d)@,
        call_ensures(RobotCoordinator::request_zone, (d, second, zone), answer),
    ensures
        answer is Err,
        final(d)@.zones == final(c)@.zones,
{
    law_request_zone(c, id, zone, Ok(guard), i);
}

} // verus!
