//! The wording of every refusal.
use crate::text;
use vstd::prelude::*;

verus! {

pub open spec fn duplicate_robot(id: u32) -> Seq<char> {
    text::numbered("Robot with ID "@, id as nat, " already exists"@)
}

pub open spec fn robot_not_found(id: u32) -> Seq<char> {
    text::numbered("Robot "@, id as nat, " not found"@)
}

pub open spec fn robot_offline(id: u32) -> Seq<char> {
    text::numbered("Robot "@, id as nat, " is offline"@)
}

pub open spec fn robot_already_busy(id: u32) -> Seq<char> {
    text::numbered("Robot "@, id as nat, " is already busy"@)
}

pub open spec fn robot_became_offline(id: u32) -> Seq<char> {
    text::numbered("Robot "@, id as nat, " became offline"@)
}

pub open spec fn robot_became_busy(id: u32) -> Seq<char> {
    text::numbered("Robot "@, id as nat, " became busy"@)
}

pub open spec fn robot_not_busy(id: u32) -> Seq<char> {
    text::numbered("Robot "@, id as nat, " is not busy"@)
}

pub open spec fn zone_missing(zone: int) -> Seq<char> {
    text::numbered("Zone "@, zone as nat, " does not exist"@)
}

pub open spec fn zone_occupied(zone: int) -> Seq<char> {
    text::numbered("Zone "@, zone as nat, " is occupied"@)
}

} // verus!
