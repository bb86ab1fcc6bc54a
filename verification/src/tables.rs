//! The two dice tables of the critical-hit rules: how many slots a roll hits, and which
//! location a roll falls on.

use vstd::prelude::*;
use crate::taxonomy::Location;

verus! {

/// The roll that is looked up in the crit-count table: hardened armor lowers it by two,
/// but never below two.
pub open spec fn effective_roll(roll_total: int, hardened: bool) -> int {
    if !hardened {
        roll_total
    } else if roll_total - 2 < 2 {
        2
    } else {
        roll_total - 2
    }
}

/// The crit-count table: 2-7 hit nothing, 8-9 one slot, 10-11 two, 12 three.
pub open spec fn slots_hit_spec(roll_total: int, hardened: bool) -> int {
    let roll = effective_roll(roll_total, hardened);
    if roll <= 7 {
        0
    } else if roll <= 9 {
        1
    } else if roll <= 11 {
        2
    } else {
        3
    }
}

/// Number of critical slots hit by a two-dice roll.
pub fn slots_hit(roll_total: u8, hardened: bool) -> (hits: u8)
    requires
        2 <= roll_total <= 12,
    ensures
        hits == slots_hit_spec(roll_total as int, hardened),
        hits <= 3,
{
    let roll: u8 = if !hardened {
        roll_total
    } else if roll_total < 4 {
        2
    } else {
        roll_total - 2
    };
    if roll <= 7 {
        0
    } else if roll <= 9 {
        1
    } else if roll <= 11 {
        2
    } else {
        3
    }
}

/// Hardened armor turns every roll into the unhardened roll two lower, floored at two.
pub proof fn lemma_hardened_shifts_roll(roll_total: int)
    requires
        2 <= roll_total <= 12,
    ensures
        slots_hit_spec(roll_total, true) == slots_hit_spec(
            if roll_total - 2 < 2 { 2 } else { roll_total - 2 },
            false,
        ),
        slots_hit_spec(roll_total, true) <= 2,
{
}

/// The hit-location table before any tripod leg re-roll.
pub open spec fn base_location_spec(roll_total: int) -> Location {
    if roll_total == 2 || roll_total == 7 {
        Location::CenterTorso
    } else if roll_total == 3 || roll_total == 4 {
        Location::RightArm
    } else if roll_total == 5 {
        Location::RightLeg
    } else if roll_total == 6 {
        Location::RightTorso
    } else if roll_total == 8 {
        Location::LeftTorso
    } else if roll_total == 9 {
        Location::LeftLeg
    } else if roll_total == 10 || roll_total == 11 {
        Location::LeftArm
    } else {
        Location::Head
    }
}

/// Which leg of a tripod a single die picks: 1-2 right, 3-4 center, 5-6 left.
pub open spec fn tripod_leg_spec(die: int) -> Location {
    if die <= 2 {
        Location::RightLeg
    } else if die <= 4 {
        Location::CenterLeg
    } else {
        Location::LeftLeg
    }
}

/// The location a roll falls on. `leg_die` only matters for a tripod whose roll fell
/// on a leg.
pub open spec fn target_location_spec(roll_total: int, is_tripod: bool, leg_die: int) -> Location {
    let base = base_location_spec(roll_total);
    if is_tripod && base.is_side_leg() {
        tripod_leg_spec(leg_die)
    } else {
        base
    }
}

/// A tripod hit in a leg stays on the legs, and only a tripod is ever hit in the center
/// leg.
pub proof fn lemma_center_leg_is_for_tripods(roll_total: int, is_tripod: bool, leg_die: int)
    ensures
        is_tripod && base_location_spec(roll_total).is_side_leg() ==> target_location_spec(
            roll_total,
            is_tripod,
            leg_die,
        ).is_tripod_leg(),
        !is_tripod ==> target_location_spec(roll_total, is_tripod, leg_die)
            != Location::CenterLeg,
        !base_location_spec(roll_total).is_side_leg() ==> target_location_spec(
            roll_total,
            is_tripod,
            leg_die,
        ) == base_location_spec(roll_total),
{
}

/// Looks a two-dice roll up in the hit-location table.
pub fn base_location(roll_total: u8) -> (location: Location)
    requires
        2 <= roll_total <= 12,
    ensures
        location == base_location_spec(roll_total as int),
        location != Location::CenterLeg,
{
    if roll_total == 2 || roll_total == 7 {
        Location::CenterTorso
    } else if roll_total == 3 || roll_total == 4 {
        Location::RightArm
    } else if roll_total == 5 {
        Location::RightLeg
    } else if roll_total == 6 {
        Location::RightTorso
    } else if roll_total == 8 {
        Location::LeftTorso
    } else if roll_total == 9 {
        Location::LeftLeg
    } else if roll_total == 10 || roll_total == 11 {
        Location::LeftArm
    } else {
        Location::Head
    }
}

/// Picks the leg of a tripod from one die.
pub fn tripod_leg(die: u8) -> (location: Location)
    requires
        1 <= die <= 6,
    ensures
        location == tripod_leg_spec(die as int),
        location.is_tripod_leg(),
{
    if die <= 2 {
        Location::RightLeg
    } else if die <= 4 {
        Location::CenterLeg
    } else {
        Location::LeftLeg
    }
}

/// The location hit by a two-dice roll, with the leg die applied where the chassis is a
/// tripod and the roll fell on a leg.
pub fn target_location(roll_total: u8, is_tripod: bool, leg_die: u8) -> (location: Location)
    requires
        2 <= roll_total <= 12,
        1 <= leg_die <= 6,
    ensures
        location == target_location_spec(roll_total as int, is_tripod, leg_die as int),
        !is_tripod ==> location == base_location_spec(roll_total as int),
        !is_tripod ==> location != Location::CenterLeg,
        is_tripod && base_location_spec(roll_total as int).is_side_leg()
            ==> location.is_tripod_leg(),
{
    let base = base_location(roll_total);
    if is_tripod && (base == Location::LeftLeg || base == Location::RightLeg) {
        tripod_leg(leg_die)
    } else {
        base
    }
}

} // verus!
