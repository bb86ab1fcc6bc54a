//! The vocabulary of the damage model: component kinds, body locations and chassis
//! configurations. Data only.

use vstd::prelude::*;

verus! {

/// What occupies one critical slot.
#[derive(Clone, Copy, PartialEq, Eq, Structural, Debug)]
pub enum Crit {
    Engine,
    Cockpit,
    Gyro,
    Ammo,
    /// Explosive equipment, with the damage it does when it goes off.
    Explosive(i32),
    Case,
    CaseII,
    Other,
}

/// Chassis configuration; it decides which locations exist and how many slots each holds.
#[derive(Clone, Copy, PartialEq, Eq, Structural, Debug)]
pub enum Config {
    Biped,
    Quad,
    Tripod,
}

/// A body location. On a quad the arms are the forward legs; only a tripod has a center leg.
#[derive(Clone, Copy, PartialEq, Eq, Structural, Debug)]
pub enum Location {
    Head,
    CenterTorso,
    LeftTorso,
    RightTorso,
    LeftArm,
    RightArm,
    LeftLeg,
    RightLeg,
    CenterLeg,
}

impl Location {
    /// Whether this is one of the two legs that every chassis has.
    pub open spec fn is_side_leg(self) -> bool {
        self == Location::LeftLeg || self == Location::RightLeg
    }

    /// Whether this is any leg a tripod can be hit in.
    pub open spec fn is_tripod_leg(self) -> bool {
        self == Location::LeftLeg || self == Location::RightLeg || self == Location::CenterLeg
    }
}

} // verus!
