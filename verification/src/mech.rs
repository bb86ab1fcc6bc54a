//! The unit model: which component sits in which slot of which location, and the unit's
//! global properties.
//!
//! A [`Draft`] is a unit as described; a [`Mech`] is a draft that keeps to the slot limits
//! of its chassis. Nothing but [`Mech::new`] makes a `Mech`, so every `Mech` is legal.

use vstd::prelude::*;
use crate::resolve::{
    Rules, ENGINE_DEATH_THRESHOLD, GYRO_DEATH_THRESHOLD, HEAVY_DUTY_GYRO_DEATH_THRESHOLD,
};
use crate::taxonomy::{Config, Crit, Location};

verus! {

/// Why a unit description was turned down.
#[derive(Clone, Copy, PartialEq, Eq, Structural, Debug)]
pub enum ParseError {
    /// No line states the chassis configuration.
    MissingConfig,
    /// No line states the tech base.
    MissingTechBase,
    /// A chassis line names none of the configurations.
    MalformedConfig,
    /// A location holds more slots than its chassis allows.
    TooManyCrits { location: Location, config: Config },
}

/// A unit, mathematically: its properties, and for each location its slots in the order
/// in which they were described.
pub struct Sheet {
    pub config: Config,
    pub clan_case: bool,
    pub hardened: bool,
    pub heavy_duty_gyro: bool,
    pub slots: Map<Location, Seq<Crit>>,
}

impl Sheet {
    /// A biped with no special property and no slot filled.
    pub open spec fn blank() -> Sheet {
        Sheet {
            config: Config::Biped,
            clan_case: false,
            hardened: false,
            heavy_duty_gyro: false,
            slots: Map::new(|location: Location| true, |location: Location| Seq::<Crit>::empty()),
        }
    }

    /// This unit with `crit` in one more slot of `location`.
    pub open spec fn with_slot(self, location: Location, crit: Crit) -> Sheet {
        Sheet { slots: self.slots.insert(location, self.slots[location].push(crit)), ..self }
    }

    /// The resolver rules that follow from the unit's properties.
    pub open spec fn rules(self) -> Rules {
        Rules {
            clan_case: self.clan_case,
            engine_threshold: ENGINE_DEATH_THRESHOLD,
            gyro_threshold: if self.heavy_duty_gyro {
                HEAVY_DUTY_GYRO_DEATH_THRESHOLD
            } else {
                GYRO_DEATH_THRESHOLD
            },
        }
    }
}

/// How many slots `location` may hold on a chassis of configuration `config`.
pub open spec fn slot_limit_spec(config: Config, location: Location) -> nat {
    match location {
        Location::Head => 6,
        Location::CenterTorso => 12,
        Location::LeftTorso => 12,
        Location::RightTorso => 12,
        Location::LeftLeg => 6,
        Location::RightLeg => 6,
        Location::LeftArm => if config == Config::Quad {
            6
        } else {
            12
        },
        Location::RightArm => if config == Config::Quad {
            6
        } else {
            12
        },
        Location::CenterLeg => if config == Config::Tripod {
            6
        } else {
            0
        },
    }
}

/// `location` holds more slots than the chassis allows.
pub open spec fn overfull(sheet: Sheet, location: Location) -> bool {
    sheet.slots[location].len() > slot_limit_spec(sheet.config, location)
}

/// The first location that holds too many slots, in the order in which they are checked:
/// head, torsos, legs, arms, center leg.
pub open spec fn first_overfull(sheet: Sheet) -> Option<Location> {
    if overfull(sheet, Location::Head) {
        Some(Location::Head)
    } else if overfull(sheet, Location::CenterTorso) {
        Some(Location::CenterTorso)
    } else if overfull(sheet, Location::LeftTorso) {
        Some(Location::LeftTorso)
    } else if overfull(sheet, Location::RightTorso) {
        Some(Location::RightTorso)
    } else if overfull(sheet, Location::LeftLeg) {
        Some(Location::LeftLeg)
    } else if overfull(sheet, Location::RightLeg) {
        Some(Location::RightLeg)
    } else if overfull(sheet, Location::RightArm) {
        Some(Location::RightArm)
    } else if overfull(sheet, Location::LeftArm) {
        Some(Location::LeftArm)
    } else if overfull(sheet, Location::CenterLeg) {
        Some(Location::CenterLeg)
    } else {
        None
    }
}

/// Every location keeps to its limit.
pub open spec fn within_limits(sheet: Sheet) -> bool {
    forall|location: Location| !overfull(sheet, location)
}

/// A unit as described, before its slot counts have been checked.
#[derive(Debug)]
pub struct Draft {
    pub clan_case: bool,
    pub hardened: bool,
    pub heavy_duty_gyro: bool,
    pub config: Config,
    pub head_crits: Vec<Crit>,
    pub ct_crits: Vec<Crit>,
    pub lt_crits: Vec<Crit>,
    pub rt_crits: Vec<Crit>,
    pub la_crits: Vec<Crit>,
    pub ra_crits: Vec<Crit>,
    pub ll_crits: Vec<Crit>,
    pub rl_crits: Vec<Crit>,
    pub cl_crits: Vec<Crit>,
}

impl Draft {
    /// The slots described for `location`.
    pub open spec fn slots_at(&self, location: Location) -> Seq<Crit> {
        match location {
            Location::Head => self.head_crits@,
            Location::CenterTorso => self.ct_crits@,
            Location::LeftTorso => self.lt_crits@,
            Location::RightTorso => self.rt_crits@,
            Location::LeftArm => self.la_crits@,
            Location::RightArm => self.ra_crits@,
            Location::LeftLeg => self.ll_crits@,
            Location::RightLeg => self.rl_crits@,
            Location::CenterLeg => self.cl_crits@,
        }
    }

    /// The unit that this draft describes.
    pub open spec fn view(&self) -> Sheet {
        Sheet {
            config: self.config,
            clan_case: self.clan_case,
            hardened: self.hardened,
            heavy_duty_gyro: self.heavy_duty_gyro,
            slots: Map::new(
                |location: Location| true,
                |location: Location| self.slots_at(location),
            ),
        }
    }

    /// A biped with no special property and no slot filled.
    pub fn new() -> (draft: Draft)
        ensures
            draft@ == Sheet::blank(),
    {
        let draft = Draft {
            clan_case: false,
            hardened: false,
            heavy_duty_gyro: false,
            config: Config::Biped,
            head_crits: Vec::new(),
            ct_crits: Vec::new(),
            lt_crits: Vec::new(),
            rt_crits: Vec::new(),
            la_crits: Vec::new(),
            ra_crits: Vec::new(),
            ll_crits: Vec::new(),
            rl_crits: Vec::new(),
            cl_crits: Vec::new(),
        };
        assert(draft@.slots =~= Sheet::blank().slots);
        draft
    }

    /// The slots described for `location`.
    pub fn crits(&self, location: Location) -> (slots: &Vec<Crit>)
        ensures
            slots@ == self@.slots[location],
    {
        match location {
            Location::Head => &self.head_crits,
            Location::CenterTorso => &self.ct_crits,
            Location::LeftTorso => &self.lt_crits,
            Location::RightTorso => &self.rt_crits,
            Location::LeftArm => &self.la_crits,
            Location::RightArm => &self.ra_crits,
            Location::LeftLeg => &self.ll_crits,
            Location::RightLeg => &self.rl_crits,
            Location::CenterLeg => &self.cl_crits,
        }
    }

    /// The first location, in checking order, that holds too many slots.
    pub fn find_overfull(&self) -> (found: Option<Location>)
        ensures
            found == first_overfull(self@),
            found is None <==> within_limits(self@),
    {
        let found = if self.head_crits.len() > slot_limit(self.config, Location::Head) {
            Some(Location::Head)
        } else if self.ct_crits.len() > slot_limit(self.config, Location::CenterTorso) {
            Some(Location::CenterTorso)
        } else if self.lt_crits.len() > slot_limit(self.config, Location::LeftTorso) {
            Some(Location::LeftTorso)
        } else if self.rt_crits.len() > slot_limit(self.config, Location::RightTorso) {
            Some(Location::RightTorso)
        } else if self.ll_crits.len() > slot_limit(self.config, Location::LeftLeg) {
            Some(Location::LeftLeg)
        } else if self.rl_crits.len() > slot_limit(self.config, Location::RightLeg) {
            Some(Location::RightLeg)
        } else if self.ra_crits.len() > slot_limit(self.config, Location::RightArm) {
            Some(Location::RightArm)
        } else if self.la_crits.len() > slot_limit(self.config, Location::LeftArm) {
            Some(Location::LeftArm)
        } else if self.cl_crits.len() > slot_limit(self.config, Location::CenterLeg) {
            Some(Location::CenterLeg)
        } else {
            None
        };
        proof {
            lemma_first_overfull(self@);
        }
        found
    }
}

/// How many slots `location` may hold on a chassis of configuration `config`.
pub fn slot_limit(config: Config, location: Location) -> (limit: usize)
    ensures
        limit == slot_limit_spec(config, location),
        limit <= 12,
{
    match location {
        Location::Head => 6,
        Location::CenterTorso => 12,
        Location::LeftTorso => 12,
        Location::RightTorso => 12,
        Location::LeftLeg => 6,
        Location::RightLeg => 6,
        Location::LeftArm => if config == Config::Quad {
            6
        } else {
            12
        },
        Location::RightArm => if config == Config::Quad {
            6
        } else {
            12
        },
        Location::CenterLeg => if config == Config::Tripod {
            6
        } else {
            0
        },
    }
}

/// The check finds a location exactly where one is overfull, and the one it finds is
/// overfull.
pub proof fn lemma_first_overfull(sheet: Sheet)
    ensures
        first_overfull(sheet) is None <==> within_limits(sheet),
        first_overfull(sheet) matches Some(location) ==> overfull(sheet, location),
{
    if first_overfull(sheet) is None {
        assert forall|location: Location| !overfull(sheet, location) by {
            match location {
                Location::Head => {},
                Location::CenterTorso => {},
                Location::LeftTorso => {},
                Location::RightTorso => {},
                Location::LeftArm => {},
                Location::RightArm => {},
                Location::LeftLeg => {},
                Location::RightLeg => {},
                Location::CenterLeg => {},
            }
        }
    }
}

/// A unit whose every location keeps to the slot limit of its chassis.
#[derive(Debug)]
pub struct Mech {
    draft: Draft,
}

impl Mech {
    #[verifier::type_invariant]
    spec fn legal(&self) -> bool {
        within_limits(self.draft@)
    }

    /// The unit that this is.
    pub closed spec fn view(&self) -> Sheet {
        self.draft@
    }

    /// Checks the slot counts of `draft` against the limits of its chassis. The first
    /// location over its limit, in checking order, is reported; nothing is cut short.
    pub fn new(draft: Draft) -> (checked: Result<Mech, ParseError>)
        ensures
            match checked {
                Ok(mech) => mech@ == draft@ && within_limits(draft@),
                Err(error) => first_overfull(draft@) matches Some(location) && error
                    == (ParseError::TooManyCrits { location, config: draft.config }),
            },
    {
        match draft.find_overfull() {
            Some(location) => Err(ParseError::TooManyCrits { location, config: draft.config }),
            None => Ok(Mech { draft }),
        }
    }

    /// The chassis configuration.
    pub fn config(&self) -> (config: Config)
        ensures
            config == self@.config,
    {
        self.draft.config
    }

    /// Whether the unit carries clan-pattern protective cases.
    pub fn clan_case(&self) -> (clan_case: bool)
        ensures
            clan_case == self@.clan_case,
    {
        self.draft.clan_case
    }

    /// Whether the unit wears hardened armor.
    pub fn hardened(&self) -> (hardened: bool)
        ensures
            hardened == self@.hardened,
    {
        self.draft.hardened
    }

    /// Whether the unit has a heavy-duty gyro.
    pub fn heavy_duty_gyro(&self) -> (heavy_duty_gyro: bool)
        ensures
            heavy_duty_gyro == self@.heavy_duty_gyro,
    {
        self.draft.heavy_duty_gyro
    }

    /// The slots of `location`, never more than its chassis allows.
    pub fn crits(&self, location: Location) -> (slots: &Vec<Crit>)
        ensures
            slots@ == self@.slots[location],
            slots@.len() <= slot_limit_spec(self@.config, location),
            slots@.len() <= 12,
    {
        proof {
            use_type_invariant(self);
            assert(!overfull(self.draft@, location));
        }
        self.draft.crits(location)
    }

    /// The resolver rules that follow from the unit's properties.
    pub fn rules(&self) -> (rules: Rules)
        ensures
            rules == self@.rules(),
    {
        Rules {
            clan_case: self.draft.clan_case,
            engine_threshold: ENGINE_DEATH_THRESHOLD,
            gyro_threshold: if self.draft.heavy_duty_gyro {
                HEAVY_DUTY_GYRO_DEATH_THRESHOLD
            } else {
                GYRO_DEATH_THRESHOLD
            },
        }
    }
}

} // verus!
