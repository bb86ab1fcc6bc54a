//! The unit model builder: reads the lines of a unit description into a [`Mech`].
//!
//! A description is a run of lines. Outside a location section a line may state a global
//! property (chassis, tech base, armor, gyro) or open a section; inside a section every
//! line is a slot, up to the blank line that closes the section. Matching is done on
//! lower-cased text, against lower-case keywords. [`build`] and [`parse_crits`] lower
//! the lines they are given; [`assemble`], [`Scanner`], [`parse_lowered_crits`],
//! [`classify`] and [`read_section_header`] take lines that are lowered already, and
//! match them as they stand.

use vstd::prelude::*;
use std::ops::ControlFlow;
use crate::mech::{
    first_overfull, lemma_first_overfull, overfull, within_limits, Draft, Mech, ParseError, Sheet,
};
use crate::taxonomy::{Config, Crit, Location};
use crate::text::{
    chars_of, contains, has_infix, has_prefix, is_exactly, lowercase, lowercased, starts_with,
};

verus! {

// ---------------------------------------------------------------------------------------
// The format
// ---------------------------------------------------------------------------------------

/// The component that a lower-cased slot line names. Keywords are tried in a fixed order,
/// so that "case" does not claim a CASE II and "gaussrifle" not a heavy or light one; a
/// line that names nothing known is ordinary equipment.
pub open spec fn classify_spec(line: Seq<char>) -> Crit {
    if has_infix(line, "ammo"@) {
        Crit::Ammo
    } else if has_infix(line, "cockpit"@) {
        Crit::Cockpit
    } else if has_infix(line, "engine"@) {
        Crit::Engine
    } else if has_infix(line, "gyro"@) {
        Crit::Gyro
    } else if has_infix(line, "caseii"@) {
        Crit::CaseII
    } else if has_infix(line, "case"@) {
        Crit::Case
    } else if has_infix(line, "heavygaussrifle"@) {
        Crit::Explosive(25)
    } else if has_infix(line, "lightgaussrifle"@) {
        Crit::Explosive(10)
    } else if has_infix(line, "gaussrifle"@) {
        Crit::Explosive(20)
    } else {
        Crit::Other
    }
}

/// The component that a lower-cased line of a location section adds: none for the
/// empty-slot marker and for the blank line that closes the section.
pub open spec fn slot_entry(line: Seq<char>) -> Option<Crit> {
    if line == "-empty-"@ || line.len() == 0 {
        None
    } else {
        Some(classify_spec(line))
    }
}

/// The location whose section a lower-cased line opens, if it opens one. On a quad the
/// forward legs take the place of the arms, and the rear legs that of the legs.
pub open spec fn section_header(line: Seq<char>) -> Option<Location> {
    if has_prefix(line, "left arm"@) || has_prefix(line, "front left leg"@) {
        Some(Location::LeftArm)
    } else if has_prefix(line, "right arm"@) || has_prefix(line, "front right leg"@) {
        Some(Location::RightArm)
    } else if has_prefix(line, "left leg"@) || has_prefix(line, "rear left leg"@) {
        Some(Location::LeftLeg)
    } else if has_prefix(line, "right leg"@) || has_prefix(line, "rear right leg"@) {
        Some(Location::RightLeg)
    } else if has_prefix(line, "center leg"@) {
        Some(Location::CenterLeg)
    } else if has_prefix(line, "left torso"@) {
        Some(Location::LeftTorso)
    } else if has_prefix(line, "right torso"@) {
        Some(Location::RightTorso)
    } else if has_prefix(line, "center torso"@) {
        Some(Location::CenterTorso)
    } else if has_prefix(line, "head"@) {
        Some(Location::Head)
    } else {
        None
    }
}

/// Whether a chassis line names a configuration at all.
pub open spec fn names_config(line: Seq<char>) -> bool {
    has_infix(line, "quad"@) || has_infix(line, "tripod"@) || has_infix(line, "biped"@)
}

/// The configuration that a chassis line leaves the unit with: a quad where it names
/// one, else a tripod where it names one, else the configuration as it stands.
pub open spec fn named_config(line: Seq<char>, standing: Config) -> Config {
    if has_infix(line, "quad"@) {
        Config::Quad
    } else if has_infix(line, "tripod"@) {
        Config::Tripod
    } else {
        standing
    }
}

/// Where a reading stands: the unit described so far, the section that is open, which of
/// the required lines have been seen, and whether a chassis line was malformed.
pub struct Scan {
    pub sheet: Sheet,
    pub section: Option<Location>,
    pub seen_config: bool,
    pub seen_tech_base: bool,
    pub malformed: bool,
}

impl Scan {
    /// Nothing read yet.
    pub open spec fn start() -> Scan {
        Scan {
            sheet: Sheet::blank(),
            section: None,
            seen_config: false,
            seen_tech_base: false,
            malformed: false,
        }
    }

    /// Reads a line outside any section. The keywords that start a line exclude one
    /// another, so at most one of the cases applies. A chassis line is malformed where it
    /// names no configuration; one that names a quad or a tripod sets the configuration,
    /// one that names a biped leaves it as it stands.
    pub open spec fn read_header(self, line: Seq<char>) -> Scan {
        if has_prefix(line, "config"@) {
            if names_config(line) {
                Scan {
                    sheet: Sheet { config: named_config(line, self.sheet.config), ..self.sheet },
                    seen_config: true,
                    ..self
                }
            } else {
                Scan { malformed: true, ..self }
            }
        } else if has_prefix(line, "techbase"@) {
            Scan {
                sheet: Sheet {
                    clan_case: self.sheet.clan_case || has_infix(line, "clan"@),
                    ..self.sheet
                },
                seen_tech_base: true,
                ..self
            }
        } else if has_prefix(line, "armor"@) {
            Scan {
                sheet: Sheet {
                    hardened: self.sheet.hardened || has_infix(line, "hardened"@),
                    ..self.sheet
                },
                ..self
            }
        } else if has_prefix(line, "gyro"@) {
            Scan {
                sheet: Sheet {
                    heavy_duty_gyro: self.sheet.heavy_duty_gyro || has_infix(line, "heavy duty"@),
                    ..self.sheet
                },
                ..self
            }
        } else {
            Scan { section: section_header(line), ..self }
        }
    }

    /// Reads a line of the section of `location`.
    pub open spec fn read_slot(self, location: Location, line: Seq<char>) -> Scan {
        Scan {
            sheet: match slot_entry(line) {
                Some(crit) => self.sheet.with_slot(location, crit),
                None => self.sheet,
            },
            section: if line.len() == 0 {
                None
            } else {
                Some(location)
            },
            ..self
        }
    }

    /// Reads one line. After a malformed chassis line nothing more is read.
    pub open spec fn feed(self, line: Seq<char>) -> Scan {
        if self.malformed {
            self
        } else {
            match self.section {
                Some(location) => self.read_slot(location, line),
                None => self.read_header(line),
            }
        }
    }

    /// Reads `lines` one after the other.
    pub open spec fn feed_all(self, lines: Seq<Seq<char>>) -> Scan
        decreases lines.len(),
    {
        if lines.len() == 0 {
            self
        } else {
            self.feed_all(lines.drop_last()).feed(lines.last())
        }
    }

    /// What the reading comes to once the input has ended: the first of a malformed
    /// chassis line, a missing chassis line, a missing tech-base line and an overfull
    /// location is the error; without any of them the unit stands.
    pub open spec fn finish(self) -> Result<Sheet, ParseError> {
        if self.malformed {
            Err(ParseError::MalformedConfig)
        } else if !self.seen_config {
            Err(ParseError::MissingConfig)
        } else if !self.seen_tech_base {
            Err(ParseError::MissingTechBase)
        } else {
            match first_overfull(self.sheet) {
                Some(location) => Err(
                    ParseError::TooManyCrits { location, config: self.sheet.config },
                ),
                None => Ok(self.sheet),
            }
        }
    }
}

/// What a description, given as lower-cased lines, comes to.
pub open spec fn assemble_spec(lines: Seq<Seq<char>>) -> Result<Sheet, ParseError> {
    Scan::start().feed_all(lines).finish()
}

/// The text of each line.
pub open spec fn texts(lines: Seq<String>) -> Seq<Seq<char>> {
    lines.map_values(|line: String| line@)
}

/// The lower-cased text of each line.
pub open spec fn lowered_texts(lines: Seq<String>) -> Seq<Seq<char>> {
    lines.map_values(|line: String| lowercased(line@))
}

/// What a parse result says, with the unit taken by its model.
pub open spec fn parsed(result: Result<Mech, ParseError>) -> Result<Sheet, ParseError> {
    match result {
        Ok(mech) => Ok(mech@),
        Err(error) => Err(error),
    }
}

// ---------------------------------------------------------------------------------------
// What holds of every reading
// ---------------------------------------------------------------------------------------

/// A reading that puts more slots into a location than the chassis allows never comes to
/// a unit.
pub proof fn lemma_overfull_unit_is_turned_down(scan: Scan, location: Location)
    requires
        overfull(scan.sheet, location),
    ensures
        scan.finish() is Err,
{
    lemma_first_overfull(scan.sheet);
}

/// A reading that comes to a unit comes to the unit as it was read, whole and within the
/// slot limits: nothing is cut to fit.
pub proof fn lemma_accepted_unit_is_whole(scan: Scan)
    requires
        scan.finish() is Ok,
    ensures
        scan.finish() == Ok::<Sheet, ParseError>(scan.sheet),
        within_limits(scan.sheet),
        scan.seen_config,
        scan.seen_tech_base,
        !scan.malformed,
{
    lemma_first_overfull(scan.sheet);
}

/// Slot lines add one slot each to the section they stand in, and leave the section
/// open.
pub proof fn lemma_slot_lines_add_up(scan: Scan, location: Location, lines: Seq<Seq<char>>)
    requires
        !scan.malformed,
        scan.section == Some(location),
        forall|i: int| 0 <= i < lines.len() ==> slot_entry(#[trigger] lines[i]) is Some,
    ensures
        scan.feed_all(lines).section == Some(location),
        scan.feed_all(lines).sheet.slots[location].len() == scan.sheet.slots[location].len()
            + lines.len(),
        scan.feed_all(lines).sheet.config == scan.sheet.config,
        !scan.feed_all(lines).malformed,
    decreases lines.len(),
{
    if lines.len() > 0 {
        lemma_slot_lines_add_up(scan, location, lines.drop_last());
        assert(slot_entry(lines[lines.len() - 1]) is Some);
    }
}

// ---------------------------------------------------------------------------------------
// The reader
// ---------------------------------------------------------------------------------------

/// The component that a slot line names. The line is matched as it stands against
/// lower-case keywords, so it must be lower-cased already: "Fusion Engine" names nothing
/// here, "fusion engine" an engine.
pub fn classify(line: &Vec<char>) -> (crit: Crit)
    ensures
        crit == classify_spec(line@),
{
    if contains(line, "ammo") {
        Crit::Ammo
    } else if contains(line, "cockpit") {
        Crit::Cockpit
    } else if contains(line, "engine") {
        Crit::Engine
    } else if contains(line, "gyro") {
        Crit::Gyro
    } else if contains(line, "caseii") {
        Crit::CaseII
    } else if contains(line, "case") {
        Crit::Case
    } else if contains(line, "heavygaussrifle") {
        Crit::Explosive(25)
    } else if contains(line, "lightgaussrifle") {
        Crit::Explosive(10)
    } else if contains(line, "gaussrifle") {
        Crit::Explosive(20)
    } else {
        Crit::Other
    }
}

/// Reads one line of a location section into `crits`, whatever its case: the line is
/// lowered, and then a slot line adds its component, the empty-slot marker adds nothing,
/// and the blank line ends the section.
pub fn parse_crits(line: String, crits: &mut Vec<Crit>) -> (flow: ControlFlow<()>)
    ensures
        flow is Break <==> lowercased(line@).len() == 0,
        final(crits)@ == match slot_entry(lowercased(line@)) {
            Some(crit) => old(crits)@.push(crit),
            None => old(crits)@,
        },
{
    let lowered = lowercase(line.as_str());
    parse_lowered_crits(lowered, crits)
}

/// Reads one line of a location section into `crits`. The line is matched as it stands,
/// so it must be lower-cased already: a slot line adds its component, the empty-slot
/// marker adds nothing, and the blank line ends the section.
pub fn parse_lowered_crits(line: String, crits: &mut Vec<Crit>) -> (flow: ControlFlow<()>)
    ensures
        flow is Break <==> line@.len() == 0,
        final(crits)@ == match slot_entry(line@) {
            Some(crit) => old(crits)@.push(crit),
            None => old(crits)@,
        },
{
    let letters = chars_of(line.as_str());
    if is_exactly(&letters, "-empty-") {
        proof {
            reveal_strlit("-empty-");
        }
    } else if letters.len() == 0 {
        return ControlFlow::Break(());
    } else {
        crits.push(classify(&letters));
    }
    ControlFlow::Continue(())
}

/// The location whose section a line opens, if it opens one. The line is matched as it
/// stands against lower-case section names, so it must be lower-cased already.
pub fn read_section_header(line: &Vec<char>) -> (location: Option<Location>)
    ensures
        location == section_header(line@),
{
    if starts_with(line, "left arm") || starts_with(line, "front left leg") {
        Some(Location::LeftArm)
    } else if starts_with(line, "right arm") || starts_with(line, "front right leg") {
        Some(Location::RightArm)
    } else if starts_with(line, "left leg") || starts_with(line, "rear left leg") {
        Some(Location::LeftLeg)
    } else if starts_with(line, "right leg") || starts_with(line, "rear right leg") {
        Some(Location::RightLeg)
    } else if starts_with(line, "center leg") {
        Some(Location::CenterLeg)
    } else if starts_with(line, "left torso") {
        Some(Location::LeftTorso)
    } else if starts_with(line, "right torso") {
        Some(Location::RightTorso)
    } else if starts_with(line, "center torso") {
        Some(Location::CenterTorso)
    } else if starts_with(line, "head") {
        Some(Location::Head)
    } else {
        None
    }
}

/// A reading in progress. Lines are fed one at a time, lower-cased; `finish` checks what
/// they came to.
#[derive(Debug)]
pub struct Scanner {
    draft: Draft,
    section: Option<Location>,
    seen_config: bool,
    seen_tech_base: bool,
    malformed: bool,
}

impl Scanner {
    /// Where the reading stands.
    pub closed spec fn view(&self) -> Scan {
        Scan {
            sheet: self.draft@,
            section: self.section,
            seen_config: self.seen_config,
            seen_tech_base: self.seen_tech_base,
            malformed: self.malformed,
        }
    }

    /// A reading that has seen no line.
    pub fn new() -> (scanner: Scanner)
        ensures
            scanner@ == Scan::start(),
    {
        Scanner {
            draft: Draft::new(),
            section: None,
            seen_config: false,
            seen_tech_base: false,
            malformed: false,
        }
    }

    /// Reads a line outside any section.
    fn read_header(&mut self, line: &Vec<char>)
        requires
            !old(self)@.malformed,
            old(self)@.section is None,
        ensures
            final(self)@ == old(self)@.read_header(line@),
    {
        if starts_with(line, "config") {
            if contains(line, "quad") {
                self.draft.config = Config::Quad;
                self.seen_config = true;
            } else if contains(line, "tripod") {
                self.draft.config = Config::Tripod;
                self.seen_config = true;
            } else if contains(line, "biped") {
                self.seen_config = true;
            } else {
                self.malformed = true;
            }
        } else if starts_with(line, "techbase") {
            if contains(line, "clan") {
                self.draft.clan_case = true;
            }
            self.seen_tech_base = true;
        } else if starts_with(line, "armor") {
            if contains(line, "hardened") {
                self.draft.hardened = true;
            }
        } else if starts_with(line, "gyro") {
            if contains(line, "heavy duty") {
                self.draft.heavy_duty_gyro = true;
            }
        } else {
            self.section = read_section_header(line);
        }
        assert(self.draft@.slots =~= old(self).draft@.slots);
    }

    /// Reads a line of the section of `location`.
    fn read_slot(&mut self, location: Location, line: String)
        requires
            !old(self)@.malformed,
            old(self)@.section == Some(location),
        ensures
            final(self)@ == old(self)@.read_slot(location, line@),
    {
        let ghost before = self.draft@;
        let flow = match location {
            Location::Head => parse_lowered_crits(line, &mut self.draft.head_crits),
            Location::CenterTorso => parse_lowered_crits(line, &mut self.draft.ct_crits),
            Location::LeftTorso => parse_lowered_crits(line, &mut self.draft.lt_crits),
            Location::RightTorso => parse_lowered_crits(line, &mut self.draft.rt_crits),
            Location::LeftArm => parse_lowered_crits(line, &mut self.draft.la_crits),
            Location::RightArm => parse_lowered_crits(line, &mut self.draft.ra_crits),
            Location::LeftLeg => parse_lowered_crits(line, &mut self.draft.ll_crits),
            Location::RightLeg => parse_lowered_crits(line, &mut self.draft.rl_crits),
            Location::CenterLeg => parse_lowered_crits(line, &mut self.draft.cl_crits),
        };
        if let ControlFlow::Break(_) = flow {
            self.section = None;
        }
        proof {
            match slot_entry(line@) {
                Some(crit) => {
                    assert(self.draft@.slots =~= before.with_slot(location, crit).slots);
                },
                None => {
                    assert(self.draft@.slots =~= before.slots);
                },
            }
        }
    }

    /// Reads one line, which must be lower-cased already.
    pub fn feed(&mut self, line: String)
        ensures
            final(self)@ == old(self)@.feed(line@),
    {
        if self.malformed {
            return ;
        }
        match self.section {
            Some(location) => self.read_slot(location, line),
            None => {
                let letters = chars_of(line.as_str());
                self.read_header(&letters)
            },
        }
    }

    /// Ends the reading and checks what it came to.
    pub fn finish(self) -> (result: Result<Mech, ParseError>)
        ensures
            parsed(result) == self@.finish(),
    {
        if self.malformed {
            Err(ParseError::MalformedConfig)
        } else if !self.seen_config {
            Err(ParseError::MissingConfig)
        } else if !self.seen_tech_base {
            Err(ParseError::MissingTechBase)
        } else {
            Mech::new(self.draft)
        }
    }
}

/// Builds the unit that lower-cased `lines` describe.
pub fn assemble(lines: &Vec<String>) -> (result: Result<Mech, ParseError>)
    ensures
        parsed(result) == assemble_spec(texts(lines@)),
{
    let mut scanner = Scanner::new();
    let mut i: usize = 0;
    while i < lines.len()
        invariant
            i <= lines.len(),
            scanner@ == Scan::start().feed_all(texts(lines@).take(i as int)),
        decreases lines.len() - i,
    {
        proof {
            let read = texts(lines@).take(i + 1);
            assert(read.drop_last() =~= texts(lines@).take(i as int));
            assert(read.last() == lines@[i as int]@);
        }
        scanner.feed(lines[i].clone());
        i += 1;
    }
    assert(texts(lines@).take(i as int) =~= texts(lines@));
    scanner.finish()
}

/// Builds the unit that `lines` describe, whatever their case.
pub fn build(lines: &Vec<String>) -> (result: Result<Mech, ParseError>)
    ensures
        parsed(result) == assemble_spec(lowered_texts(lines@)),
{
    let mut scanner = Scanner::new();
    let mut i: usize = 0;
    while i < lines.len()
        invariant
            i <= lines.len(),
            scanner@ == Scan::start().feed_all(lowered_texts(lines@).take(i as int)),
        decreases lines.len() - i,
    {
        proof {
            let read = lowered_texts(lines@).take(i + 1);
            assert(read.drop_last() =~= lowered_texts(lines@).take(i as int));
            assert(read.last() == lowercased(lines@[i as int]@));
        }
        scanner.feed(lowercase(lines[i].as_str()));
        i += 1;
    }
    assert(lowered_texts(lines@).take(i as int) =~= lowered_texts(lines@));
    scanner.finish()
}

} // verus!
