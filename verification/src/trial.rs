//! The trial driver: one trial rolls the number of critical hits, settles on a location
//! and resolves the cascade there on a fresh copy of the location's slots. Under the
//! fixed rule every hit falls on the center torso; under the floating rule the location
//! is rolled, and a limb is protected by the torso it hangs on.

use vstd::prelude::*;
use rand::rngs::StdRng;
use crate::dice::{get_location, roll_num_crits};
use crate::mech::{Mech, Sheet};
use crate::cascade::{
    cascade_of, fate_of, free_of_explosives, lemma_supported_without_explosives, outcome, replay,
    Cascade, Draw, Fate, Status,
};
use crate::resolve::{resolve, ResolveError, Tally, Verdict};
use crate::tables::{slots_hit_spec, target_location_spec};
use crate::taxonomy::{Config, Crit, Location};

verus! {

// ---------------------------------------------------------------------------------------
// The model
// ---------------------------------------------------------------------------------------

/// The torso that protects a limb: the left torso for the left arm and leg, the right
/// torso for the right arm and leg. No other location has one.
pub open spec fn adjoining_torso_spec(location: Location) -> Option<Location> {
    match location {
        Location::LeftArm => Some(Location::LeftTorso),
        Location::LeftLeg => Some(Location::LeftTorso),
        Location::RightArm => Some(Location::RightTorso),
        Location::RightLeg => Some(Location::RightTorso),
        _ => None,
    }
}

/// The slots of the torso that protects `location`, none where it has no such torso.
pub open spec fn protecting_slots(sheet: Sheet, location: Location) -> Seq<Crit> {
    match adjoining_torso_spec(location) {
        Some(torso) => sheet.slots[torso],
        None => Seq::empty(),
    }
}

/// The cascade that a trial opens in `location` after rolling `roll` for the number of
/// hits: all slots in place, no engine or gyro hit yet.
pub open spec fn opening(sheet: Sheet, location: Location, roll: int) -> Cascade {
    Cascade {
        slots: sheet.slots[location],
        hits: slots_hit_spec(roll, sheet.hardened) as nat,
        engine_hits: 0,
        gyro_hits: 0,
    }
}

/// A location that the location roll can come up with on this chassis.
pub open spec fn can_be_hit(config: Config, location: Location) -> bool {
    let is_tripod = config == Config::Tripod;
    exists|roll: int, die: int|
        2 <= roll <= 12 && 1 <= die <= 6 && location == #[trigger] target_location_spec(
            roll,
            is_tripod,
            die,
        )
}

/// A trial under the fixed rule ends in `fate` when `roll` is rolled for the hits and
/// `draws` are drawn in the cascade.
pub open spec fn fixed_trial_ends(sheet: Sheet, roll: int, draws: Seq<Draw>, fate: Fate) -> bool {
    &&& 2 <= roll <= 12
    &&& outcome(
        opening(sheet, Location::CenterTorso, roll),
        draws,
        sheet.rules(),
        Seq::empty(),
    ) matches Some(end)
    &&& end.0 == fate
}

/// Some run of the dice ends a trial under the fixed rule in `fate`.
pub open spec fn fixed_trial_can_end(sheet: Sheet, fate: Fate) -> bool {
    exists|roll: int, draws: Seq<Draw>| fixed_trial_ends(sheet, roll, draws, fate)
}

/// A trial under the floating rule ends in `fate` when `roll` is rolled for the hits,
/// `location` for the location, and `draws` are drawn in the cascade.
pub open spec fn floating_trial_ends(
    sheet: Sheet,
    roll: int,
    location: Location,
    draws: Seq<Draw>,
    fate: Fate,
) -> bool {
    &&& 2 <= roll <= 12
    &&& can_be_hit(sheet.config, location)
    &&& outcome(
        opening(sheet, location, roll),
        draws,
        sheet.rules(),
        protecting_slots(sheet, location),
    ) matches Some(end)
    &&& end.0 == fate
}

/// Some run of the dice ends a trial under the floating rule in `fate`.
pub open spec fn floating_trial_can_end(sheet: Sheet, fate: Fate) -> bool {
    exists|roll: int, location: Location, draws: Seq<Draw>|
        floating_trial_ends(sheet, roll, location, draws, fate)
}

/// No location of the unit holds explosive equipment.
pub open spec fn unit_free_of_explosives(sheet: Sheet) -> bool {
    forall|location: Location| free_of_explosives(#[trigger] sheet.slots[location])
}

/// A run of trials under the fixed rule, told by how each trial ended: every fate in it
/// is one that a trial under the fixed rule can end in.
pub open spec fn fixed_run(sheet: Sheet, fates: Seq<Fate>) -> bool {
    forall|i: int| 0 <= i < fates.len() ==> fixed_trial_can_end(sheet, #[trigger] fates[i])
}

/// A run of trials under the floating rule, told by how each trial ended.
pub open spec fn floating_run(sheet: Sheet, fates: Seq<Fate>) -> bool {
    forall|i: int| 0 <= i < fates.len() ==> floating_trial_can_end(sheet, #[trigger] fates[i])
}

/// The deaths among the trials of a run, or the error of the first trial that met a slot
/// it could not resolve.
pub open spec fn count_deaths(fates: Seq<Fate>) -> Result<nat, ResolveError>
    decreases fates.len(),
{
    if fates.len() == 0 {
        Ok(0)
    } else {
        match count_deaths(fates.drop_last()) {
            Err(error) => Err(error),
            Ok(deaths) => match fates.last() {
                Fate::Died => Ok(deaths + 1),
                Fate::Survived { engine_hits, gyro_hits } => Ok(deaths),
                Fate::Unsupported(rating) => Err(ResolveError::UnsupportedExplosive(rating)),
            },
        }
    }
}

/// What a run of up to `trials` trials comes to. A count of deaths stands for a full run
/// in which every trial was resolved; an error stands for a run that broke off at its
/// last trial, the first that could not be resolved.
pub open spec fn run_comes_to(fates: Seq<Fate>, trials: u64, result: Result<u64, ResolveError>) -> bool {
    match result {
        Ok(deaths) => fates.len() == trials && count_deaths(fates) == Ok::<nat, ResolveError>(
            deaths as nat,
        ),
        Err(error) => {
            &&& 0 < fates.len() <= trials
            &&& count_deaths(fates.drop_last()) is Ok
            &&& count_deaths(fates) == Err::<nat, ResolveError>(error)
        },
    }
}

/// What running `trials` trials under the fixed rule and, if all were resolved, as many
/// under the floating rule comes to.
pub open spec fn both_runs_come_to(
    fixed: Seq<Fate>,
    floating: Seq<Fate>,
    trials: u64,
    result: Result<(u64, u64), ResolveError>,
) -> bool {
    match result {
        Ok((fixed_deaths, floating_deaths)) => {
            &&& run_comes_to(fixed, trials, Ok(fixed_deaths))
            &&& run_comes_to(floating, trials, Ok(floating_deaths))
        },
        Err(error) => {
            ||| run_comes_to(fixed, trials, Err(error)) && floating.len() == 0
            ||| {
                &&& fixed.len() == trials
                &&& count_deaths(fixed) is Ok
                &&& run_comes_to(floating, trials, Err(error))
            }
        },
    }
}

// ---------------------------------------------------------------------------------------
// What holds of every unit
// ---------------------------------------------------------------------------------------

/// No unit is doomed: under either rule a trial can roll no hit at all, and the unit
/// survives it unscathed.
pub proof fn lemma_every_unit_can_survive(sheet: Sheet)
    ensures
        fixed_trial_can_end(sheet, Fate::Survived { engine_hits: 0, gyro_hits: 0 }),
        floating_trial_can_end(sheet, Fate::Survived { engine_hits: 0, gyro_hits: 0 }),
{
    let unscathed = Fate::Survived { engine_hits: 0, gyro_hits: 0 };
    let draws = Seq::<Draw>::empty();
    let location = Location::CenterTorso;
    let start = opening(sheet, location, 2);
    assert(replay(start, draws, sheet.rules(), Seq::<Crit>::empty()) == Some(
        Status::Resolving(start),
    ));
    assert(fixed_trial_ends(sheet, 2, draws, unscathed));
    assert(replay(start, draws, sheet.rules(), protecting_slots(sheet, location)) == Some(
        Status::Resolving(start),
    ));
    assert(location == target_location_spec(2, sheet.config == Config::Tripod, 1));
    assert(floating_trial_ends(sheet, 2, location, draws, unscathed));
}

/// A cockpit in the center torso can be hit: under either rule some trial kills the unit.
pub proof fn lemma_center_torso_cockpit_can_kill(sheet: Sheet, slot: int)
    requires
        0 <= slot < sheet.slots[Location::CenterTorso].len(),
        sheet.slots[Location::CenterTorso][slot] == Crit::Cockpit,
    ensures
        fixed_trial_can_end(sheet, Fate::Died),
        floating_trial_can_end(sheet, Fate::Died),
{
    let draw = Draw { pick: slot, extra: 0 };
    let draws = seq![draw];
    let location = Location::CenterTorso;
    let start = opening(sheet, location, 12);
    assert(draws.drop_last() =~= Seq::<Draw>::empty());
    assert(draws.last() == draw);
    assert(replay(start, draws.drop_last(), sheet.rules(), Seq::<Crit>::empty()) == Some(
        Status::Resolving(start),
    ));
    assert(fixed_trial_ends(sheet, 12, draws, Fate::Died));
    assert(replay(start, draws.drop_last(), sheet.rules(), protecting_slots(sheet, location))
        == Some(Status::Resolving(start)));
    assert(location == target_location_spec(7, sheet.config == Config::Tripod, 1));
    assert(floating_trial_ends(sheet, 12, location, draws, Fate::Died));
}

/// A unit without explosive equipment in its center torso is always resolved under the
/// fixed rule, and one without any explosive equipment under the floating rule too.
pub proof fn lemma_trials_without_explosives_are_resolved(sheet: Sheet, rating: i32)
    ensures
        free_of_explosives(sheet.slots[Location::CenterTorso]) ==> !fixed_trial_can_end(
            sheet,
            Fate::Unsupported(rating),
        ),
        unit_free_of_explosives(sheet) ==> !floating_trial_can_end(
            sheet,
            Fate::Unsupported(rating),
        ),
{
    let fate = Fate::Unsupported(rating);
    if free_of_explosives(sheet.slots[Location::CenterTorso]) && fixed_trial_can_end(sheet, fate) {
        let (roll, draws) = choose|roll: int, draws: Seq<Draw>|
            fixed_trial_ends(sheet, roll, draws, fate);
        lemma_supported_without_explosives(
            opening(sheet, Location::CenterTorso, roll),
            draws,
            sheet.rules(),
            Seq::<Crit>::empty(),
        );
    }
    if unit_free_of_explosives(sheet) && floating_trial_can_end(sheet, fate) {
        let (roll, location, draws) = choose|roll: int, location: Location, draws: Seq<Draw>|
            floating_trial_ends(sheet, roll, location, draws, fate);
        assert(free_of_explosives(sheet.slots[location]));
        lemma_supported_without_explosives(
            opening(sheet, location, roll),
            draws,
            sheet.rules(),
            protecting_slots(sheet, location),
        );
    }
}

/// A run counts no more deaths than it has trials, and counts one only where one of its
/// trials ended in death.
pub proof fn lemma_deaths_are_trials(fates: Seq<Fate>)
    ensures
        count_deaths(fates) matches Ok(deaths) ==> {
            &&& deaths <= fates.len()
            &&& deaths > 0 ==> exists|i: int| 0 <= i < fates.len() && #[trigger] fates[i] == Fate::Died
            &&& forall|i: int| 0 <= i < fates.len() ==> !(#[trigger] fates[i] is Unsupported)
        },
        count_deaths(fates) matches Err(ResolveError::UnsupportedExplosive(rating)) ==> exists|
            i: int,
        |
            0 <= i < fates.len() && #[trigger] fates[i] == Fate::Unsupported(rating),
    decreases fates.len(),
{
    if fates.len() > 0 {
        let before = fates.drop_last();
        lemma_deaths_are_trials(before);
        match count_deaths(before) {
            Ok(deaths) => {
                assert forall|i: int| 0 <= i < before.len() implies before[i] == fates[i] by {}
                if deaths > 0 {
                    let i = choose|i: int| 0 <= i < before.len() && #[trigger] before[i] == Fate::Died;
                    assert(fates[i] == Fate::Died);
                }
                assert(fates[fates.len() - 1] == fates.last());
                assert forall|i: int| 0 <= i < fates.len() && count_deaths(fates) is Ok implies !(
                #[trigger] fates[i] is Unsupported) by {
                    if i < before.len() {
                        assert(before[i] == fates[i]);
                    }
                }
            },
            Err(ResolveError::UnsupportedExplosive(rating)) => {
                let i = choose|i: int|
                    0 <= i < before.len() && #[trigger] before[i] == Fate::Unsupported(rating);
                assert(fates[i] == Fate::Unsupported(rating));
            },
        }
    }
}

// ---------------------------------------------------------------------------------------
// The driver
// ---------------------------------------------------------------------------------------

/// The number of trials that a full analysis runs under each rule.
pub const DEFAULT_TRIALS: u64 = 1_000_000;

/// The torso that protects a limb.
pub fn adjoining_torso(location: Location) -> (torso: Option<Location>)
    ensures
        torso == adjoining_torso_spec(location),
{
    match location {
        Location::LeftArm => Some(Location::LeftTorso),
        Location::LeftLeg => Some(Location::LeftTorso),
        Location::RightArm => Some(Location::RightTorso),
        Location::RightLeg => Some(Location::RightTorso),
        _ => None,
    }
}

/// A copy of `slots` that a trial may use up.
pub fn copy_slots(slots: &Vec<Crit>) -> (copy: Vec<Crit>)
    ensures
        copy@ == slots@,
{
    let mut copy: Vec<Crit> = Vec::new();
    let mut i: usize = 0;
    while i < slots.len()
        invariant
            i <= slots.len(),
            copy@ == slots@.take(i as int),
        decreases slots.len() - i,
    {
        copy.push(slots[i]);
        assert(slots@.take(i + 1) =~= slots@.take(i as int).push(slots@[i as int]));
        i += 1;
    }
    assert(slots@.take(i as int) =~= slots@);
    copy
}

/// Runs one trial under the fixed rule: the hits rolled all fall on the center torso.
pub fn run_fixed_trial(mech: &Mech, rng: &mut StdRng) -> (result: Result<Verdict, ResolveError>)
    ensures
        fixed_trial_can_end(mech@, fate_of(result)),
        free_of_explosives(mech@.slots[Location::CenterTorso]) ==> result is Ok,
{
    let hits = roll_num_crits(rng, mech.hardened());
    let ghost roll = choose|roll: int|
        2 <= roll <= 12 && hits == #[trigger] slots_hit_spec(roll, mech@.hardened);
    let mut slots = copy_slots(mech.crits(Location::CenterTorso));
    let rules = mech.rules();
    let ghost start = opening(mech@, Location::CenterTorso, roll);
    assert(start == cascade_of(slots@, hits as usize, Tally { engine_hits: 0, gyro_hits: 0 }));
    let result = resolve(&mut slots, hits as usize, Tally::new(), &rules, None, rng);
    proof {
        let draws = choose|draws: Seq<Draw>| #[trigger]
            outcome(start, draws, rules, Seq::<Crit>::empty()) == Some(
                (fate_of(result), slots@),
            );
        assert(fixed_trial_ends(mech@, roll, draws, fate_of(result)));
    }
    result
}

/// Runs one trial under the floating rule: where hits were rolled, a location is rolled
/// for them, and the cascade is resolved there with its adjoining torso standing by.
pub fn run_floating_trial(mech: &Mech, rng: &mut StdRng) -> (result: Result<Verdict, ResolveError>)
    ensures
        floating_trial_can_end(mech@, fate_of(result)),
        unit_free_of_explosives(mech@) ==> result is Ok,
{
    let hits = roll_num_crits(rng, mech.hardened());
    let ghost roll = choose|roll: int|
        2 <= roll <= 12 && hits == #[trigger] slots_hit_spec(roll, mech@.hardened);
    let rules = mech.rules();
    if hits == 0 {
        let verdict = Verdict::Survived(Tally::new());
        proof {
            let location = Location::CenterTorso;
            assert(location == target_location_spec(2, mech@.config == Config::Tripod, 1));
            let start = opening(mech@, location, roll);
            let draws = Seq::<Draw>::empty();
            assert(replay(start, draws, rules, protecting_slots(mech@, location)) == Some(
                Status::Resolving(start),
            ));
            assert(floating_trial_ends(mech@, roll, location, draws, fate_of(Ok(verdict))));
        }
        return Ok(verdict);
    }
    let location = get_location(rng, mech.config() == Config::Tripod);
    let mut slots = copy_slots(mech.crits(location));
    let sibling: Option<&Vec<Crit>> = match adjoining_torso(location) {
        Some(torso) => Some(mech.crits(torso)),
        None => None,
    };
    let ghost start = opening(mech@, location, roll);
    let ghost around = protecting_slots(mech@, location);
    assert(start == cascade_of(slots@, hits as usize, Tally { engine_hits: 0, gyro_hits: 0 }));
    let result = resolve(&mut slots, hits as usize, Tally::new(), &rules, sibling, rng);
    proof {
        let draws = choose|draws: Seq<Draw>| #[trigger]
            outcome(start, draws, rules, around) == Some((fate_of(result), slots@));
        assert(can_be_hit(mech@.config, location));
        assert(floating_trial_ends(mech@, roll, location, draws, fate_of(result)));
        assert(unit_free_of_explosives(mech@) ==> free_of_explosives(mech@.slots[location]));
    }
    result
}

/// Counts one trial into the deaths counted so far: a death adds one, a survival
/// nothing, and a trial that could not be resolved hands its error on.
pub fn count_trial(deaths: u64, trial: Result<Verdict, ResolveError>) -> (counted: Result<
    u64,
    ResolveError,
>)
    requires
        deaths < u64::MAX,
    ensures
        counted == match trial {
            Ok(Verdict::Died) => Ok::<u64, ResolveError>((deaths + 1) as u64),
            Ok(Verdict::Survived(_)) => Ok::<u64, ResolveError>(deaths),
            Err(error) => Err::<u64, ResolveError>(error),
        },
{
    match trial {
        Ok(Verdict::Died) => Ok(deaths + 1),
        Ok(Verdict::Survived(_)) => Ok(deaths),
        Err(error) => Err(error),
    }
}

/// Runs `trials` independent trials under the fixed rule and counts the deaths. The
/// first slot that cannot be resolved ends the run.
///
/// The result is what some run of trials comes to, each of which ended as a trial under
/// the fixed rule can end.
pub fn simulate_fixed(mech: &Mech, trials: u64, rng: &mut StdRng) -> (result: Result<
    u64,
    ResolveError,
>)
    ensures
        exists|fates: Seq<Fate>| #[trigger]
            fixed_run(mech@, fates) && run_comes_to(fates, trials, result),
        match result {
            Ok(deaths) => {
                &&& deaths <= trials
                &&& deaths > 0 ==> fixed_trial_can_end(mech@, Fate::Died)
            },
            Err(ResolveError::UnsupportedExplosive(rating)) => {
                &&& trials > 0
                &&& fixed_trial_can_end(mech@, Fate::Unsupported(rating))
            },
        },
        free_of_explosives(mech@.slots[Location::CenterTorso]) ==> result is Ok,
{
    let ghost mut fates: Seq<Fate> = Seq::empty();
    let mut deaths: u64 = 0;
    let mut done: u64 = 0;
    while done < trials
        invariant
            done <= trials,
            deaths <= done,
            deaths > 0 ==> fixed_trial_can_end(mech@, Fate::Died),
            fates.len() == done,
            fixed_run(mech@, fates),
            count_deaths(fates) == Ok::<nat, ResolveError>(deaths as nat),
        decreases trials - done,
    {
        let trial = run_fixed_trial(mech, rng);
        proof {
            let longer = fates.push(fate_of(trial));
            assert(longer.drop_last() =~= fates);
            assert(longer.last() == fate_of(trial));
            assert forall|i: int| 0 <= i < longer.len() implies fixed_trial_can_end(
                mech@,
                #[trigger] longer[i],
            ) by {
                if i < fates.len() {
                    assert(longer[i] == fates[i]);
                }
            }
            fates = longer;
        }
        assert(fixed_run(mech@, fates));
        match count_trial(deaths, trial) {
            Ok(counted) => {
                deaths = counted;
            },
            Err(error) => {
                assert(run_comes_to(fates, trials, Err(error)));
                return Err(error);
            },
        }
        done += 1;
    }
    assert(run_comes_to(fates, trials, Ok(deaths)));
    Ok(deaths)
}

/// Runs `trials` independent trials under the floating rule and counts the deaths. The
/// first slot that cannot be resolved ends the run.
///
/// The result is what some run of trials comes to, each of which ended as a trial under
/// the floating rule can end.
pub fn simulate_floating(mech: &Mech, trials: u64, rng: &mut StdRng) -> (result: Result<
    u64,
    ResolveError,
>)
    ensures
        exists|fates: Seq<Fate>| #[trigger]
            floating_run(mech@, fates) && run_comes_to(fates, trials, result),
        match result {
            Ok(deaths) => {
                &&& deaths <= trials
                &&& deaths > 0 ==> floating_trial_can_end(mech@, Fate::Died)
            },
            Err(ResolveError::UnsupportedExplosive(rating)) => {
                &&& trials > 0
                &&& floating_trial_can_end(mech@, Fate::Unsupported(rating))
            },
        },
        unit_free_of_explosives(mech@) ==> result is Ok,
{
    let ghost mut fates: Seq<Fate> = Seq::empty();
    let mut deaths: u64 = 0;
    let mut done: u64 = 0;
    while done < trials
        invariant
            done <= trials,
            deaths <= done,
            deaths > 0 ==> floating_trial_can_end(mech@, Fate::Died),
            fates.len() == done,
            floating_run(mech@, fates),
            count_deaths(fates) == Ok::<nat, ResolveError>(deaths as nat),
        decreases trials - done,
    {
        let trial = run_floating_trial(mech, rng);
        proof {
            let longer = fates.push(fate_of(trial));
            assert(longer.drop_last() =~= fates);
            assert(longer.last() == fate_of(trial));
            assert forall|i: int| 0 <= i < longer.len() implies floating_trial_can_end(
                mech@,
                #[trigger] longer[i],
            ) by {
                if i < fates.len() {
                    assert(longer[i] == fates[i]);
                }
            }
            fates = longer;
        }
        assert(floating_run(mech@, fates));
        match count_trial(deaths, trial) {
            Ok(counted) => {
                deaths = counted;
            },
            Err(error) => {
                assert(run_comes_to(fates, trials, Err(error)));
                return Err(error);
            },
        }
        done += 1;
    }
    assert(run_comes_to(fates, trials, Ok(deaths)));
    Ok(deaths)
}

/// Runs `trials` trials under each rule, the fixed rule first, and returns the deaths
/// counted under the fixed and under the floating rule. The first slot that cannot be
/// resolved ends both runs.
///
/// The result is what some run of trials under the fixed rule, followed where it was
/// resolved to the end by some run under the floating rule, comes to.
pub fn simulate(mech: &Mech, trials: u64, rng: &mut StdRng) -> (result: Result<
    (u64, u64),
    ResolveError,
>)
    ensures
        exists|fixed: Seq<Fate>, floating: Seq<Fate>|
            #![trigger fixed_run(mech@, fixed), floating_run(mech@, floating)]
            fixed_run(mech@, fixed) && floating_run(mech@, floating) && both_runs_come_to(
                fixed,
                floating,
                trials,
                result,
            ),
        match result {
            Ok((fixed, floating)) => {
                &&& fixed <= trials
                &&& floating <= trials
                &&& fixed > 0 ==> fixed_trial_can_end(mech@, Fate::Died)
                &&& floating > 0 ==> floating_trial_can_end(mech@, Fate::Died)
            },
            Err(ResolveError::UnsupportedExplosive(rating)) => {
                &&& trials > 0
                &&& fixed_trial_can_end(mech@, Fate::Unsupported(rating))
                    || floating_trial_can_end(mech@, Fate::Unsupported(rating))
            },
        },
        unit_free_of_explosives(mech@) ==> result is Ok,
{
    let fixed_result = simulate_fixed(mech, trials, rng);
    let ghost fixed_fates = choose|fates: Seq<Fate>| #[trigger]
        fixed_run(mech@, fates) && run_comes_to(fates, trials, fixed_result);
    let fixed = match fixed_result {
        Ok(deaths) => deaths,
        Err(error) => {
            proof {
                let none = Seq::<Fate>::empty();
                assert(floating_run(mech@, none));
                assert(both_runs_come_to(fixed_fates, none, trials, Err(error)));
            }
            return Err(error);
        },
    };
    let floating_result = simulate_floating(mech, trials, rng);
    let ghost floating_fates = choose|fates: Seq<Fate>| #[trigger]
        floating_run(mech@, fates) && run_comes_to(fates, trials, floating_result);
    let floating = match floating_result {
        Ok(deaths) => deaths,
        Err(error) => {
            assert(both_runs_come_to(fixed_fates, floating_fates, trials, Err(error)));
            return Err(error);
        },
    };
    assert(both_runs_come_to(fixed_fates, floating_fates, trials, Ok((fixed, floating))));
    Ok((fixed, floating))
}

} // verus!
