//! The crit-cascade resolver.
//!
//! Given "this many critical slots were hit in this location", slots are picked at random
//! without replacement and each one takes effect: instant death, an engine or gyro hit, an
//! ammunition explosion that protective equipment may contain, or nothing.
//!
//! The rules are written once, as the mathematical model of [`crate::cascade`] over a
//! script of random draws. [`apply_hit`] resolves one hit for a given draw and is pinned
//! to the model exactly; [`resolve`] makes the draws itself and is pinned to the model
//! for some script of draws.

use vstd::prelude::*;
use rand::rngs::StdRng;
use crate::cascade::{
    cascade_of, contained_hits, count_of, draw_fits, effect_of, fate_of, fits_machine,
    free_of_explosives, judge_spec, lemma_cascade_ends_within_slots, lemma_lone_cockpit_dies,
    lemma_nothing_to_resolve, lemma_supported_without_explosives, outcome, replay, settle_spec,
    sibling_slots, step_spec, Draw, Status,
};
use crate::dice::{pick_slot, roll_num_crits};
use crate::taxonomy::Crit;

verus! {

/// Engine hits at which a unit is destroyed.
pub const ENGINE_DEATH_THRESHOLD: usize = 3;

/// Gyro hits at which a unit with a standard gyro is destroyed.
pub const GYRO_DEATH_THRESHOLD: usize = 2;

/// Gyro hits at which a unit with a heavy-duty gyro is destroyed.
pub const HEAVY_DUTY_GYRO_DEATH_THRESHOLD: usize = 3;

/// The unit properties that the resolver consults.
#[derive(Clone, Copy, PartialEq, Eq, Structural, Debug)]
pub struct Rules {
    /// With clan-pattern protective cases, ammunition never destroys the unit.
    pub clan_case: bool,
    pub engine_threshold: usize,
    pub gyro_threshold: usize,
}

/// Engine and gyro hits taken so far in a trial.
#[derive(Clone, Copy, PartialEq, Eq, Structural, Debug)]
pub struct Tally {
    pub engine_hits: usize,
    pub gyro_hits: usize,
}

/// How a cascade ended.
#[derive(Clone, Copy, PartialEq, Eq, Structural, Debug)]
pub enum Verdict {
    Survived(Tally),
    Died,
}

/// A slot whose destruction the rules implemented here do not cover.
#[derive(Clone, Copy, PartialEq, Eq, Structural, Debug)]
pub enum ResolveError {
    /// Explosive equipment was hit; the payload is its damage rating.
    UnsupportedExplosive(i32),
}

/// What the destruction of one slot does.
#[derive(Clone, Copy, PartialEq, Eq, Structural, Debug)]
pub enum Effect {
    Inert,
    EngineHit,
    GyroHit,
    /// The unit is destroyed on the spot.
    Fatal,
    /// Ammunition went off behind a CASE II: crits are rolled once more.
    Reroll,
    /// Ammunition went off behind a CASE: the cascade ends with the protecting
    /// locations' engine and gyro slots counted as hit.
    Contained,
    Unsupported(i32),
}

/// Where a cascade stands after one hit.
#[derive(Clone, Copy, PartialEq, Eq, Debug)]
pub enum Step {
    Continue { hits_remaining: usize, tally: Tally },
    Done(Result<Verdict, ResolveError>),
}

impl Tally {
    /// A fresh trial: nothing hit yet.
    pub fn new() -> (tally: Tally)
        ensures
            tally.engine_hits == 0,
            tally.gyro_hits == 0,
    {
        Tally { engine_hits: 0, gyro_hits: 0 }
    }
}

/// Whether a slot of `kind` is among `slots`.
pub fn holds(slots: &Vec<Crit>, kind: Crit) -> (found: bool)
    ensures
        found == slots@.contains(kind),
{
    let mut i: usize = 0;
    while i < slots.len()
        invariant
            i <= slots.len(),
            forall|j: int| 0 <= j < i ==> slots@[j] != kind,
        decreases slots.len() - i,
    {
        if slots[i] == kind {
            return true;
        }
        i += 1;
    }
    false
}

/// Counts the slots of `kind` among `slots`.
pub fn count(slots: &Vec<Crit>, kind: Crit) -> (n: usize)
    ensures
        n == count_of(slots@, kind),
        n <= slots@.len(),
{
    let mut n: usize = 0;
    let mut i: usize = 0;
    while i < slots.len()
        invariant
            i <= slots.len(),
            n <= i,
            n == count_of(slots@.take(i as int), kind),
        decreases slots.len() - i,
    {
        assert(slots@.take(i + 1).drop_last() =~= slots@.take(i as int));
        if slots[i] == kind {
            n += 1;
        }
        i += 1;
    }
    assert(slots@.take(i as int) =~= slots@);
    n
}

/// Evaluates the counters against the death thresholds.
pub fn judge(tally: Tally, rules: &Rules) -> (verdict: Verdict)
    ensures
        verdict.fate() == judge_spec(tally.engine_hits as nat, tally.gyro_hits as nat, *rules),
{
    if tally.engine_hits >= rules.engine_threshold || tally.gyro_hits >= rules.gyro_threshold {
        Verdict::Died
    } else {
        Verdict::Survived(tally)
    }
}

/// Whether `kind` is among the slots of an adjoining torso, where one was named.
fn sibling_holds(sibling: Option<&Vec<Crit>>, kind: Crit) -> (found: bool)
    ensures
        found == sibling_slots(sibling).contains(kind),
{
    match sibling {
        Some(slots) => holds(slots, kind),
        None => false,
    }
}

/// The effect of destroying `crit`, looked up among the slots left around it.
pub fn classify(crit: Crit, rest: &Vec<Crit>, sibling: Option<&Vec<Crit>>, clan_case: bool) -> (effect:
    Effect)
    ensures
        effect == effect_of(crit, rest@, sibling_slots(sibling), clan_case),
{
    match crit {
        Crit::Cockpit => Effect::Fatal,
        Crit::Engine => Effect::EngineHit,
        Crit::Gyro => Effect::GyroHit,
        Crit::Ammo => {
            if clan_case {
                Effect::Inert
            } else if holds(rest, Crit::CaseII) || sibling_holds(sibling, Crit::CaseII) {
                Effect::Reroll
            } else if holds(rest, Crit::Case) || sibling_holds(sibling, Crit::Case) {
                Effect::Contained
            } else {
                Effect::Fatal
            }
        },
        Crit::Explosive(rating) => Effect::Unsupported(rating),
        Crit::Case => Effect::Inert,
        Crit::CaseII => Effect::Inert,
        Crit::Other => Effect::Inert,
    }
}

/// Destroys the slot at `pick`: it leaves the location for good, and its effect is read
/// off what is left.
pub fn strike(slots: &mut Vec<Crit>, pick: usize, sibling: Option<&Vec<Crit>>, clan_case: bool) -> (effect:
    Effect)
    requires
        pick < old(slots)@.len(),
    ensures
        final(slots)@ == old(slots)@.remove(pick as int),
        effect == effect_of(
            old(slots)@[pick as int],
            final(slots)@,
            sibling_slots(sibling),
            clan_case,
        ),
{
    let crit = slots.remove(pick);
    classify(crit, slots, sibling, clan_case)
}

/// Slots of `kind` in the locations whose CASE contained an explosion.
fn tally_contained(rest: &Vec<Crit>, sibling: Option<&Vec<Crit>>, kind: Crit) -> (n: usize)
    requires
        rest@.len() + sibling_slots(sibling).len() <= usize::MAX,
    ensures
        n == contained_hits(rest@, sibling_slots(sibling), kind),
        n <= rest@.len() + sibling_slots(sibling).len(),
{
    let own = if holds(rest, Crit::Case) {
        count(rest, kind)
    } else {
        0
    };
    let adjoining = match sibling {
        Some(slots) => if holds(slots, Crit::Case) {
            count(slots, kind)
        } else {
            0
        },
        None => 0,
    };
    own + adjoining
}

/// Applies the effect of a slot just destroyed to the hits still due and to the counters.
/// `rest` is the location after the slot left it, `extra` the crits rolled for a re-roll.
pub fn settle(
    effect: Effect,
    extra: u8,
    rest: &Vec<Crit>,
    sibling: Option<&Vec<Crit>>,
    hits_remaining: usize,
    tally: Tally,
    rules: &Rules,
) -> (step: Step)
    requires
        hits_remaining >= 1,
        extra <= 3,
        hits_remaining + 2 <= usize::MAX,
        tally.engine_hits + 1 + rest@.len() + sibling_slots(sibling).len() <= usize::MAX,
        tally.gyro_hits + 1 + rest@.len() + sibling_slots(sibling).len() <= usize::MAX,
    ensures
        step.status(rest@) == settle_spec(
            effect,
            extra as int,
            cascade_of(rest@, hits_remaining, tally),
            *rules,
            sibling_slots(sibling),
        ),
{
    match effect {
        Effect::Inert => Step::Continue { hits_remaining: hits_remaining - 1, tally },
        Effect::EngineHit => Step::Continue {
            hits_remaining: hits_remaining - 1,
            tally: Tally { engine_hits: tally.engine_hits + 1, gyro_hits: tally.gyro_hits },
        },
        Effect::GyroHit => Step::Continue {
            hits_remaining: hits_remaining - 1,
            tally: Tally { engine_hits: tally.engine_hits, gyro_hits: tally.gyro_hits + 1 },
        },
        Effect::Fatal => Step::Done(Ok(Verdict::Died)),
        Effect::Reroll => Step::Continue { hits_remaining: hits_remaining - 1 + extra as usize, tally },
        Effect::Contained => {
            let engines = tally_contained(rest, sibling, Crit::Engine);
            let gyros = tally_contained(rest, sibling, Crit::Gyro);
            let total = Tally {
                engine_hits: tally.engine_hits + engines,
                gyro_hits: tally.gyro_hits + gyros,
            };
            Step::Done(Ok(judge(total, rules)))
        },
        Effect::Unsupported(rating) => Step::Done(Err(ResolveError::UnsupportedExplosive(rating))),
    }
}

/// Resolves one hit with the randomness given: the slot at `pick` is destroyed, and
/// `extra` crits are added where the hit calls for a re-roll.
pub fn apply_hit(
    slots: &mut Vec<Crit>,
    pick: usize,
    extra: u8,
    hits_remaining: usize,
    tally: Tally,
    rules: &Rules,
    sibling: Option<&Vec<Crit>>,
) -> (step: Step)
    requires
        draw_fits(
            cascade_of(old(slots)@, hits_remaining, tally),
            Draw { pick: pick as int, extra: extra as int },
        ),
        fits_machine(cascade_of(old(slots)@, hits_remaining, tally), sibling_slots(sibling)),
    ensures
        final(slots)@ == old(slots)@.remove(pick as int),
        step.status(final(slots)@) == step_spec(
            cascade_of(old(slots)@, hits_remaining, tally),
            Draw { pick: pick as int, extra: extra as int },
            *rules,
            sibling_slots(sibling),
        ),
        step matches Step::Continue { hits_remaining: hits, tally: next } ==> fits_machine(
            cascade_of(final(slots)@, hits, next),
            sibling_slots(sibling),
        ),
{
    let effect = strike(slots, pick, sibling, rules.clan_case);
    settle(effect, extra, slots, sibling, hits_remaining, tally, rules)
}

/// Resolves `hits_remaining` critical hits on the location that holds `slots`.
///
/// Slots are picked at random, one per hit, and leave `slots` as they are destroyed. The
/// cascade ends when no hit is due, when no slot is left, or when a slot ends it. The
/// result is one the rules allow: some script of draws leads from the arguments to it
/// and to the slots left behind. Whatever is drawn, a location without explosive
/// equipment is resolved, a lone cockpit is fatal, and without a hit due or a slot to
/// hit the counters are judged as they stand.
pub fn resolve(
    slots: &mut Vec<Crit>,
    hits_remaining: usize,
    tally: Tally,
    rules: &Rules,
    sibling: Option<&Vec<Crit>>,
    rng: &mut StdRng,
) -> (result: Result<Verdict, ResolveError>)
    requires
        fits_machine(cascade_of(old(slots)@, hits_remaining, tally), sibling_slots(sibling)),
    ensures
        exists|draws: Seq<Draw>| #[trigger]
            outcome(
                cascade_of(old(slots)@, hits_remaining, tally),
                draws,
                *rules,
                sibling_slots(sibling),
            ) == Some((fate_of(result), final(slots)@)),
        final(slots)@.len() <= old(slots)@.len(),
        free_of_explosives(old(slots)@) ==> result is Ok,
        hits_remaining == 0 || old(slots)@.len() == 0 ==> final(slots)@ == old(slots)@
            && fate_of(result) == judge_spec(
            tally.engine_hits as nat,
            tally.gyro_hits as nat,
            *rules,
        ),
        hits_remaining >= 1 && old(slots)@ == seq![Crit::Cockpit] ==> result == Ok::<
            Verdict,
            ResolveError,
        >(Verdict::Died),
{
    let ghost start = cascade_of(slots@, hits_remaining, tally);
    let ghost env = sibling_slots(sibling);
    let result = run_cascade(slots, hits_remaining, tally, rules, sibling, rng);
    proof {
        let draws = choose|draws: Seq<Draw>| #[trigger]
            outcome(start, draws, *rules, env) == Some((fate_of(result), slots@));
        lemma_cascade_ends_within_slots(start, draws, *rules, env);
        if free_of_explosives(start.slots) {
            lemma_supported_without_explosives(start, draws, *rules, env);
        }
        if start.hits == 0 || start.slots.len() == 0 {
            lemma_nothing_to_resolve(start, draws, *rules, env);
        }
        if start.hits >= 1 && start.slots == seq![Crit::Cockpit] {
            lemma_lone_cockpit_dies(start, draws, *rules, env);
        }
    }
    result
}

/// The cascade itself: draws, strikes and settles until the cascade has ended.
fn run_cascade(
    slots: &mut Vec<Crit>,
    hits_remaining: usize,
    tally: Tally,
    rules: &Rules,
    sibling: Option<&Vec<Crit>>,
    rng: &mut StdRng,
) -> (result: Result<Verdict, ResolveError>)
    requires
        fits_machine(cascade_of(old(slots)@, hits_remaining, tally), sibling_slots(sibling)),
    ensures
        exists|draws: Seq<Draw>| #[trigger]
            outcome(
                cascade_of(old(slots)@, hits_remaining, tally),
                draws,
                *rules,
                sibling_slots(sibling),
            ) == Some((fate_of(result), final(slots)@)),
{
    let ghost start = cascade_of(slots@, hits_remaining, tally);
    let ghost env = sibling_slots(sibling);
    let ghost mut draws: Seq<Draw> = Seq::empty();
    let mut hits: usize = hits_remaining;
    let mut running: Tally = tally;
    loop
        invariant
            start == cascade_of(old(slots)@, hits_remaining, tally),
            env == sibling_slots(sibling),
            replay(start, draws, *rules, env) == Some(
                Status::Resolving(cascade_of(slots@, hits, running)),
            ),
            fits_machine(cascade_of(slots@, hits, running), env),
        decreases slots@.len(),
    {
        if hits == 0 {
            let verdict = judge(running, rules);
            assert(outcome(start, draws, *rules, env) == Some((fate_of(Ok(verdict)), slots@)));
            return Ok(verdict);
        }
        match pick_slot(rng, slots) {
            None => {
                let verdict = judge(running, rules);
                assert(outcome(start, draws, *rules, env) == Some((fate_of(Ok(verdict)), slots@)));
                return Ok(verdict);
            },
            Some(pick) => {
                let ghost before = cascade_of(slots@, hits, running);
                let effect = strike(slots, pick, sibling, rules.clan_case);
                let extra: u8 = if effect == Effect::Reroll {
                    roll_num_crits(rng, false)
                } else {
                    0
                };
                let step = settle(effect, extra, slots, sibling, hits, running, rules);
                proof {
                    let draw = Draw { pick: pick as int, extra: extra as int };
                    let longer = draws.push(draw);
                    assert(longer.drop_last() =~= draws);
                    assert(longer.last() == draw);
                    assert(draw_fits(before, draw));
                    assert(replay(start, longer, *rules, env) == Some(
                        step_spec(before, draw, *rules, env),
                    ));
                    draws = longer;
                }
                match step {
                    Step::Continue { hits_remaining: hits_left, tally: next } => {
                        hits = hits_left;
                        running = next;
                    },
                    Step::Done(result) => {
                        assert(outcome(start, draws, *rules, env) == Some((fate_of(result), slots@)));
                        return result;
                    },
                }
            },
        }
    }
}

} // verus!
