//! The mathematical model of a crit cascade, and what holds of every cascade.
//!
//! A cascade is a state: the slots left in the location, the hits still due, the engine
//! and gyro hits run up. Each hit is one [`Draw`]: the slot that chance picks and, where
//! the hit calls for more crits, the number that the dice add. [`replay`] plays a script
//! of draws from a starting state, [`outcome`] says how a complete script ends. The
//! resolver in [`crate::resolve`] is held to this model.

use vstd::prelude::*;
use crate::resolve::{Effect, ResolveError, Rules, Step, Tally, Verdict};
use crate::taxonomy::Crit;

verus! {

/// A cascade in progress: the slots left in the location, the hits still to resolve and
/// the running counters.
pub struct Cascade {
    pub slots: Seq<Crit>,
    pub hits: nat,
    pub engine_hits: nat,
    pub gyro_hits: nat,
}

/// How a cascade can end.
pub enum Fate {
    Survived { engine_hits: nat, gyro_hits: nat },
    Died,
    Unsupported(i32),
}

/// The randomness that one hit consumes: the index of the slot picked and, should the
/// hit call for more crits, the number rolled.
pub struct Draw {
    pub pick: int,
    pub extra: int,
}

/// A cascade either goes on or has ended, leaving some slots behind.
pub enum Status {
    Resolving(Cascade),
    Settled { fate: Fate, slots: Seq<Crit> },
}

/// Number of slots of `kind` among `slots`.
pub open spec fn count_of(slots: Seq<Crit>, kind: Crit) -> nat
    decreases slots.len(),
{
    if slots.len() == 0 {
        0
    } else {
        count_of(slots.drop_last(), kind) + if slots.last() == kind {
            1nat
        } else {
            0nat
        }
    }
}

/// The slots of the adjoining torso, where one was named.
pub open spec fn sibling_slots(sibling: Option<&Vec<Crit>>) -> Seq<Crit> {
    match sibling {
        Some(slots) => slots@,
        None => Seq::empty(),
    }
}

/// The effect of destroying `crit`, with `rest` left in its location and `sibling` in the
/// adjoining torso. A CASE II in either takes precedence over a CASE in either.
pub open spec fn effect_of(crit: Crit, rest: Seq<Crit>, sibling: Seq<Crit>, clan_case: bool) -> Effect {
    match crit {
        Crit::Cockpit => Effect::Fatal,
        Crit::Engine => Effect::EngineHit,
        Crit::Gyro => Effect::GyroHit,
        Crit::Ammo => if clan_case {
            Effect::Inert
        } else if rest.contains(Crit::CaseII) || sibling.contains(Crit::CaseII) {
            Effect::Reroll
        } else if rest.contains(Crit::Case) || sibling.contains(Crit::Case) {
            Effect::Contained
        } else {
            Effect::Fatal
        },
        Crit::Explosive(rating) => Effect::Unsupported(rating),
        Crit::Case => Effect::Inert,
        Crit::CaseII => Effect::Inert,
        Crit::Other => Effect::Inert,
    }
}

/// Slots of `kind` left in the locations whose CASE contained an explosion.
pub open spec fn contained_hits(rest: Seq<Crit>, sibling: Seq<Crit>, kind: Crit) -> nat {
    let own = if rest.contains(Crit::Case) {
        count_of(rest, kind)
    } else {
        0
    };
    let adjoining = if sibling.contains(Crit::Case) {
        count_of(sibling, kind)
    } else {
        0
    };
    own + adjoining
}

/// Death by accumulated hits: three engine hits, or as many gyro hits as the gyro stands.
pub open spec fn judge_spec(engine_hits: nat, gyro_hits: nat, rules: Rules) -> Fate {
    if engine_hits >= rules.engine_threshold || gyro_hits >= rules.gyro_threshold {
        Fate::Died
    } else {
        Fate::Survived { engine_hits, gyro_hits }
    }
}

/// Whether `draw` can be made in `cascade`: a hit is due, the pick names a slot that is
/// still there, and the extra crits are a number the crit-count table can give.
pub open spec fn draw_fits(cascade: Cascade, draw: Draw) -> bool {
    &&& cascade.hits > 0
    &&& 0 <= draw.pick < cascade.slots.len()
    &&& 0 <= draw.extra <= 3
}

/// Applies `effect` to a cascade whose struck slot has already left `cascade.slots`, while
/// `cascade.hits` still counts the hit being resolved.
pub open spec fn settle_spec(effect: Effect, extra: int, cascade: Cascade, rules: Rules, sibling: Seq<Crit>) -> Status {
    let hits_left = (cascade.hits - 1) as nat;
    match effect {
        Effect::Inert => Status::Resolving(Cascade { hits: hits_left, ..cascade }),
        Effect::EngineHit => Status::Resolving(
            Cascade { hits: hits_left, engine_hits: cascade.engine_hits + 1, ..cascade },
        ),
        Effect::GyroHit => Status::Resolving(
            Cascade { hits: hits_left, gyro_hits: cascade.gyro_hits + 1, ..cascade },
        ),
        Effect::Fatal => Status::Settled { fate: Fate::Died, slots: cascade.slots },
        Effect::Reroll => Status::Resolving(Cascade { hits: hits_left + extra as nat, ..cascade }),
        Effect::Contained => Status::Settled {
            fate: judge_spec(
                cascade.engine_hits + contained_hits(cascade.slots, sibling, Crit::Engine),
                cascade.gyro_hits + contained_hits(cascade.slots, sibling, Crit::Gyro),
                rules,
            ),
            slots: cascade.slots,
        },
        Effect::Unsupported(rating) => Status::Settled {
            fate: Fate::Unsupported(rating),
            slots: cascade.slots,
        },
    }
}

/// Resolves one hit: the picked slot leaves the location and takes effect.
pub open spec fn step_spec(cascade: Cascade, draw: Draw, rules: Rules, sibling: Seq<Crit>) -> Status {
    let crit = cascade.slots[draw.pick];
    let rest = cascade.slots.remove(draw.pick);
    settle_spec(
        effect_of(crit, rest, sibling, rules.clan_case),
        draw.extra,
        Cascade { slots: rest, ..cascade },
        rules,
        sibling,
    )
}

/// Where a cascade stands after the hits that `draws` scripts, one draw per hit, or
/// nothing where the script cannot be played: a draw that does not fit, or a draw after
/// the cascade has ended.
pub open spec fn replay(start: Cascade, draws: Seq<Draw>, rules: Rules, sibling: Seq<Crit>) -> Option<Status>
    decreases draws.len(),
{
    if draws.len() == 0 {
        Some(Status::Resolving(start))
    } else {
        match replay(start, draws.drop_last(), rules, sibling) {
            Some(Status::Resolving(cascade)) => if draw_fits(cascade, draws.last()) {
                Some(step_spec(cascade, draws.last(), rules, sibling))
            } else {
                None
            },
            _ => None,
        }
    }
}

/// How a cascade that stands at `status` has ended, or nothing while hits are due and
/// slots are left.
pub open spec fn conclusion(status: Status, rules: Rules) -> Option<(Fate, Seq<Crit>)> {
    match status {
        Status::Settled { fate, slots } => Some((fate, slots)),
        Status::Resolving(cascade) => if cascade.hits == 0 || cascade.slots.len() == 0 {
            Some((judge_spec(cascade.engine_hits, cascade.gyro_hits, rules), cascade.slots))
        } else {
            None
        },
    }
}

/// The end that `draws` leads to, with the slots left behind, or nothing where `draws` is
/// not a complete script for the cascade.
pub open spec fn outcome(start: Cascade, draws: Seq<Draw>, rules: Rules, sibling: Seq<Crit>) -> Option<(Fate, Seq<Crit>)> {
    match replay(start, draws, rules, sibling) {
        Some(status) => conclusion(status, rules),
        None => None,
    }
}

/// The counters never outgrow the machine: every slot may yet count as an engine or gyro
/// hit, and every slot may yet add three hits.
pub open spec fn fits_machine(cascade: Cascade, sibling: Seq<Crit>) -> bool {
    &&& cascade.hits + 3 * cascade.slots.len() <= usize::MAX
    &&& cascade.engine_hits + cascade.slots.len() + sibling.len() <= usize::MAX
    &&& cascade.gyro_hits + cascade.slots.len() + sibling.len() <= usize::MAX
}

// ---------------------------------------------------------------------------------------
// The resolver's values, as the model sees them
// ---------------------------------------------------------------------------------------

impl Verdict {
    /// The fate that this verdict stands for.
    pub open spec fn fate(self) -> Fate {
        match self {
            Verdict::Survived(tally) => Fate::Survived {
                engine_hits: tally.engine_hits as nat,
                gyro_hits: tally.gyro_hits as nat,
            },
            Verdict::Died => Fate::Died,
        }
    }
}

/// The fate that a resolver result stands for.
pub open spec fn fate_of(result: Result<Verdict, ResolveError>) -> Fate {
    match result {
        Ok(verdict) => verdict.fate(),
        Err(ResolveError::UnsupportedExplosive(rating)) => Fate::Unsupported(rating),
    }
}

impl Step {
    /// The model status that this step stands for, given the slots left in the location.
    pub open spec fn status(self, slots: Seq<Crit>) -> Status {
        match self {
            Step::Continue { hits_remaining, tally } => Status::Resolving(
                Cascade {
                    slots,
                    hits: hits_remaining as nat,
                    engine_hits: tally.engine_hits as nat,
                    gyro_hits: tally.gyro_hits as nat,
                },
            ),
            Step::Done(result) => Status::Settled { fate: fate_of(result), slots },
        }
    }
}

/// The model state made of the resolver's arguments.
pub open spec fn cascade_of(slots: Seq<Crit>, hits_remaining: usize, tally: Tally) -> Cascade {
    Cascade {
        slots,
        hits: hits_remaining as nat,
        engine_hits: tally.engine_hits as nat,
        gyro_hits: tally.gyro_hits as nat,
    }
}

// ---------------------------------------------------------------------------------------
// What holds of every cascade
// ---------------------------------------------------------------------------------------

/// The slots that a cascade standing at `status` has left.
pub open spec fn slots_left(status: Status) -> Seq<Crit> {
    match status {
        Status::Resolving(cascade) => cascade.slots,
        Status::Settled { fate, slots } => slots,
    }
}

/// No slot holds explosive equipment.
pub open spec fn free_of_explosives(slots: Seq<Crit>) -> bool {
    forall|i: int| 0 <= i < slots.len() ==> !(#[trigger] slots[i] is Explosive)
}

/// Every hit resolved costs the location exactly one slot, whatever it adds to the hits
/// still due.
pub proof fn lemma_one_slot_per_hit(start: Cascade, draws: Seq<Draw>, rules: Rules, sibling: Seq<Crit>)
    requires
        replay(start, draws, rules, sibling) is Some,
    ensures
        slots_left(replay(start, draws, rules, sibling)->0).len() + draws.len()
            == start.slots.len(),
    decreases draws.len(),
{
    if draws.len() > 0 {
        lemma_one_slot_per_hit(start, draws.drop_last(), rules, sibling);
    }
}

/// A cascade ends: no script of draws is longer than the location has slots, so a
/// location cannot feed re-rolls forever, however much ammunition and CASE II it holds.
pub proof fn lemma_cascade_ends_within_slots(
    start: Cascade,
    draws: Seq<Draw>,
    rules: Rules,
    sibling: Seq<Crit>,
)
    requires
        outcome(start, draws, rules, sibling) is Some,
    ensures
        draws.len() <= start.slots.len(),
        (outcome(start, draws, rules, sibling)->0).1.len() + draws.len() == start.slots.len(),
{
    lemma_one_slot_per_hit(start, draws, rules, sibling);
}

/// A complete script stops where the cascade ends: without its last draw it is not
/// complete.
pub proof fn lemma_no_draw_after_the_end(
    start: Cascade,
    draws: Seq<Draw>,
    rules: Rules,
    sibling: Seq<Crit>,
)
    requires
        draws.len() > 0,
        outcome(start, draws, rules, sibling) is Some,
    ensures
        outcome(start, draws.drop_last(), rules, sibling) is None,
{
}

/// A location without explosive equipment is always resolved: the unsupported case
/// cannot come up.
pub proof fn lemma_supported_without_explosives(
    start: Cascade,
    draws: Seq<Draw>,
    rules: Rules,
    sibling: Seq<Crit>,
)
    requires
        free_of_explosives(start.slots),
        replay(start, draws, rules, sibling) is Some,
    ensures
        free_of_explosives(slots_left(replay(start, draws, rules, sibling)->0)),
        replay(start, draws, rules, sibling)->0 matches Status::Settled { fate, slots }
            ==> !(fate is Unsupported),
        outcome(start, draws, rules, sibling) matches Some(end) ==> !(end.0 is Unsupported),
    decreases draws.len(),
{
    if draws.len() > 0 {
        lemma_supported_without_explosives(start, draws.drop_last(), rules, sibling);
    }
}

/// A location that holds one cockpit and nothing else kills the unit as soon as a single
/// hit is due, whatever is drawn.
pub proof fn lemma_lone_cockpit_dies(start: Cascade, draws: Seq<Draw>, rules: Rules, sibling: Seq<Crit>)
    requires
        start.slots == seq![Crit::Cockpit],
        start.hits >= 1,
        outcome(start, draws, rules, sibling) is Some,
    ensures
        outcome(start, draws, rules, sibling) == Some((Fate::Died, Seq::<Crit>::empty())),
{
    lemma_cascade_ends_within_slots(start, draws, rules, sibling);
    assert(draws.len() == 1);
    assert(draws.drop_last().len() == 0);
    let draw = draws.last();
    assert(replay(start, draws.drop_last(), rules, sibling) == Some(Status::Resolving(start)));
    assert(draw.pick == 0);
    assert(start.slots.remove(0) =~= Seq::<Crit>::empty());
}

/// The counters that a cascade has run up: those of its last state while it goes on,
/// those of a survivor once it has ended. A dead or unresolved unit has none.
pub open spec fn counters(status: Status) -> Option<(nat, nat)> {
    match status {
        Status::Resolving(cascade) => Some((cascade.engine_hits, cascade.gyro_hits)),
        Status::Settled { fate: Fate::Survived { engine_hits, gyro_hits }, slots } => Some(
            (engine_hits, gyro_hits),
        ),
        _ => None,
    }
}

/// Engine and gyro hits persist: a cascade never ends with fewer of either than it began
/// with.
pub proof fn lemma_counters_never_fall(start: Cascade, draws: Seq<Draw>, rules: Rules, sibling: Seq<Crit>)
    requires
        replay(start, draws, rules, sibling) is Some,
    ensures
        counters(replay(start, draws, rules, sibling)->0) matches Some(tally) ==> tally.0
            >= start.engine_hits && tally.1 >= start.gyro_hits,
        outcome(start, draws, rules, sibling) matches Some(
            (Fate::Survived { engine_hits, gyro_hits }, left),
        ) ==> engine_hits >= start.engine_hits && gyro_hits >= start.gyro_hits,
    decreases draws.len(),
{
    if draws.len() > 0 {
        lemma_counters_never_fall(start, draws.drop_last(), rules, sibling);
    }
}

/// Whoever survives a cascade is below both death thresholds, however the cascade ended:
/// out of hits, out of slots, or on ammunition that a CASE contained.
pub proof fn lemma_survivors_are_below_the_thresholds(
    start: Cascade,
    draws: Seq<Draw>,
    rules: Rules,
    sibling: Seq<Crit>,
)
    requires
        outcome(start, draws, rules, sibling) is Some,
    ensures
        outcome(start, draws, rules, sibling) matches Some(
            (Fate::Survived { engine_hits, gyro_hits }, left),
        ) ==> engine_hits < rules.engine_threshold && gyro_hits < rules.gyro_threshold,
{
}

/// With no hit due, or no slot to hit, a cascade ends at once on the counters it was
/// given and leaves the location as it was.
pub proof fn lemma_nothing_to_resolve(start: Cascade, draws: Seq<Draw>, rules: Rules, sibling: Seq<Crit>)
    requires
        start.hits == 0 || start.slots.len() == 0,
        outcome(start, draws, rules, sibling) is Some,
    ensures
        draws.len() == 0,
        outcome(start, draws, rules, sibling) == Some(
            (judge_spec(start.engine_hits, start.gyro_hits, rules), start.slots),
        ),
    decreases draws.len(),
{
    if draws.len() > 0 {
        let shorter = draws.drop_last();
        assert(replay(start, shorter, rules, sibling) is Some);
        if shorter.len() > 0 {
            // A shorter script would itself have to start with a draw that fits.
            lemma_first_draw_fits(start, shorter, rules, sibling);
        }
    }
}

/// A script that can be played at all starts with a draw that fits the cascade it
/// starts from.
pub proof fn lemma_first_draw_fits(start: Cascade, draws: Seq<Draw>, rules: Rules, sibling: Seq<Crit>)
    requires
        draws.len() > 0,
        replay(start, draws, rules, sibling) is Some,
    ensures
        draw_fits(start, draws[0]),
    decreases draws.len(),
{
    if draws.len() > 1 {
        lemma_first_draw_fits(start, draws.drop_last(), rules, sibling);
        assert(draws.drop_last()[0] == draws[0]);
    } else {
        assert(replay(start, draws.drop_last(), rules, sibling) == Some(Status::Resolving(start)));
        assert(draws.last() == draws[0]);
    }
}

} // verus!
