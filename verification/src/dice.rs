//! The dice. Every random draw of the library goes through the two trusted calls in this
//! file; what is built on them is verified for every value they may hand back.

use vstd::prelude::*;
use rand::rngs::StdRng;
use rand::seq::IteratorRandom;
use rand::Rng;
use crate::taxonomy::{Crit, Location};
use crate::tables::{
    base_location, slots_hit, slots_hit_spec, target_location_spec, tripod_leg,
};

verus! {

/// `rand::rngs::StdRng`, the seedable generator that callers hand to the library. Its
/// state is opaque to the verifier.
#[verifier::external_type_specification]
#[verifier::external_body]
pub struct ExStdRng(StdRng);

/// One six-sided die.
///
/// Trusted: calls `rand::Rng::gen_range` with the range `1..=6`. The contract claims only
/// that the value drawn lies in that range, which is never empty.
#[verifier::external_body]
pub(crate) fn one_d_six(rng: &mut StdRng) -> (die: u8)
    ensures
        1 <= die <= 6,
{
    rng.gen_range(1..=6)
}

/// Picks the index of one of `slots` at random, or nothing where there is no slot.
///
/// Trusted: calls `rand::seq::IteratorRandom::choose` on the enumerated slots and keeps
/// the index of the item it hands back. The contract claims that `choose` comes back
/// empty-handed exactly for an empty iterator, and otherwise with one of its items.
#[verifier::external_body]
pub(crate) fn pick_slot(rng: &mut StdRng, slots: &Vec<Crit>) -> (pick: Option<usize>)
    ensures
        pick is None <==> slots@.len() == 0,
        pick matches Some(index) ==> index < slots@.len(),
{
    slots.iter().enumerate().choose(rng).map(|(index, _)| index)
}

/// The sum of two six-sided dice.
pub fn two_d_six(rng: &mut StdRng) -> (total: u8)
    ensures
        2 <= total <= 12,
{
    let d1: u8 = one_d_six(rng);
    let d2: u8 = one_d_six(rng);
    d1 + d2
}

/// Rolls two dice on the crit-count table.
pub fn roll_num_crits(rng: &mut StdRng, is_hardened: bool) -> (hits: u8)
    ensures
        exists|roll: int| 2 <= roll <= 12 && hits == #[trigger] slots_hit_spec(roll, is_hardened),
        hits <= 3,
        is_hardened ==> hits <= 2,
{
    let roll: u8 = two_d_six(rng);
    let hits = slots_hit(roll, is_hardened);
    assert(hits == slots_hit_spec(roll as int, is_hardened));
    hits
}

/// Rolls the location of a hit: two dice on the location table and, for a tripod hit in a
/// leg, one more die for the leg.
pub fn get_location(rng: &mut StdRng, is_tripod: bool) -> (location: Location)
    ensures
        exists|roll: int, die: int|
            2 <= roll <= 12 && 1 <= die <= 6 && location == #[trigger] target_location_spec(
                roll,
                is_tripod,
                die,
            ),
        !is_tripod ==> location != Location::CenterLeg,
{
    let roll: u8 = two_d_six(rng);
    let base = base_location(roll);
    if is_tripod && (base == Location::LeftLeg || base == Location::RightLeg) {
        let die: u8 = one_d_six(rng);
        let leg = tripod_leg(die);
        assert(leg == target_location_spec(roll as int, is_tripod, die as int));
        leg
    } else {
        assert(base == target_location_spec(roll as int, is_tripod, 1));
        base
    }
}

} // verus!
