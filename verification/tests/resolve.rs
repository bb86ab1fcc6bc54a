use crit_sim::resolve::{
    apply_hit, classify, count, holds, judge, resolve, settle, strike, Effect, ResolveError,
    Rules, Step, Tally, Verdict,
};
use crit_sim::taxonomy::Crit;
use rand::rngs::StdRng;
use rand::SeedableRng;

fn standard() -> Rules {
    Rules { clan_case: false, engine_threshold: 3, gyro_threshold: 2 }
}

fn clan() -> Rules {
    Rules { clan_case: true, engine_threshold: 3, gyro_threshold: 2 }
}

fn heavy_duty() -> Rules {
    Rules { clan_case: false, engine_threshold: 3, gyro_threshold: 3 }
}

fn tally(engine_hits: usize, gyro_hits: usize) -> Tally {
    Tally { engine_hits, gyro_hits }
}

fn survived(engine_hits: usize, gyro_hits: usize) -> Step {
    Step::Done(Ok(Verdict::Survived(tally(engine_hits, gyro_hits))))
}

fn died() -> Step {
    Step::Done(Ok(Verdict::Died))
}

#[test]
fn holds_and_count() {
    let slots = vec![Crit::Engine, Crit::Gyro, Crit::Engine, Crit::Explosive(20)];
    assert!(holds(&slots, Crit::Engine));
    assert!(holds(&slots, Crit::Explosive(20)));
    assert!(!holds(&slots, Crit::Explosive(25)));
    assert!(!holds(&slots, Crit::Cockpit));
    assert!(!holds(&Vec::new(), Crit::Engine));
    assert_eq!(count(&slots, Crit::Engine), 2);
    assert_eq!(count(&slots, Crit::Gyro), 1);
    assert_eq!(count(&slots, Crit::Ammo), 0);
    assert_eq!(count(&Vec::new(), Crit::Engine), 0);
}

#[test]
fn judge_applies_the_thresholds() {
    assert_eq!(judge(tally(2, 1), &standard()), Verdict::Survived(tally(2, 1)));
    assert_eq!(judge(tally(3, 0), &standard()), Verdict::Died);
    assert_eq!(judge(tally(0, 2), &standard()), Verdict::Died);
    assert_eq!(judge(tally(0, 2), &heavy_duty()), Verdict::Survived(tally(0, 2)));
    assert_eq!(judge(tally(0, 3), &heavy_duty()), Verdict::Died);
    assert_eq!(judge(tally(0, 0), &standard()), Verdict::Survived(tally(0, 0)));
}

#[test]
fn effect_of_each_component() {
    let rest = vec![Crit::Other];
    assert_eq!(classify(Crit::Cockpit, &rest, None, false), Effect::Fatal);
    assert_eq!(classify(Crit::Engine, &rest, None, false), Effect::EngineHit);
    assert_eq!(classify(Crit::Gyro, &rest, None, false), Effect::GyroHit);
    assert_eq!(classify(Crit::Case, &rest, None, false), Effect::Inert);
    assert_eq!(classify(Crit::CaseII, &rest, None, false), Effect::Inert);
    assert_eq!(classify(Crit::Other, &rest, None, false), Effect::Inert);
    assert_eq!(classify(Crit::Explosive(25), &rest, None, false), Effect::Unsupported(25));
    assert_eq!(classify(Crit::Explosive(25), &rest, None, true), Effect::Unsupported(25));
}

#[test]
fn effect_of_ammunition() {
    let bare = vec![Crit::Other, Crit::Engine];
    let cased = vec![Crit::Other, Crit::Case];
    let cased_twice = vec![Crit::Case, Crit::CaseII];
    let case_two = vec![Crit::CaseII];
    assert_eq!(classify(Crit::Ammo, &bare, None, false), Effect::Fatal);
    assert_eq!(classify(Crit::Ammo, &bare, None, true), Effect::Inert);
    assert_eq!(classify(Crit::Ammo, &cased, None, false), Effect::Contained);
    assert_eq!(classify(Crit::Ammo, &cased, None, true), Effect::Inert);
    assert_eq!(classify(Crit::Ammo, &cased_twice, None, false), Effect::Reroll);
    assert_eq!(classify(Crit::Ammo, &case_two, None, false), Effect::Reroll);
    assert_eq!(classify(Crit::Ammo, &Vec::new(), None, false), Effect::Fatal);
}

#[test]
fn the_adjoining_torso_protects_too() {
    let bare = vec![Crit::Other];
    let cased = vec![Crit::Case];
    let case_two = vec![Crit::CaseII, Crit::Engine];
    assert_eq!(classify(Crit::Ammo, &bare, Some(&bare), false), Effect::Fatal);
    assert_eq!(classify(Crit::Ammo, &bare, Some(&cased), false), Effect::Contained);
    assert_eq!(classify(Crit::Ammo, &bare, Some(&case_two), false), Effect::Reroll);
    assert_eq!(classify(Crit::Ammo, &cased, Some(&case_two), false), Effect::Reroll);
    assert_eq!(classify(Crit::Ammo, &case_two, Some(&cased), false), Effect::Reroll);
}

#[test]
fn strike_removes_the_slot_it_hits() {
    let mut slots = vec![Crit::Engine, Crit::Ammo, Crit::Case];
    assert_eq!(strike(&mut slots, 1, None, false), Effect::Contained);
    assert_eq!(slots, vec![Crit::Engine, Crit::Case]);
    assert_eq!(strike(&mut slots, 1, None, false), Effect::Inert);
    assert_eq!(slots, vec![Crit::Engine]);
    assert_eq!(strike(&mut slots, 0, None, false), Effect::EngineHit);
    assert!(slots.is_empty());
}

#[test]
fn a_case_does_not_protect_once_it_is_gone() {
    let mut slots = vec![Crit::Case, Crit::Ammo];
    assert_eq!(strike(&mut slots, 0, None, false), Effect::Inert);
    assert_eq!(strike(&mut slots, 0, None, false), Effect::Fatal);
}

#[test]
fn settle_counts_down_the_hits() {
    let rest = vec![Crit::Other];
    let rules = standard();
    assert_eq!(
        settle(Effect::Inert, 0, &rest, None, 2, tally(1, 1), &rules),
        Step::Continue { hits_remaining: 1, tally: tally(1, 1) }
    );
    assert_eq!(
        settle(Effect::EngineHit, 0, &rest, None, 1, tally(1, 1), &rules),
        Step::Continue { hits_remaining: 0, tally: tally(2, 1) }
    );
    assert_eq!(
        settle(Effect::GyroHit, 0, &rest, None, 3, tally(0, 0), &rules),
        Step::Continue { hits_remaining: 2, tally: tally(0, 1) }
    );
    assert_eq!(settle(Effect::Fatal, 0, &rest, None, 3, tally(0, 0), &rules), died());
    assert_eq!(
        settle(Effect::Unsupported(10), 0, &rest, None, 3, tally(0, 0), &rules),
        Step::Done(Err(ResolveError::UnsupportedExplosive(10)))
    );
}

#[test]
fn a_reroll_nets_its_extra_hits_against_the_hit_spent() {
    let rest = vec![Crit::CaseII];
    let rules = standard();
    for extra in 0u8..=3 {
        assert_eq!(
            settle(Effect::Reroll, extra, &rest, None, 1, tally(0, 0), &rules),
            Step::Continue { hits_remaining: extra as usize, tally: tally(0, 0) }
        );
        assert_eq!(
            settle(Effect::Reroll, extra, &rest, None, 4, tally(2, 1), &rules),
            Step::Continue { hits_remaining: 3 + extra as usize, tally: tally(2, 1) }
        );
    }
}

#[test]
fn lone_cockpit_always_dies() {
    for seed in 0..200u64 {
        for hits in 1..=4usize {
            let mut rng = StdRng::seed_from_u64(seed);
            let mut slots = vec![Crit::Cockpit];
            let result = resolve(&mut slots, hits, Tally::new(), &standard(), None, &mut rng);
            assert_eq!(result, Ok(Verdict::Died));
            assert!(slots.is_empty());
        }
    }
    let mut slots = vec![Crit::Cockpit];
    assert_eq!(apply_hit(&mut slots, 0, 0, 1, Tally::new(), &clan(), None), died());
}

#[test]
fn contained_ammunition_counts_the_engines_left() {
    let layout = vec![Crit::Ammo, Crit::Case, Crit::Engine, Crit::Engine];
    let mut slots = layout.clone();
    assert_eq!(apply_hit(&mut slots, 0, 0, 1, tally(0, 0), &standard(), None), survived(2, 0));
    assert_eq!(slots, vec![Crit::Case, Crit::Engine, Crit::Engine]);
    let mut slots = layout.clone();
    assert_eq!(apply_hit(&mut slots, 0, 0, 1, tally(1, 0), &standard(), None), died());
    let mut slots = layout.clone();
    assert_eq!(apply_hit(&mut slots, 0, 0, 3, tally(0, 0), &standard(), None), survived(2, 0));
}

#[test]
fn one_hit_on_cased_ammunition_and_two_engines_is_survived() {
    for seed in 0..200u64 {
        let mut rng = StdRng::seed_from_u64(seed);
        let mut slots = vec![Crit::Ammo, Crit::Case, Crit::Engine, Crit::Engine];
        let result = resolve(&mut slots, 1, Tally::new(), &standard(), None, &mut rng);
        assert_eq!(slots.len(), 3);
        let expected = if !slots.contains(&Crit::Ammo) {
            tally(2, 0)
        } else if !slots.contains(&Crit::Case) {
            tally(0, 0)
        } else {
            tally(1, 0)
        };
        assert_eq!(result, Ok(Verdict::Survived(expected)));
    }
}

#[test]
fn contained_ammunition_counts_the_gyros_left() {
    let mut slots = vec![Crit::Gyro, Crit::Ammo, Crit::Case, Crit::Gyro];
    assert_eq!(apply_hit(&mut slots, 1, 0, 1, tally(0, 0), &standard(), None), died());
    let mut slots = vec![Crit::Gyro, Crit::Ammo, Crit::Case, Crit::Gyro];
    assert_eq!(apply_hit(&mut slots, 1, 0, 1, tally(0, 0), &heavy_duty(), None), survived(0, 2));
}

#[test]
fn only_the_protecting_locations_are_counted() {
    let torso = vec![Crit::Case, Crit::Engine, Crit::Engine, Crit::Gyro];
    let mut arm = vec![Crit::Ammo, Crit::Engine];
    assert_eq!(apply_hit(&mut arm, 0, 0, 1, tally(0, 0), &heavy_duty(), Some(&torso)), survived(2, 1));
    let bare_torso = vec![Crit::Engine, Crit::Engine, Crit::Engine];
    let mut arm = vec![Crit::Ammo, Crit::Case, Crit::Engine];
    assert_eq!(
        apply_hit(&mut arm, 0, 0, 1, tally(0, 0), &standard(), Some(&bare_torso)),
        survived(1, 0)
    );
    let mut arm = vec![Crit::Ammo, Crit::Case, Crit::Engine];
    assert_eq!(apply_hit(&mut arm, 0, 0, 1, tally(0, 0), &standard(), Some(&torso)), died());
}

#[test]
fn unprotected_ammunition_kills() {
    let mut slots = vec![Crit::Other, Crit::Ammo];
    assert_eq!(apply_hit(&mut slots, 1, 0, 2, tally(0, 0), &standard(), None), died());
    let mut slots = vec![Crit::Other, Crit::Ammo];
    assert_eq!(
        apply_hit(&mut slots, 1, 0, 2, tally(0, 0), &clan(), None),
        Step::Continue { hits_remaining: 1, tally: tally(0, 0) }
    );
}

#[test]
fn case_two_rolls_more_crits() {
    let mut slots = vec![Crit::CaseII, Crit::Ammo, Crit::Engine];
    assert_eq!(
        apply_hit(&mut slots, 1, 2, 1, tally(0, 0), &standard(), None),
        Step::Continue { hits_remaining: 2, tally: tally(0, 0) }
    );
    assert_eq!(slots, vec![Crit::CaseII, Crit::Engine]);
    assert_eq!(
        apply_hit(&mut slots, 1, 0, 2, tally(0, 0), &standard(), None),
        Step::Continue { hits_remaining: 1, tally: tally(1, 0) }
    );
}

#[test]
fn explosive_equipment_is_reported() {
    let mut slots = vec![Crit::Explosive(20)];
    assert_eq!(
        apply_hit(&mut slots, 0, 0, 1, tally(0, 0), &standard(), None),
        Step::Done(Err(ResolveError::UnsupportedExplosive(20)))
    );
    let mut rng = StdRng::seed_from_u64(1);
    let mut slots = vec![Crit::Explosive(25)];
    assert_eq!(
        resolve(&mut slots, 1, Tally::new(), &clan(), None, &mut rng),
        Err(ResolveError::UnsupportedExplosive(25))
    );
}

#[test]
fn nothing_is_resolved_without_hits_or_slots() {
    let mut rng = StdRng::seed_from_u64(3);
    let mut slots = vec![Crit::Cockpit, Crit::Ammo];
    assert_eq!(
        resolve(&mut slots, 0, tally(1, 1), &standard(), None, &mut rng),
        Ok(Verdict::Survived(tally(1, 1)))
    );
    assert_eq!(slots, vec![Crit::Cockpit, Crit::Ammo]);
    assert_eq!(resolve(&mut slots, 0, tally(3, 0), &standard(), None, &mut rng), Ok(Verdict::Died));
    let mut none = Vec::new();
    assert_eq!(
        resolve(&mut none, 3, tally(2, 1), &standard(), None, &mut rng),
        Ok(Verdict::Survived(tally(2, 1)))
    );
    assert_eq!(resolve(&mut none, 3, tally(0, 2), &standard(), None, &mut rng), Ok(Verdict::Died));
}

#[test]
fn running_out_of_slots_ends_the_cascade() {
    for seed in 0..50u64 {
        let mut rng = StdRng::seed_from_u64(seed);
        let mut slots = vec![Crit::Engine, Crit::Other, Crit::Gyro];
        let result = resolve(&mut slots, 10, Tally::new(), &standard(), None, &mut rng);
        assert_eq!(result, Ok(Verdict::Survived(tally(1, 1))));
        assert!(slots.is_empty());
    }
}

#[test]
fn counters_carry_over_between_batches() {
    for seed in 0..50u64 {
        let mut rng = StdRng::seed_from_u64(seed);
        let mut slots = vec![Crit::Engine, Crit::Engine, Crit::Engine];
        let first = resolve(&mut slots, 2, Tally::new(), &standard(), None, &mut rng);
        assert_eq!(first, Ok(Verdict::Survived(tally(2, 0))));
        let second = resolve(&mut slots, 1, tally(2, 0), &standard(), None, &mut rng);
        assert_eq!(second, Ok(Verdict::Died));
    }
}

#[test]
fn ammunition_behind_case_two_terminates() {
    for seed in 0..300u64 {
        let mut rng = StdRng::seed_from_u64(seed);
        let mut slots = vec![Crit::Ammo; 200];
        slots.extend(vec![Crit::CaseII; 50]);
        let before = slots.len();
        let result = resolve(&mut slots, 3, Tally::new(), &standard(), None, &mut rng);
        assert!(slots.len() < before);
        match result {
            Ok(Verdict::Survived(counters)) => assert_eq!(counters, tally(0, 0)),
            Ok(Verdict::Died) => {
                assert!(!slots.contains(&Crit::CaseII));
            }
            Err(error) => panic!("no explosive in the layout: {:?}", error),
        }
    }
}

#[test]
fn all_ammunition_with_a_protecting_torso_terminates() {
    let torso = vec![Crit::CaseII];
    for seed in 0..100u64 {
        let mut rng = StdRng::seed_from_u64(seed);
        let mut slots = vec![Crit::Ammo; 500];
        let result = resolve(&mut slots, 3, Tally::new(), &standard(), Some(&torso), &mut rng);
        assert_eq!(result, Ok(Verdict::Survived(tally(0, 0))));
        assert!(slots.len() < 500);
    }
}

#[test]
fn resolve_takes_one_slot_per_hit() {
    for seed in 0..100u64 {
        let mut rng = StdRng::seed_from_u64(seed);
        let mut slots = vec![Crit::Other; 12];
        let result = resolve(&mut slots, 3, Tally::new(), &standard(), None, &mut rng);
        assert_eq!(result, Ok(Verdict::Survived(tally(0, 0))));
        assert_eq!(slots.len(), 9);
    }
}

#[test]
fn resolve_picks_every_slot_sooner_or_later() {
    let mut hit_engine = false;
    let mut hit_gyro = false;
    let mut hit_other = false;
    for seed in 0..200u64 {
        let mut rng = StdRng::seed_from_u64(seed);
        let mut slots = vec![Crit::Engine, Crit::Gyro, Crit::Other];
        match resolve(&mut slots, 1, Tally::new(), &standard(), None, &mut rng) {
            Ok(Verdict::Survived(counters)) => {
                hit_engine |= counters == tally(1, 0);
                hit_gyro |= counters == tally(0, 1);
                hit_other |= counters == tally(0, 0);
            }
            other => panic!("one hit cannot end in {:?}", other),
        }
    }
    assert!(hit_engine && hit_gyro && hit_other);
}
