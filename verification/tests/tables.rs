use crit_sim::tables::{base_location, slots_hit, target_location, tripod_leg};
use crit_sim::taxonomy::Location;

#[test]
fn crit_count_table_unhardened() {
    let expected: [u8; 11] = [0, 0, 0, 0, 0, 0, 1, 1, 2, 2, 3];
    for roll in 2u8..=12 {
        assert_eq!(slots_hit(roll, false), expected[(roll - 2) as usize], "roll {}", roll);
    }
}

#[test]
fn crit_count_table_named_rolls() {
    assert_eq!(slots_hit(7, false), 0);
    assert_eq!(slots_hit(9, false), 1);
    assert_eq!(slots_hit(12, false), 3);
    assert_eq!(slots_hit(9, true), slots_hit(7, false));
}

#[test]
fn hardened_armor_shifts_the_roll_by_two_floored_at_two() {
    let expected: [u8; 11] = [0, 0, 0, 0, 0, 0, 0, 0, 1, 1, 2];
    for roll in 2u8..=12 {
        let shifted = if roll < 4 { 2 } else { roll - 2 };
        assert_eq!(slots_hit(roll, true), slots_hit(shifted, false), "roll {}", roll);
        assert_eq!(slots_hit(roll, true), expected[(roll - 2) as usize], "roll {}", roll);
    }
}

#[test]
fn hardened_armor_never_takes_three_slots() {
    for roll in 2u8..=12 {
        assert!(slots_hit(roll, true) <= 2);
    }
}

#[test]
fn location_table() {
    assert_eq!(base_location(2), Location::CenterTorso);
    assert_eq!(base_location(3), Location::RightArm);
    assert_eq!(base_location(4), Location::RightArm);
    assert_eq!(base_location(5), Location::RightLeg);
    assert_eq!(base_location(6), Location::RightTorso);
    assert_eq!(base_location(7), Location::CenterTorso);
    assert_eq!(base_location(8), Location::LeftTorso);
    assert_eq!(base_location(9), Location::LeftLeg);
    assert_eq!(base_location(10), Location::LeftArm);
    assert_eq!(base_location(11), Location::LeftArm);
    assert_eq!(base_location(12), Location::Head);
}

#[test]
fn location_table_named_rolls() {
    assert_eq!(target_location(2, false, 1), Location::CenterTorso);
    assert_eq!(target_location(12, false, 1), Location::Head);
}

#[test]
fn tripod_leg_table() {
    assert_eq!(tripod_leg(1), Location::RightLeg);
    assert_eq!(tripod_leg(2), Location::RightLeg);
    assert_eq!(tripod_leg(3), Location::CenterLeg);
    assert_eq!(tripod_leg(4), Location::CenterLeg);
    assert_eq!(tripod_leg(5), Location::LeftLeg);
    assert_eq!(tripod_leg(6), Location::LeftLeg);
}

#[test]
fn tripod_leg_hits_stay_on_the_legs() {
    for die in 1u8..=6 {
        for roll in [5u8, 9u8] {
            let location = target_location(roll, true, die);
            assert!(
                location == Location::RightLeg
                    || location == Location::CenterLeg
                    || location == Location::LeftLeg
            );
            assert_eq!(location, tripod_leg(die));
        }
    }
}

#[test]
fn leg_die_is_ignored_off_the_legs_and_off_tripods() {
    for roll in 2u8..=12 {
        for die in 1u8..=6 {
            assert_eq!(target_location(roll, false, die), base_location(roll));
            if roll != 5 && roll != 9 {
                assert_eq!(target_location(roll, true, die), base_location(roll));
            }
        }
    }
}
