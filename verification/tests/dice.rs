use minidnd::{DndError, Player, RangeParam};

use rand::rngs::StdRng;
use rand::SeedableRng;

/// A generator replaying a fixed die sequence, so each run sees the same rolls.
fn seeded(seed: u64) -> StdRng {
    StdRng::seed_from_u64(seed)
}

#[test]
fn die_rolls_stay_in_range() {
    let mut rng = seeded(1);
    for upper in [2, 3, 20, 100] {
        for _ in 0..50 {
            let v = Player::dice(&mut rng, upper).unwrap();
            assert!(1 <= v && v <= upper, "roll {} outside 1..={}", v, upper);
        }
    }
}

#[test]
fn die_bounds_are_validated() {
    let mut rng = seeded(2);
    assert_eq!(Player::dice(&mut rng, 1), Err(DndError::InvalidRange(RangeParam::DieBound)));
    assert_eq!(Player::dice(&mut rng, 101), Err(DndError::InvalidRange(RangeParam::DieBound)));
    assert_eq!(Player::dice(&mut rng, 0), Err(DndError::InvalidRange(RangeParam::DieBound)));
    assert_eq!(Player::dice(&mut rng, -5), Err(DndError::InvalidRange(RangeParam::DieBound)));
    assert!(Player::dice(&mut rng, 2).is_ok());
    assert!(Player::dice(&mut rng, 100).is_ok());
}

#[test]
fn die_rolls_vary() {
    // A generator that handed its bound back unchanged would never roll a 1.
    let mut rng = seeded(3);
    let mut seen_one = false;
    let mut seen_two = false;
    for _ in 0..100 {
        match Player::dice(&mut rng, 2).unwrap() {
            1 => seen_one = true,
            2 => seen_two = true,
            v => panic!("roll {} outside 1..=2", v),
        }
    }
    assert!(seen_one && seen_two);
}

#[test]
fn aggregate_sums_exactly_count_rolls() {
    // The same seed replays the same die sequence, so a two-die aggregate
    // must equal the sum of exactly the first two single rolls.
    let mut single = seeded(4);
    let first = Player::dice(&mut single, 20).unwrap();
    let second = Player::dice(&mut single, 20).unwrap();
    let mut aggregate = seeded(4);
    let total = Player::dice_complex(&mut aggregate, 20, 2, 0).unwrap();
    assert_eq!(total, first + second);
}

#[test]
fn advantage_takes_the_higher_roll() {
    let mut single = seeded(5);
    let first = Player::dice(&mut single, 20).unwrap();
    let second = Player::dice(&mut single, 20).unwrap();
    let mut adv = seeded(5);
    let taken = Player::dice_complex(&mut adv, 20, 1, 1).unwrap();
    assert_eq!(taken, first.max(second));
}

#[test]
fn disadvantage_takes_the_lower_roll() {
    let mut single = seeded(6);
    let first = Player::dice(&mut single, 20).unwrap();
    let second = Player::dice(&mut single, 20).unwrap();
    let mut dis = seeded(6);
    let taken = Player::dice_complex(&mut dis, 20, 1, -1).unwrap();
    assert_eq!(taken, first.min(second));
}

#[test]
fn plain_single_roll_consumes_one_die() {
    let mut single = seeded(7);
    let first = Player::dice(&mut single, 20).unwrap();
    let mut plain = seeded(7);
    assert_eq!(Player::dice_complex(&mut plain, 20, 1, 0).unwrap(), first);
}

#[test]
fn aggregate_validates_every_parameter() {
    let mut rng = seeded(8);
    assert_eq!(
        Player::dice_complex(&mut rng, 1, 2, 0),
        Err(DndError::InvalidRange(RangeParam::DieBound))
    );
    assert_eq!(
        Player::dice_complex(&mut rng, 101, 2, 0),
        Err(DndError::InvalidRange(RangeParam::DieBound))
    );
    assert_eq!(
        Player::dice_complex(&mut rng, 20, 0, 0),
        Err(DndError::InvalidRange(RangeParam::Count))
    );
    assert_eq!(
        Player::dice_complex(&mut rng, 20, 11, 0),
        Err(DndError::InvalidRange(RangeParam::Count))
    );
    assert_eq!(
        Player::dice_complex(&mut rng, 20, 1, 2),
        Err(DndError::InvalidRange(RangeParam::Advantage))
    );
    assert_eq!(
        Player::dice_complex(&mut rng, 20, 1, -2),
        Err(DndError::InvalidRange(RangeParam::Advantage))
    );
}

#[test]
fn aggregate_totals_stay_in_range() {
    let mut rng = seeded(9);
    for _ in 0..30 {
        let total = Player::dice_complex(&mut rng, 6, 10, 0).unwrap();
        assert!(10 <= total && total <= 60, "ten six-sided dice gave {}", total);
    }
}
