use minidnd::{DndError, Player};

#[test]
fn exp_thresholds_map_to_levels() {
    assert_eq!(Player::exp_to_level(0), Ok(1));
    assert_eq!(Player::exp_to_level(299), Ok(1));
    assert_eq!(Player::exp_to_level(300), Ok(2));
    assert_eq!(Player::exp_to_level(899), Ok(2));
    assert_eq!(Player::exp_to_level(900), Ok(3));
    assert_eq!(Player::exp_to_level(6499), Ok(4));
    assert_eq!(Player::exp_to_level(6500), Ok(5));
    assert_eq!(Player::exp_to_level(84999), Ok(10));
    assert_eq!(Player::exp_to_level(85000), Ok(11));
    assert_eq!(Player::exp_to_level(354999), Ok(19));
    assert_eq!(Player::exp_to_level(355000), Ok(20));
    assert_eq!(Player::exp_to_level(i32::MAX), Ok(20));
}

#[test]
fn negative_exp_is_rejected() {
    assert_eq!(Player::exp_to_level(-1), Err(DndError::InvalidExperience));
    assert_eq!(Player::exp_to_level(i32::MIN), Err(DndError::InvalidExperience));
}

#[test]
fn proficiency_bonus_bands() {
    assert_eq!(Player::level_to_proficiency_modifier(1), Some(2));
    assert_eq!(Player::level_to_proficiency_modifier(4), Some(2));
    assert_eq!(Player::level_to_proficiency_modifier(5), Some(3));
    assert_eq!(Player::level_to_proficiency_modifier(8), Some(3));
    assert_eq!(Player::level_to_proficiency_modifier(9), Some(4));
    assert_eq!(Player::level_to_proficiency_modifier(12), Some(4));
    assert_eq!(Player::level_to_proficiency_modifier(13), Some(5));
    assert_eq!(Player::level_to_proficiency_modifier(16), Some(5));
    assert_eq!(Player::level_to_proficiency_modifier(17), Some(6));
    assert_eq!(Player::level_to_proficiency_modifier(20), Some(6));
    assert_eq!(Player::level_to_proficiency_modifier(21), Some(7));
    assert_eq!(Player::level_to_proficiency_modifier(24), Some(7));
    assert_eq!(Player::level_to_proficiency_modifier(25), Some(8));
    assert_eq!(Player::level_to_proficiency_modifier(28), Some(8));
    assert_eq!(Player::level_to_proficiency_modifier(29), Some(9));
    assert_eq!(Player::level_to_proficiency_modifier(30), Some(9));
}

#[test]
fn out_of_band_levels_have_no_bonus() {
    assert_eq!(Player::level_to_proficiency_modifier(0), None);
    assert_eq!(Player::level_to_proficiency_modifier(-3), None);
    assert_eq!(Player::level_to_proficiency_modifier(31), None);
}
