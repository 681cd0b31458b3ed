use minidnd::{AbilityScores, Coins, DndError, Player};

fn player_with_scores(scores: AbilityScores) -> Player {
    Player::new_by_stats("Tess".to_string(), scores, Coins::default(), 30, 0, 10, 0, 10)
}

#[test]
fn modifiers_truncate_toward_zero() {
    let scores = AbilityScores {
        strength: 10,
        dexterity: 20,
        constitution: 8,
        intelligence: 9,
        wisdom: 11,
        charisma: 1,
    };
    let m = player_with_scores(scores).ability_scores_to_modifiers();
    assert_eq!(m.strength, 0);
    assert_eq!(m.dexterity, 5);
    assert_eq!(m.constitution, -1);
    // A score of 9 yields 0 under zero-truncating division, not -1.
    assert_eq!(m.intelligence, 0);
    assert_eq!(m.wisdom, 0);
    assert_eq!(m.charisma, -4);
}

#[test]
fn default_scores_give_standard_modifiers() {
    let m = Player::new_by_default().ability_scores_to_modifiers();
    assert_eq!(m.strength, 2);
    assert_eq!(m.dexterity, 2);
    assert_eq!(m.constitution, 1);
    assert_eq!(m.intelligence, 1);
    assert_eq!(m.wisdom, 0);
    assert_eq!(m.charisma, -1);
}

#[test]
fn proficiency_is_granted_once_per_ability() {
    let mut p = Player::new_by_default();
    // Three entries populate the strength map; the bonus is granted once.
    p.skills_for_ac_strength.insert("athletics".to_string(), 0);
    p.skills_for_ac_strength.insert("climbing kit".to_string(), 1);
    p.skills_for_ac_strength.insert("grappling".to_string(), 2);
    let m = p.proficiency_modifiers().unwrap();
    assert_eq!(m.strength, 2);
    // An empty map contributes 0.
    assert_eq!(m.dexterity, 0);
    assert_eq!(m.constitution, 0);
    assert_eq!(m.intelligence, 0);
    assert_eq!(m.wisdom, 0);
    assert_eq!(m.charisma, 0);
}

#[test]
fn saving_throw_proficiency_is_granted_once() {
    let mut p = Player::new_by_default();
    p.exp = 6500;  // level 5: bonus 3
    p.skills_for_st_wisdom.insert("iron will".to_string(), 0);
    p.skills_for_st_wisdom.insert("calm mind".to_string(), 5);
    let m = p.saving_throw_modifiers().unwrap();
    assert_eq!(m.wisdom, 3);
    assert_eq!(m.strength, 0);
    // The ability-check maps are separate from the saving-throw maps.
    let ac = p.proficiency_modifiers().unwrap();
    assert_eq!(ac.wisdom, 0);
}

#[test]
fn negative_experience_fails_proficiency() {
    let mut p = Player::new_by_default();
    p.exp = -1;
    assert_eq!(p.proficiency_modifiers(), Err(DndError::InvalidExperience));
    assert_eq!(p.saving_throw_modifiers(), Err(DndError::InvalidExperience));
}

#[test]
fn default_player_fields() {
    let p = Player::new_by_default();
    assert_eq!(p.name, "Alice");
    assert_eq!(p.ability_scores.strength, 15);
    assert_eq!(p.ability_scores.charisma, 8);
    assert_eq!(p.coins.gold, 10);
    assert_eq!(p.coins.silver, 50);
    assert_eq!(p.coins.copper, 100);
    assert_eq!(p.walking_speed, 30);
    assert_eq!(p.flying_speed, 0);
    assert_eq!(p.armor, 8);
    assert_eq!(p.exp, 0);
    assert_eq!(p.hp, 100);
    assert!(p.skills_for_ac_strength.is_empty());
    assert!(p.weapons.is_empty());
}

#[test]
fn new_by_stats_keeps_fields() {
    let scores = AbilityScores { strength: 1, dexterity: 2, constitution: 3, intelligence: 4, wisdom: 5, charisma: 6 };
    let coins = Coins { gold: 7, silver: 8, copper: 9, ep: 10, pp: 11 };
    let p = Player::new_by_stats("Borin".to_string(), scores, coins, 25, 60, 14, 900, 37);
    assert_eq!(p.name, "Borin");
    assert_eq!(p.ability_scores.wisdom, 5);
    assert_eq!(p.coins.pp, 11);
    assert_eq!(p.walking_speed, 25);
    assert_eq!(p.flying_speed, 60);
    assert_eq!(p.armor, 14);
    assert_eq!(p.exp, 900);
    assert_eq!(p.hp, 37);
    assert!(p.skills_for_st_charisma.is_empty());
}

#[test]
fn cloned_player_keeps_fields_and_maps() {
    let mut p = Player::new_by_default();
    p.skills_for_ac_wisdom.insert("perception".to_string(), 0);
    let q = p.clone();
    assert_eq!(q.name, p.name);
    assert_eq!(q.hp, p.hp);
    assert_eq!(q.skills_for_ac_wisdom.len(), 1);
    assert!(q.skills_for_ac_wisdom.contains_key("perception"));
}
