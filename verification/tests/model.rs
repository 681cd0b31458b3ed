use std::collections::HashMap;

use minidnd::{
    CoinType, DamageType, HashedPlayers, Modifiers, Player, Weapon, WeaponCategory,
};

#[test]
fn default_modifiers_are_zero() {
    let m = Modifiers::default();
    assert_eq!(m.strength, 0);
    assert_eq!(m.dexterity, 0);
    assert_eq!(m.constitution, 0);
    assert_eq!(m.intelligence, 0);
    assert_eq!(m.wisdom, 0);
    assert_eq!(m.charisma, 0);
}

#[test]
fn weapons_are_stored_as_given() {
    let mut p = Player::new_by_default();
    let club = Weapon {
        name: "club".to_string(),
        category: WeaponCategory::SimpleMelee,
        damage: (1, 4),
        damage_type: DamageType::Blugeon,
        price: (CoinType::Silver, 1),
    };
    p.weapons.insert(club.name.clone(), club.clone());
    let stored = &p.weapons["club"];
    assert_eq!(stored.damage, (1, 4));
    assert_eq!(stored.price.1, 1);
    assert!(matches!(stored.category, WeaponCategory::SimpleMelee));
    assert!(matches!(stored.damage_type, DamageType::Blugeon));
    // A clone carries the same record.
    assert_eq!(club.name, "club");
}

#[test]
fn hashed_players_clone_keeps_contents() {
    let mut table = HashedPlayers { hashed_players: HashMap::new() };
    table.hashed_players.insert("Alice".to_string(), Player::new_by_default());
    let copy = table.clone();
    assert_eq!(copy.hashed_players.len(), 1);
    assert_eq!(copy.hashed_players["Alice"].hp, 100);
}
