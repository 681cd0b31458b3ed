use vstd::prelude::*;
use std::collections::HashMap;

verus! {

/// The six abilities of an actor. Every check and saving throw is made
/// against exactly one of them.
#[derive(Copy, Clone, Debug, PartialEq, Eq, Structural)]
pub enum Abilities {
    Strength,
    Dexterity,
    Constitution,
    Intelligence,
    Wisdom,
    Charisma,
}

impl Default for Abilities {
    fn default() -> (r: Self)
        ensures
            r == Abilities::Strength,
    {
        Abilities::Strength
    }
}

/// The six raw ability scores of an actor, conventionally between 1 and 30,
/// though the engine itself accepts any signed value.
#[derive(Copy, Clone, Debug, PartialEq, Eq, Structural)]
pub struct AbilityScores {
    pub strength: i32,
    pub dexterity: i32,
    pub constitution: i32,
    pub intelligence: i32,
    pub wisdom: i32,
    pub charisma: i32,
}

/// The standard array of scores: 15, 14, 13, 12, 10, 8.
pub open spec fn default_ability_scores() -> AbilityScores {
    AbilityScores {
        strength: 15,
        dexterity: 14,
        constitution: 13,
        intelligence: 12,
        wisdom: 10,
        charisma: 8,
    }
}

impl Default for AbilityScores {
    fn default() -> (r: Self)
        ensures
            r == default_ability_scores(),
    {
        AbilityScores {
            strength: 15,
            dexterity: 14,
            constitution: 13,
            intelligence: 12,
            wisdom: 10,
            charisma: 8,
        }
    }
}

/// A bonus derived for each of the six abilities: either the score-derived
/// modifiers of an actor, or its per-ability proficiency bonuses.
#[derive(Copy, Clone, Debug, PartialEq, Eq, Structural)]
pub struct Modifiers {
    pub strength: i32,
    pub dexterity: i32,
    pub constitution: i32,
    pub intelligence: i32,
    pub wisdom: i32,
    pub charisma: i32,
}

impl Default for Modifiers {
    fn default() -> (r: Self)
        ensures
            r.strength == 0,
            r.dexterity == 0,
            r.constitution == 0,
            r.intelligence == 0,
            r.wisdom == 0,
            r.charisma == 0,
    {
        Modifiers { strength: 0, dexterity: 0, constitution: 0, intelligence: 0, wisdom: 0, charisma: 0 }
    }
}

/// A purse of the five denominations. The exchange rates are fixed:
/// 1 pp = 10 gp = 20 ep = 100 sp = 1000 cp.
#[derive(Copy, Clone, Debug, PartialEq, Eq, Structural)]
pub struct Coins {
    pub gold: i32,
    pub silver: i32,
    pub copper: i32,
    pub ep: i32,
    pub pp: i32,
}

/// The starting purse: 10 gold, 50 silver, 100 copper.
pub open spec fn default_coins() -> Coins {
    Coins { gold: 10, silver: 50, copper: 100, ep: 0, pp: 0 }
}

impl Default for Coins {
    fn default() -> (r: Self)
        ensures
            r == default_coins(),
    {
        Coins { gold: 10, silver: 50, copper: 100, ep: 0, pp: 0 }
    }
}

/// One of the five coin denominations.
#[derive(Copy, Clone, Debug, PartialEq, Eq, Structural)]
pub enum CoinType {
    Gold,
    Silver,
    Copper,
    Ep,
    Pp,
}

/// The three-way outcome of a check against a difficulty value.
#[derive(Copy, Clone, Debug, PartialEq, Eq, Structural)]
pub enum DNDResult {
    Win,
    Tie,
    Lose,
}

impl Default for DNDResult {
    fn default() -> (r: Self)
        ensures
            r == DNDResult::Win,
    {
        DNDResult::Win
    }
}

/// The category of a weapon.
#[derive(Copy, Clone, Debug)]
pub enum WeaponCategory {
    SimpleMelee,
    SimpleRanged,
    MartialMelee,
    MartialRanged,
}

/// The kind of damage a weapon deals.
#[derive(Copy, Clone, Debug)]
pub enum DamageType {
    Blugeon,
    Slash,
    Pierce,
}

/// A static weapon record. The engine stores these as-is and computes
/// nothing from them.
#[derive(Debug)]
pub struct Weapon {
    pub name: String,
    pub category: WeaponCategory,
    /// Damage dice as (count, die size): (1, 6) stands for one six-sided die.
    pub damage: (i32, i32),
    pub damage_type: DamageType,
    pub price: (CoinType, i32),
}

impl Clone for Weapon {
    fn clone(&self) -> (r: Self)
        ensures
            r == *self,
    {
        Weapon {
            name: self.name.clone(),
            category: self.category,
            damage: self.damage,
            damage_type: self.damage_type,
            price: self.price,
        }
    }
}

/// A position on the battle grid. Combat placement is out of the engine's
/// scope; only the default starting point is defined.
#[derive(Copy, Clone, Debug, PartialEq, Eq, Structural)]
pub struct Position {
    pub x: i32,
    pub y: i32,
}

impl Default for Position {
    fn default() -> (r: Self)
        ensures
            r.x == 50,
            r.y == 50,
    {
        Position { x: 50, y: 50 }
    }
}

/// The steps of a combat round. Only the surprise determination is resolved
/// by this engine; the other phases are extension points for a future
/// implementation.
#[derive(Copy, Clone, Debug, PartialEq, Eq, Structural)]
pub enum CombatPhase {
    DetermineSurprise,
    EstablishPositions,
    RollInitiative,
    TakeTurns,
    BeginNextRound,
}

/// An actor record. Modifiers and proficiency bonuses are derived, never
/// stored; the engine never mutates an actor it is given.
///
/// Each of the twelve skill maps sends a skill or tool name to a bonus
/// value. Only a map's non-emptiness matters to the engine: any entry for an
/// ability grants exactly one instance of the level-derived proficiency
/// bonus for that ability, so proficiency never stacks.
#[derive(Debug)]
pub struct Player {
    pub name: String,
    pub ability_scores: AbilityScores,
    pub coins: Coins,
    pub walking_speed: i32,
    pub flying_speed: i32,
    pub armor: i32,
    pub exp: i32,
    pub hp: i32,
    /// Proficiencies that apply to ability checks, one map per ability.
    pub skills_for_ac_strength: HashMap<String, i32>,
    pub skills_for_ac_dexterity: HashMap<String, i32>,
    pub skills_for_ac_constitution: HashMap<String, i32>,
    pub skills_for_ac_intelligence: HashMap<String, i32>,
    pub skills_for_ac_wisdom: HashMap<String, i32>,
    pub skills_for_ac_charisma: HashMap<String, i32>,
    /// Proficiencies that apply to saving throws, one map per ability.
    pub skills_for_st_strength: HashMap<String, i32>,
    pub skills_for_st_dexterity: HashMap<String, i32>,
    pub skills_for_st_constitution: HashMap<String, i32>,
    pub skills_for_st_intelligence: HashMap<String, i32>,
    pub skills_for_st_wisdom: HashMap<String, i32>,
    pub skills_for_st_charisma: HashMap<String, i32>,
    /// The weapons the actor owns, by weapon name.
    pub weapons: HashMap<String, Weapon>,
}

impl Clone for Player {
    /// A clone carries the same plain fields and the same map contents.
    fn clone(&self) -> (r: Self)
        ensures
            r.name == self.name,
            r.ability_scores == self.ability_scores,
            r.coins == self.coins,
            r.walking_speed == self.walking_speed,
            r.flying_speed == self.flying_speed,
            r.armor == self.armor,
            r.exp == self.exp,
            r.hp == self.hp,
            r.skills_for_ac_strength@ == self.skills_for_ac_strength@,
            r.skills_for_ac_dexterity@ == self.skills_for_ac_dexterity@,
            r.skills_for_ac_constitution@ == self.skills_for_ac_constitution@,
            r.skills_for_ac_intelligence@ == self.skills_for_ac_intelligence@,
            r.skills_for_ac_wisdom@ == self.skills_for_ac_wisdom@,
            r.skills_for_ac_charisma@ == self.skills_for_ac_charisma@,
            r.skills_for_st_strength@ == self.skills_for_st_strength@,
            r.skills_for_st_dexterity@ == self.skills_for_st_dexterity@,
            r.skills_for_st_constitution@ == self.skills_for_st_constitution@,
            r.skills_for_st_intelligence@ == self.skills_for_st_intelligence@,
            r.skills_for_st_wisdom@ == self.skills_for_st_wisdom@,
            r.skills_for_st_charisma@ == self.skills_for_st_charisma@,
            r.weapons@ == self.weapons@,
    {
        Player {
            name: self.name.clone(),
            ability_scores: self.ability_scores,
            coins: self.coins,
            walking_speed: self.walking_speed,
            flying_speed: self.flying_speed,
            armor: self.armor,
            exp: self.exp,
            hp: self.hp,
            skills_for_ac_strength: self.skills_for_ac_strength.clone(),
            skills_for_ac_dexterity: self.skills_for_ac_dexterity.clone(),
            skills_for_ac_constitution: self.skills_for_ac_constitution.clone(),
            skills_for_ac_intelligence: self.skills_for_ac_intelligence.clone(),
            skills_for_ac_wisdom: self.skills_for_ac_wisdom.clone(),
            skills_for_ac_charisma: self.skills_for_ac_charisma.clone(),
            skills_for_st_strength: self.skills_for_st_strength.clone(),
            skills_for_st_dexterity: self.skills_for_st_dexterity.clone(),
            skills_for_st_constitution: self.skills_for_st_constitution.clone(),
            skills_for_st_intelligence: self.skills_for_st_intelligence.clone(),
            skills_for_st_wisdom: self.skills_for_st_wisdom.clone(),
            skills_for_st_charisma: self.skills_for_st_charisma.clone(),
            weapons: self.weapons.clone(),
        }
    }
}

/// Whether all twelve skill maps and the weapon map of a player are empty.
pub open spec fn player_maps_empty(p: Player) -> bool {
    &&& p.skills_for_ac_strength@ == Map::<String, i32>::empty()
    &&& p.skills_for_ac_dexterity@ == Map::<String, i32>::empty()
    &&& p.skills_for_ac_constitution@ == Map::<String, i32>::empty()
    &&& p.skills_for_ac_intelligence@ == Map::<String, i32>::empty()
    &&& p.skills_for_ac_wisdom@ == Map::<String, i32>::empty()
    &&& p.skills_for_ac_charisma@ == Map::<String, i32>::empty()
    &&& p.skills_for_st_strength@ == Map::<String, i32>::empty()
    &&& p.skills_for_st_dexterity@ == Map::<String, i32>::empty()
    &&& p.skills_for_st_constitution@ == Map::<String, i32>::empty()
    &&& p.skills_for_st_intelligence@ == Map::<String, i32>::empty()
    &&& p.skills_for_st_wisdom@ == Map::<String, i32>::empty()
    &&& p.skills_for_st_charisma@ == Map::<String, i32>::empty()
    &&& p.weapons@ == Map::<String, Weapon>::empty()
}

impl Default for Player {
    fn default() -> (r: Self)
        ensures
            r.name@ == Seq::<char>::empty(),
            r.ability_scores == default_ability_scores(),
            r.coins == default_coins(),
            r.walking_speed == 0,
            r.flying_speed == 0,
            r.armor == 0,
            r.exp == 0,
            r.hp == 0,
            player_maps_empty(r),
    {
        Player {
            name: String::new(),
            ability_scores: AbilityScores::default(),
            coins: Coins::default(),
            walking_speed: 0,
            flying_speed: 0,
            armor: 0,
            exp: 0,
            hp: 0,
            skills_for_ac_strength: HashMap::new(),
            skills_for_ac_dexterity: HashMap::new(),
            skills_for_ac_constitution: HashMap::new(),
            skills_for_ac_intelligence: HashMap::new(),
            skills_for_ac_wisdom: HashMap::new(),
            skills_for_ac_charisma: HashMap::new(),
            skills_for_st_strength: HashMap::new(),
            skills_for_st_dexterity: HashMap::new(),
            skills_for_st_constitution: HashMap::new(),
            skills_for_st_intelligence: HashMap::new(),
            skills_for_st_wisdom: HashMap::new(),
            skills_for_st_charisma: HashMap::new(),
            weapons: HashMap::new(),
        }
    }
}

impl Player {
    /// A fresh actor named Alice with the standard scores and purse.
    pub fn new_by_default() -> (r: Player)
        ensures
            r.name@ == "Alice"@,
            r.ability_scores == default_ability_scores(),
            r.coins == default_coins(),
            r.walking_speed == 30,
            r.flying_speed == 0,
            r.armor == 8,
            r.exp == 0,
            r.hp == 100,
            player_maps_empty(r),
    {
        let mut r = Player::default();
        r.name = "Alice".to_string();
        r.walking_speed = 30;
        r.armor = 8;
        r.hp = 100;
        r
    }

    /// A fresh actor with the given base fields and no proficiencies or
    /// weapons.
    pub fn new_by_stats(
        name: String,
        ability_scores: AbilityScores,
        coins: Coins,
        walking_speed: i32,
        flying_speed: i32,
        armor: i32,
        exp: i32,
        hp: i32,
    ) -> (r: Player)
        ensures
            r.name == name,
            r.ability_scores == ability_scores,
            r.coins == coins,
            r.walking_speed == walking_speed,
            r.flying_speed == flying_speed,
            r.armor == armor,
            r.exp == exp,
            r.hp == hp,
            player_maps_empty(r),
    {
        let mut r = Player::default();
        r.name = name;
        r.ability_scores = ability_scores;
        r.coins = coins;
        r.walking_speed = walking_speed;
        r.flying_speed = flying_speed;
        r.armor = armor;
        r.exp = exp;
        r.hp = hp;
        r
    }
}

/// A collection of actors, keyed by actor name. The engine treats it as
/// plain data; persistence of it lives outside the engine.
#[derive(Debug)]
pub struct HashedPlayers {
    pub hashed_players: HashMap<String, Player>,
}

impl Clone for HashedPlayers {
    fn clone(&self) -> (r: Self)
        ensures
            r.hashed_players@ == self.hashed_players@,
    {
        HashedPlayers { hashed_players: self.hashed_players.clone() }
    }
}

} // verus!
