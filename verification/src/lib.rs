//! A resolution engine for tabletop role-playing-game rule checks: ability
//! scores and their derived modifiers, a level/experience progression table,
//! dice rolls with advantage and disadvantage, ability checks and saving
//! throws against a difficulty value, a two-roster surprise contest, and a
//! currency converter.

mod checks;
mod coins;
mod dice;
mod errors;
mod model;
mod progression;
mod surprise;

pub use checks::{
    ability_modifier, ability_score_of, ac_proficiency, ac_skills_of, check_bonus,
    lemma_proficiency_granted_once, outcome_against_dc, save_bonus, spec_outcome,
    spec_proficiency_bonus, st_proficiency, st_skills_of,
};
pub use coins::{copper_total, denomination_value};
pub use errors::{DndError, RangeParam};
pub use model::{
    Abilities, AbilityScores, Coins, CoinType, CombatPhase, DamageType, DNDResult, HashedPlayers,
    Modifiers, Player, Position, Weapon, WeaponCategory, default_ability_scores, default_coins,
    player_maps_empty,
};
pub use progression::{level_of_exp, proficiency_bonus_of_level};
pub use surprise::{
    find_player, lemma_find_player_first, lemma_find_player_sound, lemma_missing_hiders_sound,
    missing_hiders, present_hiders, roster_has, spec_passive_perception, stealth_in_range,
    surprise_entries_ok,
};
