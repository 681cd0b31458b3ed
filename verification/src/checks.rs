use vstd::prelude::*;

use crate::errors::{DndError, RangeParam};
use crate::model::{Abilities, DNDResult, Modifiers, Player};
use crate::progression::{level_of_exp, proficiency_bonus_of_level};

verus! {

/// The modifier a raw ability score grants: `(score - 10) / 2` with the
/// division truncating toward zero, so a score of 9 grants 0, not -1.
pub open spec fn ability_modifier(score: int) -> int {
    if score >= 10 {
        (score - 10) / 2
    } else {
        -((10 - score) / 2)
    }
}

/// The raw score a player has for one ability.
pub open spec fn ability_score_of(p: Player, a: Abilities) -> int {
    match a {
        Abilities::Strength => p.ability_scores.strength as int,
        Abilities::Dexterity => p.ability_scores.dexterity as int,
        Abilities::Constitution => p.ability_scores.constitution as int,
        Abilities::Intelligence => p.ability_scores.intelligence as int,
        Abilities::Wisdom => p.ability_scores.wisdom as int,
        Abilities::Charisma => p.ability_scores.charisma as int,
    }
}

/// The proficiency bonus a player's experience grants. Meaningful for
/// `p.exp >= 0`; it then lies between 2 and 6.
pub open spec fn spec_proficiency_bonus(p: Player) -> int {
    proficiency_bonus_of_level(level_of_exp(p.exp as int))
}

/// The skill map that grants ability-check proficiency for one ability.
pub open spec fn ac_skills_of(p: Player, a: Abilities) -> Map<String, i32> {
    match a {
        Abilities::Strength => p.skills_for_ac_strength@,
        Abilities::Dexterity => p.skills_for_ac_dexterity@,
        Abilities::Constitution => p.skills_for_ac_constitution@,
        Abilities::Intelligence => p.skills_for_ac_intelligence@,
        Abilities::Wisdom => p.skills_for_ac_wisdom@,
        Abilities::Charisma => p.skills_for_ac_charisma@,
    }
}

/// The skill map that grants saving-throw proficiency for one ability.
pub open spec fn st_skills_of(p: Player, a: Abilities) -> Map<String, i32> {
    match a {
        Abilities::Strength => p.skills_for_st_strength@,
        Abilities::Dexterity => p.skills_for_st_dexterity@,
        Abilities::Constitution => p.skills_for_st_constitution@,
        Abilities::Intelligence => p.skills_for_st_intelligence@,
        Abilities::Wisdom => p.skills_for_st_wisdom@,
        Abilities::Charisma => p.skills_for_st_charisma@,
    }
}

/// The ability-check proficiency bonus for one ability: the level-derived
/// bonus exactly once if any skill entry is present for that ability, else
/// 0, however many entries the map holds. Meaningful for `p.exp >= 0`.
pub open spec fn ac_proficiency(p: Player, a: Abilities) -> int {
    if ac_skills_of(p, a).is_empty() {
        0
    } else {
        spec_proficiency_bonus(p)
    }
}

/// The saving-throw proficiency bonus for one ability, granted at most once,
/// as for `ac_proficiency`. Meaningful for `p.exp >= 0`.
pub open spec fn st_proficiency(p: Player, a: Abilities) -> int {
    if st_skills_of(p, a).is_empty() {
        0
    } else {
        spec_proficiency_bonus(p)
    }
}

/// Proficiency never stacks: however many skill entries populate an
/// ability's map, the per-ability bonus is either 0 — exactly when the map
/// is empty — or the level-derived bonus exactly once, never a multiple.
/// This holds for ability checks and saving throws alike.
pub proof fn lemma_proficiency_granted_once(p: Player, a: Abilities)
    ensures
        ac_skills_of(p, a).is_empty() ==> ac_proficiency(p, a) == 0,
        !ac_skills_of(p, a).is_empty() ==> ac_proficiency(p, a) == spec_proficiency_bonus(p),
        st_skills_of(p, a).is_empty() ==> st_proficiency(p, a) == 0,
        !st_skills_of(p, a).is_empty() ==> st_proficiency(p, a) == spec_proficiency_bonus(p),
{
}

/// The whole fixed bonus an ability check adds to the dice: the score
/// modifier plus the ability-check proficiency bonus. Meaningful for
/// `p.exp >= 0`.
pub open spec fn check_bonus(p: Player, a: Abilities) -> int {
    ability_modifier(ability_score_of(p, a)) + ac_proficiency(p, a)
}

/// The whole fixed bonus a saving throw adds to the dice: the score modifier
/// plus the saving-throw proficiency bonus. Meaningful for `p.exp >= 0`.
pub open spec fn save_bonus(p: Player, a: Abilities) -> int {
    ability_modifier(ability_score_of(p, a)) + st_proficiency(p, a)
}

/// The three-way outcome of a rolled total against a difficulty value:
/// above it wins, exactly equal ties, below it loses.
pub open spec fn spec_outcome(total: int, dc: int) -> DNDResult {
    if total > dc {
        DNDResult::Win
    } else if total == dc {
        DNDResult::Tie
    } else {
        DNDResult::Lose
    }
}

/// Compares a rolled check total to a difficulty value: a total above the
/// value wins, an exactly equal one ties, a lower one loses.
pub fn outcome_against_dc(total: i32, dc: i32) -> (r: DNDResult)
    ensures
        r == spec_outcome(total as int, dc as int),
{
    if total > dc {
        DNDResult::Win
    } else if total == dc {
        DNDResult::Tie
    } else {
        DNDResult::Lose
    }
}

/// The modifier a score can grant stays within these bounds for any score
/// a 32-bit field can hold, so adding it to a small dice total never
/// overflows a 32-bit register.
pub(crate) proof fn lemma_ability_modifier_bounds(score: int)
    requires
        i32::MIN <= score <= i32::MAX,
    ensures
        -0x4000_0005 <= ability_modifier(score) <= 0x4000_0000,
{
    if score >= 10 {
        vstd::arithmetic::div_mod::lemma_div_pos_is_pos(score - 10, 2);
        vstd::arithmetic::div_mod::lemma_div_is_ordered(score - 10, 0x7fff_ffff, 2);
    } else {
        vstd::arithmetic::div_mod::lemma_div_pos_is_pos(10 - score, 2);
        vstd::arithmetic::div_mod::lemma_div_is_ordered(10 - score, 0x8000_000a, 2);
    }
}

/// The modifier one raw score grants, truncating toward zero.
fn modifier_of_score(score: i32) -> (m: i32)
    ensures
        m == ability_modifier(score as int),
{
    if score >= 10 {
        (score - 10) / 2
    } else {
        let d: i64 = 10 - (score as i64);
        let q: i64 = d / 2;
        (-q) as i32
    }
}

impl Player {
    /// The six score-derived modifiers of this actor. Pure and total.
    pub fn ability_scores_to_modifiers(&self) -> (m: Modifiers)
        ensures
            m.strength == ability_modifier(self.ability_scores.strength as int),
            m.dexterity == ability_modifier(self.ability_scores.dexterity as int),
            m.constitution == ability_modifier(self.ability_scores.constitution as int),
            m.intelligence == ability_modifier(self.ability_scores.intelligence as int),
            m.wisdom == ability_modifier(self.ability_scores.wisdom as int),
            m.charisma == ability_modifier(self.ability_scores.charisma as int),
    {
        Modifiers {
            strength: modifier_of_score(self.ability_scores.strength),
            dexterity: modifier_of_score(self.ability_scores.dexterity),
            constitution: modifier_of_score(self.ability_scores.constitution),
            intelligence: modifier_of_score(self.ability_scores.intelligence),
            wisdom: modifier_of_score(self.ability_scores.wisdom),
            charisma: modifier_of_score(self.ability_scores.charisma),
        }
    }

    /// The level-derived proficiency bonus of this actor, failing on
    /// negative experience.
    fn proficiency_bonus(&self) -> (r: Result<i32, DndError>)
        ensures
            r.is_ok() <==> self.exp >= 0,
            self.exp < 0 ==> r == Err::<i32, DndError>(DndError::InvalidExperience),
            r.is_ok() ==> r.unwrap() == spec_proficiency_bonus(*self) && 2 <= r.unwrap() <= 6,
    {
        let level = match Player::exp_to_level(self.exp) {
            Ok(level) => level,
            Err(e) => {
                return Err(e);
            },
        };
        match Player::level_to_proficiency_modifier(level) {
            Some(bonus) => Ok(bonus),
            None => vstd::pervasive::unreached(),
        }
    }

    /// The per-ability proficiency bonuses this actor gains on ability
    /// checks: the level-derived bonus exactly once for each ability whose
    /// skill map is non-empty, and 0 for each ability whose map is empty.
    /// Fails on negative experience instead of aborting.
    pub fn proficiency_modifiers(&self) -> (r: Result<Modifiers, DndError>)
        ensures
            r.is_ok() <==> self.exp >= 0,
            self.exp < 0 ==> r == Err::<Modifiers, DndError>(DndError::InvalidExperience),
            r.is_ok() ==> {
                let m = r.unwrap();
                &&& m.strength == ac_proficiency(*self, Abilities::Strength)
                &&& m.dexterity == ac_proficiency(*self, Abilities::Dexterity)
                &&& m.constitution == ac_proficiency(*self, Abilities::Constitution)
                &&& m.intelligence == ac_proficiency(*self, Abilities::Intelligence)
                &&& m.wisdom == ac_proficiency(*self, Abilities::Wisdom)
                &&& m.charisma == ac_proficiency(*self, Abilities::Charisma)
            },
    {
        let bonus = match self.proficiency_bonus() {
            Ok(bonus) => bonus,
            Err(e) => {
                return Err(e);
            },
        };
        Ok(Modifiers {
            strength: if self.skills_for_ac_strength.is_empty() { 0 } else { bonus },
            dexterity: if self.skills_for_ac_dexterity.is_empty() { 0 } else { bonus },
            constitution: if self.skills_for_ac_constitution.is_empty() { 0 } else { bonus },
            intelligence: if self.skills_for_ac_intelligence.is_empty() { 0 } else { bonus },
            wisdom: if self.skills_for_ac_wisdom.is_empty() { 0 } else { bonus },
            charisma: if self.skills_for_ac_charisma.is_empty() { 0 } else { bonus },
        })
    }

    /// The per-ability proficiency bonuses this actor gains on saving
    /// throws, granted once per non-empty saving-throw skill map, as for
    /// `proficiency_modifiers`. Fails on negative experience.
    pub fn saving_throw_modifiers(&self) -> (r: Result<Modifiers, DndError>)
        ensures
            r.is_ok() <==> self.exp >= 0,
            self.exp < 0 ==> r == Err::<Modifiers, DndError>(DndError::InvalidExperience),
            r.is_ok() ==> {
                let m = r.unwrap();
                &&& m.strength == st_proficiency(*self, Abilities::Strength)
                &&& m.dexterity == st_proficiency(*self, Abilities::Dexterity)
                &&& m.constitution == st_proficiency(*self, Abilities::Constitution)
                &&& m.intelligence == st_proficiency(*self, Abilities::Intelligence)
                &&& m.wisdom == st_proficiency(*self, Abilities::Wisdom)
                &&& m.charisma == st_proficiency(*self, Abilities::Charisma)
            },
    {
        let bonus = match self.proficiency_bonus() {
            Ok(bonus) => bonus,
            Err(e) => {
                return Err(e);
            },
        };
        Ok(Modifiers {
            strength: if self.skills_for_st_strength.is_empty() { 0 } else { bonus },
            dexterity: if self.skills_for_st_dexterity.is_empty() { 0 } else { bonus },
            constitution: if self.skills_for_st_constitution.is_empty() { 0 } else { bonus },
            intelligence: if self.skills_for_st_intelligence.is_empty() { 0 } else { bonus },
            wisdom: if self.skills_for_st_wisdom.is_empty() { 0 } else { bonus },
            charisma: if self.skills_for_st_charisma.is_empty() { 0 } else { bonus },
        })
    }

    /// The total of an ability check: a twenty-sided aggregate roll plus the
    /// ability's modifier plus its ability-check proficiency bonus. The die
    /// count and advantage flag are validated, and a negative experience
    /// total is reported, before any die is cast.
    pub fn ability_check_stat(
        &self,
        checker: Abilities,
        count: i32,
        advantage: i32,
        rng: &mut rand::rngs::StdRng,
    ) -> (r: Result<i32, DndError>)
        ensures
            !(1 <= count <= 10) ==> r == Err::<i32, DndError>(
                DndError::InvalidRange(RangeParam::Count),
            ),
            1 <= count <= 10 && !(-1 <= advantage <= 1) ==> r == Err::<i32, DndError>(
                DndError::InvalidRange(RangeParam::Advantage),
            ),
            1 <= count <= 10 && -1 <= advantage <= 1 && self.exp < 0 ==> r == Err::<i32, DndError>(
                DndError::InvalidExperience,
            ),
            r.is_ok() <==> (1 <= count <= 10 && -1 <= advantage <= 1 && self.exp >= 0),
            r.is_ok() ==> count + check_bonus(*self, checker) <= r.unwrap() <= 20 * count
                + check_bonus(*self, checker),
    {
        if count < 1 || count > 10 {
            return Err(DndError::InvalidRange(RangeParam::Count));
        }
        if advantage < -1 || advantage > 1 {
            return Err(DndError::InvalidRange(RangeParam::Advantage));
        }
        let modifier = self.ability_scores_to_modifiers();
        let proficiency = match self.proficiency_modifiers() {
            Ok(m) => m,
            Err(e) => {
                return Err(e);
            },
        };
        let dice_result = match Player::dice_complex(rng, 20, count, advantage) {
            Ok(d) => d,
            Err(_) => vstd::pervasive::unreached(),
        };
        let (ability, skill) = match checker {
            Abilities::Strength => (modifier.strength, proficiency.strength),
            Abilities::Dexterity => (modifier.dexterity, proficiency.dexterity),
            Abilities::Constitution => (modifier.constitution, proficiency.constitution),
            Abilities::Intelligence => (modifier.intelligence, proficiency.intelligence),
            Abilities::Wisdom => (modifier.wisdom, proficiency.wisdom),
            Abilities::Charisma => (modifier.charisma, proficiency.charisma),
        };
        proof {
            lemma_ability_modifier_bounds(ability_score_of(*self, checker));
        }
        Ok(dice_result + ability + skill)
    }

    /// An ability check against a difficulty value: the check total compared
    /// to `dc`, winning above it, tying on it, losing below it. The value,
    /// die count and advantage flag are validated in that order, and a
    /// negative experience total is reported, before any die is cast.
    pub fn ability_check(
        &self,
        checker: Abilities,
        dc: i32,
        count: i32,
        advantage: i32,
        rng: &mut rand::rngs::StdRng,
    ) -> (r: Result<DNDResult, DndError>)
        ensures
            !(1 <= dc <= 50) ==> r == Err::<DNDResult, DndError>(
                DndError::InvalidRange(RangeParam::Dc),
            ),
            1 <= dc <= 50 && !(1 <= count <= 10) ==> r == Err::<DNDResult, DndError>(
                DndError::InvalidRange(RangeParam::Count),
            ),
            1 <= dc <= 50 && 1 <= count <= 10 && !(-1 <= advantage <= 1) ==> r == Err::<
                DNDResult,
                DndError,
            >(DndError::InvalidRange(RangeParam::Advantage)),
            1 <= dc <= 50 && 1 <= count <= 10 && -1 <= advantage <= 1 && self.exp < 0 ==> r
                == Err::<DNDResult, DndError>(DndError::InvalidExperience),
            r.is_ok() <==> (1 <= dc <= 50 && 1 <= count <= 10 && -1 <= advantage <= 1 && self.exp
                >= 0),
            r.is_ok() && dc < count + check_bonus(*self, checker) ==> r.unwrap() == DNDResult::Win,
            r.is_ok() && dc > 20 * count + check_bonus(*self, checker) ==> r.unwrap()
                == DNDResult::Lose,
    {
        if dc < 1 || dc > 50 {
            return Err(DndError::InvalidRange(RangeParam::Dc));
        }
        match self.ability_check_stat(checker, count, advantage, rng) {
            Ok(total) => Ok(outcome_against_dc(total, dc)),
            Err(e) => Err(e),
        }
    }

    /// The total of a saving throw: as `ability_check_stat`, with the
    /// saving-throw proficiency bonus in place of the ability-check one.
    pub fn saving_throw_stat(
        &self,
        checker: Abilities,
        count: i32,
        advantage: i32,
        rng: &mut rand::rngs::StdRng,
    ) -> (r: Result<i32, DndError>)
        ensures
            !(1 <= count <= 10) ==> r == Err::<i32, DndError>(
                DndError::InvalidRange(RangeParam::Count),
            ),
            1 <= count <= 10 && !(-1 <= advantage <= 1) ==> r == Err::<i32, DndError>(
                DndError::InvalidRange(RangeParam::Advantage),
            ),
            1 <= count <= 10 && -1 <= advantage <= 1 && self.exp < 0 ==> r == Err::<i32, DndError>(
                DndError::InvalidExperience,
            ),
            r.is_ok() <==> (1 <= count <= 10 && -1 <= advantage <= 1 && self.exp >= 0),
            r.is_ok() ==> count + save_bonus(*self, checker) <= r.unwrap() <= 20 * count
                + save_bonus(*self, checker),
    {
        if count < 1 || count > 10 {
            return Err(DndError::InvalidRange(RangeParam::Count));
        }
        if advantage < -1 || advantage > 1 {
            return Err(DndError::InvalidRange(RangeParam::Advantage));
        }
        let modifier = self.ability_scores_to_modifiers();
        let saving = match self.saving_throw_modifiers() {
            Ok(m) => m,
            Err(e) => {
                return Err(e);
            },
        };
        let dice_result = match Player::dice_complex(rng, 20, count, advantage) {
            Ok(d) => d,
            Err(_) => vstd::pervasive::unreached(),
        };
        let (ability, skill) = match checker {
            Abilities::Strength => (modifier.strength, saving.strength),
            Abilities::Dexterity => (modifier.dexterity, saving.dexterity),
            Abilities::Constitution => (modifier.constitution, saving.constitution),
            Abilities::Intelligence => (modifier.intelligence, saving.intelligence),
            Abilities::Wisdom => (modifier.wisdom, saving.wisdom),
            Abilities::Charisma => (modifier.charisma, saving.charisma),
        };
        proof {
            lemma_ability_modifier_bounds(ability_score_of(*self, checker));
        }
        Ok(dice_result + ability + skill)
    }

    /// A saving throw against a difficulty value: as `ability_check`, with
    /// the saving-throw proficiency bonus in place of the ability-check one.
    pub fn saving_throw(
        &self,
        checker: Abilities,
        dc: i32,
        count: i32,
        advantage: i32,
        rng: &mut rand::rngs::StdRng,
    ) -> (r: Result<DNDResult, DndError>)
        ensures
            !(1 <= dc <= 50) ==> r == Err::<DNDResult, DndError>(
                DndError::InvalidRange(RangeParam::Dc),
            ),
            1 <= dc <= 50 && !(1 <= count <= 10) ==> r == Err::<DNDResult, DndError>(
                DndError::InvalidRange(RangeParam::Count),
            ),
            1 <= dc <= 50 && 1 <= count <= 10 && !(-1 <= advantage <= 1) ==> r == Err::<
                DNDResult,
                DndError,
            >(DndError::InvalidRange(RangeParam::Advantage)),
            1 <= dc <= 50 && 1 <= count <= 10 && -1 <= advantage <= 1 && self.exp < 0 ==> r
                == Err::<DNDResult, DndError>(DndError::InvalidExperience),
            r.is_ok() <==> (1 <= dc <= 50 && 1 <= count <= 10 && -1 <= advantage <= 1 && self.exp
                >= 0),
            r.is_ok() && dc < count + save_bonus(*self, checker) ==> r.unwrap() == DNDResult::Win,
            r.is_ok() && dc > 20 * count + save_bonus(*self, checker) ==> r.unwrap()
                == DNDResult::Lose,
    {
        if dc < 1 || dc > 50 {
            return Err(DndError::InvalidRange(RangeParam::Dc));
        }
        match self.saving_throw_stat(checker, count, advantage, rng) {
            Ok(total) => Ok(outcome_against_dc(total, dc)),
            Err(e) => Err(e),
        }
    }
}

} // verus!
