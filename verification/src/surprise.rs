use vstd::prelude::*;
use std::collections::HashMap;

use crate::checks::{ability_score_of, check_bonus};
use crate::errors::DndError;
use crate::model::{Abilities, Player, Position};

verus! {

/// The passive perception of an actor: 10 plus its wisdom modifier plus its
/// wisdom ability-check proficiency bonus. It is fixed, never rolled.
/// Meaningful for `p.exp >= 0`.
pub open spec fn spec_passive_perception(p: Player) -> int {
    10 + check_bonus(p, Abilities::Wisdom)
}

/// The index of the first actor of a roster carrying a name, or -1 when no
/// actor does.
pub open spec fn find_player(roster: Seq<Player>, name: Seq<char>) -> int
    decreases roster.len(),
{
    if roster.len() == 0 {
        -1
    } else if roster[0].name@ == name {
        0
    } else {
        let tail = find_player(roster.drop_first(), name);
        if tail < 0 {
            -1
        } else {
            1 + tail
        }
    }
}

/// Whether some actor of a roster carries a name.
pub open spec fn roster_has(roster: Seq<Player>, name: Seq<char>) -> bool {
    find_player(roster, name) >= 0
}

/// A found index points at an actor with the searched name; a miss means no
/// actor carries it.
pub proof fn lemma_find_player_sound(roster: Seq<Player>, name: Seq<char>)
    ensures
        roster_has(roster, name) ==> 0 <= find_player(roster, name) < roster.len()
            && roster[find_player(roster, name)].name@ == name,
        !roster_has(roster, name) ==> forall|i: int|
            0 <= i < roster.len() ==> (#[trigger] roster[i]).name@ != name,
    decreases roster.len(),
{
    if roster.len() > 0 && roster[0].name@ != name {
        lemma_find_player_sound(roster.drop_first(), name);
        assert forall|i: int| 0 <= i < roster.len() && !roster_has(roster, name) implies (
        #[trigger] roster[i]).name@ != name by {
            if i > 0 {
                assert(roster.drop_first()[i - 1] == roster[i]);
            }
        }
    }
}

/// The first index whose actor carries the searched name is the one
/// `find_player` yields.
pub proof fn lemma_find_player_first(roster: Seq<Player>, name: Seq<char>, i: int)
    requires
        0 <= i < roster.len(),
        roster[i].name@ == name,
        forall|j: int| 0 <= j < i ==> (#[trigger] roster[j]).name@ != name,
    ensures
        find_player(roster, name) == i,
    decreases roster.len(),
{
    if i > 0 {
        assert(roster[0].name@ != name);
        assert(roster.drop_first()[i - 1] == roster[i]);
        assert forall|j: int| 0 <= j < i - 1 implies (#[trigger] roster.drop_first()[j]).name@
            != name by {
            assert(roster.drop_first()[j] == roster[j + 1]);
        }
        lemma_find_player_first(roster.drop_first(), name, i - 1);
    }
}

/// The index of the first actor with the given name, if any.
fn find_by_name(roster: &Vec<Player>, name: &String) -> (r: Option<usize>)
    ensures
        r.is_some() <==> roster_has(roster@, name@),
        r.is_some() ==> r.unwrap() == find_player(roster@, name@) && r.unwrap() < roster@.len()
            && roster@[r.unwrap() as int].name@ == name@,
{
    let n = roster.len();
    let mut i: usize = 0;
    while i < n
        invariant
            0 <= i <= n,
            n == roster@.len(),
            forall|j: int| 0 <= j < i ==> (#[trigger] roster@[j]).name@ != name@,
        decreases n - i,
    {
        if roster[i].name == *name {
            proof {
                lemma_find_player_first(roster@, name@, i as int);
            }
            return Some(i);
        }
        i = i + 1;
    }
    proof {
        lemma_find_player_sound(roster@, name@);
    }
    None
}

impl Player {
    /// The passive perception of this actor: 10 plus its wisdom modifier
    /// plus its wisdom ability-check proficiency bonus. Fails on negative
    /// experience.
    pub fn passive_perception(&self) -> (r: Result<i32, DndError>)
        ensures
            r.is_ok() <==> self.exp >= 0,
            self.exp < 0 ==> r == Err::<i32, DndError>(DndError::InvalidExperience),
            r.is_ok() ==> r.unwrap() == spec_passive_perception(*self),
    {
        let modifier = self.ability_scores_to_modifiers();
        let proficiency = match self.proficiency_modifiers() {
            Ok(m) => m,
            Err(e) => {
                return Err(e);
            },
        };
        proof {
            crate::checks::lemma_ability_modifier_bounds(
                ability_score_of(*self, Abilities::Wisdom),
            );
        }
        Ok(10 + modifier.wisdom + proficiency.wisdom)
    }
}

/// The passive perception of every actor of a roster, in roster order.
/// Fails when any of them has negative experience.
fn passive_perceptions(roster: &Vec<Player>) -> (r: Result<Vec<i32>, DndError>)
    ensures
        r.is_ok() <==> (forall|i: int| 0 <= i < roster@.len() ==> (#[trigger] roster@[i]).exp >= 0),
        r.is_err() ==> r == Err::<Vec<i32>, DndError>(DndError::InvalidExperience),
        r.is_ok() ==> {
            let v = r.unwrap();
            &&& v@.len() == roster@.len()
            &&& forall|i: int|
                0 <= i < roster@.len() ==> #[trigger] v@[i] == spec_passive_perception(roster@[i])
        },
{
    let n = roster.len();
    let mut v: Vec<i32> = Vec::new();
    let mut i: usize = 0;
    while i < n
        invariant
            0 <= i <= n,
            n == roster@.len(),
            v@.len() == i,
            forall|j: int| 0 <= j < i ==> (#[trigger] roster@[j]).exp >= 0,
            forall|j: int| 0 <= j < i ==> #[trigger] v@[j] == spec_passive_perception(roster@[j]),
        decreases n - i,
    {
        match roster[i].passive_perception() {
            Ok(pp) => {
                v.push(pp);
            },
            Err(e) => {
                return Err(e);
            },
        }
        i = i + 1;
    }
    Ok(v)
}

/// The names of a hide list that match no actor of the roster, in list
/// order.
pub open spec fn missing_hiders(hide: Seq<String>, roster: Seq<Player>) -> Seq<Seq<char>>
    decreases hide.len(),
{
    if hide.len() == 0 {
        Seq::empty()
    } else {
        let rest = missing_hiders(hide.drop_last(), roster);
        if roster_has(roster, hide.last()@) {
            rest
        } else {
            rest.push(hide.last()@)
        }
    }
}

/// The actors of a roster named by a hide list, in list order; a name that
/// matches no actor contributes nothing.
pub open spec fn present_hiders(hide: Seq<String>, roster: Seq<Player>) -> Seq<Player>
    decreases hide.len(),
{
    if hide.len() == 0 {
        Seq::empty()
    } else {
        let rest = present_hiders(hide.drop_last(), roster);
        if roster_has(roster, hide.last()@) {
            rest.push(roster[find_player(roster, hide.last()@)])
        } else {
            rest
        }
    }
}

/// Every name `missing_hiders` keeps comes from the hide list and matches
/// no actor of the roster.
pub proof fn lemma_missing_hiders_sound(hide: Seq<String>, roster: Seq<Player>)
    ensures
        forall|i: int|
            0 <= i < missing_hiders(hide, roster).len() ==> {
                let nm = #[trigger] missing_hiders(hide, roster)[i];
                &&& exists|j: int| 0 <= j < hide.len() && (#[trigger] hide[j])@ == nm
                &&& !roster_has(roster, nm)
            },
    decreases hide.len(),
{
    if hide.len() > 0 {
        lemma_missing_hiders_sound(hide.drop_last(), roster);
        let rest = missing_hiders(hide.drop_last(), roster);
        assert forall|i: int| 0 <= i < missing_hiders(hide, roster).len() implies {
            let nm = #[trigger] missing_hiders(hide, roster)[i];
            &&& exists|j: int| 0 <= j < hide.len() && (#[trigger] hide[j])@ == nm
            &&& !roster_has(roster, nm)
        } by {
            let nm = missing_hiders(hide, roster)[i];
            if i < rest.len() {
                let j = choose|j: int| 0 <= j < hide.drop_last().len() && (#[trigger] hide.drop_last()[j])@ == nm;
                assert(hide[j] == hide.drop_last()[j]);
            } else {
                assert(nm == hide.last()@);
                assert(hide[hide.len() - 1] == hide.last());
            }
        }
    }
}

/// The range one hider's rolled stealth total can fall in: one unmodified
/// twenty-sided die plus the hider's fixed charisma check bonus.
pub open spec fn stealth_in_range(p: Player, s: int) -> bool {
    1 + check_bonus(p, Abilities::Charisma) <= s <= 20 + check_bonus(p, Abilities::Charisma)
}

/// Rolls the stealth total of every declared hider found in the roster —
/// one unmodified single-die charisma check each — and collects the
/// declared names that match no actor.
fn roll_stealths(roster: &Vec<Player>, hide: &Vec<String>, rng: &mut rand::rngs::StdRng) -> (r: (
    Vec<i32>,
    Vec<String>,
))
    requires
        forall|i: int| 0 <= i < roster@.len() ==> (#[trigger] roster@[i]).exp >= 0,
    ensures
        r.0@.len() == present_hiders(hide@, roster@).len(),
        forall|k: int|
            0 <= k < r.0@.len() ==> stealth_in_range(
                present_hiders(hide@, roster@)[k],
                #[trigger] r.0@[k] as int,
            ),
        r.1@.len() == missing_hiders(hide@, roster@).len(),
        forall|k: int|
            0 <= k < r.1@.len() ==> (#[trigger] r.1@[k])@ == missing_hiders(hide@, roster@)[k],
{
    let n = hide.len();
    let mut stealths: Vec<i32> = Vec::new();
    let mut missing: Vec<String> = Vec::new();
    let mut i: usize = 0;
    while i < n
        invariant
            0 <= i <= n,
            n == hide@.len(),
            forall|t: int| 0 <= t < roster@.len() ==> (#[trigger] roster@[t]).exp >= 0,
            stealths@.len() == present_hiders(hide@.take(i as int), roster@).len(),
            forall|k: int|
                0 <= k < stealths@.len() ==> stealth_in_range(
                    present_hiders(hide@.take(i as int), roster@)[k],
                    #[trigger] stealths@[k] as int,
                ),
            missing@.len() == missing_hiders(hide@.take(i as int), roster@).len(),
            forall|k: int|
                0 <= k < missing@.len() ==> (#[trigger] missing@[k])@ == missing_hiders(
                    hide@.take(i as int),
                    roster@,
                )[k],
        decreases n - i,
    {
        proof {
            assert(hide@.take(i as int + 1).drop_last() =~= hide@.take(i as int));
            assert(hide@.take(i as int + 1).last() == hide@[i as int]);
        }
        match find_by_name(roster, &hide[i]) {
            Some(idx) => {
                let hider = &roster[idx];
                let s = match hider.ability_check_stat(Abilities::Charisma, 1, 0, rng) {
                    Ok(s) => s,
                    Err(_) => vstd::pervasive::unreached(),
                };
                stealths.push(s);
            },
            None => {
                missing.push(hide[i].clone());
            },
        }
        i = i + 1;
    }
    proof {
        assert(hide@.take(n as int) =~= hide@);
    }
    (stealths, missing)
}

/// Whether any rolled stealth value beats a perception score.
fn any_exceeds(stealths: &Vec<i32>, perception: i32) -> (r: bool)
    ensures
        r == exists|k: int| 0 <= k < stealths@.len() && #[trigger] stealths@[k] > perception,
{
    let n = stealths.len();
    let mut i: usize = 0;
    while i < n
        invariant
            0 <= i <= n,
            n == stealths@.len(),
            forall|k: int| 0 <= k < i ==> #[trigger] stealths@[k] <= perception,
        decreases n - i,
    {
        if stealths[i] > perception {
            return true;
        }
        i = i + 1;
    }
    false
}

/// One roster's outcome table: a zero entry for each declared hider the
/// roster lacks, then — only when some opposing hider is present — one entry
/// per roster member: surprised (1) when some hider's stealth beats the
/// member's perception score, not surprised (2) otherwise.
fn side_entries(
    missing: &Vec<String>,
    defenders: &Vec<Player>,
    perceptions: &Vec<i32>,
    stealths: &Vec<i32>,
) -> (r: Vec<(String, i32)>)
    requires
        perceptions@.len() == defenders@.len(),
    ensures
        stealths@.len() == 0 ==> r@.len() == missing@.len(),
        stealths@.len() > 0 ==> r@.len() == missing@.len() + defenders@.len(),
        forall|i: int|
            0 <= i < missing@.len() ==> (#[trigger] r@[i]).0@ == missing@[i]@ && r@[i].1 == 0,
        forall|j: int|
            0 <= j < defenders@.len() && stealths@.len() > 0 ==> {
                let e = #[trigger] r@[missing@.len() + j];
                &&& e.0@ == defenders@[j].name@
                &&& e.1 == (if exists|t: int|
                    0 <= t < stealths@.len() && #[trigger] stealths@[t] > perceptions@[j] {
                    1i32
                } else {
                    2i32
                })
            },
{
    let mut r: Vec<(String, i32)> = Vec::new();
    let m = missing.len();
    let mut i: usize = 0;
    while i < m
        invariant
            0 <= i <= m,
            m == missing@.len(),
            r@.len() == i,
            forall|k: int|
                0 <= k < i ==> (#[trigger] r@[k]).0@ == missing@[k]@ && r@[k].1 == 0,
        decreases m - i,
    {
        r.push((missing[i].clone(), 0));
        i = i + 1;
    }
    if stealths.len() > 0 {
        let d = defenders.len();
        let mut j: usize = 0;
        while j < d
            invariant
                0 <= j <= d,
                d == defenders@.len(),
                m == missing@.len(),
                perceptions@.len() == defenders@.len(),
                stealths@.len() > 0,
                r@.len() == m + j,
                forall|k: int|
                    0 <= k < m ==> (#[trigger] r@[k]).0@ == missing@[k]@ && r@[k].1 == 0,
                forall|k: int|
                    0 <= k < j ==> {
                        let e = #[trigger] r@[m + k];
                        &&& e.0@ == defenders@[k].name@
                        &&& e.1 == (if exists|t: int|
                            0 <= t < stealths@.len() && #[trigger] stealths@[t] > perceptions@[k] {
                            1i32
                        } else {
                            2i32
                        })
                    },
            decreases d - j,
        {
            let surprised = any_exceeds(stealths, perceptions[j]);
            let outcome: i32 = if surprised {
                1
            } else {
                2
            };
            r.push((defenders[j].name.clone(), outcome));
            j = j + 1;
        }
    }
    r
}

/// The shape of one roster's surprise table. With `own` the roster the
/// table speaks of, `own_hide` its declared hiders, and `opp`/`opp_hide`
/// the opposing roster and hiders:
/// - one entry, outcome 0, per declared own hider the own roster lacks;
/// - then, only when some opposing hider is present, one entry per own
///   member, in roster order, whose outcome is 1 (surprised) or 2 (not
///   surprised): certainly 2 when the member's passive perception reaches
///   every opposing hider's best possible stealth, and certainly 1 when it
///   falls below some opposing hider's worst;
/// - an outcome 0 marks nothing but a declared hider genuinely missing from
///   its own roster.
pub open spec fn surprise_entries_ok(
    entries: Seq<(String, i32)>,
    own_hide: Seq<String>,
    own: Seq<Player>,
    opp_hide: Seq<String>,
    opp: Seq<Player>,
) -> bool {
    let miss = missing_hiders(own_hide, own);
    let hiders = present_hiders(opp_hide, opp);
    &&& entries.len() == miss.len() + (if hiders.len() > 0 {
        own.len() as int
    } else {
        0
    })
    &&& (forall|i: int|
        0 <= i < miss.len() ==> (#[trigger] entries[i]).0@ == miss[i] && entries[i].1 == 0)
    &&& (forall|j: int|
        0 <= j < own.len() && hiders.len() > 0 ==> {
            let e = #[trigger] entries[miss.len() + j];
            &&& e.0@ == own[j].name@
            &&& (e.1 == 1 || e.1 == 2)
            &&& ((forall|k: int|
                0 <= k < hiders.len() ==> spec_passive_perception(own[j]) >= 20 + check_bonus(
                    #[trigger] hiders[k],
                    Abilities::Charisma,
                )) ==> e.1 == 2)
            &&& ((exists|k: int|
                0 <= k < hiders.len() && spec_passive_perception(own[j]) < 1 + check_bonus(
                    #[trigger] hiders[k],
                    Abilities::Charisma,
                )) ==> e.1 == 1)
        })
    &&& (forall|i: int|
        0 <= i < entries.len() && (#[trigger] entries[i]).1 == 0 ==> !roster_has(
            own,
            entries[i].0@,
        ) && (exists|j: int| 0 <= j < own_hide.len() && (#[trigger] own_hide[j])@ == entries[i].0@))
}

/// Assembles the component facts of the helpers into the shape of one
/// roster's surprise table.
proof fn lemma_side_ok(
    entries: Seq<(String, i32)>,
    own_hide: Seq<String>,
    own: Seq<Player>,
    opp_hide: Seq<String>,
    opp: Seq<Player>,
    missing: Seq<String>,
    perceptions: Seq<i32>,
    stealths: Seq<i32>,
)
    requires
        perceptions.len() == own.len(),
        forall|i: int|
            0 <= i < own.len() ==> #[trigger] perceptions[i] == spec_passive_perception(own[i]),
        missing.len() == missing_hiders(own_hide, own).len(),
        forall|k: int|
            0 <= k < missing.len() ==> (#[trigger] missing[k])@ == missing_hiders(own_hide, own)[k],
        stealths.len() == present_hiders(opp_hide, opp).len(),
        forall|k: int|
            0 <= k < stealths.len() ==> stealth_in_range(
                present_hiders(opp_hide, opp)[k],
                #[trigger] stealths[k] as int,
            ),
        stealths.len() == 0 ==> entries.len() == missing.len(),
        stealths.len() > 0 ==> entries.len() == missing.len() + own.len(),
        forall|i: int|
            0 <= i < missing.len() ==> (#[trigger] entries[i]).0@ == missing[i]@ && entries[i].1
                == 0,
        forall|j: int|
            0 <= j < own.len() && stealths.len() > 0 ==> {
                let e = #[trigger] entries[missing.len() + j];
                &&& e.0@ == own[j].name@
                &&& e.1 == (if exists|t: int|
                    0 <= t < stealths.len() && #[trigger] stealths[t] > perceptions[j] {
                    1i32
                } else {
                    2i32
                })
            },
    ensures
        surprise_entries_ok(entries, own_hide, own, opp_hide, opp),
{
    let miss = missing_hiders(own_hide, own);
    let hiders = present_hiders(opp_hide, opp);
    lemma_missing_hiders_sound(own_hide, own);
    assert forall|j: int| 0 <= j < own.len() && hiders.len() > 0 implies {
        let e = #[trigger] entries[miss.len() + j];
        &&& e.0@ == own[j].name@
        &&& (e.1 == 1 || e.1 == 2)
        &&& ((forall|k: int|
            0 <= k < hiders.len() ==> spec_passive_perception(own[j]) >= 20 + check_bonus(
                #[trigger] hiders[k],
                Abilities::Charisma,
            )) ==> e.1 == 2)
        &&& ((exists|k: int|
            0 <= k < hiders.len() && spec_passive_perception(own[j]) < 1 + check_bonus(
                #[trigger] hiders[k],
                Abilities::Charisma,
            )) ==> e.1 == 1)
    } by {
        let e = entries[missing.len() + j];
        assert(e.0@ == own[j].name@);
        if forall|k: int|
            0 <= k < hiders.len() ==> spec_passive_perception(own[j]) >= 20 + check_bonus(
                #[trigger] hiders[k],
                Abilities::Charisma,
            ) {
            assert forall|t: int| 0 <= t < stealths.len() implies !(#[trigger] stealths[t]
                > perceptions[j]) by {
                assert(stealth_in_range(hiders[t], stealths[t] as int));
                assert(spec_passive_perception(own[j]) >= 20 + check_bonus(
                    hiders[t],
                    Abilities::Charisma,
                ));
            }
            assert(e.1 == 2);
        }
        if exists|k: int|
            0 <= k < hiders.len() && spec_passive_perception(own[j]) < 1 + check_bonus(
                #[trigger] hiders[k],
                Abilities::Charisma,
            ) {
            let k = choose|k: int|
                0 <= k < hiders.len() && spec_passive_perception(own[j]) < 1 + check_bonus(
                    #[trigger] hiders[k],
                    Abilities::Charisma,
                );
            assert(stealth_in_range(hiders[k], stealths[k] as int));
            assert(stealths[k] > perceptions[j]);
            assert(e.1 == 1);
        }
    }
    assert forall|i: int| 0 <= i < entries.len() && (#[trigger] entries[i]).1 == 0 implies
        !roster_has(own, entries[i].0@) && (exists|j: int|
        0 <= j < own_hide.len() && (#[trigger] own_hide[j])@ == entries[i].0@) by {
        if i >= miss.len() {
            let j = i - miss.len();
            assert(entries[missing.len() + j] == entries[i]);
            assert(false);
        } else {
            assert(entries[i].0@ == missing[i]@);
            assert(missing[i]@ == miss[i]);
        }
    }
}

impl Player {
    /// Resolves the surprise contest between two rosters at combat start.
    ///
    /// Every actor of both rosters first gets a passive perception score;
    /// an actor with negative experience makes the whole contest fail.
    /// Each declared hider found in its roster then rolls one stealth total
    /// — a single unmodified charisma check. A roster member is surprised
    /// (1) when some opposing hider's stealth beats the member's passive
    /// perception, and not surprised (2) otherwise, ties defending; a
    /// declared hider its own roster lacks is marked absent (0) in that
    /// roster's table. Members face no entry at all when no opposing hider
    /// is present.
    pub fn determine_surprise(
        players_1: &Vec<Player>,
        players_2: &Vec<Player>,
        hide_1: &Vec<String>,
        hide_2: &Vec<String>,
        rng: &mut rand::rngs::StdRng,
    ) -> (r: Result<(Vec<(String, i32)>, Vec<(String, i32)>), DndError>)
        ensures
            r.is_ok() <==> ((forall|i: int|
                0 <= i < players_1@.len() ==> (#[trigger] players_1@[i]).exp >= 0) && (forall|
                i: int,
            |
                0 <= i < players_2@.len() ==> (#[trigger] players_2@[i]).exp >= 0)),
            r.is_err() ==> r == Err::<(Vec<(String, i32)>, Vec<(String, i32)>), DndError>(
                DndError::InvalidExperience,
            ),
            r.is_ok() ==> surprise_entries_ok(
                r.unwrap().0@,
                hide_1@,
                players_1@,
                hide_2@,
                players_2@,
            ),
            r.is_ok() ==> surprise_entries_ok(
                r.unwrap().1@,
                hide_2@,
                players_2@,
                hide_1@,
                players_1@,
            ),
    {
        let pp1 = match passive_perceptions(players_1) {
            Ok(v) => v,
            Err(e) => {
                return Err(e);
            },
        };
        let pp2 = match passive_perceptions(players_2) {
            Ok(v) => v,
            Err(e) => {
                return Err(e);
            },
        };
        let (stealth1, missing1) = roll_stealths(players_1, hide_1, rng);
        let (stealth2, missing2) = roll_stealths(players_2, hide_2, rng);
        let ret1 = side_entries(&missing1, players_1, &pp1, &stealth2);
        let ret2 = side_entries(&missing2, players_2, &pp2, &stealth1);
        proof {
            lemma_side_ok(
                ret1@,
                hide_1@,
                players_1@,
                hide_2@,
                players_2@,
                missing1@,
                pp1@,
                stealth2@,
            );
            lemma_side_ok(
                ret2@,
                hide_2@,
                players_2@,
                hide_1@,
                players_1@,
                missing2@,
                pp2@,
                stealth1@,
            );
        }
        Ok((ret1, ret2))
    }
}

/// Two empty-roster placeholders follow: combat placement and initiative are
/// out of the engine's scope, so both resolve to the empty mapping.
impl Player {
    /// Placement of the actors on the grid is left to a future combat
    /// implementation; no position is assigned.
    pub fn establish_positions(players_1: &Vec<Player>, players_2: &Vec<Player>) -> (r: HashMap<
        String,
        Position,
    >)
        ensures
            r@ == Map::<String, Position>::empty(),
    {
        HashMap::new()
    }

    /// Initiative order is left to a future combat implementation; no roll
    /// is made.
    pub fn roll_initiative(players_1: &Vec<Player>, players_2: &Vec<Player>) -> (r: HashMap<
        String,
        i32,
    >)
        ensures
            r@ == Map::<String, i32>::empty(),
    {
        HashMap::new()
    }
}

} // verus!
