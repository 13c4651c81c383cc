//! Target selection: every candidate defender gets a score, and the attacker
//! takes the best one.
//!
//! Scores are counted in ten-billionths, priorities in ten-thousandths.

use vstd::prelude::*;
use rayon::iter::{IndexedParallelIterator, IntoParallelRefIterator, ParallelIterator};
use crate::combat_unit::CombatUnit;
use crate::ids::melee_type;
use crate::settings::CombatSettings;
use crate::surround::SurroundInfo;
use crate::weapon::{Weapon, DPS_CEILING};

verus! {

/// What a melee attacker gains from a target that is melee itself.
pub const BLOCKING_BONUS: i128 = 10_000_000_000_000;

/// What a melee attacker gains from a target that cannot outrun it.
pub const SLOWER_BONUS: i128 = 5_000_000_000_000;

/// What a ranged ground attacker loses on a target that would kite it.
pub const KITING_PENALTY: i128 = 10_000_000_000_000;

/// Scores no further apart than this are tied.
pub const TIE_WINDOW: i128 = 1192;

/// What an attacker knows when it looks for a target.
#[derive(Clone, Copy, Debug)]
pub struct TargetingRules {
    pub settings: CombatSettings,
    /// The attacker's side has units on the ground.
    pub has_ground: bool,
    /// The attacker's side has units that air weapons reach.
    pub has_air: bool,
    /// The attacker fights at melee range.
    pub is_unit_melee: bool,
    pub surround: SurroundInfo,
    /// The share of melee units among the opponents, in thousandths.
    pub opponent_fraction_melee_units: i32,
}

/// What one candidate is worth to the attacker.
#[derive(Clone, Copy, Debug)]
pub struct CandidateScore {
    /// The candidate is alive, and not yet surrounded where that counts.
    pub eligible: bool,
    pub score: i128,
    /// Damage per second of the attacker's better weapon against the candidate.
    pub dps: i64,
    /// That weapon.
    pub weapon: Option<Weapon>,
    /// The candidate's health plus shield.
    pub hit_points: i64,
}

/// The target an attacker has chosen.
#[derive(Clone, Copy, Debug)]
pub struct TargetChoice {
    /// Position of the target in the roster of candidates.
    pub index: usize,
    /// The weapon to use; `None` where the attacker has none for the target.
    pub weapon: Option<Weapon>,
    /// Damage per second of that weapon against the target.
    pub dps: i64,
}

/// Damage per second of a weapon against a target; zero without a weapon.
pub open spec fn weapon_dps(weapon: Option<Weapon>, attacker: CombatUnit, other: CombatUnit) -> int {
    match weapon {
        Some(w) => w.effective_dps(attacker, other),
        None => 0,
    }
}

/// Damage per second of the better of the attacker's air and ground weapons.
pub open spec fn strike_dps(attacker: CombatUnit, other: CombatUnit) -> int {
    let air = weapon_dps(attacker.air_weapon(), attacker, other);
    let ground = weapon_dps(attacker.ground_weapon(), attacker, other);
    if air > ground {
        air
    } else {
        ground
    }
}

/// The better of the attacker's air and ground weapons against a target.
pub open spec fn strike_weapon(attacker: CombatUnit, other: CombatUnit) -> Option<Weapon> {
    let air = weapon_dps(attacker.air_weapon(), attacker, other);
    let ground = weapon_dps(attacker.ground_weapon(), attacker, other);
    if air > ground {
        attacker.air_weapon()
    } else {
        attacker.ground_weapon()
    }
}

/// A unit is harmless to a side that has nothing its weapons can fire at.
pub open spec fn harmless(unit: CombatUnit, has_ground: bool, has_air: bool) -> bool {
    (!has_air && unit.ground_dps == 0) || (!has_ground && unit.air_dps == 0)
}

/// How much a unit is worth attacking: a hundredth of its adjusted cost plus
/// a thousand times its best damage per second; a hundredth of that for a
/// harmless unit.
pub open spec fn target_priority(unit: CombatUnit, has_ground: bool, has_air: bool) -> int {
    if harmless(unit, has_ground, has_air) {
        unit.adjusted_cost() + 100 * unit.max_dps()
    } else {
        100 * unit.adjusted_cost() + 10_000 * unit.max_dps()
    }
}

/// Whether the attacker may pick this candidate: it is alive, and for a melee
/// attacker under surround limits, not yet taken by as many attackers as fit
/// around it.
pub open spec fn may_target(other: CombatUnit, attack_count: int, rules: TargetingRules) -> bool {
    other.is_alive() && !(rules.is_unit_melee && rules.settings.enable_surround_limits
        && attack_count >= rules.surround.max_attackers_per_defender)
}

/// The score of a candidate: damage per second times priority, adjusted for
/// the attacker's situation.
///
/// A melee attacker that is positioned with care turns the score around, so
/// that it prefers cheap targets; with melee blocking it must first deal
/// with melee targets, and next with targets slower than 1.05 times its own
/// speed. A ranged attacker on the ground shuns targets that outrange it
/// while melee opponents keep it busy.
pub open spec fn target_value(attacker: CombatUnit, other: CombatUnit, rules: TargetingRules) -> int {
    let base = strike_dps(attacker, other) * target_priority(
        other,
        rules.has_ground,
        rules.has_air,
    );
    if rules.is_unit_melee {
        let turned = if !rules.settings.bad_micro && rules.settings.assume_reasonable_positioning {
            -base
        } else {
            base
        };
        if rules.settings.enable_melee_blocking && melee_type(other.type_id) {
            turned + BLOCKING_BONUS
        } else if rules.settings.enable_melee_blocking && 100 * other.movement_speed < 105
            * attacker.movement_speed {
            turned + SLOWER_BONUS
        } else {
            turned
        }
    } else if !attacker.is_flying {
        let lead = other.max_range() - attacker.max_range();
        if (rules.opponent_fraction_melee_units > 500 && lead > 500) || (
        rules.opponent_fraction_melee_units > 300 && lead > 1000) {
            base - KITING_PENALTY
        } else {
            base
        }
    } else {
        base
    }
}

/// Everything the selection needs to know of one candidate.
pub open spec fn scored(
    attacker: CombatUnit,
    other: CombatUnit,
    attack_count: int,
    rules: TargetingRules,
) -> CandidateScore {
    CandidateScore {
        eligible: may_target(other, attack_count, rules),
        score: target_value(attacker, other, rules) as i128,
        dps: strike_dps(attacker, other) as i64,
        weapon: strike_weapon(attacker, other),
        hit_points: other.hit_points() as i64,
    }
}

/// The scores of all candidates, in roster order.
pub open spec fn score_all(
    attacker: CombatUnit,
    units: Seq<CombatUnit>,
    counts: Seq<usize>,
    rules: TargetingRules,
) -> Seq<CandidateScore> {
    Seq::new(units.len(), |j: int| scored(attacker, units[j], counts[j] as int, rules))
}

/// Whether a candidate replaces the best one so far: it scores higher by more
/// than the tie window, or ties with it and has fewer hit points.
pub open spec fn prefers(candidate: CandidateScore, best: CandidateScore) -> bool {
    candidate.score - best.score > TIE_WINDOW || (candidate.score - best.score >= -TIE_WINDOW
        && candidate.score - best.score <= TIE_WINDOW && candidate.hit_points < best.hit_points)
}

/// The position of the best candidate after a scan from `from` to the end of
/// the roster, where `best` is the best one before `from`.
pub open spec fn pick_from(scores: Seq<CandidateScore>, from: int, best: Option<int>) -> Option<int>
    decreases scores.len() - from,
{
    if from < 0 || from >= scores.len() {
        best
    } else {
        let next = if !scores[from].eligible {
            best
        } else {
            match best {
                None => Some(from),
                Some(b) => if prefers(scores[from], scores[b]) {
                    Some(from)
                } else {
                    best
                },
            }
        };
        pick_from(scores, from + 1, next)
    }
}

/// The position of the best candidate of the whole roster, if any is eligible.
pub open spec fn pick(scores: Seq<CandidateScore>) -> Option<int> {
    pick_from(scores, 0, None)
}

/// The attacker's choice among the candidates, if any is eligible.
pub open spec fn best_target(
    attacker: CombatUnit,
    units: Seq<CombatUnit>,
    counts: Seq<usize>,
    rules: TargetingRules,
) -> Option<TargetChoice> {
    let scores = score_all(attacker, units, counts, rules);
    match pick(scores) {
        None => None,
        Some(j) => Some(
            TargetChoice { index: j as usize, weapon: scores[j].weapon, dps: scores[j].dps },
        ),
    }
}

/// A scan picks nothing only if nothing is eligible, and what it picks is
/// eligible and lies in the roster.
pub proof fn lemma_pick_from_is_eligible(scores: Seq<CandidateScore>, from: int, best: Option<int>)
    requires
        0 <= from <= scores.len(),
        best.is_some() ==> 0 <= best.unwrap() < from && scores[best.unwrap()].eligible,
    ensures
        pick_from(scores, from, best).is_some() ==> 0 <= pick_from(scores, from, best).unwrap()
            < scores.len() && scores[pick_from(scores, from, best).unwrap()].eligible,
        pick_from(scores, from, best).is_none() <==> best.is_none() && forall|j: int|
            from <= j < scores.len() ==> !scores[j].eligible,
    decreases scores.len() - from,
{
    if from < scores.len() {
        let next = if !scores[from].eligible {
            best
        } else {
            match best {
                None => Some(from),
                Some(b) => if prefers(scores[from], scores[b]) {
                    Some(from)
                } else {
                    best
                },
            }
        };
        lemma_pick_from_is_eligible(scores, from + 1, next);
    }
}

/// How much a unit is worth attacking, in ten-thousandths.
pub fn target_score(unit: &CombatUnit, has_ground: bool, has_air: bool) -> (score: i64)
    ensures
        score == target_priority(*unit, has_ground, has_air),
        -0x4000_0000_0000 < score < 0x4000_0000_0000,
{
    let cost: i64 = unit.get_adjusted_cost();
    let air_dps: i32 = unit.get_dps(true);
    let ground_dps: i32 = unit.get_dps(false);
    let best: i64 = unit.get_max_dps() as i64;
    if (!has_air && ground_dps == 0) || (!has_ground && air_dps == 0) {
        cost + 100 * best
    } else {
        100 * cost + 10_000 * best
    }
}

/// Scores one candidate for the attacker.
pub fn score_candidate(
    unit: &CombatUnit,
    other: &CombatUnit,
    attack_count: usize,
    rules: &TargetingRules,
) -> (result: CandidateScore)
    ensures
        result == scored(*unit, *other, attack_count as int, *rules),
        -0x4000_0000_0000_0000_0000_0000_0000 < result.score < 0x4000_0000_0000_0000_0000_0000_0000,
{
    let air_weapon: Option<&Weapon> = unit.air_weapons();
    let ground_weapon: Option<&Weapon> = unit.ground_weapons();
    let air: i64 = match air_weapon {
        Some(w) => w.calculate_dps(unit, other),
        None => 0,
    };
    let ground: i64 = match ground_weapon {
        Some(w) => w.calculate_dps(unit, other),
        None => 0,
    };
    assert(air == weapon_dps(unit.air_weapon(), *unit, *other));
    assert(ground == weapon_dps(unit.ground_weapon(), *unit, *other));
    let dps: i64 = if air > ground {
        air
    } else {
        ground
    };
    let weapon: Option<Weapon> = if air > ground {
        match air_weapon {
            Some(w) => Some(*w),
            None => None,
        }
    } else {
        match ground_weapon {
            Some(w) => Some(*w),
            None => None,
        }
    };
    let priority: i64 = target_score(other, rules.has_ground, rules.has_air);
    assert(-0x8000_0000_0000_0000 * 0x4000_0000_0000 <= dps * priority <= 0x8000_0000_0000_0000
        * 0x4000_0000_0000) by (nonlinear_arith)
        requires
            0 <= dps <= 0x7fff_ffff_ffff_ffff,
            -0x4000_0000_0000 < priority < 0x4000_0000_0000,
    ;
    let base: i128 = (dps as i128) * (priority as i128);
    let mut score: i128 = base;
    if rules.is_unit_melee {
        if !rules.settings.bad_micro && rules.settings.assume_reasonable_positioning {
            score = -score;
        }
        if rules.settings.enable_melee_blocking && other.is_melee() {
            score = score + BLOCKING_BONUS;
        } else if rules.settings.enable_melee_blocking && 100 * (other.movement_speed as i64) < 105
            * (unit.movement_speed as i64) {
            score = score + SLOWER_BONUS;
        }
    } else if !unit.is_flying {
        let lead: i64 = other.get_max_range() as i64 - unit.get_max_range() as i64;
        if (rules.opponent_fraction_melee_units > 500 && lead > 500) || (
        rules.opponent_fraction_melee_units > 300 && lead > 1000) {
            score = score - KITING_PENALTY;
        }
    }
    let eligible: bool = other.health > 0 && !(rules.is_unit_melee
        && rules.settings.enable_surround_limits && attack_count as i128
        >= rules.surround.max_attackers_per_defender as i128);
    CandidateScore {
        eligible,
        score,
        dps,
        weapon,
        hit_points: other.health as i64 + other.shield as i64,
    }
}

/// Picks the best of the scored candidates: the one that scores highest, and
/// among tied ones the one with the fewest hit points.
pub fn select_best(scores: &Vec<CandidateScore>) -> (best: Option<usize>)
    requires
        forall|j: int|
            0 <= j < scores.len() ==> -0x4000_0000_0000_0000_0000_0000_0000
                < #[trigger] scores[j].score < 0x4000_0000_0000_0000_0000_0000_0000,
    ensures
        best.is_some() == pick(scores@).is_some(),
        best.is_some() ==> best.unwrap() == pick(scores@).unwrap(),
        best.is_some() ==> best.unwrap() < scores.len() && scores[best.unwrap() as int].eligible,
        best.is_none() <==> forall|j: int| 0 <= j < scores.len() ==> !scores[j].eligible,
{
    let mut best: Option<usize> = None;
    let mut i: usize = 0;
    while i < scores.len()
        invariant
            i <= scores.len(),
            best.is_some() ==> best.unwrap() < i && scores[best.unwrap() as int].eligible,
            pick_from(
                scores@,
                i as int,
                match best {
                    Some(b) => Some(b as int),
                    None => None,
                },
            ) == pick(scores@),
            forall|j: int|
                0 <= j < scores.len() ==> -0x4000_0000_0000_0000_0000_0000_0000
                    < #[trigger] scores[j].score < 0x4000_0000_0000_0000_0000_0000_0000,
        decreases scores.len() - i,
    {
        if scores[i].eligible {
            match best {
                None => {
                    best = Some(i);
                },
                Some(b) => {
                    let gap: i128 = scores[i].score - scores[b].score;
                    if gap > TIE_WINDOW || (gap >= -TIE_WINDOW && gap <= TIE_WINDOW
                        && scores[i].hit_points < scores[b].hit_points) {
                        best = Some(i);
                    }
                },
            }
        }
        i += 1;
    }
    proof {
        lemma_pick_from_is_eligible(scores@, 0, None);
    }
    best
}

/// The score of every candidate lies well inside the range of its type.
pub proof fn lemma_scored_bounds(
    attacker: CombatUnit,
    other: CombatUnit,
    attack_count: int,
    rules: TargetingRules,
)
    ensures
        -0x4000_0000_0000_0000_0000_0000_0000 < target_value(attacker, other, rules)
            < 0x4000_0000_0000_0000_0000_0000_0000,
        0 <= strike_dps(attacker, other) <= DPS_CEILING,
        scored(attacker, other, attack_count, rules).score == target_value(attacker, other, rules),
        scored(attacker, other, attack_count, rules).dps == strike_dps(attacker, other),
{
    lemma_weapon_dps_bounds(attacker.air_weapon(), attacker, other);
    lemma_weapon_dps_bounds(attacker.ground_weapon(), attacker, other);
    let dps = strike_dps(attacker, other);
    let priority = target_priority(other, rules.has_ground, rules.has_air);
    assert(-0x4000_0000_0000 < priority < 0x4000_0000_0000);
    assert(-0x8000_0000_0000_0000 * 0x4000_0000_0000 <= dps * priority <= 0x8000_0000_0000_0000
        * 0x4000_0000_0000) by (nonlinear_arith)
        requires
            0 <= dps <= 0x7fff_ffff_ffff_ffff,
            -0x4000_0000_0000 < priority < 0x4000_0000_0000,
    ;
}

/// No weapon does negative damage, or more than the ceiling.
pub proof fn lemma_weapon_dps_bounds(weapon: Option<Weapon>, attacker: CombatUnit, other: CombatUnit)
    ensures
        0 <= weapon_dps(weapon, attacker, other) <= DPS_CEILING,
{
    match weapon {
        Some(w) => {
            if w.reaches(other) && w.fires() && crate::weapon::has_pool(other) {
                let net = w.hit_damage(attacker, other) - crate::weapon::armor_share(other);
                if net > 0 {
                    assert((net * w.attacks * 1000) / (w.speed as int) >= 0) by (nonlinear_arith)
                        requires
                            net > 0,
                            w.attacks > 0,
                            w.speed > 0,
                    ;
                }
            }
        },
        None => {},
    }
}

/// Scores every candidate, one after the other.
pub fn score_candidates(
    unit: &CombatUnit,
    units: &Vec<CombatUnit>,
    counts: &Vec<usize>,
    rules: &TargetingRules,
) -> (scores: Vec<CandidateScore>)
    requires
        counts.len() == units.len(),
    ensures
        scores@ == score_all(*unit, units@, counts@, *rules),
{
    let mut scores: Vec<CandidateScore> = Vec::with_capacity(units.len());
    let mut j: usize = 0;
    while j < units.len()
        invariant
            j <= units.len(),
            counts.len() == units.len(),
            scores.len() == j,
            forall|k: int|
                0 <= k < j ==> #[trigger] scores[k] == scored(
                    *unit,
                    units[k],
                    counts[k] as int,
                    *rules,
                ),
        decreases units.len() - j,
    {
        scores.push(score_candidate(unit, &units[j], counts[j], rules));
        j += 1;
    }
    assert(scores@ =~= score_all(*unit, units@, counts@, *rules));
    scores
}

/// Scores every candidate on the threads of `rayon`: `par_iter` over the
/// candidates, `zip` with their attack counts, `map` with `score_candidate`,
/// and `collect` into a vector.
///
/// Trusted: the vector holds, for each candidate in roster order, what
/// `score_candidate` returns for it.
#[verifier::external_body]
pub(crate) fn score_candidates_in_parallel(
    unit: &CombatUnit,
    units: &Vec<CombatUnit>,
    counts: &Vec<usize>,
    rules: &TargetingRules,
) -> (scores: Vec<CandidateScore>)
    requires
        counts.len() == units.len(),
    ensures
        scores@ == score_all(*unit, units@, counts@, *rules),
{
    units.par_iter().zip(counts.par_iter()).map(
        |(other, count)| score_candidate(unit, other, *count, rules),
    ).collect()
}

/// The rules under which an attacker of one side picks its target.
pub open spec fn rules_of(
    combat_settings: CombatSettings,
    has_ground: bool,
    has_air: bool,
    is_unit_melee: bool,
    surround: SurroundInfo,
    opponent_fraction_melee_units: i32,
) -> TargetingRules {
    TargetingRules {
        settings: combat_settings,
        has_ground,
        has_air,
        is_unit_melee,
        surround,
        opponent_fraction_melee_units,
    }
}

/// Finds the target that `unit` attacks among `units`, if there is one.
///
/// Every candidate that is alive is scored, on several threads where the
/// settings ask for it; a melee attacker under surround limits passes over
/// candidates that `melee_unit_attack_count` shows as taken. The choice is
/// the candidate that scores highest, the weakest among tied ones, the first
/// met where that leaves several. It does not depend on the threads.
pub fn find_best_target(
    unit: &CombatUnit,
    units: &Vec<CombatUnit>,
    combat_settings: &CombatSettings,
    has_ground: bool,
    has_air: bool,
    is_unit_melee: bool,
    melee_unit_attack_count: &Vec<usize>,
    surround: &SurroundInfo,
    opponent_fraction_melee_units: i32,
) -> (choice: Option<TargetChoice>)
    requires
        melee_unit_attack_count.len() == units.len(),
    ensures
        choice == best_target(
            *unit,
            units@,
            melee_unit_attack_count@,
            rules_of(
                *combat_settings,
                has_ground,
                has_air,
                is_unit_melee,
                *surround,
                opponent_fraction_melee_units,
            ),
        ),
        choice.is_some() ==> choice.unwrap().index < units.len() && units[choice.unwrap().index as int].is_alive()
            && 0 <= choice.unwrap().dps,
        choice.is_none() <==> forall|j: int|
            0 <= j < units.len() ==> !may_target(
                #[trigger] units[j],
                melee_unit_attack_count[j] as int,
                rules_of(
                    *combat_settings,
                    has_ground,
                    has_air,
                    is_unit_melee,
                    *surround,
                    opponent_fraction_melee_units,
                ),
            ),
{
    let rules = TargetingRules {
        settings: *combat_settings,
        has_ground,
        has_air,
        is_unit_melee,
        surround: *surround,
        opponent_fraction_melee_units,
    };
    let scores: Vec<CandidateScore> = if combat_settings.multi_threaded {
        score_candidates_in_parallel(unit, units, melee_unit_attack_count, &rules)
    } else {
        score_candidates(unit, units, melee_unit_attack_count, &rules)
    };
    proof {
        assert forall|j: int| 0 <= j < scores.len() implies -0x4000_0000_0000_0000_0000_0000_0000
            < #[trigger] scores[j].score < 0x4000_0000_0000_0000_0000_0000_0000 && 0
            <= scores[j].dps && scores[j].eligible == may_target(
            units[j],
            melee_unit_attack_count[j] as int,
            rules,
        ) by {
            lemma_scored_bounds(*unit, units[j], melee_unit_attack_count[j] as int, rules);
        }
    }
    let best: Option<usize> = select_best(&scores);
    proof {
        if best.is_none() {
            assert forall|j: int| 0 <= j < units.len() implies !may_target(
                #[trigger] units[j],
                melee_unit_attack_count[j] as int,
                rules,
            ) by {
                assert(!scores[j].eligible);
            }
        } else {
            let b = best.unwrap() as int;
            assert(scores[b].eligible);
            assert(may_target(units[b], melee_unit_attack_count[b] as int, rules));
        }
    }
    match best {
        None => None,
        Some(j) => Some(TargetChoice { index: j, weapon: scores[j].weapon, dps: scores[j].dps }),
    }
}

} // verus!
