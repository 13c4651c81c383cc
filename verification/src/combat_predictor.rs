//! The predictor: it checks what it is given, shuffles the rosters, runs the
//! battle and names the winner.

use vstd::prelude::*;
use crate::battle::{battle_in_order, run_battle, Battle, MAX_ROSTER_UNITS};
use crate::combat_unit::CombatUnit;
use crate::engagement::{engagement_end, outcome, run_from, statics_of, BattleState, Statics};
use crate::random::{
    advance_seed, fresh_seed, next_seed, seeded_order, shuffle_roster, shuffled,
};
use crate::roster::{
    all_well_formed, get_fastest_attacker_speed, get_max_range_defender, hit_points_total,
    is_active_healer, lemma_hit_points_are_not_negative, lemma_hit_points_of_rearranged,
    no_active_healer, total_hit_points,
};
pub use crate::settings::CombatSettings;

verus! {

/// Why a prediction was refused.
#[derive(Clone, Copy, Debug, PartialEq, Eq, Structural)]
pub enum CombatError {
    /// A unit came without the weapons of its type.
    MissingTypeData,
    /// The time limit lies before the start, a unit has a negative cost or a
    /// health or shield outside its range, or a roster is too long.
    InvalidConfiguration,
}

/// A unit that a prediction accepts: health and shield in range, and a cost
/// that is not negative.
pub open spec fn valid_unit(unit: CombatUnit) -> bool {
    &&& unit.well_formed()
    &&& unit.type_data.cost.minerals >= 0
    &&& unit.type_data.cost.vespene >= 0
}

/// Every unit of the roster is valid.
pub open spec fn valid_roster(units: Seq<CombatUnit>) -> bool {
    forall|i: int| 0 <= i < units.len() ==> valid_unit(#[trigger] units[i])
}

/// Every unit of the roster came with the weapons of its type.
pub open spec fn complete_roster(units: Seq<CombatUnit>) -> bool {
    forall|i: int| 0 <= i < units.len() ==> (#[trigger] units[i]).weapons.is_some()
}

/// The request cannot be simulated as it stands.
pub open spec fn invalid_configuration(
    units1: Seq<CombatUnit>,
    units2: Seq<CombatUnit>,
    settings: CombatSettings,
) -> bool {
    ||| settings.max_time < settings.start_time
    ||| units1.len() > MAX_ROSTER_UNITS
    ||| units2.len() > MAX_ROSTER_UNITS
    ||| !valid_roster(units1)
    ||| !valid_roster(units2)
}

/// Some unit came without the weapons of its type.
pub open spec fn missing_type_data(units1: Seq<CombatUnit>, units2: Seq<CombatUnit>) -> bool {
    !complete_roster(units1) || !complete_roster(units2)
}

/// What a predictor that stands at `seed` answers, and the seed at which it
/// stands afterwards.
///
/// A request that cannot be simulated is refused, and so is one with a unit
/// that came without weapons; the predictor stays where it is. Otherwise the
/// answer is the winner of the battle with what it has left, and the
/// predictor moves past the seeds that the battle has used.
pub open spec fn prediction(
    units1: Seq<CombatUnit>,
    units2: Seq<CombatUnit>,
    defender_player: u32,
    settings: CombatSettings,
    seed: u64,
) -> (Result<(u32, i64), CombatError>, u64) {
    if invalid_configuration(units1, units2, settings) {
        (Err(CombatError::InvalidConfiguration), seed)
    } else if missing_type_data(units1, units2) {
        (Err(CombatError::MissingTypeData), seed)
    } else {
        let end = engagement_end(units1, units2, defender_player, settings, seed);
        (Ok(outcome(end)), end.seed)
    }
}

/// Whether every unit of the roster is valid.
pub fn is_valid_roster(units: &Vec<CombatUnit>) -> (valid: bool)
    ensures
        valid == valid_roster(units@),
{
    let mut i: usize = 0;
    while i < units.len()
        invariant
            i <= units.len(),
            forall|k: int| 0 <= k < i ==> valid_unit(#[trigger] units[k]),
        decreases units.len() - i,
    {
        let unit = &units[i];
        if unit.health < 0 || unit.health > unit.health_max || unit.shield < 0 || unit.shield
            > unit.shield_max || unit.get_mineral_cost() < 0 || unit.get_vespene_cost() < 0 {
            assert(!valid_unit(units[i as int]));
            return false;
        }
        i += 1;
    }
    true
}

/// Whether every unit of the roster came with the weapons of its type.
pub fn is_complete_roster(units: &Vec<CombatUnit>) -> (complete: bool)
    ensures
        complete == complete_roster(units@),
{
    let mut i: usize = 0;
    while i < units.len()
        invariant
            i <= units.len(),
            forall|k: int| 0 <= k < i ==> (#[trigger] units[k]).weapons.is_some(),
        decreases units.len() - i,
    {
        if units[i].weapons.is_none() {
            return false;
        }
        i += 1;
    }
    true
}

/// Checks a request before anything is simulated.
pub fn validate(
    units1: &Vec<CombatUnit>,
    units2: &Vec<CombatUnit>,
    settings: &CombatSettings,
) -> (verdict: Result<(), CombatError>)
    ensures
        invalid_configuration(units1@, units2@, *settings) ==> verdict == Err::<(), CombatError>(
            CombatError::InvalidConfiguration,
        ),
        !invalid_configuration(units1@, units2@, *settings) && missing_type_data(units1@, units2@)
            ==> verdict == Err::<(), CombatError>(CombatError::MissingTypeData),
        !invalid_configuration(units1@, units2@, *settings) && !missing_type_data(units1@, units2@)
            ==> verdict.is_ok(),
{
    if settings.max_time < settings.start_time || units1.len() > MAX_ROSTER_UNITS || units2.len()
        > MAX_ROSTER_UNITS {
        return Err(CombatError::InvalidConfiguration);
    }
    if !is_valid_roster(units1) || !is_valid_roster(units2) {
        return Err(CombatError::InvalidConfiguration);
    }
    if !is_complete_roster(units1) || !is_complete_roster(units2) {
        return Err(CombatError::MissingTypeData);
    }
    Ok(())
}

/// What holds for a whole engagement between the two rosters.
pub fn get_statics(
    units1: &Vec<CombatUnit>,
    units2: &Vec<CombatUnit>,
    defender_player: u32,
    settings: &CombatSettings,
) -> (statics: Statics)
    ensures
        statics == statics_of(units1@, units2@, defender_player, *settings),
        statics.max_range_defender >= 0,
{
    let range1: i32 = get_max_range_defender(units1);
    let range2: i32 = get_max_range_defender(units2);
    let speed1: i32 = get_fastest_attacker_speed(units1);
    let speed2: i32 = get_fastest_attacker_speed(units2);
    Statics {
        settings: *settings,
        defender_player,
        max_range_defender: if defender_player == 1 {
            range1
        } else if defender_player == 2 {
            range2
        } else if range1 > range2 {
            range1
        } else {
            range2
        },
        fastest_attacker_speed: if defender_player == 1 {
            speed2
        } else if defender_player == 2 {
            speed1
        } else if speed2 > speed1 {
            speed2
        } else {
            speed1
        },
    }
}

/// Names the winner of a battle that has come to its end.
pub fn resolve(units1: &Vec<CombatUnit>, units2: &Vec<CombatUnit>) -> (result: (u32, i64))
    requires
        units1.len() <= MAX_ROSTER_UNITS,
        units2.len() <= MAX_ROSTER_UNITS,
    ensures
        result == outcome(
            BattleState { units1: units1@, units2: units2@, time: 0, seed: 0, changed: false },
        ),
        result.0 == 1 || result.0 == 2,
        result.1 == (if result.0 == 1 {
            hit_points_total(units1@)
        } else {
            hit_points_total(units2@)
        }),
{
    let total1: i128 = total_hit_points(units1);
    let total2: i128 = total_hit_points(units2);
    if total1 > total2 {
        (1, total1 as i64)
    } else {
        (2, total2 as i64)
    }
}

/// Predicts engagements. It holds the seed of its next random draw, so that
/// two predictors made with the same seed answer alike.
#[derive(Clone, Copy, Debug)]
pub struct CombatPredictor {
    pub seed: u64,
}

impl CombatPredictor {
    /// A predictor that starts from a seed of its own choosing.
    pub fn new() -> (predictor: CombatPredictor) {
        CombatPredictor { seed: fresh_seed() }
    }

    /// A predictor that starts from the given seed.
    pub fn with_seed(seed: u64) -> (predictor: CombatPredictor)
        ensures
            predictor.seed == seed,
    {
        CombatPredictor { seed }
    }

    /// Predicts which of two rosters wins a fight, and with how many hit
    /// points left. `defender_player` names the side that holds its ground,
    /// 1 or 2; any other number means that neither does.
    ///
    /// The answer depends on nothing but the rosters, the settings, the
    /// defender and the predictor's seed.
    pub fn predict_engage(
        &mut self,
        units1: Vec<CombatUnit>,
        units2: Vec<CombatUnit>,
        defender_player: u32,
        settings: &CombatSettings,
    ) -> (result: Result<(u32, i64), CombatError>)
        ensures
            (result, final(self).seed) == prediction(
                units1@,
                units2@,
                defender_player,
                *settings,
                old(self).seed,
            ),
            result.is_ok() ==> (result.unwrap().0 == 1 || result.unwrap().0 == 2) && result.unwrap().1
                >= 0,
            result.is_ok() && no_active_healer(units1@) && no_active_healer(units2@)
                ==> result.unwrap().1 <= (if result.unwrap().0 == 1 {
                hit_points_total(units1@)
            } else {
                hit_points_total(units2@)
            }),
    {
        match validate(&units1, &units2, settings) {
            Err(error) => {
                return Err(error);
            },
            Ok(_) => {},
        }
        let mut first = units1;
        let mut second = units2;
        let seed1: u64 = self.seed;
        let seed2: u64 = advance_seed(seed1);
        shuffle_roster(&mut first, seed1);
        shuffle_roster(&mut second, seed2);
        proof {
            lemma_hit_points_of_rearranged(units1@, seeded_order(units1@.len(), seed1));
            lemma_hit_points_of_rearranged(units2@, seeded_order(units2@.len(), seed2));
            if no_active_healer(units1@) {
                assert forall|i: int| 0 <= i < first@.len() implies !is_active_healer(
                    #[trigger] first@[i],
                ) by {
                    assert(!is_active_healer(units1@[seeded_order(units1@.len(), seed1)[i]]));
                }
            }
            if no_active_healer(units2@) {
                assert forall|i: int| 0 <= i < second@.len() implies !is_active_healer(
                    #[trigger] second@[i],
                ) by {
                    assert(!is_active_healer(units2@[seeded_order(units2@.len(), seed2)[i]]));
                }
            }
        }
        assert(all_well_formed(first@)) by {
            assert forall|i: int| 0 <= i < first@.len() implies (#[trigger] first@[i]).well_formed() by {
                assert(valid_unit(units1@[seeded_order(units1@.len(), seed1)[i]]));
            }
        }
        assert(all_well_formed(second@)) by {
            assert forall|i: int| 0 <= i < second@.len() implies (
            #[trigger] second@[i]).well_formed() by {
                assert(valid_unit(units2@[seeded_order(units2@.len(), seed2)[i]]));
            }
        }
        let end: Battle = run_engagement(first, second, defender_player, settings, advance_seed(seed2));
        self.seed = end.seed;
        let result: (u32, i64) = resolve(&end.units1, &end.units2);
        proof {
            lemma_hit_points_are_not_negative(end.units1@, end.units1@.len() as int);
            lemma_hit_points_are_not_negative(end.units2@, end.units2@.len() as int);
        }
        Ok(result)
    }
}

/// Runs the battle between two rosters as they stand, from the start time on.
pub fn run_engagement(
    units1: Vec<CombatUnit>,
    units2: Vec<CombatUnit>,
    defender_player: u32,
    settings: &CombatSettings,
    seed: u64,
) -> (end: Battle)
    requires
        units1.len() <= MAX_ROSTER_UNITS,
        units2.len() <= MAX_ROSTER_UNITS,
    ensures
        end@ == run_from(
            BattleState {
                units1: units1@,
                units2: units2@,
                time: settings.start_time as i64,
                seed,
                changed: true,
            },
            0,
            statics_of(units1@, units2@, defender_player, *settings),
        ),
        end.units1.len() <= units1.len(),
        end.units2.len() <= units2.len(),
        all_well_formed(units1@) && all_well_formed(units2@) ==> all_well_formed(end.units1@)
            && all_well_formed(end.units2@),
        all_well_formed(units1@) && all_well_formed(units2@) && no_active_healer(units1@)
            && no_active_healer(units2@) ==> hit_points_total(end.units1@) <= hit_points_total(
            units1@,
        ) && hit_points_total(end.units2@) <= hit_points_total(units2@),
{
    let statics: Statics = get_statics(&units1, &units2, defender_player, settings);
    let battle = Battle {
        units1,
        units2,
        time: settings.start_time as i64,
        seed,
        changed: true,
    };
    run_battle(battle, &statics)
}

impl Default for CombatPredictor {
    fn default() -> (predictor: CombatPredictor) {
        CombatPredictor::new()
    }
}

} // verus!
