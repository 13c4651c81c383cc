//! What holds of the damage model and of a prediction, whatever the units.

use vstd::prelude::*;
use crate::combat_predictor::prediction;
use crate::combat_unit::CombatUnit;
use crate::settings::CombatSettings;
use crate::weapon::Weapon;

verus! {

/// Whatever is done to the health of a unit whose health and shield are in
/// range, they stay in range, and damage reaches the health only once the
/// shield is gone. Nothing else about the unit changes.
pub proof fn lemma_health_stays_in_range(unit: CombatUnit, delta: int)
    requires
        unit.well_formed(),
    ensures
        unit.modified(delta).well_formed(),
        delta < 0 && unit.modified(delta).health < unit.health ==> unit.modified(delta).shield == 0,
        delta < 0 ==> unit.modified(delta).hit_points() <= unit.hit_points(),
        delta >= 0 ==> unit.modified(delta).shield == unit.shield && unit.modified(delta).health
            >= unit.health,
        unit.modified(delta) == (CombatUnit {
            health: unit.modified(delta).health,
            shield: unit.modified(delta).shield,
            ..unit
        }),
{
}

/// The damage rate of a weapon does not depend on the condition of the two
/// units: damage or healing of either leaves it as it was. So a rate worked
/// out once holds for the whole engagement.
pub proof fn lemma_dps_ignores_condition(
    weapon: Weapon,
    attacker: CombatUnit,
    target: CombatUnit,
    attacker_delta: int,
    target_delta: int,
)
    ensures
        weapon.effective_dps(attacker.modified(attacker_delta), target.modified(target_delta))
            == weapon.effective_dps(attacker, target),
{
}

/// Two predictors that stand at the same seed give the same answer to the
/// same request, and stand at the same seed afterwards.
pub proof fn lemma_same_seed_same_prediction(
    units1: Seq<CombatUnit>,
    units2: Seq<CombatUnit>,
    defender_player: u32,
    settings: CombatSettings,
    seed_a: u64,
    seed_b: u64,
)
    requires
        seed_a == seed_b,
    ensures
        prediction(units1, units2, defender_player, settings, seed_a) == prediction(
            units1,
            units2,
            defender_player,
            settings,
            seed_b,
        ),
{
}

} // verus!
