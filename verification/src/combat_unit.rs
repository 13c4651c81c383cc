//! One combatant: its static stats, its weapons and its current condition.
//!
//! Hit points, damage, ranges and speeds are counted in thousandths.

use vstd::prelude::*;
use crate::ids::{harvester_type, melee_type, UnitTypeId, COLOSSUS, DRONE, ORACLE, PROBE, SCV};
use crate::unit_type_data::UnitTypeData;
use crate::weapon::{first_weapon_from, Weapon, WeaponTargetType};

verus! {

/// One combatant of an engagement.
#[derive(Clone, Debug)]
pub struct CombatUnit {
    pub type_id: UnitTypeId,
    pub type_data: UnitTypeData,
    pub name: String,
    pub is_light: bool,
    pub is_armored: bool,
    pub is_biological: bool,
    pub is_mechanical: bool,
    pub is_massive: bool,
    pub is_psionic: bool,
    /// The weapons of the unit's type; `None` when that data was not supplied.
    pub weapons: Option<Vec<Weapon>>,
    pub ground_dps: i32,
    pub ground_range: i32,
    pub air_dps: i32,
    pub air_range: i32,
    pub armor: i32,
    pub movement_speed: i32,
    pub health: i32,
    pub health_max: i32,
    pub shield: i32,
    pub shield_max: i32,
    pub energy: i32,
    pub energy_max: i32,
    pub radius: i32,
    pub is_flying: bool,
    pub attack_upgrade_level: i32,
    pub armor_upgrade_level: i32,
    pub shield_upgrade_level: i32,
    pub buff_timer: i32,
}

impl CombatUnit {
    /// Health and shield lie between zero and their maxima.
    pub open spec fn well_formed(self) -> bool {
        &&& 0 <= self.health <= self.health_max
        &&& 0 <= self.shield <= self.shield_max
    }

    /// A unit with no health left is dead.
    pub open spec fn is_alive(self) -> bool {
        self.health > 0
    }

    /// What is left of the unit: health plus shield.
    pub open spec fn hit_points(self) -> int {
        self.health + self.shield
    }

    /// The unit after `amount` of damage: the shield absorbs what it can, the
    /// rest comes off the health, and neither falls below zero.
    pub open spec fn damaged(self, amount: int) -> CombatUnit {
        if self.shield - amount < 0 {
            let spill = amount - self.shield;
            CombatUnit {
                shield: 0,
                health: if self.health - spill < 0 {
                    0i32
                } else {
                    (self.health - spill) as i32
                },
                ..self
            }
        } else {
            CombatUnit { shield: (self.shield - amount) as i32, ..self }
        }
    }

    /// The unit after `amount` of healing: health rises, but not above its maximum.
    pub open spec fn healed(self, amount: int) -> CombatUnit {
        CombatUnit {
            health: if self.health + amount > self.health_max {
                self.health_max
            } else {
                (self.health + amount) as i32
            },
            ..self
        }
    }

    /// The unit after a change of `delta`: damage when negative, healing otherwise.
    pub open spec fn modified(self, delta: int) -> CombatUnit {
        if delta < 0 {
            self.damaged(-delta)
        } else {
            self.healed(delta)
        }
    }

    pub open spec fn max_range(self) -> int {
        if self.air_range > self.ground_range {
            self.air_range as int
        } else {
            self.ground_range as int
        }
    }

    pub open spec fn max_dps(self) -> int {
        if self.air_dps > self.ground_dps {
            self.air_dps as int
        } else {
            self.ground_dps as int
        }
    }

    /// Air weapons reach a flying unit, and the Colossus although it walks.
    pub open spec fn attackable_by_air(self) -> bool {
        self.is_flying || self.type_id == COLOSSUS
    }

    /// Minerals plus one and a half times the vespene, rounded toward zero.
    pub open spec fn adjusted_cost(self) -> int {
        let vespene = self.type_data.cost.vespene as int;
        if vespene >= 0 {
            self.type_data.cost.minerals + (3 * vespene) / 2
        } else {
            self.type_data.cost.minerals - (3 * (-vespene)) / 2
        }
    }

    /// The first weapon that can fire at air targets, if the unit has one.
    pub open spec fn air_weapon(self) -> Option<Weapon> {
        match self.weapons {
            Some(weapons) => first_weapon_from(weapons@, true, 0),
            None => None,
        }
    }

    /// The first weapon that can fire at ground targets, if the unit has one.
    pub open spec fn ground_weapon(self) -> Option<Weapon> {
        match self.weapons {
            Some(weapons) => first_weapon_from(weapons@, false, 0),
            None => None,
        }
    }

    pub fn get_max_range(&self) -> (range: i32)
        ensures
            range == self.max_range(),
    {
        if self.air_range > self.ground_range {
            self.air_range
        } else {
            self.ground_range
        }
    }

    pub fn can_be_attacked_by_air(&self) -> (attackable: bool)
        ensures
            attackable == self.attackable_by_air(),
    {
        self.is_flying || self.type_id == COLOSSUS
    }

    pub fn is_basic_harvester(&self) -> (harvester: bool)
        ensures
            harvester == harvester_type(self.type_id),
    {
        self.type_id == SCV || self.type_id == PROBE || self.type_id == DRONE
    }

    pub fn is_melee(&self) -> (melee: bool)
        ensures
            melee == melee_type(self.type_id),
    {
        crate::ids::is_melee(self.type_id)
    }

    /// Applies damage (negative `delta`) or healing (positive `delta`).
    ///
    /// Damage empties the shield before it touches the health. A well-formed
    /// unit stays well-formed, and nothing but health and shield changes.
    pub fn modify_health(&mut self, delta: i128)
        ensures
            *final(self) == old(self).modified(delta as int),
            old(self).well_formed() ==> final(self).well_formed(),
            delta < 0 && final(self).health < old(self).health ==> final(self).shield == 0,
            delta < 0 && old(self).well_formed() ==> final(self).hit_points() <= old(
                self,
            ).hit_points(),
            delta >= 0 ==> final(self).shield == old(self).shield,
    {
        if delta < -0x7fff_ffff_ffff_ffff {
            self.shield = 0;
            self.health = 0;
        } else if delta < 0 {
            let amount: i128 = -delta;
            let left: i128 = self.shield as i128 - amount;
            if left < 0 {
                let spill: i128 = -left;
                self.shield = 0;
                let rest: i128 = self.health as i128 - spill;
                if rest < 0 {
                    self.health = 0;
                } else {
                    self.health = rest as i32;
                }
            } else {
                self.shield = left as i32;
            }
        } else if delta > 0x7fff_ffff_ffff_ffff {
            self.health = self.health_max;
        } else {
            let raised: i128 = self.health as i128 + delta;
            if raised > self.health_max as i128 {
                self.health = self.health_max;
            } else {
                self.health = raised as i32;
            }
        }
    }

    pub fn get_adjusted_cost(&self) -> (cost: i64)
        ensures
            cost == self.adjusted_cost(),
    {
        let minerals: i64 = self.get_mineral_cost() as i64;
        let vespene: i64 = self.get_vespene_cost() as i64;
        if vespene >= 0 {
            minerals + (3 * vespene) / 2
        } else {
            minerals - (3 * (-vespene)) / 2
        }
    }

    pub fn get_mineral_cost(&self) -> (minerals: i32)
        ensures
            minerals == self.type_data.cost.minerals,
    {
        self.type_data.cost.minerals
    }

    pub fn get_vespene_cost(&self) -> (vespene: i32)
        ensures
            vespene == self.type_data.cost.vespene,
    {
        self.type_data.cost.vespene
    }

    pub fn get_max_dps(&self) -> (dps: i32)
        ensures
            dps == self.max_dps(),
    {
        if self.air_dps > self.ground_dps {
            self.air_dps
        } else {
            self.ground_dps
        }
    }

    pub fn get_dps(&self, air: bool) -> (dps: i32)
        ensures
            dps == (if air {
                self.air_dps
            } else {
                self.ground_dps
            }),
    {
        if air {
            self.air_dps
        } else {
            self.ground_dps
        }
    }

    pub fn can_attack(&self) -> (armed: bool)
        ensures
            armed == (self.weapons.is_some() && self.weapons.unwrap()@.len() > 0),
    {
        match &self.weapons {
            Some(weapons) => weapons.len() > 0,
            None => false,
        }
    }

    pub fn can_attack_ground(&self) -> (able: bool)
        ensures
            able == (self.type_id == ORACLE || self.ground_weapon().is_some()),
    {
        if self.type_id == ORACLE {
            true
        } else {
            self.ground_weapons().is_some()
        }
    }

    pub fn can_attack_air(&self) -> (able: bool)
        ensures
            able == self.air_weapon().is_some(),
    {
        self.air_weapons().is_some()
    }

    pub fn air_weapons(&self) -> (weapon: Option<&Weapon>)
        ensures
            weapon.is_some() == self.air_weapon().is_some(),
            weapon.is_some() ==> *weapon.unwrap() == self.air_weapon().unwrap(),
    {
        match &self.weapons {
            Some(weapons) => crate::weapon::first_weapon(weapons, true),
            None => None,
        }
    }

    pub fn ground_weapons(&self) -> (weapon: Option<&Weapon>)
        ensures
            weapon.is_some() == self.ground_weapon().is_some(),
            weapon.is_some() ==> *weapon.unwrap() == self.ground_weapon().unwrap(),
    {
        match &self.weapons {
            Some(weapons) => crate::weapon::first_weapon(weapons, false),
            None => None,
        }
    }
}

} // verus!
