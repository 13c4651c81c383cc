//! Weapon and armor upgrades: which line of research counts for a unit, and
//! how many of its three levels a player has.

use vstd::prelude::*;
use crate::enums::Race;
use crate::ids::{
    melee_type, UnitTypeId, UpgradeId, PROTOSSAIRARMORSLEVEL1, PROTOSSAIRWEAPONSLEVEL1,
    PROTOSSGROUNDARMORSLEVEL1, PROTOSSGROUNDWEAPONSLEVEL1, TERRANBUILDINGARMOR,
    TERRANINFANTRYARMORSLEVEL1, TERRANINFANTRYWEAPONSLEVEL1, TERRANSHIPWEAPONSLEVEL1,
    TERRANVEHICLEANDSHIPARMORSLEVEL1, TERRANVEHICLEWEAPONSLEVEL1, ZERGFLYERARMORSLEVEL1,
    ZERGFLYERWEAPONSLEVEL1, ZERGGROUNDARMORSLEVEL1, ZERGMELEEWEAPONSLEVEL1,
    ZERGMISSILEWEAPONSLEVEL1,
};

verus! {

/// The upgrades that one player has researched.
#[derive(Clone, Debug)]
pub struct CombatUpgrades(pub Vec<UpgradeId>);

/// What the upgrade rules read of a unit's type.
#[derive(Clone, Copy, Debug, PartialEq, Eq, Structural)]
pub struct UnitTraits {
    pub race: Race,
    pub is_structure: bool,
    pub is_flying: bool,
    pub is_mechanical: bool,
}

impl CombatUpgrades {
    /// Whether the upgrade is among the researched ones.
    pub open spec fn has(self, upgrade: UpgradeId) -> bool {
        self.0@.contains(upgrade)
    }

    /// How many of the three levels of a line are researched; `first` is the
    /// first level, and the other two follow it.
    pub open spec fn levels(self, first: UpgradeId) -> int {
        (if self.has(first) {
            1int
        } else {
            0int
        }) + (if self.has((first + 1) as u32) {
            1int
        } else {
            0int
        }) + (if self.has((first + 2) as u32) {
            1int
        } else {
            0int
        })
    }

    pub fn new(upgrades: Vec<UpgradeId>) -> (researched: CombatUpgrades)
        ensures
            researched.0 == upgrades,
    {
        CombatUpgrades(upgrades)
    }

    pub fn has_upgrade(&self, upgrade: UpgradeId) -> (found: bool)
        ensures
            found == self.has(upgrade),
    {
        let mut i: usize = 0;
        while i < self.0.len()
            invariant
                i <= self.0.len(),
                forall|k: int| 0 <= k < i ==> self.0@[k] != upgrade,
            decreases self.0.len() - i,
        {
            if self.0[i] == upgrade {
                return true;
            }
            i += 1;
        }
        false
    }

    /// How many of the three levels of a line are researched.
    pub fn count_levels(&self, first: UpgradeId) -> (count: i32)
        requires
            first <= 0xffff_fff0,
        ensures
            count == self.levels(first),
            0 <= count <= 3,
    {
        let mut count: i32 = 0;
        if self.has_upgrade(first) {
            count = count + 1;
        }
        if self.has_upgrade(first + 1) {
            count = count + 1;
        }
        if self.has_upgrade(first + 2) {
            count = count + 1;
        }
        count
    }
}

/// The first level of the weapon line that counts for a unit, if any does:
/// none for structures and for units of no playable race; by race, the line
/// for flyers, and on the ground the line for melee or missile attackers
/// (Zerg), for vehicles or infantry (Terran).
pub open spec fn weapon_line(unit: UnitTypeId, traits: UnitTraits) -> Option<UpgradeId> {
    if traits.is_structure {
        None
    } else {
        match traits.race {
            Race::PROTOSS => if traits.is_flying {
                Some(PROTOSSAIRWEAPONSLEVEL1)
            } else {
                Some(PROTOSSGROUNDWEAPONSLEVEL1)
            },
            Race::ZERG => if traits.is_flying {
                Some(ZERGFLYERWEAPONSLEVEL1)
            } else if melee_type(unit) {
                Some(ZERGMELEEWEAPONSLEVEL1)
            } else {
                Some(ZERGMISSILEWEAPONSLEVEL1)
            },
            Race::TERRAN => if traits.is_flying {
                Some(TERRANSHIPWEAPONSLEVEL1)
            } else if traits.is_mechanical {
                Some(TERRANVEHICLEWEAPONSLEVEL1)
            } else {
                Some(TERRANINFANTRYWEAPONSLEVEL1)
            },
            _ => None,
        }
    }
}

/// The first level of the armor line that counts for a unit that is no
/// structure, if any does.
pub open spec fn armor_line(traits: UnitTraits) -> Option<UpgradeId> {
    match traits.race {
        Race::PROTOSS => if traits.is_flying {
            Some(PROTOSSAIRARMORSLEVEL1)
        } else {
            Some(PROTOSSGROUNDARMORSLEVEL1)
        },
        Race::ZERG => if traits.is_flying {
            Some(ZERGFLYERARMORSLEVEL1)
        } else {
            Some(ZERGGROUNDARMORSLEVEL1)
        },
        Race::TERRAN => if traits.is_flying || traits.is_mechanical {
            Some(TERRANVEHICLEANDSHIPARMORSLEVEL1)
        } else {
            Some(TERRANINFANTRYARMORSLEVEL1)
        },
        _ => None,
    }
}

/// The points of damage that upgrades add to every hit of a unit.
pub open spec fn damage_bonus(unit: UnitTypeId, upgrades: CombatUpgrades, traits: UnitTraits) -> int {
    match weapon_line(unit, traits) {
        Some(first) => upgrades.levels(first),
        None => 0,
    }
}

/// The points of armor that upgrades add to a unit: two for a Terran
/// structure with building armor, else one per level of the unit's line.
pub open spec fn armor_bonus(upgrades: CombatUpgrades, traits: UnitTraits) -> int {
    if traits.is_structure {
        if traits.race == Race::TERRAN && upgrades.has(TERRANBUILDINGARMOR) {
            2
        } else {
            0
        }
    } else {
        match armor_line(traits) {
            Some(first) => upgrades.levels(first),
            None => 0,
        }
    }
}

/// The points of damage that upgrades add to every hit of a unit.
pub fn get_damage_bonus(unit: UnitTypeId, upgrades: &CombatUpgrades, traits: &UnitTraits) -> (bonus:
    i32)
    ensures
        bonus == damage_bonus(unit, *upgrades, *traits),
        0 <= bonus <= 3,
{
    if traits.is_structure {
        return 0;
    }
    match traits.race {
        Race::PROTOSS => {
            if traits.is_flying {
                upgrades.count_levels(PROTOSSAIRWEAPONSLEVEL1)
            } else {
                upgrades.count_levels(PROTOSSGROUNDWEAPONSLEVEL1)
            }
        },
        Race::ZERG => {
            if traits.is_flying {
                upgrades.count_levels(ZERGFLYERWEAPONSLEVEL1)
            } else if crate::ids::is_melee(unit) {
                upgrades.count_levels(ZERGMELEEWEAPONSLEVEL1)
            } else {
                upgrades.count_levels(ZERGMISSILEWEAPONSLEVEL1)
            }
        },
        Race::TERRAN => {
            if traits.is_flying {
                upgrades.count_levels(TERRANSHIPWEAPONSLEVEL1)
            } else if traits.is_mechanical {
                upgrades.count_levels(TERRANVEHICLEWEAPONSLEVEL1)
            } else {
                upgrades.count_levels(TERRANINFANTRYWEAPONSLEVEL1)
            }
        },
        _ => 0,
    }
}

/// The points of armor that upgrades add to a unit.
pub fn get_armor_bonus(upgrades: &CombatUpgrades, traits: &UnitTraits) -> (bonus: i32)
    ensures
        bonus == armor_bonus(*upgrades, *traits),
        0 <= bonus <= 3,
{
    if traits.is_structure {
        if traits.race == Race::TERRAN && upgrades.has_upgrade(TERRANBUILDINGARMOR) {
            return 2;
        }
        return 0;
    }
    match traits.race {
        Race::PROTOSS => {
            if traits.is_flying {
                upgrades.count_levels(PROTOSSAIRARMORSLEVEL1)
            } else {
                upgrades.count_levels(PROTOSSGROUNDARMORSLEVEL1)
            }
        },
        Race::ZERG => {
            if traits.is_flying {
                upgrades.count_levels(ZERGFLYERARMORSLEVEL1)
            } else {
                upgrades.count_levels(ZERGGROUNDARMORSLEVEL1)
            }
        },
        Race::TERRAN => {
            if traits.is_flying || traits.is_mechanical {
                upgrades.count_levels(TERRANVEHICLEANDSHIPARMORSLEVEL1)
            } else {
                upgrades.count_levels(TERRANINFANTRYARMORSLEVEL1)
            }
        },
        _ => 0,
    }
}

} // verus!
