//! Stable numeric identifiers of the unit types and upgrades that the combat
//! rules single out.

use vstd::prelude::*;

verus! {

/// A unit type, by its stable id in the game protocol.
pub type UnitTypeId = u32;

/// An upgrade, by its stable id in the game protocol.
pub type UpgradeId = u32;

pub const COLOSSUS: u32 = 4;
pub const BANELING: u32 = 9;
pub const SCV: u32 = 45;
pub const MARINE: u32 = 48;
pub const MEDIVAC: u32 = 54;
pub const BATTLECRUISER: u32 = 57;
pub const ZEALOT: u32 = 73;
pub const DARKTEMPLAR: u32 = 76;
pub const PROBE: u32 = 84;
pub const DRONE: u32 = 104;
pub const ZERGLING: u32 = 105;
pub const ULTRALISK: u32 = 109;
pub const ROACH: u32 = 110;
pub const BANELINGBURROWED: u32 = 115;
pub const ZERGLINGBURROWED: u32 = 119;
pub const BROODLING: u32 = 289;
pub const HELLIONTANK: u32 = 484;
pub const ORACLE: u32 = 495;

pub const TERRANBUILDINGARMOR: u32 = 6;
pub const TERRANINFANTRYWEAPONSLEVEL1: u32 = 7;
pub const TERRANINFANTRYARMORSLEVEL1: u32 = 11;
pub const TERRANVEHICLEWEAPONSLEVEL1: u32 = 30;
pub const TERRANSHIPWEAPONSLEVEL1: u32 = 36;
pub const PROTOSSGROUNDWEAPONSLEVEL1: u32 = 39;
pub const PROTOSSGROUNDARMORSLEVEL1: u32 = 42;
pub const PROTOSSSHIELDSLEVEL1: u32 = 45;
pub const ZERGMELEEWEAPONSLEVEL1: u32 = 53;
pub const ZERGGROUNDARMORSLEVEL1: u32 = 56;
pub const ZERGMISSILEWEAPONSLEVEL1: u32 = 59;
pub const ZERGFLYERWEAPONSLEVEL1: u32 = 68;
pub const ZERGFLYERARMORSLEVEL1: u32 = 71;
pub const PROTOSSAIRWEAPONSLEVEL1: u32 = 78;
pub const PROTOSSAIRARMORSLEVEL1: u32 = 81;
pub const TERRANVEHICLEANDSHIPARMORSLEVEL1: u32 = 116;

/// Whether units of this type fight at melee range.
pub open spec fn melee_type(unit: UnitTypeId) -> bool {
    unit == PROBE || unit == ZEALOT || unit == DARKTEMPLAR || unit == SCV || unit == HELLIONTANK
        || unit == DRONE || unit == ZERGLING || unit == ZERGLINGBURROWED || unit == BANELING
        || unit == BANELINGBURROWED || unit == ULTRALISK || unit == BROODLING
}

/// Whether units of this type are the basic resource harvester of a race.
pub open spec fn harvester_type(unit: UnitTypeId) -> bool {
    unit == SCV || unit == PROBE || unit == DRONE
}

/// Whether an upgrade is the first of a three-level line.
pub open spec fn levelled_upgrade(upgrade: UpgradeId) -> bool {
    upgrade == TERRANINFANTRYWEAPONSLEVEL1 || upgrade == TERRANINFANTRYARMORSLEVEL1 || upgrade
        == TERRANVEHICLEWEAPONSLEVEL1 || upgrade == TERRANSHIPWEAPONSLEVEL1 || upgrade
        == PROTOSSGROUNDWEAPONSLEVEL1 || upgrade == PROTOSSGROUNDARMORSLEVEL1 || upgrade
        == PROTOSSSHIELDSLEVEL1 || upgrade == ZERGMELEEWEAPONSLEVEL1 || upgrade
        == ZERGGROUNDARMORSLEVEL1 || upgrade == ZERGMISSILEWEAPONSLEVEL1 || upgrade
        == ZERGFLYERWEAPONSLEVEL1 || upgrade == ZERGFLYERARMORSLEVEL1 || upgrade
        == PROTOSSAIRWEAPONSLEVEL1 || upgrade == PROTOSSAIRARMORSLEVEL1 || upgrade
        == TERRANVEHICLEANDSHIPARMORSLEVEL1
}

/// Whether units of this type fight at melee range.
pub fn is_melee(unit: UnitTypeId) -> (melee: bool)
    ensures
        melee == melee_type(unit),
{
    unit == PROBE || unit == ZEALOT || unit == DARKTEMPLAR || unit == SCV || unit == HELLIONTANK
        || unit == DRONE || unit == ZERGLING || unit == ZERGLINGBURROWED || unit == BANELING
        || unit == BANELINGBURROWED || unit == ULTRALISK || unit == BROODLING
}

/// Whether units of this type are the basic resource harvester of a race.
pub fn is_basic_harvester(unit: UnitTypeId) -> (harvester: bool)
    ensures
        harvester == harvester_type(unit),
{
    unit == SCV || unit == PROBE || unit == DRONE
}

/// Whether an upgrade is the first of a three-level line.
pub fn is_upgrade_with_levels(upgrade: UpgradeId) -> (levelled: bool)
    ensures
        levelled == levelled_upgrade(upgrade),
{
    upgrade == TERRANINFANTRYWEAPONSLEVEL1 || upgrade == TERRANINFANTRYARMORSLEVEL1 || upgrade
        == TERRANVEHICLEWEAPONSLEVEL1 || upgrade == TERRANSHIPWEAPONSLEVEL1 || upgrade
        == PROTOSSGROUNDWEAPONSLEVEL1 || upgrade == PROTOSSGROUNDARMORSLEVEL1 || upgrade
        == PROTOSSSHIELDSLEVEL1 || upgrade == ZERGMELEEWEAPONSLEVEL1 || upgrade
        == ZERGGROUNDARMORSLEVEL1 || upgrade == ZERGMISSILEWEAPONSLEVEL1 || upgrade
        == ZERGFLYERWEAPONSLEVEL1 || upgrade == ZERGFLYERARMORSLEVEL1 || upgrade
        == PROTOSSAIRWEAPONSLEVEL1 || upgrade == PROTOSSAIRARMORSLEVEL1 || upgrade
        == TERRANVEHICLEANDSHIPARMORSLEVEL1
}

} // verus!
