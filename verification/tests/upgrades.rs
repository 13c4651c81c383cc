use sc2_helper::enums::Race;
use sc2_helper::ids;
use sc2_helper::upgrades::{get_armor_bonus, get_damage_bonus, CombatUpgrades, UnitTraits};

fn traits(race: Race, is_flying: bool, is_mechanical: bool) -> UnitTraits {
    UnitTraits { race, is_structure: false, is_flying, is_mechanical }
}

fn line(first: u32, levels: u32) -> CombatUpgrades {
    CombatUpgrades::new((first..first + levels).collect())
}

#[test]
fn upgrades_are_found_in_the_list() {
    let upgrades = CombatUpgrades::new(vec![7, 8, 116]);
    assert!(upgrades.has_upgrade(7));
    assert!(upgrades.has_upgrade(116));
    assert!(!upgrades.has_upgrade(9));
    assert!(!CombatUpgrades::new(vec![]).has_upgrade(7));
    assert_eq!(upgrades.count_levels(ids::TERRANINFANTRYWEAPONSLEVEL1), 2);
    assert_eq!(upgrades.count_levels(ids::TERRANVEHICLEANDSHIPARMORSLEVEL1), 1);
    assert_eq!(upgrades.count_levels(ids::ZERGMELEEWEAPONSLEVEL1), 0);
}

#[test]
fn every_unit_has_its_weapon_line() {
    let cases = [
        (ids::ZEALOT, traits(Race::PROTOSS, false, false), ids::PROTOSSGROUNDWEAPONSLEVEL1),
        (ids::ORACLE, traits(Race::PROTOSS, true, true), ids::PROTOSSAIRWEAPONSLEVEL1),
        (ids::ZERGLING, traits(Race::ZERG, false, false), ids::ZERGMELEEWEAPONSLEVEL1),
        (ids::ROACH, traits(Race::ZERG, false, false), ids::ZERGMISSILEWEAPONSLEVEL1),
        (ids::BROODLING, traits(Race::ZERG, true, false), ids::ZERGFLYERWEAPONSLEVEL1),
        (ids::MARINE, traits(Race::TERRAN, false, false), ids::TERRANINFANTRYWEAPONSLEVEL1),
        (ids::HELLIONTANK, traits(Race::TERRAN, false, true), ids::TERRANVEHICLEWEAPONSLEVEL1),
        (ids::BATTLECRUISER, traits(Race::TERRAN, true, true), ids::TERRANSHIPWEAPONSLEVEL1),
    ];
    for (unit, unit_traits, first) in cases {
        for levels in 0..4 {
            assert_eq!(get_damage_bonus(unit, &line(first, levels), &unit_traits), levels as i32);
        }
        // another line does not count
        assert_eq!(get_damage_bonus(unit, &line(first + 3, 3), &unit_traits), 0);
        let building = UnitTraits { is_structure: true, ..unit_traits };
        assert_eq!(get_damage_bonus(unit, &line(first, 3), &building), 0);
    }
    assert_eq!(ids::ZERGFLYERWEAPONSLEVEL1, 68);
    assert_eq!(ids::TERRANSHIPWEAPONSLEVEL1, 36);
}

#[test]
fn every_unit_has_its_armor_line() {
    let cases = [
        (traits(Race::PROTOSS, false, false), ids::PROTOSSGROUNDARMORSLEVEL1),
        (traits(Race::PROTOSS, true, false), ids::PROTOSSAIRARMORSLEVEL1),
        (traits(Race::ZERG, false, false), ids::ZERGGROUNDARMORSLEVEL1),
        (traits(Race::ZERG, true, false), ids::ZERGFLYERARMORSLEVEL1),
        (traits(Race::TERRAN, false, false), ids::TERRANINFANTRYARMORSLEVEL1),
        (traits(Race::TERRAN, false, true), ids::TERRANVEHICLEANDSHIPARMORSLEVEL1),
        (traits(Race::TERRAN, true, false), ids::TERRANVEHICLEANDSHIPARMORSLEVEL1),
    ];
    for (unit_traits, first) in cases {
        for levels in 0..4 {
            assert_eq!(get_armor_bonus(&line(first, levels), &unit_traits), levels as i32);
        }
        // the third level counts without the second
        let gaps = CombatUpgrades::new(vec![first, first + 2]);
        assert_eq!(get_armor_bonus(&gaps, &unit_traits), 2);
    }
}

#[test]
fn building_armor_is_for_terran_structures() {
    let armored = CombatUpgrades::new(vec![ids::TERRANBUILDINGARMOR, 11, 12, 13]);
    let bunker =
        UnitTraits { race: Race::TERRAN, is_structure: true, is_flying: false, is_mechanical: true };
    assert_eq!(get_armor_bonus(&armored, &bunker), 2);
    assert_eq!(get_armor_bonus(&line(11, 3), &bunker), 0);
    let cannon = UnitTraits { race: Race::PROTOSS, ..bunker };
    assert_eq!(get_armor_bonus(&armored, &cannon), 0);
}

#[test]
fn units_of_no_race_have_no_upgrades() {
    let everything = CombatUpgrades::new((0..200).collect());
    for race in [Race::NORACE, Race::RANDOM] {
        assert_eq!(get_damage_bonus(ids::MARINE, &everything, &traits(race, false, false)), 0);
        assert_eq!(get_armor_bonus(&everything, &traits(race, true, false)), 0);
    }
    assert_eq!(
        get_damage_bonus(ids::MARINE, &everything, &traits(Race::TERRAN, false, false)),
        3
    );
}
