use sc2_helper::combat_unit::CombatUnit;
use sc2_helper::enums::{Attribute, Race};
use sc2_helper::ids;
use sc2_helper::unit_type_data::{Cost, UnitTypeData};
use sc2_helper::weapon::{DamageBonus, Weapon, WeaponTargetType, DPS_CEILING};

fn plain_unit(type_id: u32, health: i32, shield: i32) -> CombatUnit {
    CombatUnit {
        type_id,
        type_data: UnitTypeData::new(vec![], Cost { minerals: 100, vespene: 0, time: 0 }),
        name: String::new(),
        is_light: false,
        is_armored: false,
        is_biological: false,
        is_mechanical: false,
        is_massive: false,
        is_psionic: false,
        weapons: Some(vec![]),
        ground_dps: 0,
        ground_range: 0,
        air_dps: 0,
        air_range: 0,
        armor: 0,
        movement_speed: 0,
        health,
        health_max: health,
        shield,
        shield_max: shield,
        energy: 0,
        energy_max: 0,
        radius: 500,
        is_flying: false,
        attack_upgrade_level: 0,
        armor_upgrade_level: 0,
        shield_upgrade_level: 0,
        buff_timer: 0,
    }
}

fn rifle() -> Weapon {
    Weapon {
        w_type: WeaponTargetType::ANY,
        damage: 6000,
        attacks: 1,
        range: 5000,
        speed: 861,
        damage_bonus: None,
    }
}

#[test]
fn damage_empties_the_shield_before_the_health() {
    let mut unit = plain_unit(ids::ZEALOT, 100_000, 50_000);
    unit.modify_health(-30_000);
    assert_eq!((unit.health, unit.shield), (100_000, 20_000));
    unit.modify_health(-20_000);
    assert_eq!((unit.health, unit.shield), (100_000, 0));
    unit.modify_health(-1);
    assert_eq!((unit.health, unit.shield), (99_999, 0));
}

#[test]
fn damage_spills_from_the_shield_into_the_health() {
    let mut unit = plain_unit(ids::ZEALOT, 100_000, 50_000);
    unit.modify_health(-70_000);
    assert_eq!((unit.health, unit.shield), (80_000, 0));
}

#[test]
fn damage_stops_at_zero() {
    let mut unit = plain_unit(ids::ZEALOT, 100_000, 50_000);
    unit.modify_health(-150_001);
    assert_eq!((unit.health, unit.shield), (0, 0));
    let mut other = plain_unit(ids::ZEALOT, 100_000, 50_000);
    other.modify_health(i128::MIN);
    assert_eq!((other.health, other.shield), (0, 0));
}

#[test]
fn healing_stops_at_the_maximum() {
    let mut unit = plain_unit(ids::MARINE, 45_000, 0);
    unit.health = 20_000;
    unit.modify_health(9_000);
    assert_eq!(unit.health, 29_000);
    unit.modify_health(20_000);
    assert_eq!(unit.health, 45_000);
    unit.modify_health(i128::MAX);
    assert_eq!(unit.health, 45_000);
    assert_eq!(unit.shield, 0);
}

#[test]
fn healing_leaves_the_shield_alone() {
    let mut unit = plain_unit(ids::ZEALOT, 100_000, 50_000);
    unit.health = 10_000;
    unit.shield = 5_000;
    unit.modify_health(1_000);
    assert_eq!((unit.health, unit.shield), (11_000, 5_000));
}

#[test]
fn a_change_of_nothing_changes_nothing() {
    let mut unit = plain_unit(ids::ZEALOT, 100_000, 50_000);
    unit.health = 10_000;
    unit.modify_health(0);
    assert_eq!((unit.health, unit.shield), (10_000, 50_000));
}

#[test]
fn dps_of_a_plain_weapon() {
    let attacker = plain_unit(ids::MARINE, 45_000, 0);
    let target = plain_unit(ids::MARINE, 45_000, 0);
    // 6 damage every 0.861 s
    assert_eq!(rifle().calculate_dps(&attacker, &target), 6_968);
}

#[test]
fn dps_is_reduced_by_armor() {
    let attacker = plain_unit(ids::MARINE, 45_000, 0);
    let mut target = plain_unit(ids::BATTLECRUISER, 550_000, 0);
    target.armor = 3_000;
    target.is_flying = true;
    // (6 - 3) damage every 0.861 s
    assert_eq!(rifle().calculate_dps(&attacker, &target), 3_484);
}

#[test]
fn armor_counts_for_the_share_of_health_in_the_hit_points() {
    let attacker = plain_unit(ids::MARINE, 45_000, 0);
    let mut target = plain_unit(ids::ZEALOT, 100_000, 50_000);
    target.armor = 1_000;
    // armor 1 * 100 / 150 = 0.666; (6 - 0.666) damage every 0.861 s
    assert_eq!(rifle().calculate_dps(&attacker, &target), 6_195);
}

#[test]
fn armor_upgrades_add_to_the_armor() {
    let attacker = plain_unit(ids::MARINE, 45_000, 0);
    let mut target = plain_unit(ids::MARINE, 45_000, 0);
    target.armor = 1_000;
    target.armor_upgrade_level = 2;
    assert_eq!(rifle().calculate_dps(&attacker, &target), 3_484);
}

#[test]
fn attack_upgrades_add_to_the_damage() {
    let mut attacker = plain_unit(ids::MARINE, 45_000, 0);
    attacker.attack_upgrade_level = 2;
    let target = plain_unit(ids::MARINE, 45_000, 0);
    // 8 damage every 0.861 s
    assert_eq!(rifle().calculate_dps(&attacker, &target), 9_291);
}

#[test]
fn the_bonus_applies_to_targets_with_the_attribute_only() {
    let weapon = Weapon {
        w_type: WeaponTargetType::GROUND,
        damage: 10_000,
        attacks: 2,
        range: 6000,
        speed: 1000,
        damage_bonus: Some(DamageBonus { attribute: Attribute::ARMORED, bonus: 10_000 }),
    };
    let attacker = plain_unit(ids::ROACH, 145_000, 0);
    let mut armored = plain_unit(ids::ROACH, 145_000, 0);
    armored.is_armored = true;
    armored.armor = 1_000;
    let mut light = plain_unit(ids::ZERGLING, 35_000, 0);
    light.is_light = true;
    assert_eq!(weapon.calculate_dps(&attacker, &armored), 38_000);
    assert_eq!(weapon.calculate_dps(&attacker, &light), 20_000);
    let structure_bonus = Weapon {
        damage_bonus: Some(DamageBonus { attribute: Attribute::STRUCTURE, bonus: 10_000 }),
        ..weapon
    };
    assert_eq!(structure_bonus.calculate_dps(&attacker, &armored), 18_000);
}

#[test]
fn a_weapon_reaches_only_what_its_target_type_allows() {
    let attacker = plain_unit(ids::MARINE, 45_000, 0);
    let walker = plain_unit(ids::MARINE, 45_000, 0);
    let mut flyer = plain_unit(ids::BATTLECRUISER, 550_000, 0);
    flyer.is_flying = true;
    let colossus = plain_unit(ids::COLOSSUS, 200_000, 150_000);
    let ground = Weapon { w_type: WeaponTargetType::GROUND, ..rifle() };
    let air = Weapon { w_type: WeaponTargetType::AIR, ..rifle() };
    let null = Weapon { w_type: WeaponTargetType::NULL, ..rifle() };
    assert_eq!(ground.calculate_dps(&attacker, &walker), 6_968);
    assert_eq!(ground.calculate_dps(&attacker, &flyer), 0);
    assert_eq!(ground.calculate_dps(&attacker, &colossus), 6_968);
    assert_eq!(air.calculate_dps(&attacker, &walker), 0);
    assert_eq!(air.calculate_dps(&attacker, &flyer), 6_968);
    assert_eq!(air.calculate_dps(&attacker, &colossus), 6_968);
    assert_eq!(null.calculate_dps(&attacker, &walker), 0);
    assert_eq!(null.calculate_dps(&attacker, &flyer), 0);
    assert_eq!(rifle().calculate_dps(&attacker, &flyer), 6_968);
}

#[test]
fn armor_above_the_damage_leaves_no_dps() {
    let attacker = plain_unit(ids::MARINE, 45_000, 0);
    let mut target = plain_unit(ids::ULTRALISK, 500_000, 0);
    target.armor = 6_000;
    assert_eq!(rifle().calculate_dps(&attacker, &target), 0);
    target.armor = 7_000;
    assert_eq!(rifle().calculate_dps(&attacker, &target), 0);
}

#[test]
fn negative_armor_adds_to_the_damage() {
    let attacker = plain_unit(ids::MARINE, 45_000, 0);
    let mut target = plain_unit(ids::ZEALOT, 100_000, 50_000);
    target.armor = -1_000;
    // armor share -0.666; (6 + 0.666) damage every 0.861 s
    assert_eq!(rifle().calculate_dps(&attacker, &target), 7_742);
}

#[test]
fn a_weapon_that_never_fires_has_no_dps() {
    let attacker = plain_unit(ids::MARINE, 45_000, 0);
    let target = plain_unit(ids::MARINE, 45_000, 0);
    let stuck = Weapon { speed: 0, ..rifle() };
    let empty = Weapon { attacks: 0, ..rifle() };
    let backwards = Weapon { speed: -100, ..rifle() };
    assert_eq!(stuck.calculate_dps(&attacker, &target), 0);
    assert_eq!(empty.calculate_dps(&attacker, &target), 0);
    assert_eq!(backwards.calculate_dps(&attacker, &target), 0);
    assert_eq!(stuck.get_dps(), 0);
}

#[test]
fn a_target_without_hit_points_takes_no_damage() {
    let attacker = plain_unit(ids::MARINE, 45_000, 0);
    let target = plain_unit(ids::MARINE, 0, 0);
    assert_eq!(rifle().calculate_dps(&attacker, &target), 0);
}

#[test]
fn dps_stops_at_the_ceiling() {
    let mut attacker = plain_unit(ids::MARINE, 45_000, 0);
    attacker.attack_upgrade_level = i32::MAX;
    let target = plain_unit(ids::MARINE, 45_000, 0);
    let weapon = Weapon { damage: i32::MAX, attacks: i32::MAX, speed: 1, ..rifle() };
    assert_eq!(weapon.calculate_dps(&attacker, &target), DPS_CEILING);
    assert_eq!(DPS_CEILING, i64::MAX);
}

#[test]
fn dps_is_the_same_on_every_call() {
    let attacker = plain_unit(ids::MARINE, 45_000, 0);
    let mut target = plain_unit(ids::ZEALOT, 100_000, 50_000);
    target.armor = 1_000;
    let first = rifle().calculate_dps(&attacker, &target);
    let second = rifle().calculate_dps(&attacker, &target);
    assert_eq!(first, second);
    // the target's condition does not matter, only what it is
    target.modify_health(-120_000);
    assert_eq!(rifle().calculate_dps(&attacker, &target), first);
    assert_eq!(target.health, 30_000);
}

#[test]
fn the_battlecruiser_has_a_battery_for_each_kind_of_target() {
    let weapons = Weapon::battlecruiser();
    assert_eq!(weapons.len(), 2);
    assert_eq!(weapons[0].get_target_type(), WeaponTargetType::AIR);
    assert_eq!(weapons[0].get_damage(), 5_000);
    assert_eq!(weapons[1].get_target_type(), WeaponTargetType::GROUND);
    assert_eq!(weapons[1].get_damage(), 8_000);
    assert_eq!(weapons[1].get_attacks(), 1);
    assert_eq!(weapons[1].get_range(), 6_000);
    assert_eq!(weapons[1].get_speed(), 224);
    assert_eq!(weapons[1].splash(), 0);
    // one volley every 0.224 s
    assert_eq!(weapons[1].get_dps(), 4_464);
    let attacker = plain_unit(ids::BATTLECRUISER, 550_000, 0);
    let marine = plain_unit(ids::MARINE, 45_000, 0);
    assert_eq!(weapons[1].calculate_dps(&attacker, &marine), 35_714);
    assert_eq!(weapons[0].calculate_dps(&attacker, &marine), 0);
    let mut flyer = plain_unit(ids::BATTLECRUISER, 550_000, 0);
    flyer.is_flying = true;
    assert_eq!(weapons[0].calculate_dps(&attacker, &flyer), 22_321);
}

#[test]
fn the_queries_of_a_unit() {
    let mut unit = plain_unit(ids::BATTLECRUISER, 550_000, 0);
    unit.type_data = UnitTypeData::new(
        vec![Attribute::ARMORED],
        Cost { minerals: 400, vespene: 300, time: 64_000 },
    );
    unit.weapons = Some(Weapon::battlecruiser());
    unit.ground_dps = 35_714;
    unit.air_dps = 22_321;
    unit.ground_range = 6_000;
    unit.air_range = 6_500;
    unit.is_flying = true;
    assert_eq!(unit.get_adjusted_cost(), 850);
    assert_eq!(unit.get_mineral_cost(), 400);
    assert_eq!(unit.get_vespene_cost(), 300);
    assert_eq!(unit.get_max_dps(), 35_714);
    assert_eq!(unit.get_dps(true), 22_321);
    assert_eq!(unit.get_dps(false), 35_714);
    assert_eq!(unit.get_max_range(), 6_500);
    assert!(unit.can_be_attacked_by_air());
    assert!(!unit.is_melee());
    assert!(!unit.is_basic_harvester());
    assert!(unit.can_attack());
    assert!(unit.can_attack_air());
    assert!(unit.can_attack_ground());
    assert_eq!(unit.air_weapons().unwrap().damage, 5_000);
    assert_eq!(unit.ground_weapons().unwrap().damage, 8_000);
}

#[test]
fn the_first_fitting_weapon_is_taken() {
    let mut unit = plain_unit(ids::MARINE, 45_000, 0);
    let ground = Weapon { w_type: WeaponTargetType::GROUND, damage: 1_000, ..rifle() };
    let any = Weapon { w_type: WeaponTargetType::ANY, damage: 2_000, ..rifle() };
    let air = Weapon { w_type: WeaponTargetType::AIR, damage: 3_000, ..rifle() };
    unit.weapons = Some(vec![ground, any, air]);
    assert_eq!(unit.ground_weapons().unwrap().damage, 1_000);
    assert_eq!(unit.air_weapons().unwrap().damage, 2_000);
    unit.weapons = Some(vec![Weapon { w_type: WeaponTargetType::NULL, ..rifle() }, ground]);
    assert!(unit.air_weapons().is_none());
    assert!(!unit.can_attack_air());
    assert!(unit.can_attack_ground());
    unit.weapons = Some(vec![]);
    assert!(!unit.can_attack());
    assert!(unit.ground_weapons().is_none());
    unit.weapons = None;
    assert!(!unit.can_attack());
    assert!(unit.air_weapons().is_none());
    assert!(!unit.can_attack_ground());
    unit.type_id = ids::ORACLE;
    assert!(unit.can_attack_ground());
}

#[test]
fn the_adjusted_cost_rounds_toward_zero() {
    let mut unit = plain_unit(ids::MARINE, 45_000, 0);
    unit.type_data.cost = Cost { minerals: 50, vespene: 25, time: 0 };
    assert_eq!(unit.get_adjusted_cost(), 87);
    unit.type_data.cost = Cost { minerals: 50, vespene: -25, time: 0 };
    assert_eq!(unit.get_adjusted_cost(), 13);
    unit.type_data.cost = Cost { minerals: i32::MAX, vespene: i32::MAX, time: 0 };
    assert_eq!(unit.get_adjusted_cost(), 5_368_709_117);
}

#[test]
fn melee_units_and_harvesters_are_known_by_their_type() {
    for id in [
        ids::PROBE,
        ids::ZEALOT,
        ids::DARKTEMPLAR,
        ids::SCV,
        ids::HELLIONTANK,
        ids::DRONE,
        ids::ZERGLING,
        ids::ZERGLINGBURROWED,
        ids::BANELING,
        ids::BANELINGBURROWED,
        ids::ULTRALISK,
        ids::BROODLING,
    ] {
        assert!(ids::is_melee(id));
        assert!(plain_unit(id, 1, 0).is_melee());
    }
    for id in [ids::MARINE, ids::ROACH, ids::MEDIVAC, ids::COLOSSUS, 0, u32::MAX] {
        assert!(!ids::is_melee(id));
    }
    for id in [ids::SCV, ids::PROBE, ids::DRONE] {
        assert!(ids::is_basic_harvester(id));
        assert!(plain_unit(id, 1, 0).is_basic_harvester());
    }
    assert!(!ids::is_basic_harvester(ids::ZEALOT));
    assert!(ids::is_upgrade_with_levels(ids::ZERGFLYERARMORSLEVEL1));
    assert!(!ids::is_upgrade_with_levels(ids::TERRANBUILDINGARMOR));
    assert!(plain_unit(ids::COLOSSUS, 1, 0).can_be_attacked_by_air());
    assert!(!plain_unit(ids::MARINE, 1, 0).can_be_attacked_by_air());
}

#[test]
fn codes_and_their_enums() {
    assert_eq!(Attribute::from_i32(0), Some(Attribute::NULL));
    assert_eq!(Attribute::from_i32(3), Some(Attribute::BIOLOGICAL));
    assert_eq!(Attribute::from_i32(11), Some(Attribute::SUMMONED));
    assert_eq!(Attribute::from_i32(12), None);
    assert_eq!(Attribute::from_i32(-1), None);
    assert_eq!(Attribute::MASSIVE.to_i32(), 7);
    assert_eq!(Attribute::default(), Attribute::NULL);
    for code in 0..12 {
        assert_eq!(Attribute::from_i32(code).unwrap().to_i32(), code);
    }
    assert_eq!(WeaponTargetType::from_i32(1), Some(WeaponTargetType::GROUND));
    assert_eq!(WeaponTargetType::from_i32(2), Some(WeaponTargetType::AIR));
    assert_eq!(WeaponTargetType::from_i32(3), Some(WeaponTargetType::ANY));
    assert_eq!(WeaponTargetType::from_i32(4), None);
    assert_eq!(WeaponTargetType::ANY.to_i32(), 3);
    assert_eq!(WeaponTargetType::default(), WeaponTargetType::NULL);
    assert_eq!(Race::from_i32(2), Some(Race::ZERG));
    assert_eq!(Race::from_i32(5), None);
    assert_eq!(Race::PROTOSS.to_i32(), 3);
    assert_eq!(Race::default(), Race::NORACE);
    let bonus = DamageBonus { attribute: Attribute::LIGHT, bonus: 4_000 };
    assert_eq!(bonus.get_attribute(), Attribute::LIGHT);
    assert_eq!(bonus.get_bonus(), 4_000);
}
