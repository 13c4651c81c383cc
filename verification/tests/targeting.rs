use sc2_helper::combat_predictor::CombatSettings;
use sc2_helper::combat_unit::CombatUnit;
use sc2_helper::ids;
use sc2_helper::surround::SurroundInfo;
use sc2_helper::targeting::{
    find_best_target, score_candidate, score_candidates, select_best, target_score,
    CandidateScore, TargetingRules, BLOCKING_BONUS, KITING_PENALTY, SLOWER_BONUS, TIE_WINDOW,
};
use sc2_helper::unit_type_data::{Cost, UnitTypeData};
use sc2_helper::weapon::{Weapon, WeaponTargetType};

fn fighter(type_id: u32, health: i32, dps: i32, range: i32, speed: i32, minerals: i32) -> CombatUnit {
    CombatUnit {
        type_id,
        type_data: UnitTypeData::new(vec![], Cost { minerals, vespene: 0, time: 0 }),
        name: String::new(),
        is_light: false,
        is_armored: false,
        is_biological: true,
        is_mechanical: false,
        is_massive: false,
        is_psionic: false,
        weapons: Some(vec![Weapon {
            w_type: WeaponTargetType::GROUND,
            damage: dps,
            attacks: 1,
            range,
            speed: 1000,
            damage_bonus: None,
        }]),
        ground_dps: dps,
        ground_range: range,
        air_dps: 0,
        air_range: 0,
        armor: 0,
        movement_speed: speed,
        health,
        health_max: health,
        shield: 0,
        shield_max: 0,
        energy: 0,
        energy_max: 0,
        radius: 375,
        is_flying: false,
        attack_upgrade_level: 0,
        armor_upgrade_level: 0,
        shield_upgrade_level: 0,
        buff_timer: 0,
    }
}

fn marine_like() -> CombatUnit {
    fighter(ids::MARINE, 45_000, 7_000, 5_000, 2_250, 50)
}

fn zergling_like() -> CombatUnit {
    fighter(ids::ZERGLING, 35_000, 7_000, 100, 2_953, 25)
}

fn zealot_like() -> CombatUnit {
    fighter(ids::ZEALOT, 100_000, 16_000, 100, 2_250, 100)
}

fn no_limit() -> SurroundInfo {
    SurroundInfo { max_attackers_per_defender: i32::MAX, max_melee_attackers: i32::MAX }
}

fn rules(melee: bool) -> TargetingRules {
    TargetingRules {
        settings: CombatSettings::new(),
        has_ground: true,
        has_air: true,
        is_unit_melee: melee,
        surround: no_limit(),
        opponent_fraction_melee_units: 0,
    }
}

fn entry(eligible: bool, score: i128, hit_points: i64) -> CandidateScore {
    CandidateScore { eligible, score, dps: 1, weapon: None, hit_points }
}

#[test]
fn priority_of_a_target() {
    // a hundredth of the cost plus a thousand times the damage per second
    assert_eq!(target_score(&marine_like(), true, true), 100 * 50 + 10_000 * 7_000);
    let mut battlecruiser = fighter(ids::BATTLECRUISER, 550_000, 35_714, 6_000, 1_875, 400);
    battlecruiser.type_data.cost.vespene = 300;
    battlecruiser.air_dps = 22_321;
    assert_eq!(target_score(&battlecruiser, true, true), 357_225_000);
}

#[test]
fn priority_of_a_harmless_target() {
    // the marine-like unit cannot fire at air, so it is harmless to a side in the air
    assert_eq!(target_score(&marine_like(), false, true), 50 + 100 * 7_000);
    // and a unit that fires at air only is harmless to a side on the ground
    let mut flak = marine_like();
    flak.ground_dps = 0;
    flak.air_dps = 9_000;
    assert_eq!(target_score(&flak, true, false), 50 + 100 * 9_000);
    assert_eq!(target_score(&flak, true, true), 100 * 50 + 10_000 * 9_000);
}

#[test]
fn the_score_is_damage_times_priority() {
    let attacker = marine_like();
    let other = zealot_like();
    let result = score_candidate(&attacker, &other, 0, &rules(false));
    assert!(result.eligible);
    assert_eq!(result.dps, 7_000);
    assert_eq!(result.score, 7_000 * (100 * 100 + 10_000 * 16_000));
    assert_eq!(result.hit_points, 100_000);
    assert_eq!(result.weapon.unwrap().damage, 7_000);
}

#[test]
fn a_careful_melee_attacker_turns_the_score_around() {
    let attacker = zergling_like();
    let mut other = fighter(ids::MARINE, 45_000, 7_000, 5_000, 4_000, 50);
    let base: i128 = 7_000 * (100 * 50 + 10_000 * 7_000);
    // the target is faster than 1.05 times the attacker: no bonus
    assert_eq!(score_candidate(&attacker, &other, 0, &rules(true)).score, -base);
    let mut careless = rules(true);
    careless.settings.bad_micro = true;
    assert_eq!(score_candidate(&attacker, &other, 0, &careless).score, base);
    let mut anywhere = rules(true);
    anywhere.settings.assume_reasonable_positioning = false;
    assert_eq!(score_candidate(&attacker, &other, 0, &anywhere).score, base);
    // a target slower than 1.05 times the attacker cannot get away
    other.movement_speed = 3_100;
    assert_eq!(score_candidate(&attacker, &other, 0, &rules(true)).score, -base + SLOWER_BONUS);
    other.movement_speed = 3_101;
    assert_eq!(score_candidate(&attacker, &other, 0, &rules(true)).score, -base);
    let mut open = rules(true);
    open.settings.enable_melee_blocking = false;
    other.movement_speed = 1_000;
    assert_eq!(score_candidate(&attacker, &other, 0, &open).score, -base);
}

#[test]
fn a_melee_target_blocks_a_melee_attacker() {
    let attacker = zergling_like();
    let other = zealot_like();
    let base: i128 = 7_000 * (100 * 100 + 10_000 * 16_000);
    assert_eq!(score_candidate(&attacker, &other, 0, &rules(true)).score, -base + BLOCKING_BONUS);
    assert_eq!(BLOCKING_BONUS, 10_000_000_000_000);
    assert_eq!(SLOWER_BONUS, 5_000_000_000_000);
}

#[test]
fn a_ranged_attacker_shuns_what_outranges_it() {
    let attacker = marine_like();
    let mut other = fighter(ids::ROACH, 145_000, 11_000, 5_501, 3_150, 75);
    let base: i128 = 7_000 * (100 * 75 + 10_000 * 11_000);
    let mut busy = rules(false);
    busy.opponent_fraction_melee_units = 501;
    assert_eq!(score_candidate(&attacker, &other, 0, &busy).score, base - KITING_PENALTY);
    busy.opponent_fraction_melee_units = 500;
    assert_eq!(score_candidate(&attacker, &other, 0, &busy).score, base);
    busy.opponent_fraction_melee_units = 301;
    assert_eq!(score_candidate(&attacker, &other, 0, &busy).score, base);
    other.ground_range = 6_001;
    assert_eq!(score_candidate(&attacker, &other, 0, &busy).score, base - KITING_PENALTY);
    other.ground_range = 6_000;
    assert_eq!(score_candidate(&attacker, &other, 0, &busy).score, base);
    busy.opponent_fraction_melee_units = 1_000;
    other.ground_range = 5_500;
    assert_eq!(score_candidate(&attacker, &other, 0, &busy).score, base);
    // it does not trouble an attacker in the air
    let mut flyer = marine_like();
    flyer.is_flying = true;
    other.ground_range = 9_000;
    assert_eq!(score_candidate(&flyer, &other, 0, &busy).score, base);
    assert_eq!(KITING_PENALTY, 10_000_000_000_000);
}

#[test]
fn the_dead_and_the_surrounded_are_passed_over() {
    let attacker = zergling_like();
    let mut other = zealot_like();
    let mut crowded = rules(true);
    crowded.surround = SurroundInfo { max_attackers_per_defender: 2, max_melee_attackers: 10 };
    assert!(score_candidate(&attacker, &other, 1, &crowded).eligible);
    assert!(!score_candidate(&attacker, &other, 2, &crowded).eligible);
    assert!(!score_candidate(&attacker, &other, 3, &crowded).eligible);
    // the limit is for melee attackers
    let mut ranged = crowded;
    ranged.is_unit_melee = false;
    assert!(score_candidate(&marine_like(), &other, 3, &ranged).eligible);
    // and only where surround limits are on
    crowded.settings.enable_surround_limits = false;
    assert!(score_candidate(&attacker, &other, 3, &crowded).eligible);
    other.health = 0;
    assert!(!score_candidate(&attacker, &other, 0, &crowded).eligible);
}

#[test]
fn the_highest_score_wins() {
    let scores = vec![entry(true, 10_000, 50), entry(true, 30_000, 50), entry(true, 20_000, 10)];
    assert_eq!(select_best(&scores), Some(1));
}

#[test]
fn the_weakest_of_tied_candidates_wins() {
    let scores = vec![entry(true, 10_000, 50), entry(true, 10_000, 40), entry(true, 10_000, 45)];
    assert_eq!(select_best(&scores), Some(1));
    // scores within the window are tied
    let near = vec![
        entry(true, 10_000, 50),
        entry(true, 10_000 - TIE_WINDOW, 40),
        entry(true, 10_000 - TIE_WINDOW + TIE_WINDOW, 30),
    ];
    assert_eq!(select_best(&near), Some(2));
    let apart = vec![entry(true, 10_000, 50), entry(true, 10_000 - TIE_WINDOW - 1, 40)];
    assert_eq!(select_best(&apart), Some(0));
    let higher = vec![entry(true, 10_000, 50), entry(true, 10_000 + TIE_WINDOW, 50)];
    assert_eq!(select_best(&higher), Some(0));
    let clearly_higher = vec![entry(true, 10_000, 40), entry(true, 10_001 + TIE_WINDOW, 50)];
    assert_eq!(select_best(&clearly_higher), Some(1));
    assert_eq!(TIE_WINDOW, 1192);
}

#[test]
fn the_first_of_equal_candidates_wins() {
    let scores = vec![entry(false, 10_000, 50), entry(true, 10_000, 50), entry(true, 10_000, 50)];
    assert_eq!(select_best(&scores), Some(1));
}

#[test]
fn nothing_is_picked_where_nothing_is_eligible() {
    let scores = vec![entry(false, 10_000, 50), entry(false, 30_000, 50)];
    assert_eq!(select_best(&scores), None);
    assert_eq!(select_best(&vec![]), None);
}

#[test]
fn a_ranged_attacker_takes_the_most_dangerous_target() {
    let attacker = marine_like();
    let units = vec![marine_like(), zealot_like(), zergling_like()];
    let counts = vec![0, 0, 0];
    let choice = find_best_target(
        &attacker,
        &units,
        &CombatSettings::new(),
        true,
        true,
        false,
        &counts,
        &no_limit(),
        0,
    ).unwrap();
    assert_eq!(choice.index, 1);
    assert_eq!(choice.dps, 7_000);
    assert_eq!(choice.weapon.unwrap().w_type, WeaponTargetType::GROUND);
}

#[test]
fn a_careful_melee_attacker_takes_the_cheapest_blocker() {
    let attacker = zergling_like();
    let units = vec![marine_like(), zealot_like(), zergling_like()];
    let counts = vec![0, 0, 0];
    let settings = CombatSettings::new();
    let choice =
        find_best_target(&attacker, &units, &settings, true, true, true, &counts, &no_limit(), 0)
            .unwrap();
    // both melee targets get the blocking bonus, and the zergling is worth less
    assert_eq!(choice.index, 2);
    let limit = SurroundInfo { max_attackers_per_defender: 3, max_melee_attackers: 10 };
    let taken = vec![0, 2, 3];
    let next =
        find_best_target(&attacker, &units, &settings, true, true, true, &taken, &limit, 0).unwrap();
    assert_eq!(next.index, 1);
    let all_taken = vec![3, 3, 3];
    assert!(
        find_best_target(&attacker, &units, &settings, true, true, true, &all_taken, &limit, 0)
            .is_none()
    );
}

#[test]
fn the_weaker_of_two_like_targets_is_taken() {
    let attacker = marine_like();
    let mut hurt = marine_like();
    hurt.health = 44_999;
    let units = vec![marine_like(), marine_like(), hurt, marine_like()];
    let counts = vec![0, 0, 0, 0];
    let choice = find_best_target(
        &attacker,
        &units,
        &CombatSettings::new(),
        true,
        true,
        false,
        &counts,
        &no_limit(),
        0,
    ).unwrap();
    assert_eq!(choice.index, 2);
}

#[test]
fn a_target_out_of_reach_is_taken_without_damage() {
    let attacker = zergling_like();
    let mut flyer = marine_like();
    flyer.is_flying = true;
    let units = vec![flyer];
    let counts = vec![0];
    let choice = find_best_target(
        &attacker,
        &units,
        &CombatSettings::new(),
        true,
        true,
        true,
        &counts,
        &no_limit(),
        0,
    ).unwrap();
    assert_eq!(choice.index, 0);
    assert_eq!(choice.dps, 0);
}

#[test]
fn no_target_among_the_dead() {
    let attacker = marine_like();
    let mut dead = marine_like();
    dead.health = 0;
    let units = vec![dead.clone(), dead];
    let counts = vec![0, 0];
    let settings = CombatSettings::new();
    assert!(
        find_best_target(&attacker, &units, &settings, true, true, false, &counts, &no_limit(), 0)
            .is_none()
    );
    let nobody: Vec<CombatUnit> = vec![];
    let none: Vec<usize> = vec![];
    assert!(
        find_best_target(&attacker, &nobody, &settings, true, true, false, &none, &no_limit(), 0)
            .is_none()
    );
}

#[test]
fn the_choice_does_not_depend_on_the_threads() {
    let mut units: Vec<CombatUnit> = vec![];
    for i in 0..200 {
        let mut unit = if i % 3 == 0 {
            zealot_like()
        } else if i % 3 == 1 {
            marine_like()
        } else {
            zergling_like()
        };
        unit.health = 1_000 + ((i * 7_919) % 30_000);
        unit.ground_dps = 5_000 + ((i * 104_729) % 9_000);
        units.push(unit);
    }
    let counts: Vec<usize> = (0..200).map(|i| i % 4).collect();
    let limit = SurroundInfo { max_attackers_per_defender: 2, max_melee_attackers: 10 };
    let mut threaded = CombatSettings::new();
    threaded.multi_threaded = true;
    let single = CombatSettings::new();
    for melee in [false, true] {
        let attacker = if melee { zergling_like() } else { marine_like() };
        let one =
            find_best_target(&attacker, &units, &single, true, true, melee, &counts, &limit, 400)
                .unwrap();
        let many =
            find_best_target(&attacker, &units, &threaded, true, true, melee, &counts, &limit, 400)
                .unwrap();
        assert_eq!(one.index, many.index);
        assert_eq!(one.dps, many.dps);
        let scores = score_candidates(&attacker, &units, &counts, &TargetingRules {
            settings: single,
            has_ground: true,
            has_air: true,
            is_unit_melee: melee,
            surround: limit,
            opponent_fraction_melee_units: 400,
        });
        assert_eq!(scores.len(), 200);
        assert_eq!(select_best(&scores), Some(many.index));
        assert_eq!(scores[many.index].dps, many.dps);
    }
}
