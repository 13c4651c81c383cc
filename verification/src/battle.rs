//! The battle as a whole: tick after tick until nothing changes any more.

use vstd::prelude::*;
use crate::combat_unit::CombatUnit;
use crate::engagement::{
    extra_melee_distance, pass_rules, run_from, run_pass, tick, tick_length, times_pi,
    BattleState, PassRules, Statics, MAX_ITERATIONS, ZEALOT_RADIUS,
};
use crate::fixed::{isqrt, lemma_sqrt_floor_is_root};
use crate::ids::MEDIVAC;
use crate::roster::{
    all_well_formed, get_melee_fraction, get_unit_info, hit_points_total, no_active_healer,
    RosterInfo,
};
use crate::side_pass::{rules_in_order, SidePass};
use crate::surround::{max_surround, PI_MICRO};

verus! {

/// No roster may hold more units than this.
pub const MAX_ROSTER_UNITS: usize = 1_000_000;

/// Both sides between two ticks.
pub struct Battle {
    pub units1: Vec<CombatUnit>,
    pub units2: Vec<CombatUnit>,
    /// The simulated time.
    pub time: i64,
    /// The seed of the next random draw.
    pub seed: u64,
    /// Whether the last tick called for another one.
    pub changed: bool,
}

impl View for Battle {
    type V = BattleState;

    open spec fn view(&self) -> BattleState {
        BattleState {
            units1: self.units1@,
            units2: self.units2@,
            time: self.time,
            seed: self.seed,
            changed: self.changed,
        }
    }
}

/// The battle is within the limits that the arithmetic needs before the tick
/// with number `it`.
pub open spec fn battle_in_order(b: BattleState, it: int) -> bool {
    &&& b.units1.len() <= MAX_ROSTER_UNITS
    &&& b.units2.len() <= MAX_ROSTER_UNITS
    &&& -0x8000_0000 <= b.time <= 0x8000_0000 + 5000 * it
}

/// The circle constant times an area.
pub fn area_times_pi(area: u128) -> (product: u128)
    requires
        area <= MAX_ROSTER_UNITS * 0x4000_0000_0000_0000,
    ensures
        product == times_pi(area as int),
        product <= 4 * MAX_ROSTER_UNITS * 0x4000_0000_0000_0000,
{
    (area * PI_MICRO) / 1_000_000
}

/// How much further the last melee unit has to walk than the first.
pub fn get_extra_melee_distance(info1: &RosterInfo, info2: &RosterInfo) -> (extra: i64)
    requires
        info1.ground_area <= MAX_ROSTER_UNITS * 0x4000_0000_0000_0000,
        info2.ground_area <= MAX_ROSTER_UNITS * 0x4000_0000_0000_0000,
    ensures
        extra == extra_melee_distance(*info1, *info2),
        0 <= extra <= 0x1000_0000_0000,
{
    let first: u64 = isqrt(area_times_pi(info1.ground_area));
    let second: u64 = isqrt(area_times_pi(info2.ground_area));
    proof {
        let limit = 4 * MAX_ROSTER_UNITS * 0x4000_0000_0000_0000;
        assert(first < 0x800_0000_0000 && second < 0x800_0000_0000) by (nonlinear_arith)
            requires
                first * first <= limit,
                second * second <= limit,
                limit == 4 * 1_000_000 * 0x4000_0000_0000_0000,
                first >= 0,
                second >= 0,
        ;
    }
    (first + second) as i64
}

/// Length of the tick with the given number, in seconds.
pub fn get_tick_length(it: u32) -> (dt: i32)
    ensures
        dt == tick_length(it as int),
        1 <= dt <= 5,
{
    if 1 + it / 10 > 5 {
        5
    } else {
        (1 + it / 10) as i32
    }
}

/// The rules for the move of one side against the other in one tick.
pub fn make_rules(
    statics: &Statics,
    own: &RosterInfo,
    other: &RosterInfo,
    opponents: &Vec<CombatUnit>,
    extra: i64,
    player: u32,
    it: u32,
    time: i64,
) -> (rules: PassRules)
    requires
        other.ground_area <= MAX_ROSTER_UNITS * 0x4000_0000_0000_0000,
        0 <= extra <= 0x1000_0000_0000,
        statics.max_range_defender >= 0,
    ensures
        rules == pass_rules(
            *statics,
            *own,
            *other,
            opponents@,
            extra as int,
            player as int,
            it as int,
            time,
        ),
        rules_in_order(rules),
{
    PassRules {
        settings: statics.settings,
        has_ground: own.ground_count != 0,
        has_air: own.air_count != 0,
        surround: max_surround(area_times_pi(other.ground_area), other.ground_count, ZEALOT_RADIUS),
        opponent_fraction_melee_units: get_melee_fraction(opponents),
        dt: get_tick_length(it),
        time,
        attacking: player != statics.defender_player,
        max_range_defender: statics.max_range_defender,
        fastest_attacker_speed: statics.fastest_attacker_speed,
        max_extra_melee_distance: extra,
    }
}

/// One tick of the battle.
///
/// Health and shield of every unit stay in range. No roster grows, and
/// neither side gains hit points from the other's move; only a healer adds
/// any, and only to its own side.
pub fn run_tick(battle: Battle, it: u32, statics: &Statics) -> (next: Battle)
    requires
        battle_in_order(battle@, it as int),
        it < MAX_ITERATIONS,
        statics.max_range_defender >= 0,
    ensures
        next@ == tick(battle@, it as int, *statics),
        battle_in_order(next@, it + 1),
        next.units1.len() <= battle.units1.len(),
        next.units2.len() <= battle.units2.len(),
        all_well_formed(battle.units1@) && all_well_formed(battle.units2@) ==> all_well_formed(
            next.units1@,
        ) && all_well_formed(next.units2@),        all_well_formed(battle.units1@) && all_well_formed(battle.units2@) && no_active_healer(
            battle.units1@,
        ) && no_active_healer(battle.units2@) ==> no_active_healer(next.units1@)
            && no_active_healer(next.units2@) && hit_points_total(next.units1@)
            <= hit_points_total(battle.units1@) && hit_points_total(next.units2@)
            <= hit_points_total(battle.units2@),
{
    let info1: RosterInfo = get_unit_info(&battle.units1);
    let info2: RosterInfo = get_unit_info(&battle.units2);
    let extra: i64 = get_extra_melee_distance(&info1, &info2);
    let dt: i32 = get_tick_length(it);
    let Battle { units1, units2, time, seed, changed: _ } = battle;
    let rules1: PassRules = make_rules(statics, &info1, &info2, &units2, extra, 1, it, time);
    let mut first = SidePass::new(units1, units2, seed);
    first.run_from(0, &rules1);
    assert(first@ == run_pass(battle.units1@, battle.units2@, battle.seed, rules1));
    let SidePass {
        attackers: units1,
        defenders: units2,
        attack_counts: _,
        healed: _,
        melee_used: _,
        changed: changed1,
        seed,
    } = first;
    let rules2: PassRules = make_rules(statics, &info2, &info1, &units1, extra, 2, it, time);
    let mut second = SidePass::new(units2, units1, seed);
    second.run_from(0, &rules2);
    let SidePass {
        attackers: units2,
        defenders: units1,
        attack_counts: _,
        healed: _,
        melee_used: _,
        changed: changed2,
        seed,
    } = second;
    Battle { units1, units2, time: time + 1000 * (dt as i64), seed, changed: changed1 || changed2 }
}

/// Runs the battle from its first tick to its end.
pub fn run_battle(battle: Battle, statics: &Statics) -> (end: Battle)
    requires
        battle_in_order(battle@, 0),
        statics.max_range_defender >= 0,
    ensures
        end@ == run_from(battle@, 0, *statics),
        end.units1.len() <= battle.units1.len(),
        end.units2.len() <= battle.units2.len(),
        all_well_formed(battle.units1@) && all_well_formed(battle.units2@) ==> all_well_formed(
            end.units1@,
        ) && all_well_formed(end.units2@),        all_well_formed(battle.units1@) && all_well_formed(battle.units2@) && no_active_healer(
            battle.units1@,
        ) && no_active_healer(battle.units2@) ==> no_active_healer(end.units1@)
            && no_active_healer(end.units2@) && hit_points_total(end.units1@)
            <= hit_points_total(battle.units1@) && hit_points_total(end.units2@)
            <= hit_points_total(battle.units2@),
{
    let mut current = battle;
    let mut it: u32 = 0;
    loop
        invariant_except_break
            it <= MAX_ITERATIONS,
            battle_in_order(current@, it as int),
            run_from(current@, it as int, *statics) == run_from(battle@, 0, *statics),
        invariant
            statics.max_range_defender >= 0,
            current.units1.len() <= battle.units1.len(),
            current.units2.len() <= battle.units2.len(),
            all_well_formed(battle.units1@) && all_well_formed(battle.units2@)
                ==> all_well_formed(current.units1@) && all_well_formed(current.units2@),
            all_well_formed(battle.units1@) && all_well_formed(battle.units2@) && no_active_healer(
                battle.units1@,
            ) && no_active_healer(battle.units2@) ==> no_active_healer(current.units1@)
                && no_active_healer(current.units2@) && hit_points_total(current.units1@)
                <= hit_points_total(battle.units1@) && hit_points_total(current.units2@)
                <= hit_points_total(battle.units2@),
        ensures
            current@ == run_from(battle@, 0, *statics),
        decreases MAX_ITERATIONS - it,
    {
        if it >= MAX_ITERATIONS || !current.changed {
            break ;
        }
        current = run_tick(current, it, statics);
        if current.time > statics.settings.max_time as i64 {
            break ;
        }
        it += 1;
    }
    current
}

} // verus!
