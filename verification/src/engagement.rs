//! The rules of the fight, stated as functions from one state to the next:
//! what one unit does on its turn, what a side does in a tick, what a tick
//! does to both sides, and how the ticks follow each other.

use vstd::prelude::*;
use crate::combat_unit::CombatUnit;
use crate::fixed::sqrt_floor;
use crate::ids::{harvester_type, melee_type, MEDIVAC};
use crate::random::{next_seed, seeded_word, shuffled};
use crate::roster::{
    fastest_speed, hit_points_total, longest_range, melee_fraction, roster_info, without,
    RosterInfo,
};
use crate::settings::CombatSettings;
use crate::surround::{surround_limits, SurroundInfo, PI_MICRO};
use crate::targeting::{best_target, rules_of, TargetChoice, TargetingRules};
use crate::weapon::Weapon;

verus! {

/// Radius of the unit that stands for all melee attackers, in thousandths.
pub const ZEALOT_RADIUS: i32 = 500;

/// What a healer restores per second, in thousandths.
pub const HEALING_PER_SECOND: i32 = 9000;

/// After this many ticks the simulation stops.
pub const MAX_ITERATIONS: u32 = 100;

/// The time that a unit needs which cannot move, in thousandths of a second.
pub const NEVER: i64 = 10_000_000;

/// What holds for every unit of one side during one tick.
#[derive(Clone, Copy, Debug)]
pub struct PassRules {
    pub settings: CombatSettings,
    /// The side has units on the ground.
    pub has_ground: bool,
    /// The side has units that air weapons reach.
    pub has_air: bool,
    /// How crowding limits the side's melee units.
    pub surround: SurroundInfo,
    /// The share of melee units among the opponents, in thousandths.
    pub opponent_fraction_melee_units: i32,
    /// Length of the tick, in seconds.
    pub dt: i32,
    /// The time at which the tick starts.
    pub time: i64,
    /// The side has to close in on the other, which holds its ground.
    pub attacking: bool,
    /// The longest weapon range on the side that holds its ground.
    pub max_range_defender: i32,
    /// The highest speed on the side that closes in.
    pub fastest_attacker_speed: i32,
    /// How much further the last melee unit has to walk than the first.
    pub max_extra_melee_distance: i64,
}

/// One side's move in a tick, as far as it has got.
#[verifier::ext_equal]
pub struct PassState {
    /// The side that moves.
    pub attackers: Seq<CombatUnit>,
    /// The other side.
    pub defenders: Seq<CombatUnit>,
    /// How many attackers have struck each defender in this tick.
    pub attack_counts: Seq<usize>,
    /// Which attackers have been healed in this tick.
    pub healed: Seq<bool>,
    /// How many melee attackers have struck in this tick.
    pub melee_used: usize,
    /// Whether anything happened that calls for another tick.
    pub changed: bool,
    /// The seed of the next random draw.
    pub seed: u64,
}

/// Both sides between two ticks.
#[verifier::ext_equal]
pub struct BattleState {
    pub units1: Seq<CombatUnit>,
    pub units2: Seq<CombatUnit>,
    /// The simulated time.
    pub time: i64,
    /// The seed of the next random draw.
    pub seed: u64,
    /// Whether the last tick called for another one.
    pub changed: bool,
}

/// What holds for the whole engagement.
#[derive(Clone, Copy, Debug)]
pub struct Statics {
    pub settings: CombatSettings,
    /// The side that holds its ground, 1 or 2; any other number for neither.
    pub defender_player: u32,
    pub max_range_defender: i32,
    pub fastest_attacker_speed: i32,
}

/// The time a unit needs to bring an enemy at `distance` into its range.
pub open spec fn time_to_reach(unit: CombatUnit, distance: int) -> int {
    if unit.movement_speed > 0 {
        if distance - unit.max_range() > 0 {
            ((distance - unit.max_range()) * 1000) / (unit.movement_speed as int)
        } else {
            0
        }
    } else {
        NEVER as int
    }
}

/// The time before which the unit at `position` of a roster of `size` units
/// takes no part in the fight.
///
/// On the side that closes in, a unit has to cover the defenders' longest
/// range, and a melee unit a share of the extra distance that grows with its
/// position. On the side that holds its ground, a unit waits until the
/// fastest attacker has come within its range.
pub open spec fn wait_time(unit: CombatUnit, position: int, size: int, rules: PassRules) -> int {
    if rules.attacking {
        let extra = if melee_type(unit.type_id) {
            (rules.max_extra_melee_distance * position) / size
        } else {
            0
        };
        time_to_reach(unit, rules.max_range_defender + extra)
    } else if rules.fastest_attacker_speed > 0 {
        let gap = rules.max_range_defender - unit.max_range();
        if gap > 0 {
            (gap * 1000) / (rules.fastest_attacker_speed as int)
        } else {
            0
        }
    } else {
        NEVER as int
    }
}

/// Whether the healer at `healer` may heal the unit at `index` of its side:
/// another unit, alive, biological, short of its full health, and not healed
/// in this tick.
pub open spec fn can_be_healed(s: PassState, healer: int, index: int) -> bool {
    &&& index != healer
    &&& !s.healed[index]
    &&& s.attackers[index].is_alive()
    &&& s.attackers[index].health < s.attackers[index].health_max
    &&& s.attackers[index].is_biological
}

/// The first unit that the healer may heal, looking from `offset + j` on,
/// around the roster, up to `offset + len - 1`.
pub open spec fn heal_target_from(s: PassState, healer: int, offset: int, j: int) -> Option<int>
    decreases s.attackers.len() - j,
{
    let len = s.attackers.len() as int;
    if j < 0 || j >= len {
        None
    } else if can_be_healed(s, healer, (j + offset) % len) {
        Some((j + offset) % len)
    } else {
        heal_target_from(s, healer, offset, j + 1)
    }
}

/// The turn of a healer: with energy left, it draws a place to start from,
/// and heals the first unit it may for the length of the tick.
pub open spec fn heal_turn(s: PassState, healer: int, rules: PassRules) -> PassState {
    if s.attackers[healer].energy > 0 {
        let offset = (seeded_word(s.seed) as int) % (s.attackers.len() as int);
        let drawn = PassState { seed: next_seed(s.seed), ..s };
        match heal_target_from(s, healer, offset, 0) {
            Some(index) => PassState {
                attackers: s.attackers.update(
                    index,
                    s.attackers[index].healed(HEALING_PER_SECOND * rules.dt),
                ),
                healed: s.healed.update(index, true),
                ..drawn
            },
            None => drawn,
        }
    } else {
        s
    }
}

/// The factor by which splash multiplies damage, in thousandths: at least one.
pub open spec fn splash_factor(weapon: Option<Weapon>, settings: CombatSettings) -> int {
    match weapon {
        Some(w) => if settings.enable_splash && w.spread() > 1000 {
            w.spread()
        } else {
            1000
        },
        None => 1000,
    }
}

/// The damage of one strike: damage per second, times splash, times the
/// length of the tick.
pub open spec fn damage_dealt(choice: TargetChoice, rules: PassRules) -> int {
    (choice.dps * splash_factor(choice.weapon, rules.settings) * rules.dt) / 1000
}

/// The attack counts without the one at `at`: the last one takes its place.
pub open spec fn counts_without(counts: Seq<usize>, at: int) -> Seq<usize> {
    counts.update(at, counts.last()).drop_last()
}

/// A strike at the chosen target: it is counted, the target takes the
/// damage, and leaves the roster if that kills it.
pub open spec fn strike(s: PassState, choice: TargetChoice, melee: bool, rules: PassRules) -> PassState {
    let index = choice.index as int;
    let hurt = s.defenders[index].modified(-damage_dealt(choice, rules));
    let struck = s.defenders.update(index, hurt);
    let counted = s.attack_counts.update(index, (s.attack_counts[index] + 1) as usize);
    PassState {
        defenders: if hurt.is_alive() {
            struck
        } else {
            without(struck, index)
        },
        attack_counts: if hurt.is_alive() {
            counted
        } else {
            counts_without(counted, index)
        },
        melee_used: if melee {
            (s.melee_used + 1) as usize
        } else {
            s.melee_used
        },
        changed: true,
        ..s
    }
}

/// The rules under which a unit of the side picks its target.
pub open spec fn targeting_rules(rules: PassRules, melee: bool) -> TargetingRules {
    rules_of(
        rules.settings,
        rules.has_ground,
        rules.has_air,
        melee,
        rules.surround,
        rules.opponent_fraction_melee_units,
    )
}

/// The turn of the attacker at position `i`.
///
/// A dead unit does nothing. A healer heals and does not attack. A unit
/// without damage does nothing, nor does a harvester where workers do no
/// damage, nor a melee unit once more melee units have struck than fit
/// around the defenders. A unit that has not arrived yet waits, which calls
/// for another tick. Any other unit strikes at its best target, if it has one.
pub open spec fn unit_turn(s: PassState, i: int, rules: PassRules) -> PassState {
    let unit = s.attackers[i];
    let melee = melee_type(unit.type_id);
    if !unit.is_alive() {
        s
    } else if unit.type_id == MEDIVAC {
        heal_turn(s, i, rules)
    } else if unit.air_dps == 0 && unit.ground_dps == 0 {
        s
    } else if rules.settings.workers_do_no_damage && harvester_type(unit.type_id) {
        s
    } else if melee && rules.settings.enable_surround_limits && s.melee_used
        > rules.surround.max_melee_attackers {
        s
    } else if rules.settings.enable_timing_adjustment && rules.time < wait_time(
        unit,
        i,
        s.attackers.len() as int,
        rules,
    ) {
        PassState { changed: true, ..s }
    } else {
        match best_target(unit, s.defenders, s.attack_counts, targeting_rules(rules, melee)) {
            Some(choice) => strike(s, choice, melee, rules),
            None => s,
        }
    }
}

/// The state of a side's move after the turns of the attackers from
/// position `i` up to `n`.
pub open spec fn pass_from(s: PassState, i: int, n: int, rules: PassRules) -> PassState
    decreases n - i,
{
    if i < 0 || i >= n {
        s
    } else {
        pass_from(unit_turn(s, i, rules), i + 1, n, rules)
    }
}

/// The state in which a side starts its move.
pub open spec fn start_pass(attackers: Seq<CombatUnit>, defenders: Seq<CombatUnit>, seed: u64) -> PassState {
    PassState {
        attackers,
        defenders,
        attack_counts: Seq::new(defenders.len(), |j: int| 0usize),
        healed: Seq::new(attackers.len(), |j: int| false),
        melee_used: 0,
        changed: false,
        seed,
    }
}

/// A side's whole move: every attacker takes its turn, in roster order.
pub open spec fn run_pass(attackers: Seq<CombatUnit>, defenders: Seq<CombatUnit>, seed: u64, rules: PassRules) -> PassState {
    pass_from(start_pass(attackers, defenders, seed), 0, attackers.len() as int, rules)
}

/// Length of the tick with the given number, in seconds: one at first, one
/// more every ten ticks, five at most.
pub open spec fn tick_length(it: int) -> int {
    if 1 + it / 10 > 5 {
        5
    } else {
        1 + it / 10
    }
}

/// The circle constant times an area.
pub open spec fn times_pi(area: int) -> int {
    (area * PI_MICRO) / 1_000_000
}

/// How much further the last melee unit has to walk than the first: half
/// around each of the two armies.
pub open spec fn extra_melee_distance(info1: RosterInfo, info2: RosterInfo) -> int {
    sqrt_floor(times_pi(info1.ground_area as int)) + sqrt_floor(times_pi(info2.ground_area as int))
}

/// The rules for the move of one side, whose units add up to `own`, against
/// `opponents`, who add up to `other`.
pub open spec fn pass_rules(
    statics: Statics,
    own: RosterInfo,
    other: RosterInfo,
    opponents: Seq<CombatUnit>,
    extra: int,
    player: int,
    it: int,
    time: i64,
) -> PassRules {
    PassRules {
        settings: statics.settings,
        has_ground: own.ground_count != 0,
        has_air: own.air_count != 0,
        surround: surround_limits(
            times_pi(other.ground_area as int),
            other.ground_count as int,
            ZEALOT_RADIUS as int,
        ),
        opponent_fraction_melee_units: melee_fraction(opponents) as i32,
        dt: tick_length(it) as i32,
        time,
        attacking: player != statics.defender_player,
        max_range_defender: statics.max_range_defender,
        fastest_attacker_speed: statics.fastest_attacker_speed,
        max_extra_melee_distance: extra as i64,
    }
}

/// One tick: both rosters are measured, the first side moves against the
/// second, what is left of the second moves against the first, and the
/// clock advances by the length of the tick.
pub open spec fn tick(b: BattleState, it: int, statics: Statics) -> BattleState {
    let info1 = roster_info(b.units1);
    let info2 = roster_info(b.units2);
    let extra = extra_melee_distance(info1, info2);
    let first = run_pass(
        b.units1,
        b.units2,
        b.seed,
        pass_rules(statics, info1, info2, b.units2, extra, 1, it, b.time),
    );
    let second = run_pass(
        first.defenders,
        first.attackers,
        first.seed,
        pass_rules(statics, info2, info1, first.attackers, extra, 2, it, b.time),
    );
    BattleState {
        units1: second.defenders,
        units2: second.attackers,
        time: (b.time + 1000 * tick_length(it)) as i64,
        seed: second.seed,
        changed: first.changed || second.changed,
    }
}

/// The battle after the ticks from number `it` on: tick follows tick until
/// one changes nothing, the time is up, or the last tick is done.
pub open spec fn run_from(b: BattleState, it: int, statics: Statics) -> BattleState
    decreases MAX_ITERATIONS - it,
{
    if it < 0 || it >= MAX_ITERATIONS || !b.changed {
        b
    } else {
        let next = tick(b, it, statics);
        if next.time > statics.settings.max_time {
            next
        } else {
            run_from(next, it + 1, statics)
        }
    }
}

/// The winner and what it has left: the first side with more hit points
/// than the second, else the second.
pub open spec fn outcome(b: BattleState) -> (u32, i64) {
    if hit_points_total(b.units1) > hit_points_total(b.units2) {
        (1u32, hit_points_total(b.units1) as i64)
    } else {
        (2u32, hit_points_total(b.units2) as i64)
    }
}

/// What holds for a whole engagement between the two rosters: with a side
/// that holds its ground, its longest range and the highest speed of the
/// other side; with none, the longest range and the highest speed of all.
pub open spec fn statics_of(
    units1: Seq<CombatUnit>,
    units2: Seq<CombatUnit>,
    defender_player: u32,
    settings: CombatSettings,
) -> Statics {
    let range1 = longest_range(units1, units1.len() as int);
    let range2 = longest_range(units2, units2.len() as int);
    let speed1 = fastest_speed(units1, units1.len() as int);
    let speed2 = fastest_speed(units2, units2.len() as int);
    Statics {
        settings,
        defender_player,
        max_range_defender: (if defender_player == 1 {
            range1
        } else if defender_player == 2 {
            range2
        } else if range1 > range2 {
            range1
        } else {
            range2
        }) as i32,
        fastest_attacker_speed: (if defender_player == 1 {
            speed2
        } else if defender_player == 2 {
            speed1
        } else if speed2 > speed1 {
            speed2
        } else {
            speed1
        }) as i32,
    }
}

/// The battle at its end: both rosters are shuffled, the first with `seed`
/// and the second with the seed after it, and the ticks run from the start
/// time on.
pub open spec fn engagement_end(
    units1: Seq<CombatUnit>,
    units2: Seq<CombatUnit>,
    defender_player: u32,
    settings: CombatSettings,
    seed: u64,
) -> BattleState {
    let first = shuffled(units1, seed);
    let second = shuffled(units2, next_seed(seed));
    run_from(
        BattleState {
            units1: first,
            units2: second,
            time: settings.start_time as i64,
            seed: next_seed(next_seed(seed)),
            changed: true,
        },
        0,
        statics_of(first, second, defender_player, settings),
    )
}

} // verus!
