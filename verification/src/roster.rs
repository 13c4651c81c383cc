//! What a side's roster adds up to: how many of its units are in the air and
//! on the ground, the ground they cover, their hit points, reach and speed.

use vstd::prelude::*;
use crate::combat_unit::CombatUnit;
use crate::ids::{melee_type, MEDIVAC};

verus! {

/// What the simulation reads off a roster at the start of a tick.
#[derive(Clone, Copy, Debug, PartialEq, Eq, Structural)]
pub struct RosterInfo {
    /// Living units that air weapons reach.
    pub air_count: usize,
    /// Living units that do not fly.
    pub ground_count: usize,
    /// The squared radii of the living units, summed; in millionths.
    pub ground_area: u128,
}

/// How many of the first `n` units are alive and within reach of air weapons.
pub open spec fn air_count(units: Seq<CombatUnit>, n: int) -> int
    decreases n,
{
    if n <= 0 {
        0
    } else {
        air_count(units, n - 1) + if units[n - 1].is_alive() && units[n - 1].attackable_by_air() {
            1int
        } else {
            0int
        }
    }
}

/// How many of the first `n` units are alive and do not fly.
pub open spec fn ground_count(units: Seq<CombatUnit>, n: int) -> int
    decreases n,
{
    if n <= 0 {
        0
    } else {
        ground_count(units, n - 1) + if units[n - 1].is_alive() && !units[n - 1].is_flying {
            1int
        } else {
            0int
        }
    }
}

/// The squared radii of the living units among the first `n`, summed.
pub open spec fn ground_area(units: Seq<CombatUnit>, n: int) -> int
    decreases n,
{
    if n <= 0 {
        0
    } else {
        ground_area(units, n - 1) + if units[n - 1].is_alive() {
            units[n - 1].radius * units[n - 1].radius
        } else {
            0
        }
    }
}

/// How many of the first `n` units are alive and fight at melee range.
pub open spec fn melee_count(units: Seq<CombatUnit>, n: int) -> int
    decreases n,
{
    if n <= 0 {
        0
    } else {
        melee_count(units, n - 1) + if units[n - 1].is_alive() && melee_type(units[n - 1].type_id) {
            1int
        } else {
            0int
        }
    }
}

/// Health plus shield of the first `n` units, summed.
pub open spec fn hit_points_sum(units: Seq<CombatUnit>, n: int) -> int
    decreases n,
{
    if n <= 0 {
        0
    } else {
        hit_points_sum(units, n - 1) + units[n - 1].hit_points()
    }
}

/// Health plus shield of a whole roster.
pub open spec fn hit_points_total(units: Seq<CombatUnit>) -> int {
    hit_points_sum(units, units.len() as int)
}

/// The longest weapon range among the first `n` units; zero at least.
pub open spec fn longest_range(units: Seq<CombatUnit>, n: int) -> int
    decreases n,
{
    if n <= 0 {
        0
    } else if units[n - 1].max_range() > longest_range(units, n - 1) {
        units[n - 1].max_range()
    } else {
        longest_range(units, n - 1)
    }
}

/// The highest movement speed among the first `n` units; zero at least.
pub open spec fn fastest_speed(units: Seq<CombatUnit>, n: int) -> int
    decreases n,
{
    if n <= 0 {
        0
    } else if units[n - 1].movement_speed > fastest_speed(units, n - 1) {
        units[n - 1].movement_speed as int
    } else {
        fastest_speed(units, n - 1)
    }
}

/// The share of living melee units in a roster, in thousandths, rounded down.
pub open spec fn melee_fraction(units: Seq<CombatUnit>) -> int {
    if units.len() == 0 {
        0
    } else {
        (melee_count(units, units.len() as int) * 1000) / (units.len() as int)
    }
}

/// What the simulation reads off a roster.
pub open spec fn roster_info(units: Seq<CombatUnit>) -> RosterInfo {
    RosterInfo {
        air_count: air_count(units, units.len() as int) as usize,
        ground_count: ground_count(units, units.len() as int) as usize,
        ground_area: ground_area(units, units.len() as int) as u128,
    }
}

/// A healer that can heal: alive, and with energy left.
pub open spec fn is_active_healer(unit: CombatUnit) -> bool {
    unit.type_id == MEDIVAC && unit.is_alive() && unit.energy > 0
}

/// No unit of the roster is a healer that can heal.
pub open spec fn no_active_healer(units: Seq<CombatUnit>) -> bool {
    forall|i: int| 0 <= i < units.len() ==> !is_active_healer(#[trigger] units[i])
}

/// Every unit of the roster has its health and shield in range.
pub open spec fn all_well_formed(units: Seq<CombatUnit>) -> bool {
    forall|i: int| 0 <= i < units.len() ==> (#[trigger] units[i]).well_formed()
}

/// The aggregates of a prefix stay within what the prefix can hold.
pub proof fn lemma_aggregate_bounds(units: Seq<CombatUnit>, n: int)
    requires
        0 <= n <= units.len(),
    ensures
        0 <= air_count(units, n) <= n,
        0 <= ground_count(units, n) <= n,
        0 <= melee_count(units, n) <= n,
        0 <= ground_area(units, n) <= n * 0x4000_0000_0000_0000,
        -n * 0x1_0000_0000 <= hit_points_sum(units, n) <= n * 0x1_0000_0000,
        0 <= longest_range(units, n) <= 0x7fff_ffff,
        0 <= fastest_speed(units, n) <= 0x7fff_ffff,
    decreases n,
{
    if n > 0 {
        lemma_aggregate_bounds(units, n - 1);
        let r = units[n - 1].radius as int;
        assert(0 <= r * r <= 0x4000_0000_0000_0000) by (nonlinear_arith)
            requires
                -0x8000_0000 <= r <= 0x7fff_ffff,
        ;
    }
}

/// Units with health and shield in range add up to no negative number.
pub proof fn lemma_hit_points_are_not_negative(units: Seq<CombatUnit>, n: int)
    requires
        0 <= n <= units.len(),
        all_well_formed(units),
    ensures
        hit_points_sum(units, n) >= 0,
    decreases n,
{
    if n > 0 {
        lemma_hit_points_are_not_negative(units, n - 1);
        assert(units[n - 1].well_formed());
    }
}

/// Rosters that agree on their first `n` units agree on what those add up to.
pub proof fn lemma_aggregates_of_equal_prefixes(a: Seq<CombatUnit>, b: Seq<CombatUnit>, n: int)
    requires
        0 <= n <= a.len(),
        n <= b.len(),
        forall|i: int| 0 <= i < n ==> a[i] == b[i],
    ensures
        hit_points_sum(a, n) == hit_points_sum(b, n),
    decreases n,
{
    if n > 0 {
        lemma_aggregates_of_equal_prefixes(a, b, n - 1);
    }
}

/// Replacing one unit changes the sum of hit points by the difference
/// between the two.
pub proof fn lemma_hit_points_after_update(
    units: Seq<CombatUnit>,
    n: int,
    at: int,
    unit: CombatUnit,
)
    requires
        0 <= n <= units.len(),
        0 <= at < units.len(),
    ensures
        hit_points_sum(units.update(at, unit), n) == hit_points_sum(units, n) + (if at < n {
            unit.hit_points() - units[at].hit_points()
        } else {
            0
        }),
    decreases n,
{
    if n > 0 {
        lemma_hit_points_after_update(units, n - 1, at, unit);
    }
}

/// The roster without the unit at `at`: the last unit takes its place.
pub open spec fn without(units: Seq<CombatUnit>, at: int) -> Seq<CombatUnit> {
    units.update(at, units.last()).drop_last()
}

/// Removing a unit takes its hit points off the total.
pub proof fn lemma_hit_points_after_removal(units: Seq<CombatUnit>, at: int)
    requires
        0 <= at < units.len(),
    ensures
        hit_points_total(without(units, at)) == hit_points_total(units) - units[at].hit_points(),
{
    let n = units.len() as int;
    let moved = units.update(at, units.last());
    lemma_hit_points_after_update(units, n, at, units.last());
    lemma_aggregates_of_equal_prefixes(moved, moved.drop_last(), n - 1);
    assert(hit_points_sum(moved, n) == hit_points_sum(moved, n - 1) + moved[n - 1].hit_points());
    assert(moved[n - 1] == units.last());
}

/// Taking a unit out of a roster takes its hit points off the sum of every
/// prefix that held it.
pub proof fn lemma_hit_points_after_taking_out(units: Seq<CombatUnit>, at: int, n: int)
    requires
        0 <= at < units.len(),
        0 <= n < units.len(),
    ensures
        hit_points_sum(units.remove(at), n) == (if n <= at {
            hit_points_sum(units, n)
        } else {
            hit_points_sum(units, n + 1) - units[at].hit_points()
        }),
    decreases n,
{
    if n > 0 {
        lemma_hit_points_after_taking_out(units, at, n - 1);
        if n - 1 < at {
            assert(units.remove(at)[n - 1] == units[n - 1]);
        } else {
            assert(units.remove(at)[n - 1] == units[n]);
        }
    }
}

/// A roster in another order has the same hit points.
pub proof fn lemma_hit_points_of_rearranged(units: Seq<CombatUnit>, order: Seq<int>)
    requires
        order.len() == units.len(),
        forall|i: int| 0 <= i < units.len() ==> 0 <= #[trigger] order[i] < units.len(),
        forall|i: int, j: int|
            0 <= i < j < units.len() ==> #[trigger] order[i] != #[trigger] order[j],
    ensures
        hit_points_total(Seq::new(units.len(), |i: int| units[order[i]])) == hit_points_total(
            units,
        ),
    decreases units.len(),
{
    let n = units.len() as int;
    if n > 0 {
        let moved = Seq::new(units.len(), |i: int| units[order[i]]);
        let at = order[n - 1];
        let rest = units.remove(at);
        let rest_order = Seq::new(
            (n - 1) as nat,
            |i: int|
                if order[i] > at {
                    order[i] - 1
                } else {
                    order[i]
                },
        );
        assert forall|i: int| 0 <= i < n - 1 implies 0 <= #[trigger] rest_order[i] < n - 1 by {
            assert(order[i] != order[n - 1]);
        }
        assert forall|i: int, j: int| 0 <= i < j < n - 1 implies #[trigger] rest_order[i]
            != #[trigger] rest_order[j] by {
            assert(order[i] != order[j]);
            assert(order[i] != order[n - 1]);
            assert(order[j] != order[n - 1]);
        }
        lemma_hit_points_of_rearranged(rest, rest_order);
        let rest_moved = Seq::new(rest.len(), |i: int| rest[rest_order[i]]);
        assert forall|i: int| 0 <= i < n - 1 implies rest_moved[i] == moved[i] by {
            assert(order[i] != order[n - 1]);
        }
        lemma_aggregates_of_equal_prefixes(rest_moved, moved, n - 1);
        lemma_hit_points_after_taking_out(units, at, n - 1);
        assert(moved[n - 1] == units[at]);
    }
}

/// Counts the living units in the air and on the ground, and sums the ground
/// that the living units cover.
pub fn get_unit_info(units: &Vec<CombatUnit>) -> (info: RosterInfo)
    ensures
        info == roster_info(units@),
        info.air_count <= units.len(),
        info.ground_count <= units.len(),
        info.ground_area <= units.len() * 0x4000_0000_0000_0000,
{
    let mut has_air: usize = 0;
    let mut has_ground: usize = 0;
    let mut area: u128 = 0;
    let mut i: usize = 0;
    while i < units.len()
        invariant
            i <= units.len(),
            has_air == air_count(units@, i as int),
            has_ground == ground_count(units@, i as int),
            area == ground_area(units@, i as int),
        decreases units.len() - i,
    {
        proof {
            lemma_aggregate_bounds(units@, i as int);
            lemma_aggregate_bounds(units@, i as int + 1);
        }
        let unit = &units[i];
        if unit.health > 0 {
            if unit.can_be_attacked_by_air() {
                has_air += 1;
            }
            if !unit.is_flying {
                has_ground += 1;
            }
            let r: i128 = unit.radius as i128;
            assert(0 <= r * r <= 0x4000_0000_0000_0000) by (nonlinear_arith)
                requires
                    -0x8000_0000 <= r <= 0x7fff_ffff,
            ;
            area += (r * r) as u128;
        }
        i += 1;
    }
    proof {
        lemma_aggregate_bounds(units@, units.len() as int);
    }
    RosterInfo { air_count: has_air, ground_count: has_ground, ground_area: area }
}

/// The longest weapon range in the roster.
pub fn get_max_range_defender(units: &Vec<CombatUnit>) -> (range: i32)
    ensures
        range == longest_range(units@, units.len() as int),
        range >= 0,
{
    let mut range: i32 = 0;
    let mut i: usize = 0;
    while i < units.len()
        invariant
            i <= units.len(),
            range == longest_range(units@, i as int),
            range >= 0,
        decreases units.len() - i,
    {
        let reach: i32 = units[i].get_max_range();
        if reach > range {
            range = reach;
        }
        i += 1;
    }
    range
}

/// The highest movement speed in the roster.
pub fn get_fastest_attacker_speed(units: &Vec<CombatUnit>) -> (speed: i32)
    ensures
        speed == fastest_speed(units@, units.len() as int),
        speed >= 0,
{
    let mut speed: i32 = 0;
    let mut i: usize = 0;
    while i < units.len()
        invariant
            i <= units.len(),
            speed == fastest_speed(units@, i as int),
            speed >= 0,
        decreases units.len() - i,
    {
        if units[i].movement_speed > speed {
            speed = units[i].movement_speed;
        }
        i += 1;
    }
    speed
}

/// The share of living melee units in the roster, in thousandths.
pub fn get_melee_fraction(units: &Vec<CombatUnit>) -> (fraction: i32)
    ensures
        fraction == melee_fraction(units@),
        0 <= fraction <= 1000,
{
    let mut melee: usize = 0;
    let mut i: usize = 0;
    while i < units.len()
        invariant
            i <= units.len(),
            melee == melee_count(units@, i as int),
            melee <= i,
        decreases units.len() - i,
    {
        if units[i].health > 0 && units[i].is_melee() {
            melee += 1;
        }
        i += 1;
    }
    if units.len() == 0 {
        0
    } else {
        let len: u128 = units.len() as u128;
        let share: u128 = (melee as u128 * 1000) / len;
        assert(share <= 1000) by (nonlinear_arith)
            requires
                share == (melee * 1000) / (len as int),
                0 <= melee <= len,
                len > 0,
        ;
        share as i32
    }
}

/// Health plus shield of the whole roster.
pub fn total_hit_points(units: &Vec<CombatUnit>) -> (total: i128)
    ensures
        total == hit_points_total(units@),
        -units.len() * 0x1_0000_0000 <= total <= units.len() * 0x1_0000_0000,
{
    let mut total: i128 = 0;
    let mut i: usize = 0;
    while i < units.len()
        invariant
            i <= units.len(),
            total == hit_points_sum(units@, i as int),
            -i * 0x1_0000_0000 <= total <= i * 0x1_0000_0000,
        decreases units.len() - i,
    {
        total = total + units[i].health as i128 + units[i].shield as i128;
        i += 1;
    }
    total
}

} // verus!
