//! Melee crowding: how many attackers fit around a group of defenders.
//!
//! The defenders are taken to fill a disk. Attackers stand on a ring around
//! it, each taking up the width of a typical melee unit.

use vstd::prelude::*;
use vstd::arithmetic::div_mod::lemma_div_is_ordered_by_denominator;
use crate::fixed::{
    ceil_div, div_ceil, isqrt, least, lemma_ceil_div_is_least_cover, lemma_ceil_div_is_ordered,
    lemma_floor_div_is_ordered, lemma_sqrt_floor_is_ordered, lemma_sqrt_floor_is_root, sqrt_floor,
};

verus! {

/// The limits that crowding puts on melee attackers.
#[derive(Clone, Copy, Debug, PartialEq, Eq, Structural)]
pub struct SurroundInfo {
    /// How many attackers can stand next to one defender; at least one.
    pub max_attackers_per_defender: i32,
    /// How many melee attackers can reach the defenders at all.
    pub max_melee_attackers: i32,
}

/// The circle constant, in millionths.
pub const PI_MICRO: u128 = 3_141_593;

/// Footprints larger than this, in millionths, count as this.
pub const AREA_LIMIT: u128 = 0x10_0000_0000_0000_0000_0000_0000;

/// A count that stands for "no limit".
pub const UNLIMITED: i32 = 0x7fff_ffff;

/// The footprint once the defenders have spread out for the fight: units on
/// the ground leave gaps, so they cover ten sixths of what they stand on.
pub open spec fn spread_area(area: int, count: int) -> int {
    let capped = least(area, AREA_LIMIT as int);
    if count > 0 {
        (capped * 10) / 6
    } else {
        capped
    }
}

/// Radius, in thousandths, of the disk that the defenders fill.
pub open spec fn blob_radius(area: int, count: int) -> int {
    sqrt_floor((spread_area(area, count) * 1_000_000) / (PI_MICRO as int))
}

/// How many attackers of the given radius fit on the ring around the
/// defenders, rounded up; `UNLIMITED` at most, and for a radius that is not
/// positive.
pub open spec fn attackers_in_melee_range(area: int, count: int, radius: int) -> int {
    if radius <= 0 {
        UNLIMITED as int
    } else {
        least(
            ceil_div(PI_MICRO * (blob_radius(area, count) + radius), 1_000_000 * radius),
            UNLIMITED as int,
        )
    }
}

/// How many defenders stand on the rim of their disk, in millionths: the rim
/// measured in attacker widths, but no more than there are defenders.
pub open spec fn defenders_in_melee_range(area: int, count: int, radius: int) -> int {
    let rim = blob_radius(area, count);
    if radius <= 0 {
        if rim > 0 {
            count * 1_000_000
        } else {
            0
        }
    } else {
        least((PI_MICRO * rim) / radius, count * 1_000_000)
    }
}

/// The attackers in range shared out among the defenders in range, rounded
/// up; one where no defender is in range.
pub open spec fn attackers_per_defender(area: int, count: int, radius: int) -> int {
    let defenders = defenders_in_melee_range(area, count, radius);
    if defenders <= 0 {
        1
    } else {
        least(
            ceil_div(attackers_in_melee_range(area, count, radius) * 1_000_000, defenders),
            UNLIMITED as int,
        )
    }
}

/// The crowding limits for defenders of the given footprint and number.
pub open spec fn surround_limits(area: int, count: int, radius: int) -> SurroundInfo {
    SurroundInfo {
        max_attackers_per_defender: attackers_per_defender(area, count, radius) as i32,
        max_melee_attackers: attackers_in_melee_range(area, count, radius) as i32,
    }
}

/// The radius of the defenders' disk is not negative and not astronomical.
pub proof fn lemma_blob_radius_bounds(area: int, count: int)
    requires
        area >= 0,
    ensures
        0 <= blob_radius(area, count) < 0x10_0000_0000_0000,
{
    let spread = spread_area(area, count);
    let capped = least(area, AREA_LIMIT as int);
    assert(0 <= spread <= 2 * AREA_LIMIT) by (nonlinear_arith)
        requires
            0 <= capped <= AREA_LIMIT,
            spread == (if count > 0 {
                (capped * 10) / 6
            } else {
                capped
            }),
    ;
    let square = (spread * 1_000_000) / (PI_MICRO as int);
    assert(0 <= square <= spread) by (nonlinear_arith)
        requires
            spread >= 0,
            square == (spread * 1_000_000) / 3_141_593,
    ;
    lemma_sqrt_floor_is_root(square);
    let root = sqrt_floor(square);
    if root >= 0x10_0000_0000_0000 {
        assert(root * root >= 0x10_0000_0000_0000 * 0x10_0000_0000_0000) by (nonlinear_arith)
            requires
                root >= 0x10_0000_0000_0000,
        ;
    }
}

/// The limits lie between zero and `UNLIMITED`, and one attacker per defender
/// is always allowed.
pub proof fn lemma_surround_bounds(area: int, count: int, radius: int)
    requires
        area >= 0,
        count >= 0,
    ensures
        0 <= attackers_in_melee_range(area, count, radius) <= UNLIMITED,
        (radius > 0 ==> 1 <= attackers_in_melee_range(area, count, radius)),
        0 <= defenders_in_melee_range(area, count, radius) <= count * 1_000_000,
        1 <= attackers_per_defender(area, count, radius) <= UNLIMITED,
{
    lemma_blob_radius_bounds(area, count);
    let rim = blob_radius(area, count);
    if radius > 0 {
        assert(PI_MICRO * (rim + radius) > 0) by (nonlinear_arith)
            requires
                rim >= 0,
                radius > 0,
        ;
        assert(1_000_000 * radius > 0);
        lemma_ceil_div_is_least_cover(PI_MICRO * (rim + radius), 1_000_000 * radius);
        let fit = ceil_div(PI_MICRO * (rim + radius), 1_000_000 * radius);
        assert(fit >= 1) by (nonlinear_arith)
            requires
                PI_MICRO * (rim + radius) > 0,
                PI_MICRO * (rim + radius) <= fit * (1_000_000 * radius),
                radius > 0,
                fit >= 0,
        ;
        assert((PI_MICRO * rim) / radius >= 0) by (nonlinear_arith)
            requires
                rim >= 0,
                radius > 0,
        ;
    }
    let attackers = attackers_in_melee_range(area, count, radius);
    let defenders = defenders_in_melee_range(area, count, radius);
    if defenders > 0 {
        if radius > 0 {
            assert(attackers >= 1);
        }
        assert(attackers >= 1);
        lemma_ceil_div_is_least_cover(attackers * 1_000_000, defenders);
        let each = ceil_div(attackers * 1_000_000, defenders);
        assert(each >= 1) by (nonlinear_arith)
            requires
                attackers >= 1,
                attackers * 1_000_000 <= each * defenders,
                defenders > 0,
                each >= 0,
        ;
    }
}

/// With more defenders on the ground and the same footprint, no fewer
/// attackers fit around them and no fewer defenders stand on the rim.
pub proof fn lemma_surround_grows_with_count(area: int, fewer: int, more: int, radius: int)
    requires
        area >= 0,
        0 <= fewer <= more,
    ensures
        attackers_in_melee_range(area, fewer, radius) <= attackers_in_melee_range(
            area,
            more,
            radius,
        ),
        defenders_in_melee_range(area, fewer, radius) <= defenders_in_melee_range(
            area,
            more,
            radius,
        ),
        surround_limits(area, fewer, radius).max_melee_attackers <= surround_limits(
            area,
            more,
            radius,
        ).max_melee_attackers,
{
    let capped = least(area, AREA_LIMIT as int);
    assert(capped <= (capped * 10) / 6) by (nonlinear_arith)
        requires
            capped >= 0,
    ;
    let s1 = spread_area(area, fewer);
    let s2 = spread_area(area, more);
    assert(0 <= s1 <= s2);
    assert(s1 * 1_000_000 <= s2 * 1_000_000);
    lemma_floor_div_is_ordered(s1 * 1_000_000, s2 * 1_000_000, PI_MICRO as int);
    assert((s1 * 1_000_000) / (PI_MICRO as int) >= 0) by (nonlinear_arith)
        requires
            s1 >= 0,
    ;
    lemma_sqrt_floor_is_ordered(
        (s1 * 1_000_000) / (PI_MICRO as int),
        (s2 * 1_000_000) / (PI_MICRO as int),
    );
    lemma_blob_radius_bounds(area, fewer);
    lemma_blob_radius_bounds(area, more);
    let r1 = blob_radius(area, fewer);
    let r2 = blob_radius(area, more);
    assert(r1 <= r2);
    if radius > 0 {
        assert(PI_MICRO * (r1 + radius) * (1_000_000 * radius) <= PI_MICRO * (r2 + radius) * (
        1_000_000 * radius) && PI_MICRO * (r1 + radius) >= 0 && PI_MICRO * (r2 + radius) >= 0)
            by (nonlinear_arith)
            requires
                0 <= r1 <= r2,
                radius > 0,
        ;
        lemma_ceil_div_is_ordered(
            PI_MICRO * (r1 + radius),
            1_000_000 * radius,
            PI_MICRO * (r2 + radius),
            1_000_000 * radius,
        );
        assert(0 <= PI_MICRO * r1 <= PI_MICRO * r2) by (nonlinear_arith)
            requires
                0 <= r1 <= r2,
        ;
        lemma_floor_div_is_ordered(PI_MICRO * r1, PI_MICRO * r2, radius);
    }
    lemma_surround_bounds(area, fewer, radius);
    lemma_surround_bounds(area, more, radius);
}

/// With wider attackers and the same defenders, no more attackers fit around
/// them and no more defenders count as standing on the rim.
pub proof fn lemma_surround_shrinks_with_radius(area: int, count: int, narrow: int, wide: int)
    requires
        area >= 0,
        count >= 0,
        narrow <= wide,
    ensures
        attackers_in_melee_range(area, count, wide) <= attackers_in_melee_range(
            area,
            count,
            narrow,
        ),
        defenders_in_melee_range(area, count, wide) <= defenders_in_melee_range(
            area,
            count,
            narrow,
        ),
        surround_limits(area, count, wide).max_melee_attackers <= surround_limits(
            area,
            count,
            narrow,
        ).max_melee_attackers,
{
    lemma_blob_radius_bounds(area, count);
    lemma_surround_bounds(area, count, narrow);
    lemma_surround_bounds(area, count, wide);
    let rim = blob_radius(area, count);
    if narrow > 0 {
        assert((PI_MICRO * (rim + wide)) * (1_000_000 * narrow) <= (PI_MICRO * (rim + narrow)) * (
        1_000_000 * wide) && PI_MICRO * (rim + wide) >= 0 && PI_MICRO * (rim + narrow) >= 0)
            by (nonlinear_arith)
            requires
                rim >= 0,
                0 < narrow <= wide,
        ;
        lemma_ceil_div_is_ordered(
            PI_MICRO * (rim + wide),
            1_000_000 * wide,
            PI_MICRO * (rim + narrow),
            1_000_000 * narrow,
        );
        assert(PI_MICRO * rim >= 0) by (nonlinear_arith)
            requires
                rim >= 0,
        ;
        lemma_div_is_ordered_by_denominator(PI_MICRO * rim, narrow, wide);
    } else if wide > 0 {
        if rim == 0 {
            assert((PI_MICRO * rim) / wide == 0) by (nonlinear_arith)
                requires
                    rim == 0,
                    wide > 0,
            ;
        }
    }
}

/// How many melee attackers can engage one defender, and how many can be
/// active in all, around defenders that cover `enemy_ground_unit_area`
/// (in millionths) with `enemy_ground_units` units, for attackers of radius
/// `zealot_radius` (in thousandths).
///
/// No defenders or no footprint leave one attacker per defender. A radius
/// that is not positive puts no limit on the attackers.
pub fn max_surround(enemy_ground_unit_area: u128, enemy_ground_units: usize, zealot_radius: i32) -> (limits:
    SurroundInfo)
    ensures
        limits == surround_limits(
            enemy_ground_unit_area as int,
            enemy_ground_units as int,
            zealot_radius as int,
        ),
        limits.max_attackers_per_defender >= 1,
        limits.max_melee_attackers >= 0,
{
    let ghost area = enemy_ground_unit_area as int;
    let ghost count = enemy_ground_units as int;
    let ghost radius = zealot_radius as int;
    proof {
        lemma_blob_radius_bounds(area, count);
        lemma_surround_bounds(area, count, radius);
    }
    let capped: u128 = if enemy_ground_unit_area <= AREA_LIMIT {
        enemy_ground_unit_area
    } else {
        AREA_LIMIT
    };
    let spread: u128 = if enemy_ground_units > 0 {
        (capped * 10) / 6
    } else {
        capped
    };
    assert(spread == spread_area(area, count));
    assert(spread <= 2 * AREA_LIMIT) by (nonlinear_arith)
        requires
            0 <= capped <= AREA_LIMIT,
            spread == (if count > 0 {
                (capped * 10) / 6
            } else {
                capped as int
            }),
    ;
    let rim: u128 = isqrt((spread * 1_000_000) / PI_MICRO) as u128;
    assert(rim == blob_radius(area, count));
    let defenders_cap: u128 = (enemy_ground_units as u128) * 1_000_000;
    let attackers: u128;
    let defenders: u128;
    if zealot_radius <= 0 {
        attackers = UNLIMITED as u128;
        defenders = if rim > 0 {
            defenders_cap
        } else {
            0
        };
    } else {
        let width: u128 = zealot_radius as u128;
        assert(PI_MICRO * (rim + width) <= 3_141_593 * 0x10_0000_8000_0000 && PI_MICRO * rim
            <= 3_141_593 * 0x10_0000_0000_0000) by (nonlinear_arith)
            requires
                0 <= rim < 0x10_0000_0000_0000,
                0 < width <= 0x7fff_ffff,
        ;
        let fit: u128 = div_ceil(PI_MICRO * (rim + width), 1_000_000 * width);
        attackers = if fit <= UNLIMITED as u128 {
            fit
        } else {
            UNLIMITED as u128
        };
        let rim_places: u128 = (PI_MICRO * rim) / width;
        defenders = if rim_places <= defenders_cap {
            rim_places
        } else {
            defenders_cap
        };
    }
    assert(attackers == attackers_in_melee_range(area, count, radius));
    assert(defenders == defenders_in_melee_range(area, count, radius));
    let each: u128 = if defenders == 0 {
        1
    } else {
        let share: u128 = div_ceil(attackers * 1_000_000, defenders);
        if share <= UNLIMITED as u128 {
            share
        } else {
            UNLIMITED as u128
        }
    };
    assert(each == attackers_per_defender(area, count, radius));
    SurroundInfo {
        max_attackers_per_defender: each as i32,
        max_melee_attackers: attackers as i32,
    }
}

} // verus!
