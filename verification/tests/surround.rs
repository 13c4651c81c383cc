use sc2_helper::fixed::{div_ceil, isqrt};
use sc2_helper::surround::{max_surround, SurroundInfo, AREA_LIMIT, UNLIMITED};

fn limits(per_defender: i32, attackers: i32) -> SurroundInfo {
    SurroundInfo { max_attackers_per_defender: per_defender, max_melee_attackers: attackers }
}

#[test]
fn square_roots_round_down() {
    assert_eq!(isqrt(0), 0);
    assert_eq!(isqrt(1), 1);
    assert_eq!(isqrt(2), 1);
    assert_eq!(isqrt(3), 1);
    assert_eq!(isqrt(4), 2);
    assert_eq!(isqrt(99), 9);
    assert_eq!(isqrt(100), 10);
    assert_eq!(isqrt(1_000_000_000_000), 1_000_000);
    assert_eq!(isqrt(u128::MAX), u64::MAX);
}

#[test]
fn division_rounds_up() {
    assert_eq!(div_ceil(0, 7), 0);
    assert_eq!(div_ceil(1, 7), 1);
    assert_eq!(div_ceil(7, 7), 1);
    assert_eq!(div_ceil(8, 7), 2);
    assert_eq!(div_ceil(u128::MAX, 1), u128::MAX);
    assert_eq!(div_ceil(u128::MAX, 2), 1 << 127);
}

#[test]
fn surround_of_thirteen_marines() {
    // the marines have a radius of 0.375 each and zealots attack them
    assert_eq!(max_surround(5_743_224, 13, 500), limits(2, 15));
}

#[test]
fn surround_of_one_large_unit() {
    assert_eq!(max_surround(4_908_739, 1, 500), limits(14, 14));
}

#[test]
fn surround_of_a_hundred_marines() {
    assert_eq!(max_surround(44_178_651, 100, 500), limits(2, 34));
}

#[test]
fn surround_of_a_disk_of_radius_one() {
    assert_eq!(max_surround(3_141_593, 1, 500), limits(12, 12));
    assert_eq!(max_surround(3_141_593, 1, 1_000), limits(8, 8));
    assert_eq!(max_surround(3_141_593, 4, 250), limits(5, 20));
}

#[test]
fn surround_without_defenders() {
    assert_eq!(max_surround(0, 0, 500), limits(1, 4));
    assert_eq!(max_surround(3_000_000, 0, 500), limits(1, 10));
}

#[test]
fn surround_without_footprint() {
    assert_eq!(max_surround(0, 5, 500), limits(1, 4));
}

#[test]
fn surround_without_a_radius_is_unlimited() {
    assert_eq!(max_surround(3_141_593, 1, 0), limits(UNLIMITED, UNLIMITED));
    assert_eq!(max_surround(3_141_593, 1, -1), limits(UNLIMITED, UNLIMITED));
    assert_eq!(max_surround(0, 1, 0), limits(1, UNLIMITED));
    assert_eq!(max_surround(3_141_593, 0, 0), limits(1, UNLIMITED));
}

#[test]
fn surround_of_a_huge_footprint_is_capped() {
    assert_eq!(max_surround(u128::MAX, 1, 500), max_surround(AREA_LIMIT, 1, 500));
    assert_eq!(max_surround(u128::MAX, 1, 500), limits(UNLIMITED, UNLIMITED));
    assert_eq!(max_surround(u128::MAX, usize::MAX, i32::MAX), limits(2, 1_199_694));
}

#[test]
fn more_defenders_never_mean_fewer_attackers() {
    let mut last = max_surround(5_000_000, 0, 500).max_melee_attackers;
    for count in 1..40 {
        let now = max_surround(5_000_000, count, 500).max_melee_attackers;
        assert!(now >= last);
        last = now;
    }
    assert_eq!(max_surround(5_000_000, 0, 500).max_melee_attackers, 12);
    assert_eq!(max_surround(5_000_000, 1, 500).max_melee_attackers, 14);
    assert_eq!(max_surround(5_000_000, 39, 500).max_melee_attackers, 14);
}

#[test]
fn wider_attackers_never_mean_more_attackers() {
    let mut last = max_surround(5_000_000, 8, 1).max_melee_attackers;
    for radius in 2..3_000 {
        let now = max_surround(5_000_000, 8, radius).max_melee_attackers;
        assert!(now <= last);
        last = now;
    }
    assert_eq!(max_surround(5_000_000, 8, 1).max_melee_attackers, 5_118);
    assert_eq!(max_surround(5_000_000, 8, 2_999).max_melee_attackers, 5);
}

#[test]
fn attackers_per_defender_can_fall_with_more_defenders() {
    assert_eq!(max_surround(5_000_000, 1, 500).max_attackers_per_defender, 14);
    assert_eq!(max_surround(5_000_000, 2, 500).max_attackers_per_defender, 7);
}
