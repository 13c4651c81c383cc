//! One side's move in a tick, carried out unit by unit.

use vstd::prelude::*;
use crate::combat_unit::CombatUnit;
use crate::engagement::{
    can_be_healed, counts_without, damage_dealt, heal_target_from, heal_turn, pass_from,
    splash_factor, start_pass, strike, targeting_rules, time_to_reach, unit_turn, wait_time,
    PassRules, PassState, HEALING_PER_SECOND, NEVER,
};
use crate::ids::MEDIVAC;
use crate::random::{advance_seed, draw_word};
use crate::roster::{
    all_well_formed, hit_points_total, is_active_healer, lemma_hit_points_after_removal,
    lemma_hit_points_after_update, no_active_healer, without,
};
use crate::targeting::{find_best_target, TargetChoice};

verus! {

/// One side's move in a tick, as far as it has got.
pub struct SidePass {
    /// The side that moves.
    pub attackers: Vec<CombatUnit>,
    /// The other side.
    pub defenders: Vec<CombatUnit>,
    /// How many attackers have struck each defender in this tick.
    pub attack_counts: Vec<usize>,
    /// Which attackers have been healed in this tick.
    pub healed: Vec<bool>,
    /// How many melee attackers have struck in this tick.
    pub melee_used: usize,
    /// Whether anything happened that calls for another tick.
    pub changed: bool,
    /// The seed of the next random draw.
    pub seed: u64,
}

impl View for SidePass {
    type V = PassState;

    open spec fn view(&self) -> PassState {
        PassState {
            attackers: self.attackers@,
            defenders: self.defenders@,
            attack_counts: self.attack_counts@,
            healed: self.healed@,
            melee_used: self.melee_used,
            changed: self.changed,
            seed: self.seed,
        }
    }
}

/// The books of a move are in order after `turns` turns: every defender has
/// its attack count and every attacker its healing mark, and no count is
/// larger than the number of turns taken.
pub open spec fn pass_in_order(s: PassState, turns: int) -> bool {
    &&& s.attack_counts.len() == s.defenders.len()
    &&& s.healed.len() == s.attackers.len()
    &&& s.melee_used <= turns
    &&& forall|j: int| 0 <= j < s.attack_counts.len() ==> #[trigger] s.attack_counts[j] <= turns
}

/// The rules of a tick are within the limits that the arithmetic needs.
pub open spec fn rules_in_order(rules: PassRules) -> bool {
    &&& 1 <= rules.dt <= 5
    &&& 0 <= rules.max_extra_melee_distance <= 0x1000_0000_0000
    &&& 0 <= rules.max_range_defender
}

/// The time a unit needs to bring an enemy at `distance_to_enemy` into its
/// range: the distance beyond its range at its speed; `NEVER` for a unit that
/// cannot move.
pub fn time_to_be_able_to_attack(unit: &CombatUnit, distance_to_enemy: i64) -> (time: i128)
    ensures
        time == time_to_reach(*unit, distance_to_enemy as int),
        time >= 0,
{
    if unit.movement_speed > 0 {
        let gap: i128 = distance_to_enemy as i128 - unit.get_max_range() as i128;
        if gap > 0 {
            assert((gap * 1000) / (unit.movement_speed as int) >= 0) by (nonlinear_arith)
                requires
                    gap > 0,
                    unit.movement_speed > 0,
            ;
            (gap * 1000) / (unit.movement_speed as i128)
        } else {
            0
        }
    } else {
        NEVER as i128
    }
}

impl SidePass {
    /// The state in which a side starts its move against the other.
    pub fn new(attackers: Vec<CombatUnit>, defenders: Vec<CombatUnit>, seed: u64) -> (pass: SidePass)
        ensures
            pass@ == start_pass(attackers@, defenders@, seed),
            pass_in_order(pass@, 0),
    {
        let attack_counts: Vec<usize> = vec![0usize; defenders.len()];
        let healed: Vec<bool> = vec![false; attackers.len()];
        let pass = SidePass {
            attackers,
            defenders,
            attack_counts,
            healed,
            melee_used: 0,
            changed: false,
            seed,
        };
        assert(pass@ =~= start_pass(attackers@, defenders@, seed));
        pass
    }

    /// The time before which the attacker at `i` takes no part in the fight.
    pub fn wait_of(&self, i: usize, rules: &PassRules) -> (time: i128)
        requires
            i < self.attackers.len(),
            rules_in_order(*rules),
        ensures
            time == wait_time(self.attackers[i as int], i as int, self.attackers.len() as int, *rules),
    {
        let unit = &self.attackers[i];
        if rules.attacking {
            let extra: i128 = if unit.is_melee() {
                assert(0 <= rules.max_extra_melee_distance * i <= 0x1000_0000_0000
                    * 0x1_0000_0000_0000_0000) by (nonlinear_arith)
                    requires
                        0 <= rules.max_extra_melee_distance <= 0x1000_0000_0000,
                        0 <= i <= 0xffff_ffff_ffff_ffff,
                ;
                (rules.max_extra_melee_distance as i128 * i as i128) / (self.attackers.len() as i128)
            } else {
                0
            };
            assert(0 <= extra <= 0x1000_0000_0000) by (nonlinear_arith)
                requires
                    0 <= rules.max_extra_melee_distance <= 0x1000_0000_0000,
                    0 <= i < self.attackers.len(),
                    extra == 0 || extra == (rules.max_extra_melee_distance * i) / (
                    self.attackers.len() as int),
            ;
            time_to_be_able_to_attack(unit, (rules.max_range_defender as i128 + extra) as i64)
        } else if rules.fastest_attacker_speed > 0 {
            let gap: i128 = rules.max_range_defender as i128 - unit.get_max_range() as i128;
            if gap > 0 {
                (gap * 1000) / (rules.fastest_attacker_speed as i128)
            } else {
                0
            }
        } else {
            NEVER as i128
        }
    }

    /// The first unit that the healer at `healer` may heal, looking from
    /// `offset` on, around the roster.
    pub fn find_heal_target(&self, healer: usize, offset: usize) -> (target: Option<usize>)
        requires
            healer < self.attackers.len(),
            self.healed.len() == self.attackers.len(),
        ensures
            target.is_some() == heal_target_from(self@, healer as int, offset as int, 0).is_some(),
            target.is_some() ==> target.unwrap() == heal_target_from(
                self@,
                healer as int,
                offset as int,
                0,
            ).unwrap(),
            target.is_some() ==> target.unwrap() < self.attackers.len() && can_be_healed(
                self@,
                healer as int,
                target.unwrap() as int,
            ),
    {
        let len: usize = self.attackers.len();
        let mut j: usize = 0;
        while j < len
            invariant
                j <= len,
                len == self.attackers.len(),
                healer < len,
                self.healed.len() == len,
                heal_target_from(self@, healer as int, offset as int, j as int) == heal_target_from(
                    self@,
                    healer as int,
                    offset as int,
                    0,
                ),
            decreases len - j,
        {
            let index: usize = ((j as u128 + offset as u128) % (len as u128)) as usize;
            let other = &self.attackers[index];
            if index != healer && !self.healed[index] && other.health > 0 && other.health
                < other.health_max && other.is_biological {
                return Some(index);
            }
            j += 1;
        }
        None
    }

    /// The turn of the healer at `healer`.
    pub fn heal(&mut self, healer: usize, rules: &PassRules)
        requires
            healer < old(self).attackers.len(),
            old(self).healed.len() == old(self).attackers.len(),
            rules_in_order(*rules),
        ensures
            final(self)@ == heal_turn(old(self)@, healer as int, *rules),
            final(self).defenders@ == old(self).defenders@,
            final(self).attack_counts@ == old(self).attack_counts@,
            final(self).melee_used == old(self).melee_used,
            final(self).changed == old(self).changed,
            final(self).attackers.len() == old(self).attackers.len(),
            final(self).healed.len() == old(self).healed.len(),
            all_well_formed(old(self).attackers@) ==> all_well_formed(final(self).attackers@),
            hit_points_total(final(self).attackers@) <= hit_points_total(old(self).attackers@)
                + HEALING_PER_SECOND * rules.dt,
    {
        if self.attackers[healer].energy > 0 {
            let len: usize = self.attackers.len();
            let word: u64 = draw_word(self.seed);
            let offset: usize = (word % (len as u64)) as usize;
            let target: Option<usize> = self.find_heal_target(healer, offset);
            self.seed = advance_seed(self.seed);
            match target {
                Some(index) => {
                    let ghost before = self.attackers@;
                    self.attackers[index].modify_health(
                        HEALING_PER_SECOND as i128 * rules.dt as i128,
                    );
                    self.healed[index] = true;
                    proof {
                        lemma_hit_points_after_update(
                            before,
                            before.len() as int,
                            index as int,
                            self.attackers@[index as int],
                        );
                        assert(self.attackers@ =~= before.update(
                            index as int,
                            self.attackers@[index as int],
                        ));
                    }
                },
                None => {},
            }
        }
        assert(self@ =~= heal_turn(old(self)@, healer as int, *rules));
    }

    /// A strike of the attacker at the chosen target.
    pub fn strike_at(&mut self, choice: &TargetChoice, melee: bool, turns: usize, rules: &PassRules)
        requires
            choice.index < old(self).defenders.len(),
            old(self).defenders[choice.index as int].is_alive(),
            0 <= choice.dps,
            pass_in_order(old(self)@, turns as int),
            turns < old(self).attackers.len(),
            rules_in_order(*rules),
        ensures
            final(self)@ == strike(old(self)@, *choice, melee, *rules),
            pass_in_order(final(self)@, turns + 1),
            final(self).attackers@ == old(self).attackers@,
            final(self).defenders.len() <= old(self).defenders.len(),
            all_well_formed(old(self).defenders@) ==> all_well_formed(final(self).defenders@)
                && hit_points_total(final(self).defenders@) <= hit_points_total(
                old(self).defenders@,
            ),
            no_active_healer(old(self).defenders@) ==> no_active_healer(final(self).defenders@),
    {
        let index: usize = choice.index;
        let factor: i128 = match choice.weapon {
            Some(w) => {
                let spread: i32 = w.splash();
                if rules.settings.enable_splash && spread > 1000 {
                    spread as i128
                } else {
                    1000
                }
            },
            None => 1000,
        };
        assert(factor == splash_factor(choice.weapon, rules.settings));
        assert(0 <= choice.dps * factor <= 0x8000_0000_0000_0000 * 0x8000_0000 && 0 <= choice.dps
            * factor * rules.dt <= 0x8000_0000_0000_0000 * 0x8000_0000 * 5) by (nonlinear_arith)
            requires
                0 <= choice.dps <= 0x7fff_ffff_ffff_ffff,
                0 <= factor <= 0x7fff_ffff,
                1 <= rules.dt <= 5,
        ;
        let damage: i128 = (choice.dps as i128 * factor * rules.dt as i128) / 1000;
        assert(damage == damage_dealt(*choice, *rules));
        let ghost before = self.defenders@;
        let ghost counts_before = self.attack_counts@;
        let count: usize = self.attack_counts[index];
        self.attack_counts[index] = count + 1;
        if melee {
            self.melee_used = self.melee_used + 1;
        }
        self.defenders[index].modify_health(-damage);
        self.changed = true;
        let ghost hurt = self.defenders@[index as int];
        let ghost struck = self.defenders@;
        proof {
            assert(struck =~= before.update(index as int, hurt));
            lemma_hit_points_after_update(before, before.len() as int, index as int, hurt);
            assert(hurt == before[index as int].modified(-damage));
            if all_well_formed(before) {
                assert(before[index as int].well_formed());
                assert(hurt.well_formed());
                assert(hurt.hit_points() <= before[index as int].hit_points());
                assert(!hurt.is_alive() ==> hurt.hit_points() == 0);
            }
            assert(hurt.type_id == before[index as int].type_id);
            assert(hurt.energy == before[index as int].energy);
            assert(hurt.health <= before[index as int].health);
            if no_active_healer(before) {
                assert(!is_active_healer(before[index as int]));
                assert forall|j: int| 0 <= j < struck.len() implies !is_active_healer(
                    #[trigger] struck[j],
                ) by {
                    if j != index {
                        assert(struck[j] == before[j]);
                    }
                }
            }
        }
        if self.defenders[index].health <= 0 {
            let _ = self.defenders.swap_remove(index);
            let _ = self.attack_counts.swap_remove(index);
            proof {
                lemma_hit_points_after_removal(struck, index as int);
                assert(self.defenders@ =~= without(struck, index as int));
                if no_active_healer(struck) {
                    assert forall|j: int| 0 <= j < self.defenders@.len() implies !is_active_healer(
                        #[trigger] self.defenders@[j],
                    ) by {
                        if j == index {
                            assert(self.defenders@[j] == struck[struck.len() - 1]);
                        } else {
                            assert(self.defenders@[j] == struck[j]);
                        }
                    }
                }
            }
        }
        assert(self@ =~= strike(old(self)@, *choice, melee, *rules));
    }

    /// The turn of the attacker at position `i`.
    ///
    /// Health and shield stay in range on both sides. The defenders lose no
    /// unit that is alive and gain no hit points; the attackers change only
    /// through a healer.
    pub fn take_turn(&mut self, i: usize, rules: &PassRules)
        requires
            i < old(self).attackers.len(),
            pass_in_order(old(self)@, i as int),
            rules_in_order(*rules),
        ensures
            final(self)@ == unit_turn(old(self)@, i as int, *rules),
            pass_in_order(final(self)@, i + 1),
            final(self).attackers.len() == old(self).attackers.len(),
            final(self).defenders.len() <= old(self).defenders.len(),
            all_well_formed(old(self).attackers@) ==> all_well_formed(final(self).attackers@),
            all_well_formed(old(self).defenders@) ==> all_well_formed(final(self).defenders@)
                && hit_points_total(final(self).defenders@) <= hit_points_total(
                old(self).defenders@,
            ),
            !is_active_healer(old(self).attackers[i as int]) ==> final(self).attackers@ == old(
                self,
            ).attackers@,
            no_active_healer(old(self).defenders@) ==> no_active_healer(final(self).defenders@),
            hit_points_total(final(self).attackers@) <= hit_points_total(old(self).attackers@)
                + HEALING_PER_SECOND * rules.dt,
    {
        let alive: bool = self.attackers[i].health > 0;
        let type_id: u32 = self.attackers[i].type_id;
        if !alive {
            return ;
        }
        if type_id == MEDIVAC {
            self.heal(i, rules);
            return ;
        }
        let air_dps: i32 = self.attackers[i].get_dps(true);
        let ground_dps: i32 = self.attackers[i].get_dps(false);
        if air_dps == 0 && ground_dps == 0 {
            return ;
        }
        if rules.settings.workers_do_no_damage && self.attackers[i].is_basic_harvester() {
            return ;
        }
        let melee: bool = self.attackers[i].is_melee();
        if melee && rules.settings.enable_surround_limits && self.melee_used as i128
            > rules.surround.max_melee_attackers as i128 {
            return ;
        }
        if rules.settings.enable_timing_adjustment {
            let wait: i128 = self.wait_of(i, rules);
            if (rules.time as i128) < wait {
                self.changed = true;
                assert(self@ =~= unit_turn(old(self)@, i as int, *rules));
                return ;
            }
        }
        let choice: Option<TargetChoice> = find_best_target(
            &self.attackers[i],
            &self.defenders,
            &rules.settings,
            rules.has_ground,
            rules.has_air,
            melee,
            &self.attack_counts,
            &rules.surround,
            rules.opponent_fraction_melee_units,
        );
        match choice {
            Some(target) => {
                self.strike_at(&target, melee, i, rules);
            },
            None => {},
        }
    }

    /// The rest of the side's move: the attackers from position `from` on
    /// take their turns.
    pub fn run_from(&mut self, from: usize, rules: &PassRules)
        requires
            from <= old(self).attackers.len(),
            pass_in_order(old(self)@, from as int),
            rules_in_order(*rules),
        ensures
            final(self)@ == pass_from(
                old(self)@,
                from as int,
                old(self).attackers.len() as int,
                *rules,
            ),
            final(self).attackers.len() == old(self).attackers.len(),
            final(self).defenders.len() <= old(self).defenders.len(),
            all_well_formed(old(self).attackers@) ==> all_well_formed(final(self).attackers@),
            all_well_formed(old(self).defenders@) ==> all_well_formed(final(self).defenders@)
                && hit_points_total(final(self).defenders@) <= hit_points_total(
                old(self).defenders@,
            ),
            no_active_healer(old(self).attackers@) ==> final(self).attackers@ == old(
                self,
            ).attackers@,
            no_active_healer(old(self).defenders@) ==> no_active_healer(final(self).defenders@),
    {
        let len: usize = self.attackers.len();
        let mut i: usize = from;
        while i < len
            invariant
                from <= i <= len,
                len == self.attackers.len(),
                len == old(self).attackers.len(),
                pass_in_order(self@, i as int),
                rules_in_order(*rules),
                pass_from(self@, i as int, len as int, *rules) == pass_from(
                    old(self)@,
                    from as int,
                    len as int,
                    *rules,
                ),
                self.defenders.len() <= old(self).defenders.len(),
                all_well_formed(old(self).attackers@) ==> all_well_formed(self.attackers@),
                all_well_formed(old(self).defenders@) ==> all_well_formed(self.defenders@)
                    && hit_points_total(self.defenders@) <= hit_points_total(old(self).defenders@),
                no_active_healer(old(self).attackers@) ==> self.attackers@ == old(self).attackers@,
                no_active_healer(old(self).defenders@) ==> no_active_healer(self.defenders@),
            decreases len - i,
        {
            self.take_turn(i, rules);
            i += 1;
        }
    }
}

} // verus!
