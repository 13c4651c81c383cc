//! Weapons and the damage model: what a weapon does per second to a target,
//! given attribute bonuses, the attacker's upgrades and the target's armor.

use vstd::prelude::*;
use crate::combat_unit::CombatUnit;
use crate::enums::Attribute;

verus! {

/// Which targets a weapon can fire at.
#[allow(non_camel_case_types)]
#[derive(Debug, Copy, Clone, PartialEq, Eq, Structural, Hash)]
pub enum WeaponTargetType {
    NULL,
    GROUND,
    AIR,
    ANY,
}

impl WeaponTargetType {
    /// The protocol code of this target type.
    pub open spec fn code(self) -> int {
        match self {
            WeaponTargetType::NULL => 0,
            WeaponTargetType::GROUND => 1,
            WeaponTargetType::AIR => 2,
            WeaponTargetType::ANY => 3,
        }
    }

    /// The target type with the given protocol code, if there is one.
    pub fn from_i32(value: i32) -> (target: Option<WeaponTargetType>)
        ensures
            0 <= value <= 3 <==> target.is_some(),
            target.is_some() ==> target.unwrap().code() == value,
    {
        match value {
            0 => Some(WeaponTargetType::NULL),
            1 => Some(WeaponTargetType::GROUND),
            2 => Some(WeaponTargetType::AIR),
            3 => Some(WeaponTargetType::ANY),
            _ => None,
        }
    }

    /// The protocol code of this target type.
    pub fn to_i32(self) -> (value: i32)
        ensures
            value == self.code(),
    {
        match self {
            WeaponTargetType::NULL => 0,
            WeaponTargetType::GROUND => 1,
            WeaponTargetType::AIR => 2,
            WeaponTargetType::ANY => 3,
        }
    }
}

impl Default for WeaponTargetType {
    fn default() -> (target: WeaponTargetType)
        ensures
            target == WeaponTargetType::NULL,
    {
        WeaponTargetType::NULL
    }
}

/// Extra damage against targets that have one attribute.
#[derive(Debug, Copy, Clone, PartialEq, Eq, Structural)]
pub struct DamageBonus {
    pub attribute: Attribute,
    pub bonus: i32,
}

impl DamageBonus {
    /// Affected attribute.
    pub fn get_attribute(self) -> (attribute: Attribute)
        ensures
            attribute == self.attribute,
    {
        self.attribute
    }

    /// Damage bonus.
    pub fn get_bonus(self) -> (bonus: i32)
        ensures
            bonus == self.bonus,
    {
        self.bonus
    }

    /// Whether the target has the attribute that this bonus is for.
    pub open spec fn applies_to(self, target: CombatUnit) -> bool {
        match self.attribute {
            Attribute::ARMORED => target.is_armored,
            Attribute::BIOLOGICAL => target.is_biological,
            Attribute::LIGHT => target.is_light,
            Attribute::MASSIVE => target.is_massive,
            Attribute::MECHANICAL => target.is_mechanical,
            Attribute::PSIONIC => target.is_psionic,
            _ => false,
        }
    }
}

/// One weapon of a unit. `speed` is the time between two volleys.
#[derive(Debug, Clone, Copy)]
pub struct Weapon {
    pub w_type: WeaponTargetType,
    pub damage: i32,
    pub attacks: i32,
    pub range: i32,
    pub speed: i32,
    pub damage_bonus: Option<DamageBonus>,
}

/// No damage rate is reported above this.
pub const DPS_CEILING: i64 = 0x7fff_ffff_ffff_ffff;

/// Whether a weapon of this target type serves against air (`air`) or ground targets.
pub open spec fn serves(w_type: WeaponTargetType, air: bool) -> bool {
    w_type == WeaponTargetType::ANY || (if air {
        w_type == WeaponTargetType::AIR
    } else {
        w_type == WeaponTargetType::GROUND
    })
}

/// The first weapon at or after position `from` that serves the given role.
pub open spec fn first_weapon_from(weapons: Seq<Weapon>, air: bool, from: int) -> Option<Weapon>
    decreases weapons.len() - from,
{
    if from < 0 || from >= weapons.len() {
        None
    } else if serves(weapons[from].w_type, air) {
        Some(weapons[from])
    } else {
        first_weapon_from(weapons, air, from + 1)
    }
}

/// The first weapon of the list that serves the given role.
pub fn first_weapon(weapons: &Vec<Weapon>, air: bool) -> (weapon: Option<&Weapon>)
    ensures
        weapon.is_some() == first_weapon_from(weapons@, air, 0).is_some(),
        weapon.is_some() ==> *weapon.unwrap() == first_weapon_from(weapons@, air, 0).unwrap(),
{
    let mut i: usize = 0;
    while i < weapons.len()
        invariant
            i <= weapons.len(),
            first_weapon_from(weapons@, air, i as int) == first_weapon_from(weapons@, air, 0),
        decreases weapons.len() - i,
    {
        let w_type: WeaponTargetType = weapons[i].w_type;
        if w_type == WeaponTargetType::ANY || (if air {
            w_type == WeaponTargetType::AIR
        } else {
            w_type == WeaponTargetType::GROUND
        }) {
            return Some(&weapons[i]);
        }
        i += 1;
    }
    None
}

impl Weapon {
    /// Whether the weapon can fire at the target at all: any weapon with a
    /// target type `ANY`, a ground weapon at what does not fly, an air weapon
    /// at what air weapons reach.
    pub open spec fn reaches(self, target: CombatUnit) -> bool {
        match self.w_type {
            WeaponTargetType::ANY => true,
            WeaponTargetType::GROUND => !target.is_flying,
            WeaponTargetType::AIR => target.attackable_by_air(),
            WeaponTargetType::NULL => false,
        }
    }

    /// Damage of one hit before armor: base damage, the attribute bonus where
    /// the target has the attribute, and one point per attack upgrade.
    pub open spec fn hit_damage(self, attacker: CombatUnit, target: CombatUnit) -> int {
        self.damage + (match self.damage_bonus {
            Some(bonus) => if bonus.applies_to(target) {
                bonus.bonus as int
            } else {
                0
            },
            None => 0,
        }) + 1000 * attacker.attack_upgrade_level
    }

    /// The factor by which splash multiplies the damage of a hit, in
    /// thousandths; no weapon has any yet.
    pub open spec fn spread(self) -> int {
        0
    }

    /// Whether the weapon fires at all: at least one hit per volley, and a
    /// positive time between volleys.
    pub open spec fn fires(self) -> bool {
        self.attacks > 0 && self.speed > 0
    }

    /// Damage per second of this weapon, fired by `attacker` at `target`.
    ///
    /// Zero where the weapon cannot reach the target, never fires, or the
    /// target has no hit points to lose. Otherwise the damage of a hit less
    /// the target's armor share, times the hits per volley, per time between
    /// volleys; never negative, and capped at `DPS_CEILING`.
    pub open spec fn effective_dps(self, attacker: CombatUnit, target: CombatUnit) -> int {
        if !self.reaches(target) || !self.fires() || !has_pool(target) {
            0
        } else {
            let net = self.hit_damage(attacker, target) - armor_share(target);
            if net <= 0 {
                0
            } else {
                let rate = (net * self.attacks * 1000) / (self.speed as int);
                if rate > DPS_CEILING {
                    DPS_CEILING as int
                } else {
                    rate
                }
            }
        }
    }

    /// The Battlecruiser's two batteries, one against air and one against ground.
    pub fn battlecruiser() -> (weapons: Vec<Weapon>)
        ensures
            weapons@ == seq![
                (Weapon {
                    w_type: WeaponTargetType::AIR,
                    damage: 5000,
                    damage_bonus: None,
                    attacks: 1,
                    range: 6000,
                    speed: 224,
                }),
                (Weapon {
                    w_type: WeaponTargetType::GROUND,
                    damage: 8000,
                    damage_bonus: None,
                    attacks: 1,
                    range: 6000,
                    speed: 224,
                }),
            ],
    {
        let air = Weapon {
            w_type: WeaponTargetType::AIR,
            damage: 5000,
            damage_bonus: None,
            attacks: 1,
            range: 6000,
            speed: 224,
        };
        let ground = Weapon {
            w_type: WeaponTargetType::GROUND,
            damage: 8000,
            damage_bonus: None,
            attacks: 1,
            range: 6000,
            speed: 224,
        };
        let mut weapons: Vec<Weapon> = Vec::new();
        weapons.push(air);
        weapons.push(ground);
        proof {
            assert(weapons@ =~= seq![air, ground]);
        }
        weapons
    }

    /// Weapon's target type.
    pub fn get_target_type(&self) -> (target: WeaponTargetType)
        ensures
            target == self.w_type,
    {
        self.w_type
    }

    /// Weapon damage.
    pub fn get_damage(&self) -> (damage: i32)
        ensures
            damage == self.damage,
    {
        self.damage
    }

    /// Number of hits per attack (eg. Colossus has 2 beams).
    pub fn get_attacks(&self) -> (attacks: i32)
        ensures
            attacks == self.attacks,
    {
        self.attacks
    }

    /// How far the damage of a hit spreads; no weapon spreads it yet.
    pub fn splash(&self) -> (factor: i32)
        ensures
            factor == self.spread(),
    {
        0
    }

    /// Attack range.
    pub fn get_range(&self) -> (range: i32)
        ensures
            range == self.range,
    {
        self.range
    }

    /// Time between attacks.
    pub fn get_speed(&self) -> (speed: i32)
        ensures
            speed == self.speed,
    {
        self.speed
    }

    /// Hits per second, in thousandths; zero for a weapon that never fires.
    pub fn get_dps(&self) -> (rate: i64)
        ensures
            rate == (if self.fires() {
                (self.attacks * 1_000_000) / (self.speed as int)
            } else {
                0
            }),
    {
        if self.attacks > 0 && self.speed > 0 {
            (self.attacks as i64 * 1_000_000) / (self.speed as i64)
        } else {
            0
        }
    }

    /// Damage per second of this weapon, fired by `attacker` at `target`.
    pub fn calculate_dps(&self, attacker: &CombatUnit, target: &CombatUnit) -> (dps: i64)
        ensures
            dps == self.effective_dps(*attacker, *target),
            0 <= dps <= DPS_CEILING,
    {
        let reaches: bool = match self.w_type {
            WeaponTargetType::ANY => true,
            WeaponTargetType::GROUND => !target.is_flying,
            WeaponTargetType::AIR => target.can_be_attacked_by_air(),
            WeaponTargetType::NULL => false,
        };
        if !reaches || self.attacks <= 0 || self.speed <= 0 {
            return 0;
        }
        if target.health_max < 0 || target.shield_max < 0 || (target.health_max == 0
            && target.shield_max == 0) {
            return 0;
        }
        let mut hit: i128 = self.damage as i128;
        match self.damage_bonus {
            Some(bonus) => {
                let applies: bool = match bonus.attribute {
                    Attribute::ARMORED => target.is_armored,
                    Attribute::BIOLOGICAL => target.is_biological,
                    Attribute::LIGHT => target.is_light,
                    Attribute::MASSIVE => target.is_massive,
                    Attribute::MECHANICAL => target.is_mechanical,
                    Attribute::PSIONIC => target.is_psionic,
                    _ => false,
                };
                if applies {
                    hit = hit + bonus.bonus as i128;
                }
            },
            None => {},
        }
        hit = hit + 1000 * (attacker.attack_upgrade_level as i128);
        let armor: i128 = target.armor as i128 + 1000 * (target.armor_upgrade_level as i128);
        let pool: i128 = target.health_max as i128 + target.shield_max as i128;
        let share: i128 = if armor >= 0 {
            assert(armor * target.health_max <= 0x400_0000_0000 * 0x8000_0000) by (nonlinear_arith)
                requires
                    0 <= armor <= 0x400_0000_0000,
                    0 <= target.health_max <= 0x8000_0000,
            ;
            assert(armor * target.health_max >= 0) by (nonlinear_arith)
                requires
                    0 <= armor,
                    0 <= target.health_max,
            ;
            (armor * (target.health_max as i128)) / pool
        } else {
            assert((-armor) * target.health_max <= 0x400_0000_0000 * 0x8000_0000)
                by (nonlinear_arith)
                requires
                    0 <= -armor <= 0x400_0000_0000,
                    0 <= target.health_max <= 0x8000_0000,
            ;
            assert((-armor) * target.health_max >= 0) by (nonlinear_arith)
                requires
                    0 <= -armor,
                    0 <= target.health_max,
            ;
            -(((-armor) * (target.health_max as i128)) / pool)
        };
        assert(share == armor_share(*target));
        proof {
            lemma_armor_share_bounds(*target);
        }
        let net: i128 = hit - share;
        if net <= 0 {
            return 0;
        }
        assert(net * self.attacks * 1000 <= 0x1000_0000_0000 * 0x8000_0000 * 1000
            && net * self.attacks * 1000 >= 0 && net * self.attacks >= 0 && net * self.attacks
            <= 0x1000_0000_0000 * 0x8000_0000) by (nonlinear_arith)
            requires
                0 < net <= 0x1000_0000_0000,
                0 < self.attacks <= 0x8000_0000,
        ;
        let rate: i128 = (net * (self.attacks as i128) * 1000) / (self.speed as i128);
        if rate > DPS_CEILING as i128 {
            DPS_CEILING
        } else {
            rate as i64
        }
    }
}

/// Whether the target has hit points to lose: sensible maxima, not both zero.
pub open spec fn has_pool(target: CombatUnit) -> bool {
    target.health_max >= 0 && target.shield_max >= 0 && target.health_max + target.shield_max > 0
}

/// The target's armor, with one point per armor upgrade, scaled by the share
/// of health in the target's hit points: armor protects health, not shield.
/// Rounded toward zero.
pub open spec fn armor_share(target: CombatUnit) -> int
    recommends
        has_pool(target),
{
    let armor = target.armor + 1000 * target.armor_upgrade_level;
    let pool = target.health_max + target.shield_max;
    if armor >= 0 {
        (armor * target.health_max) / pool
    } else {
        -(((-armor) * target.health_max) / pool)
    }
}

/// The armor share is no larger in size than the armor with its upgrades.
pub proof fn lemma_armor_share_bounds(target: CombatUnit)
    requires
        has_pool(target),
    ensures
        -0x400_0000_0000 <= armor_share(target) <= 0x400_0000_0000,
{
    let armor = target.armor + 1000 * target.armor_upgrade_level;
    let pool = target.health_max + target.shield_max;
    let hm = target.health_max as int;
    if armor >= 0 {
        assert(0 <= (armor * hm) / pool <= armor) by (nonlinear_arith)
            requires
                armor >= 0,
                0 <= hm <= pool,
                pool > 0,
        ;
    } else {
        assert(0 <= ((-armor) * hm) / pool <= -armor) by (nonlinear_arith)
            requires
                -armor >= 0,
                0 <= hm <= pool,
                pool > 0,
        ;
    }
}

} // verus!
