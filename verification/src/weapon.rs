//! Weapons: reference rows per class and level, and the equipped weapon.

use vstd::prelude::*;
use crate::effect::EffectType;
use crate::hero_class::HeroClass;

verus! {

/// Every weapon kind appearing in the reference table.
#[derive(Clone, Copy, Debug, PartialEq, Eq, Structural)]
pub enum WeaponType {
    BowAndArrow,
    Spear,
    ShortSword,
    Sword,
    BigMachete,
    SmallWand,
    MagicWand,
    MagicSword,
    SmallHammer,
    Mace,
    BigHammer,
}

/// How the weapon is used; drives presentation-side anchoring only.
#[derive(Clone, Copy, Debug, PartialEq, Eq, Structural)]
pub enum AttackType {
    Swing,
    Throw,
    Shoot,
}

/// Projectile geometry, in thousandths of a unit.
#[derive(Clone, Copy, Debug, PartialEq, Eq, Structural)]
pub struct Bullet {
    pub width: i64,
    pub height: i64,
    pub speed: i64,
    pub scale: i64,
}

impl Bullet {
    /// The placeholder used by weapons that shoot nothing.
    pub fn zero() -> (bullet: Bullet)
        ensures
            bullet == (Bullet { width: 0, height: 0, speed: 0, scale: 0 }),
    {
        Bullet { width: 0, height: 0, speed: 0, scale: 0 }
    }
}

/// Carries the projectile spec of the currently equipped weapon.
#[derive(Clone, Copy, Debug, PartialEq, Eq, Structural)]
pub struct BulletController {
    pub bullet_information: Bullet,
}

/// One reference-table row: the weapon a class wields at one level.
/// Geometry and speeds are in thousandths of a unit.
#[derive(Clone, Copy, Debug, PartialEq, Eq, Structural)]
pub struct Weapon {
    pub name: WeaponType,
    pub hero_class: HeroClass,
    pub level: u8,
    pub attack_type: AttackType,
    pub strength: i64,
    pub intelligence: i64,
    pub swing_speed: Option<i64>,
    pub cooldown: Option<i64>,
    pub width: i64,
    pub height: i64,
    pub scale: i64,
    pub effect: Option<EffectType>,
    pub bullet: Option<Bullet>,
}

/// The equipped weapon's live state; upgrading replaces it in place with the
/// next-level reference row.
#[derive(Clone, Copy, Debug, PartialEq, Eq, Structural)]
pub struct WeaponComponent {
    pub attack_type: AttackType,
    pub name: WeaponType,
    pub level: u8,
    pub swing_speed: i64,
    pub cooldown_second: i64,
    pub size_height: i64,
    pub size_width: i64,
    pub scale: i64,
    pub strength: i64,
    pub intelligence: i64,
}

/// The highest weapon level a class can reach: two for the elf, three for
/// everyone else.
pub open spec fn weapon_level_cap(class: HeroClass) -> int {
    if class == HeroClass::Elf {
        2
    } else {
        3
    }
}

/// Whether a weapon at `level` can no longer be upgraded for `class`.
pub open spec fn at_weapon_level_cap(class: HeroClass, level: int) -> bool {
    level >= 3 || (level == 2 && class == HeroClass::Elf)
}

/// The level after one upgrade application: unchanged at the cap, one higher
/// below it.
pub open spec fn upgraded_weapon_level(class: HeroClass, level: int) -> int {
    if at_weapon_level_cap(class, level) {
        level
    } else {
        level + 1
    }
}

/// The level after `n` upgrade applications.
pub open spec fn spec_weapon_level_after(class: HeroClass, level: int, n: nat) -> int
    decreases n,
{
    if n == 0 {
        level
    } else {
        upgraded_weapon_level(class, spec_weapon_level_after(class, level, (n - 1) as nat))
    }
}

/// The live state a reference row installs when it is equipped.
pub open spec fn spec_component_from_row(row: Weapon) -> WeaponComponent {
    WeaponComponent {
        attack_type: row.attack_type,
        name: row.name,
        level: row.level,
        swing_speed: if row.swing_speed is Some { row.swing_speed->0 } else { 0 },
        cooldown_second: if row.cooldown is Some { row.cooldown->0 } else { 0 },
        size_height: row.height,
        size_width: row.width,
        scale: row.scale,
        strength: row.strength,
        intelligence: row.intelligence,
    }
}

/// The projectile a reference row carries, or the zero placeholder.
pub open spec fn spec_bullet_of_row(row: Weapon) -> Bullet {
    if row.bullet is Some {
        row.bullet->0
    } else {
        Bullet { width: 0, height: 0, speed: 0, scale: 0 }
    }
}

/// One upgrade application keeps a level within the class cap within it.
pub proof fn lemma_weapon_level_cap_preserved(class: HeroClass, level: int)
    requires
        level <= weapon_level_cap(class),
    ensures
        upgraded_weapon_level(class, level) <= weapon_level_cap(class),
{
}

/// For every hero class, the weapon level never exceeds the class cap —
/// three, or two for the elf — after any number of upgrade applications.
pub proof fn lemma_weapon_level_cap_any_number(class: HeroClass, level: int, n: nat)
    requires
        level <= weapon_level_cap(class),
    ensures
        spec_weapon_level_after(class, level, n) <= weapon_level_cap(class),
    decreases n,
{
    if n > 0 {
        lemma_weapon_level_cap_any_number(class, level, (n - 1) as nat);
    }
}

impl WeaponComponent {
    /// Replaces the live state with one reference row, field for field.
    pub fn upgrade_weapon(&mut self, weapon: &Weapon)
        ensures
            *final(self) == spec_component_from_row(*weapon),
    {
        self.strength = weapon.strength;
        self.intelligence = weapon.intelligence;
        self.attack_type = weapon.attack_type;
        self.name = weapon.name;
        self.level = weapon.level;
        self.swing_speed = match weapon.swing_speed {
            Some(v) => v,
            None => 0,
        };
        self.cooldown_second = match weapon.cooldown {
            Some(v) => v,
            None => 0,
        };
        self.size_width = weapon.width;
        self.size_height = weapon.height;
        self.scale = weapon.scale;
    }
}

} // verus!
