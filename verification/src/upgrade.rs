//! The post-wave reward mechanism: drawing three distinct upgrade
//! categories, drawing a concrete upgrade row, and applying its deltas.

use vstd::prelude::*;
use crate::effect::{EffectInformation, EffectType, PlayerEffects};
use crate::hero_class::HeroClass;
use crate::random::RandomSource;
use crate::skill::{
    cooldown_of, critical_chance_of, dodge_chance_of, duration_of, require_monsters_of,
    restore_chance_of, speed_percent_of, PlayerSkill, Skill, SkillType,
};
use crate::stats::{BaseStats, Player, STAT_LIMIT, UPGRADE_LIMIT};
use crate::weapon::{
    at_weapon_level_cap, spec_bullet_of_row, spec_component_from_row, weapon_level_cap,
    Bullet, BulletController, WeaponComponent,
};
use crate::data::Data;

verus! {

/// The four reward categories offered after a wave.
#[derive(Clone, Copy, Debug, PartialEq, Eq, Structural)]
pub enum UpgradeType {
    Weapon,
    Stats,
    Skill,
    Effect,
}

/// The delta an absent field contributes: nothing.
pub open spec fn opt_value(v: Option<i64>) -> int {
    if v is Some {
        v->0 as int
    } else {
        0
    }
}

/// The threshold reduction an absent field contributes: nothing.
pub open spec fn opt_value_u32(v: Option<u32>) -> int {
    if v is Some {
        v->0 as int
    } else {
        0
    }
}

/// One stats-upgrade table row: additive bonuses, in thousandths; the speed
/// bonus is a fraction of the base speed, converted to an absolute delta at
/// application time.
#[derive(Clone, Copy, Debug, PartialEq, Eq, Structural)]
pub struct StatsUpgrade {
    pub max_health_bonus: Option<i64>,
    pub critical_chance_bonus: Option<i64>,
    pub dodge_chance_bonus: Option<i64>,
    pub restore_chance_bonus: Option<i64>,
    pub intelligence_bonus: Option<i64>,
    pub strength_bonus: Option<i64>,
    pub speed_percent_bonus: Option<i64>,
}

impl StatsUpgrade {
    /// Bonuses are non-negative and bounded, so applications fit in the
    /// arithmetic.
    pub open spec fn wf(self) -> bool {
        &&& 0 <= opt_value(self.max_health_bonus) <= UPGRADE_LIMIT
        &&& 0 <= opt_value(self.critical_chance_bonus) <= UPGRADE_LIMIT
        &&& 0 <= opt_value(self.dodge_chance_bonus) <= UPGRADE_LIMIT
        &&& 0 <= opt_value(self.restore_chance_bonus) <= UPGRADE_LIMIT
        &&& 0 <= opt_value(self.intelligence_bonus) <= UPGRADE_LIMIT
        &&& 0 <= opt_value(self.strength_bonus) <= UPGRADE_LIMIT
        &&& 0 <= opt_value(self.speed_percent_bonus) <= UPGRADE_LIMIT
    }
}

/// One effect-upgrade table row: which effect it targets, duration deltas in
/// whole seconds, and chance deltas in thousandths.
#[derive(Clone, Copy, Debug, PartialEq, Eq, Structural)]
pub struct EffectUpgrade {
    pub name: EffectType,
    pub duration_bonus: Option<i64>,
    pub duration_reduce: Option<i64>,
    pub speed_percent_bonus: Option<i64>,
    pub speed_percent_reduce: Option<i64>,
    pub critical_chance_bonus: Option<i64>,
    pub dodge_chance_bonus: Option<i64>,
}

impl EffectUpgrade {
    pub open spec fn wf(self) -> bool {
        &&& 0 <= opt_value(self.duration_bonus) <= UPGRADE_LIMIT
        &&& 0 <= opt_value(self.duration_reduce) <= UPGRADE_LIMIT
        &&& 0 <= opt_value(self.speed_percent_bonus) <= UPGRADE_LIMIT
        &&& 0 <= opt_value(self.speed_percent_reduce) <= UPGRADE_LIMIT
        &&& 0 <= opt_value(self.critical_chance_bonus) <= UPGRADE_LIMIT
        &&& 0 <= opt_value(self.dodge_chance_bonus) <= UPGRADE_LIMIT
    }
}

/// One skill-upgrade table row: which variant it targets and the deltas the
/// variant's rules read.
#[derive(Clone, Copy, Debug, PartialEq, Eq, Structural)]
pub struct SkillUpgrade {
    pub name: SkillType,
    pub duration_bonus: Option<i64>,
    pub cooldown_reduce: Option<i64>,
    pub require_monsters_reduce: Option<u32>,
    pub speed_percent_bonus: Option<i64>,
    pub critical_chance_bonus: Option<i64>,
    pub restore_chance_bonus: Option<i64>,
    pub dodge_chance_bonus: Option<i64>,
}

impl SkillUpgrade {
    pub open spec fn wf(self) -> bool {
        &&& 0 <= opt_value(self.duration_bonus) <= UPGRADE_LIMIT
        &&& 0 <= opt_value(self.cooldown_reduce) <= UPGRADE_LIMIT
        &&& 0 <= opt_value(self.speed_percent_bonus) <= UPGRADE_LIMIT
        &&& 0 <= opt_value(self.critical_chance_bonus) <= UPGRADE_LIMIT
        &&& 0 <= opt_value(self.restore_chance_bonus) <= UPGRADE_LIMIT
        &&& 0 <= opt_value(self.dodge_chance_bonus) <= UPGRADE_LIMIT
    }
}

/// A drawn upgrade: exactly one payload is present, matching the category
/// it was drawn for; the weapon category carries no payload, being driven
/// entirely by the next table row.
#[derive(Clone, Copy, Debug, PartialEq, Eq, Structural)]
pub struct Upgrade {
    pub stats_upgrade: Option<StatsUpgrade>,
    pub effect_upgrade: Option<EffectUpgrade>,
    pub skill_upgrade: Option<SkillUpgrade>,
}

/// The player after one stats upgrade: plain additive bonuses, except the
/// speed bonus, which scales the base speed by the row's fraction.
pub open spec fn spec_stats_applied(player: Player, su: StatsUpgrade) -> Player {
    Player {
        max_health_points: (player.max_health_points + opt_value(su.max_health_bonus)) as i64,
        strength: (player.strength + opt_value(su.strength_bonus)) as i64,
        intelligence: (player.intelligence + opt_value(su.intelligence_bonus)) as i64,
        base_stats: BaseStats {
            critical_chance: (player.base_stats.critical_chance
                + opt_value(su.critical_chance_bonus)) as i64,
            dodge_chance: (player.base_stats.dodge_chance
                + opt_value(su.dodge_chance_bonus)) as i64,
            restore_chance: (player.base_stats.restore_chance
                + opt_value(su.restore_chance_bonus)) as i64,
            speed: (player.base_stats.speed
                + opt_value(su.speed_percent_bonus) * player.base_stats.speed / 1000) as i64,
            ..player.base_stats
        },
        ..player
    }
}

/// The net duration an effect upgrade moves an entry to, before flooring.
pub open spec fn spec_effect_net_duration(entry: EffectInformation, eu: EffectUpgrade) -> int {
    entry.duration + opt_value(eu.duration_bonus) - opt_value(eu.duration_reduce)
}

/// One effect entry after an upgrade: the duration floors at one second,
/// and the chance deltas sum algebraically into the cumulative bonus.
pub open spec fn spec_effect_applied_entry(
    entry: EffectInformation,
    eu: EffectUpgrade,
) -> EffectInformation {
    EffectInformation {
        name: entry.name,
        duration: if spec_effect_net_duration(entry, eu) > 0 {
            spec_effect_net_duration(entry, eu) as i64
        } else {
            1
        },
        bonus: (entry.bonus + opt_value(eu.speed_percent_bonus)
            - opt_value(eu.speed_percent_reduce) + opt_value(eu.critical_chance_bonus)
            + opt_value(eu.dodge_chance_bonus)) as i64,
    }
}

/// For every effect upgrade, the resulting duration is at least one second,
/// however negative the net delta: the floor wins over the subtraction.
pub proof fn lemma_effect_duration_floor(entry: EffectInformation, eu: EffectUpgrade)
    requires
        entry.wf(),
        eu.wf(),
    ensures
        spec_effect_applied_entry(entry, eu).duration >= 1,
{
}

/// Index `j` holds the first entry recorded for `name`.
pub open spec fn is_first_entry(infos: Seq<EffectInformation>, name: EffectType, j: int) -> bool {
    &&& 0 <= j < infos.len()
    &&& infos[j].name == name
    &&& forall|k: int| 0 <= k < j ==> infos[k].name != name
}

/// The equipped skill after one skill upgrade. Each variant owns a distinct
/// subset of the fields; the rest stay untouched. A duration only grows; a
/// cooldown reduce may push the cooldown below zero, which later means no
/// delay; the Armor kill threshold floors at zero.
pub open spec fn spec_skill_applied(skill: Skill, su: SkillUpgrade) -> Skill {
    match skill.name {
        SkillType::TimeToHunt => Skill {
            duration: Some((duration_of(skill) + opt_value(su.duration_bonus)) as i64),
            cooldown: Some((cooldown_of(skill) - opt_value(su.cooldown_reduce)) as i64),
            speed_percent_bonus: Some((speed_percent_of(skill)
                + opt_value(su.speed_percent_bonus)) as i64),
            critical_chance_bonus: Some((critical_chance_of(skill)
                + opt_value(su.critical_chance_bonus)) as i64),
            ..skill
        },
        SkillType::Armor => Skill {
            require_monsters: Some(
                if require_monsters_of(skill) >= opt_value_u32(su.require_monsters_reduce) {
                    (require_monsters_of(skill) - opt_value_u32(su.require_monsters_reduce)) as u32
                } else {
                    0
                },
            ),
            ..skill
        },
        SkillType::Thunderstorm => Skill {
            cooldown: Some((cooldown_of(skill) - opt_value(su.cooldown_reduce)) as i64),
            ..skill
        },
        SkillType::AnimalInstinct => Skill {
            duration: Some((duration_of(skill) + opt_value(su.duration_bonus)) as i64),
            cooldown: Some((cooldown_of(skill) - opt_value(su.cooldown_reduce)) as i64),
            speed_percent_bonus: Some((speed_percent_of(skill)
                + opt_value(su.speed_percent_bonus)) as i64),
            critical_chance_bonus: Some((critical_chance_of(skill)
                + opt_value(su.critical_chance_bonus)) as i64),
            restore_chance_bonus: Some((restore_chance_of(skill)
                + opt_value(su.restore_chance_bonus)) as i64),
            dodge_chance_bonus: Some((dodge_chance_of(skill)
                + opt_value(su.dodge_chance_bonus)) as i64),
            ..skill
        },
    }
}

/// Room inside every bound of `Skill::wf` for one more upgrade delta.
pub open spec fn skill_upgrade_headroom(skill: Skill) -> bool {
    &&& duration_of(skill) + UPGRADE_LIMIT <= STAT_LIMIT
    &&& cooldown_of(skill) - UPGRADE_LIMIT >= -STAT_LIMIT
    &&& speed_percent_of(skill) + UPGRADE_LIMIT <= STAT_LIMIT
    &&& critical_chance_of(skill) + UPGRADE_LIMIT <= STAT_LIMIT
    &&& restore_chance_of(skill) + UPGRADE_LIMIT <= STAT_LIMIT
    &&& dodge_chance_of(skill) + UPGRADE_LIMIT <= STAT_LIMIT
}

/// Applies a drawn stats upgrade to the player.
pub fn upgrade_stats(upgrade: &Upgrade, player: &mut Player)
    requires
        upgrade.stats_upgrade is Some,
        upgrade.stats_upgrade->0.wf(),
        old(player).wf(),
    ensures
        *final(player) == spec_stats_applied(*old(player), upgrade.stats_upgrade->0),
        final(player).health_wf(),
{
    let stats_upgrade: StatsUpgrade = match upgrade.stats_upgrade {
        Some(su) => su,
        None => StatsUpgrade {
            max_health_bonus: None,
            critical_chance_bonus: None,
            dodge_chance_bonus: None,
            restore_chance_bonus: None,
            intelligence_bonus: None,
            strength_bonus: None,
            speed_percent_bonus: None,
        },
    };

    let critical_chance_bonus_upgrade: i64 = or_zero(stats_upgrade.critical_chance_bonus);
    let dodge_chance_bonus_upgrade: i64 = or_zero(stats_upgrade.dodge_chance_bonus);
    let restore_chance_bonus_upgrade: i64 = or_zero(stats_upgrade.restore_chance_bonus);
    let intelligence_bonus_upgrade: i64 = or_zero(stats_upgrade.intelligence_bonus);
    let strength_bonus_upgrade: i64 = or_zero(stats_upgrade.strength_bonus);
    let max_health_bonus_upgrade: i64 = or_zero(stats_upgrade.max_health_bonus);
    let speed_percent_bonus_upgrade: i64 = or_zero(stats_upgrade.speed_percent_bonus);
    proof {
        assert(0 <= speed_percent_bonus_upgrade * player.base_stats.speed
            <= UPGRADE_LIMIT * STAT_LIMIT) by (nonlinear_arith)
            requires
                0 <= speed_percent_bonus_upgrade <= UPGRADE_LIMIT,
                0 <= player.base_stats.speed <= STAT_LIMIT,
        ;
    }
    let speed_bonus_upgrade: i64 = speed_percent_bonus_upgrade * player.base_stats.speed / 1000;

    player.max_health_points = player.max_health_points + max_health_bonus_upgrade;
    player.base_stats.critical_chance =
        player.base_stats.critical_chance + critical_chance_bonus_upgrade;
    player.base_stats.dodge_chance = player.base_stats.dodge_chance + dodge_chance_bonus_upgrade;
    player.base_stats.restore_chance =
        player.base_stats.restore_chance + restore_chance_bonus_upgrade;
    player.intelligence = player.intelligence + intelligence_bonus_upgrade;
    player.strength = player.strength + strength_bonus_upgrade;
    player.base_stats.speed = player.base_stats.speed + speed_bonus_upgrade;
}

/// The value an optional delta contributes.
fn or_zero(v: Option<i64>) -> (r: i64)
    ensures
        r as int == opt_value(v),
{
    match v {
        Some(x) => x,
        None => 0,
    }
}

/// Applies a drawn effect upgrade: the single entry recorded for the
/// targeted effect — looking it up must succeed, reference data owing the
/// entry — takes the duration delta, floored so the duration never drops
/// below one second, and the algebraic sum of the chance deltas.
pub fn upgrade_effect(upgrade: &Upgrade, player_effects: &mut PlayerEffects)
    requires
        upgrade.effect_upgrade is Some,
        upgrade.effect_upgrade->0.wf(),
        old(player_effects).wf(),
        old(player_effects).has_entry(upgrade.effect_upgrade->0.name),
    ensures
        exists|j: int| {
            &&& #[trigger] is_first_entry(
                old(player_effects).information@,
                upgrade.effect_upgrade->0.name,
                j,
            )
            &&& final(player_effects).information@ == old(player_effects).information@.update(
                j,
                spec_effect_applied_entry(
                    old(player_effects).information@[j],
                    upgrade.effect_upgrade->0,
                ),
            )
            &&& final(player_effects).information@[j].duration >= 1
        },
{
    let effect_upgrade: EffectUpgrade = match upgrade.effect_upgrade {
        Some(eu) => eu,
        None => EffectUpgrade {
            name: EffectType::SpeedUp,
            duration_bonus: None,
            duration_reduce: None,
            speed_percent_bonus: None,
            speed_percent_reduce: None,
            critical_chance_bonus: None,
            dodge_chance_bonus: None,
        },
    };

    let ghost infos = player_effects.information@;
    let mut j: usize = 0;
    while j < player_effects.information.len()
        && player_effects.information[j].name != effect_upgrade.name
        invariant
            player_effects.information@ == infos,
            j <= infos.len(),
            forall|k: int| 0 <= k < j ==> infos[k].name != effect_upgrade.name,
            exists|i: int| 0 <= i < infos.len() && infos[i].name == effect_upgrade.name,
        decreases infos.len() - j,
    {
        j += 1;
    }
    assert(is_first_entry(infos, effect_upgrade.name, j as int));

    let entry: EffectInformation = player_effects.information[j];

    let duration_bonus: i64 = or_zero(effect_upgrade.duration_bonus);
    let duration_reduce: i64 = or_zero(effect_upgrade.duration_reduce);
    let speed_percent_bonus: i64 = or_zero(effect_upgrade.speed_percent_bonus);
    let speed_percent_reduce: i64 = or_zero(effect_upgrade.speed_percent_reduce);
    let critical_chance_bonus: i64 = or_zero(effect_upgrade.critical_chance_bonus);
    let dodge_chance_bonus: i64 = or_zero(effect_upgrade.dodge_chance_bonus);

    let duration_delta: i64 = duration_bonus - duration_reduce;
    let bonus_delta: i64 = speed_percent_bonus - speed_percent_reduce + critical_chance_bonus
        + dodge_chance_bonus;

    let new_duration: i64 = if entry.duration + duration_delta > 0 {
        entry.duration + duration_delta
    } else {
        1
    };
    let updated = EffectInformation {
        name: entry.name,
        duration: new_duration,
        bonus: entry.bonus + bonus_delta,
    };
    player_effects.information[j] = updated;
}

/// Applies a drawn skill upgrade to the equipped skill's parameters; the
/// phase machine's current phase and the kill counter are untouched.
pub fn upgrade_skill(upgrade: &Upgrade, player_skill: &mut PlayerSkill)
    requires
        upgrade.skill_upgrade is Some,
        upgrade.skill_upgrade->0.wf(),
        old(player_skill).wf(),
        skill_upgrade_headroom(old(player_skill).skill),
    ensures
        *final(player_skill) == (PlayerSkill {
            skill: spec_skill_applied(old(player_skill).skill, upgrade.skill_upgrade->0),
            ..*old(player_skill)
        }),
        final(player_skill).wf(),
{
    let skill_upgrade: SkillUpgrade = match upgrade.skill_upgrade {
        Some(su) => su,
        None => SkillUpgrade {
            name: SkillType::Armor,
            duration_bonus: None,
            cooldown_reduce: None,
            require_monsters_reduce: None,
            speed_percent_bonus: None,
            critical_chance_bonus: None,
            restore_chance_bonus: None,
            dodge_chance_bonus: None,
        },
    };

    let duration_bonus: i64 = or_zero(skill_upgrade.duration_bonus);
    let cooldown_reduce: i64 = or_zero(skill_upgrade.cooldown_reduce);
    let require_monsters_reduce: u32 = match skill_upgrade.require_monsters_reduce {
        Some(v) => v,
        None => 0,
    };
    let speed_percent_bonus: i64 = or_zero(skill_upgrade.speed_percent_bonus);
    let critical_chance_bonus: i64 = or_zero(skill_upgrade.critical_chance_bonus);
    let restore_chance_bonus: i64 = or_zero(skill_upgrade.restore_chance_bonus);
    let dodge_chance_bonus: i64 = or_zero(skill_upgrade.dodge_chance_bonus);

    let skill_duration: i64 = or_zero(player_skill.skill.duration);
    let skill_cooldown: i64 = or_zero(player_skill.skill.cooldown);
    let speed_percent: i64 = or_zero(player_skill.skill.speed_percent_bonus);
    let critical_chance: i64 = or_zero(player_skill.skill.critical_chance_bonus);
    let require_monsters: u32 = match player_skill.skill.require_monsters {
        Some(v) => v,
        None => 0,
    };
    let restore_chance: i64 = or_zero(player_skill.skill.restore_chance_bonus);
    let dodge_chance: i64 = or_zero(player_skill.skill.dodge_chance_bonus);

    match player_skill.skill.name {
        SkillType::TimeToHunt => {
            player_skill.skill.duration = Some(skill_duration + duration_bonus);
            player_skill.skill.cooldown = Some(skill_cooldown - cooldown_reduce);
            player_skill.skill.speed_percent_bonus = Some(speed_percent + speed_percent_bonus);
            player_skill.skill.critical_chance_bonus =
                Some(critical_chance + critical_chance_bonus);
        },
        SkillType::Armor => {
            player_skill.skill.require_monsters =
                Some(if require_monsters >= require_monsters_reduce {
                    require_monsters - require_monsters_reduce
                } else {
                    0
                });
        },
        SkillType::Thunderstorm => {
            player_skill.skill.cooldown = Some(skill_cooldown - cooldown_reduce);
        },
        SkillType::AnimalInstinct => {
            player_skill.skill.duration = Some(skill_duration + duration_bonus);
            player_skill.skill.cooldown = Some(skill_cooldown - cooldown_reduce);
            player_skill.skill.speed_percent_bonus = Some(speed_percent + speed_percent_bonus);
            player_skill.skill.critical_chance_bonus =
                Some(critical_chance + critical_chance_bonus);
            player_skill.skill.restore_chance_bonus = Some(restore_chance + restore_chance_bonus);
            player_skill.skill.dodge_chance_bonus = Some(dodge_chance + dodge_chance_bonus);
        },
    }
}

/// Index `j` holds the first weapon row of `class` at `level`.
pub open spec fn is_first_weapon_row(
    rows: Seq<crate::weapon::Weapon>,
    class: HeroClass,
    level: int,
    j: int,
) -> bool {
    &&& 0 <= j < rows.len()
    &&& rows[j].hero_class == class
    &&& rows[j].level == level
    &&& forall|k: int| 0 <= k < j ==> !(rows[k].hero_class == class && rows[k].level == level)
}

/// Advances the equipped weapon to the single next-level row of the class's
/// weapon table, never skipping levels, and installs that row's projectile.
/// A weapon already at the class cap is silently left untouched: the draw
/// step avoids offering it, but the apply step stays defensive.
pub fn upgrade_weapon(
    weapon_component: &mut WeaponComponent,
    bullet_controller: &mut BulletController,
    hero_class: HeroClass,
    data: &Data,
)
    requires
        !at_weapon_level_cap(hero_class, old(weapon_component).level as int) ==> exists|i: int|
            0 <= i < data.weapons@.len()
            && #[trigger] data.weapons@[i].hero_class == hero_class
            && data.weapons@[i].level == old(weapon_component).level + 1,
    ensures
        at_weapon_level_cap(hero_class, old(weapon_component).level as int) ==> {
            &&& *final(weapon_component) == *old(weapon_component)
            &&& *final(bullet_controller) == *old(bullet_controller)
        },
        !at_weapon_level_cap(hero_class, old(weapon_component).level as int) ==> exists|j: int| {
            &&& #[trigger] is_first_weapon_row(
                data.weapons@,
                hero_class,
                old(weapon_component).level + 1,
                j,
            )
            &&& *final(weapon_component) == spec_component_from_row(data.weapons@[j])
            &&& final(bullet_controller).bullet_information == spec_bullet_of_row(data.weapons@[j])
        },
        final(weapon_component).level
            == crate::weapon::upgraded_weapon_level(hero_class, old(weapon_component).level as int),
        old(weapon_component).level <= weapon_level_cap(hero_class)
            ==> final(weapon_component).level <= weapon_level_cap(hero_class),
{
    let weapon_level: u8 = weapon_component.level;
    if weapon_level >= 3 || (weapon_level == 2 && hero_class == HeroClass::Elf) {
        return;
    }
    let weapon_next_level: u8 = weapon_level + 1;

    let ghost rows = data.weapons@;
    let mut j: usize = 0;
    while j < data.weapons.len()
        && !(data.weapons[j].hero_class == hero_class
            && data.weapons[j].level == weapon_next_level)
        invariant
            data.weapons@ == rows,
            j <= rows.len(),
            weapon_next_level == old(weapon_component).level + 1,
            forall|k: int| 0 <= k < j
                ==> !(rows[k].hero_class == hero_class && rows[k].level == weapon_next_level),
            exists|i: int| 0 <= i < rows.len()
                && #[trigger] rows[i].hero_class == hero_class
                && rows[i].level == weapon_next_level,
        decreases rows.len() - j,
    {
        j += 1;
    }
    assert(is_first_weapon_row(rows, hero_class, weapon_next_level as int, j as int));

    let row: crate::weapon::Weapon = data.weapons[j];
    weapon_component.upgrade_weapon(&row);
    bullet_controller.bullet_information = match row.bullet {
        Some(bullet) => bullet,
        None => Bullet::zero(),
    };
}

/// Whether a category may be offered: Weapon drops out once the weapon is
/// at the class cap; the other three are always eligible.
pub open spec fn spec_upgrade_eligible(class: HeroClass, weapon_level: u8, t: UpgradeType) -> bool {
    t == UpgradeType::Weapon ==> !at_weapon_level_cap(class, weapon_level as int)
}

/// No category appears twice.
pub open spec fn spec_distinct_types(s: Seq<UpgradeType>) -> bool {
    forall|i: int, j: int| 0 <= i < j < s.len() ==> s[i] != s[j]
}

/// Removing one element of a duplicate-free pool keeps it duplicate-free,
/// keeps every survivor distinct from the removed element, and keeps every
/// survivor an element of the old pool.
proof fn lemma_pool_remove(s: Seq<UpgradeType>, i: int)
    requires
        0 <= i < s.len(),
        spec_distinct_types(s),
    ensures
        spec_distinct_types(s.remove(i)),
        forall|k: int| 0 <= k < s.remove(i).len() ==> #[trigger] s.remove(i)[k] != s[i],
        forall|k: int| 0 <= k < s.remove(i).len() ==> s.contains(#[trigger] s.remove(i)[k]),
{
    s.remove_ensures(i);
    let t = s.remove(i);
    assert forall|k: int| 0 <= k < t.len() implies #[trigger] t[k] != s[i] && s.contains(t[k]) by {
        if k < i {
            assert(t[k] == s[k]);
        } else {
            assert(t[k] == s[k + 1]);
        }
    }
    assert forall|k1: int, k2: int| 0 <= k1 < k2 < t.len() implies t[k1] != t[k2] by {
        if k2 < i {
            assert(t[k1] == s[k1] && t[k2] == s[k2]);
        } else if k1 < i {
            assert(t[k1] == s[k1] && t[k2] == s[k2 + 1]);
        } else {
            assert(t[k1] == s[k1 + 1] && t[k2] == s[k2 + 1]);
        }
    }
}

/// The reference tables of concrete upgrades, one list per category with a
/// payload; the weapon category needs none.
#[derive(Clone, Debug)]
pub struct UpgradeController {
    pub stats_upgrades: Vec<StatsUpgrade>,
    pub effect_upgrades: Vec<EffectUpgrade>,
    pub skill_upgrades: Vec<SkillUpgrade>,
}

impl UpgradeController {
    /// Offers three distinct categories out of Weapon, Stats, Skill and
    /// Effect, each slot drawn uniformly from the categories still
    /// eligible: no category repeats, and Weapon is never offered once the
    /// player's weapon sits at the class cap.
    pub fn get_three_upgrades(
        &self,
        player: &Player,
        weapon_level: u8,
        rng: &mut RandomSource,
    ) -> (choices: Vec<UpgradeType>)
        ensures
            choices@.len() == 3,
            spec_distinct_types(choices@),
            forall|i: int| 0 <= i < choices@.len()
                ==> spec_upgrade_eligible(player.class, weapon_level, #[trigger] choices@[i]),
    {
        let mut pool: Vec<UpgradeType> = Vec::new();
        pool.push(UpgradeType::Stats);
        pool.push(UpgradeType::Skill);
        pool.push(UpgradeType::Effect);
        if !(weapon_level >= 3 || (weapon_level == 2 && player.class == HeroClass::Elf)) {
            pool.push(UpgradeType::Weapon);
        }
        proof {
            assert(spec_distinct_types(pool@));
            assert(forall|i: int| 0 <= i < pool@.len()
                ==> spec_upgrade_eligible(player.class, weapon_level, #[trigger] pool@[i]));
        }

        let ghost pool0 = pool@;
        let index_one: usize = rng.next_index(pool.len());
        let first = pool.remove(index_one);
        proof {
            lemma_pool_remove(pool0, index_one as int);
        }

        let ghost pool1 = pool@;
        let index_two: usize = rng.next_index(pool.len());
        let second = pool.remove(index_two);
        proof {
            lemma_pool_remove(pool1, index_two as int);
            assert(forall|k: int| 0 <= k < pool@.len() ==> #[trigger] pool@[k] != first);
        }

        let ghost pool2 = pool@;
        let index_three: usize = rng.next_index(pool.len());
        let third = pool.remove(index_three);
        proof {
            lemma_pool_remove(pool2, index_three as int);
        }

        let mut choices: Vec<UpgradeType> = Vec::new();
        choices.push(first);
        choices.push(second);
        choices.push(third);
        choices
    }

    /// Draws one stats upgrade uniformly from the stats table; the table
    /// being empty would be a reference-data violation.
    pub fn get_stats_upgrade(&self, rng: &mut RandomSource) -> (upgrade: Upgrade)
        requires
            self.stats_upgrades@.len() > 0,
        ensures
            upgrade.stats_upgrade is Some,
            self.stats_upgrades@.contains(upgrade.stats_upgrade->0),
            upgrade.effect_upgrade is None,
            upgrade.skill_upgrade is None,
    {
        let index: usize = rng.next_index(self.stats_upgrades.len());
        Upgrade {
            stats_upgrade: Some(self.stats_upgrades[index]),
            effect_upgrade: None,
            skill_upgrade: None,
        }
    }

    /// Draws one effect upgrade uniformly from the effect table; the table
    /// being empty would be a reference-data violation.
    pub fn get_effect_upgrade(&self, rng: &mut RandomSource) -> (upgrade: Upgrade)
        requires
            self.effect_upgrades@.len() > 0,
        ensures
            upgrade.effect_upgrade is Some,
            self.effect_upgrades@.contains(upgrade.effect_upgrade->0),
            upgrade.stats_upgrade is None,
            upgrade.skill_upgrade is None,
    {
        let index: usize = rng.next_index(self.effect_upgrades.len());
        Upgrade {
            stats_upgrade: None,
            effect_upgrade: Some(self.effect_upgrades[index]),
            skill_upgrade: None,
        }
    }

    /// Draws one skill upgrade uniformly from the rows matching the
    /// equipped skill's variant; no matching row would be a reference-data
    /// violation.
    pub fn get_skill_upgrade(&self, skill_type: SkillType, rng: &mut RandomSource) -> (upgrade: Upgrade)
        requires
            exists|i: int| 0 <= i < self.skill_upgrades@.len()
                && #[trigger] self.skill_upgrades@[i].name == skill_type,
        ensures
            upgrade.skill_upgrade is Some,
            self.skill_upgrades@.contains(upgrade.skill_upgrade->0),
            upgrade.skill_upgrade->0.name == skill_type,
            upgrade.stats_upgrade is None,
            upgrade.effect_upgrade is None,
    {
        let mut matching: Vec<SkillUpgrade> = Vec::new();
        let mut k: usize = 0;
        while k < self.skill_upgrades.len()
            invariant
                k <= self.skill_upgrades@.len(),
                forall|i: int| 0 <= i < matching@.len() ==> {
                    &&& self.skill_upgrades@.contains(#[trigger] matching@[i])
                    &&& matching@[i].name == skill_type
                },
                (exists|i: int| 0 <= i < k
                    && #[trigger] self.skill_upgrades@[i].name == skill_type)
                    ==> matching@.len() > 0,
            decreases self.skill_upgrades@.len() - k,
        {
            let row = self.skill_upgrades[k];
            if row.name == skill_type {
                matching.push(row);
            }
            k += 1;
        }
        let index: usize = rng.next_index(matching.len());
        Upgrade {
            stats_upgrade: None,
            effect_upgrade: None,
            skill_upgrade: Some(matching[index]),
        }
    }
}

/// Resolves a chosen reward: draws the concrete upgrade of the chosen
/// category, applies its deltas to the one component the category owns, and
/// moves the wave counter on. Components of the other categories are left
/// untouched.
pub fn resolve_reward(
    upgrade_type: UpgradeType,
    upgrade_controller: &UpgradeController,
    data: &Data,
    rng: &mut RandomSource,
    player: &mut Player,
    player_effects: &mut PlayerEffects,
    player_skill: &mut PlayerSkill,
    weapon_component: &mut WeaponComponent,
    bullet_controller: &mut BulletController,
    wave: &mut crate::dungeon::Wave,
)
    requires
        old(wave).wave_index < u32::MAX,
        upgrade_type == UpgradeType::Weapon
            ==> !at_weapon_level_cap(old(player).class, old(weapon_component).level as int)
                ==> exists|i: int| 0 <= i < data.weapons@.len()
                    && #[trigger] data.weapons@[i].hero_class == old(player).class
                    && data.weapons@[i].level == old(weapon_component).level + 1,
        upgrade_type == UpgradeType::Stats ==> {
            &&& upgrade_controller.stats_upgrades@.len() > 0
            &&& forall|i: int| 0 <= i < upgrade_controller.stats_upgrades@.len()
                ==> (#[trigger] upgrade_controller.stats_upgrades@[i]).wf()
            &&& old(player).wf()
        },
        upgrade_type == UpgradeType::Effect ==> {
            &&& upgrade_controller.effect_upgrades@.len() > 0
            &&& forall|i: int| 0 <= i < upgrade_controller.effect_upgrades@.len()
                ==> (#[trigger] upgrade_controller.effect_upgrades@[i]).wf()
            &&& old(player_effects).wf()
            &&& forall|i: int| 0 <= i < upgrade_controller.effect_upgrades@.len()
                ==> old(player_effects).has_entry(
                    (#[trigger] upgrade_controller.effect_upgrades@[i]).name,
                )
        },
        upgrade_type == UpgradeType::Skill ==> {
            &&& exists|i: int| 0 <= i < upgrade_controller.skill_upgrades@.len()
                && #[trigger] upgrade_controller.skill_upgrades@[i].name
                    == old(player_skill).skill.name
            &&& forall|i: int| 0 <= i < upgrade_controller.skill_upgrades@.len()
                ==> (#[trigger] upgrade_controller.skill_upgrades@[i]).wf()
            &&& old(player_skill).wf()
            &&& skill_upgrade_headroom(old(player_skill).skill)
        },
    ensures
        final(wave).wave_index == old(wave).wave_index + 1,
        upgrade_type != UpgradeType::Weapon ==> {
            &&& *final(weapon_component) == *old(weapon_component)
            &&& *final(bullet_controller) == *old(bullet_controller)
        },
        upgrade_type != UpgradeType::Stats ==> *final(player) == *old(player),
        upgrade_type != UpgradeType::Effect ==> *final(player_effects) == *old(player_effects),
        upgrade_type != UpgradeType::Skill ==> *final(player_skill) == *old(player_skill),
        upgrade_type == UpgradeType::Weapon ==> {
            &&& at_weapon_level_cap(old(player).class, old(weapon_component).level as int) ==> {
                &&& *final(weapon_component) == *old(weapon_component)
                &&& *final(bullet_controller) == *old(bullet_controller)
            }
            &&& !at_weapon_level_cap(old(player).class, old(weapon_component).level as int)
                ==> exists|j: int| {
                    &&& #[trigger] is_first_weapon_row(
                        data.weapons@,
                        old(player).class,
                        old(weapon_component).level + 1,
                        j,
                    )
                    &&& *final(weapon_component) == spec_component_from_row(data.weapons@[j])
                    &&& final(bullet_controller).bullet_information
                        == spec_bullet_of_row(data.weapons@[j])
                }
            &&& old(weapon_component).level <= weapon_level_cap(old(player).class)
                ==> final(weapon_component).level <= weapon_level_cap(old(player).class)
        },
        upgrade_type == UpgradeType::Stats ==> exists|su: StatsUpgrade| {
            &&& upgrade_controller.stats_upgrades@.contains(su)
            &&& *final(player) == spec_stats_applied(*old(player), su)
        },
        upgrade_type == UpgradeType::Effect ==> exists|eu: EffectUpgrade, j: int| {
            &&& upgrade_controller.effect_upgrades@.contains(eu)
            &&& #[trigger] is_first_entry(old(player_effects).information@, eu.name, j)
            &&& final(player_effects).information@ == old(player_effects).information@.update(
                j,
                spec_effect_applied_entry(old(player_effects).information@[j], eu),
            )
            &&& final(player_effects).information@[j].duration >= 1
        },
        upgrade_type == UpgradeType::Skill ==> exists|su: SkillUpgrade| {
            &&& upgrade_controller.skill_upgrades@.contains(su)
            &&& su.name == old(player_skill).skill.name
            &&& *final(player_skill) == (PlayerSkill {
                skill: spec_skill_applied(old(player_skill).skill, su),
                ..*old(player_skill)
            })
        },
{
    match upgrade_type {
        UpgradeType::Weapon => {
            let hero_class = player.class;
            upgrade_weapon(weapon_component, bullet_controller, hero_class, data);
        },
        UpgradeType::Stats => {
            let upgrade = upgrade_controller.get_stats_upgrade(rng);
            upgrade_stats(&upgrade, player);
        },
        UpgradeType::Effect => {
            let upgrade = upgrade_controller.get_effect_upgrade(rng);
            upgrade_effect(&upgrade, player_effects);
        },
        UpgradeType::Skill => {
            let skill_type = player_skill.skill.name;
            let upgrade = upgrade_controller.get_skill_upgrade(skill_type, rng);
            upgrade_skill(&upgrade, player_skill);
        },
    }
    wave.next_wave();
}

} // verus!
