//! Base stats per hero class and the player's mutable run state.

use vstd::prelude::*;
use crate::hero_class::HeroClass;

verus! {

/// Bound on every stored stat value, in thousandths of a unit. The upgrade
/// formulas below stay free of overflow as long as stats respect this bound
/// and upgrade deltas respect `UPGRADE_LIMIT`.
pub const STAT_LIMIT: i64 = 1_000_000_000_000;

/// Bound on a single upgrade delta or percentage, in thousandths.
pub const UPGRADE_LIMIT: i64 = 1_000_000;

pub open spec fn stat_in_range(v: i64) -> bool {
    -STAT_LIMIT <= v <= STAT_LIMIT
}

pub open spec fn delta_in_range(v: i64) -> bool {
    -UPGRADE_LIMIT <= v <= UPGRADE_LIMIT
}

/// Immutable per-class reference data, in thousandths of a unit; chance
/// fields are fractions of one, so `50` stands for a five percent chance.
#[derive(Clone, Copy, Debug, PartialEq, Eq, Structural)]
pub struct BaseStats {
    pub health: i64,
    pub damage: i64,
    pub speed: i64,
    pub strength: i64,
    pub intelligence: i64,
    pub critical_chance: i64,
    pub dodge_chance: i64,
    pub restore_chance: i64,
}

impl BaseStats {
    pub open spec fn wf(self) -> bool {
        &&& 0 <= self.health <= STAT_LIMIT
        &&& 0 <= self.damage <= STAT_LIMIT
        &&& 0 <= self.speed <= STAT_LIMIT
        &&& 0 <= self.strength <= STAT_LIMIT
        &&& 0 <= self.intelligence <= STAT_LIMIT
        &&& stat_in_range(self.critical_chance)
        &&& stat_in_range(self.dodge_chance)
        &&& stat_in_range(self.restore_chance)
    }
}

/// The player's run state: health plus the stats that upgrades accumulate
/// into, layered over the class's base stats.
#[derive(Clone, Copy, Debug, PartialEq, Eq, Structural)]
pub struct Player {
    pub class: HeroClass,
    pub current_health_points: i64,
    pub max_health_points: i64,
    pub strength: i64,
    pub intelligence: i64,
    pub base_stats: BaseStats,
}

impl Player {
    /// Health stays clamped between zero and the maximum.
    pub open spec fn health_wf(self) -> bool {
        0 <= self.current_health_points <= self.max_health_points
    }

    /// Health is clamped and every stat sits inside the arithmetic bounds
    /// the upgrade formulas rely on.
    pub open spec fn wf(self) -> bool {
        &&& self.health_wf()
        &&& self.max_health_points <= STAT_LIMIT
        &&& 0 <= self.strength <= STAT_LIMIT
        &&& 0 <= self.intelligence <= STAT_LIMIT
        &&& self.base_stats.wf()
    }

    /// Starts a run from the class's base stats, at full health.
    pub fn new(class: HeroClass, base_stats: BaseStats) -> (player: Player)
        requires
            base_stats.wf(),
        ensures
            player.class == class,
            player.base_stats == base_stats,
            player.current_health_points == base_stats.health,
            player.max_health_points == base_stats.health,
            player.strength == base_stats.strength,
            player.intelligence == base_stats.intelligence,
            player.wf(),
    {
        Player {
            class,
            current_health_points: base_stats.health,
            max_health_points: base_stats.health,
            strength: base_stats.strength,
            intelligence: base_stats.intelligence,
            base_stats,
        }
    }

    /// Applies a damage event; health floors at zero rather than erroring.
    pub fn take_damage(&mut self, damage: i64)
        requires
            damage >= 0,
            old(self).health_wf(),
        ensures
            final(self).current_health_points == if old(self).current_health_points - damage >= 0 {
                old(self).current_health_points - damage
            } else {
                0
            },
            *final(self) == (Player {
                current_health_points: final(self).current_health_points,
                ..*old(self)
            }),
            final(self).health_wf(),
    {
        if damage <= self.current_health_points {
            self.current_health_points = self.current_health_points - damage;
        } else {
            self.current_health_points = 0;
        }
    }
}

} // verus!
