//! Core logic of a roguelike dungeon run: floor-by-floor room progression,
//! monster wave spawning held under population caps, a cooldown/duration skill
//! state machine, and a randomized post-wave upgrade mechanism that mutates
//! the player's weapon, stats, effect bonuses, or skill.
//!
//! Fractional quantities (stats, chances, percentages) are carried as signed
//! integers counting thousandths of a unit, so `1000` stands for `1.0`.
//! Rendering, input, audio and asset loading are collaborators outside this
//! crate: they hand plain values in and read plain values back.

pub mod data;
pub mod dungeon;
pub mod effect;
pub mod game_mode;
pub mod hero_class;
pub mod language;
pub mod monster;
pub mod profile;
pub mod random;
pub mod run;
pub mod skill;
pub mod spawn;
pub mod stats;
pub mod upgrade;
pub mod weapon;
