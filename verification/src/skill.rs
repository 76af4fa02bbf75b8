//! The player's single equipped skill and its cooldown/duration lifecycle.

use vstd::prelude::*;
use crate::stats::{stat_in_range, STAT_LIMIT};

verus! {

/// Seconds on the cooldown timer a fresh skill starts with.
pub const INITIAL_COOLDOWN_SECONDS: i64 = 5;

/// The four skill variants; Armor triggers on a kill counter, the other
/// three on elapsed timers.
#[derive(Clone, Copy, Debug, PartialEq, Eq, Structural)]
pub enum SkillType {
    TimeToHunt,
    Armor,
    Thunderstorm,
    AnimalInstinct,
}

/// The equipped skill's parameters. `None` means the field has no meaning
/// for this variant, not zero. Durations and cooldowns are whole seconds;
/// bonuses are thousandths.
#[derive(Clone, Copy, Debug, PartialEq, Eq, Structural)]
pub struct Skill {
    pub name: SkillType,
    pub duration: Option<i64>,
    pub cooldown: Option<i64>,
    pub require_monsters: Option<u32>,
    pub speed_percent_bonus: Option<i64>,
    pub critical_chance_bonus: Option<i64>,
    pub restore_chance_bonus: Option<i64>,
    pub dodge_chance_bonus: Option<i64>,
}

/// The skill's timer value, if the variant has one.
pub open spec fn duration_of(skill: Skill) -> int {
    if skill.duration is Some {
        skill.duration->0 as int
    } else {
        0
    }
}

/// The skill's re-arming delay, if the variant has one.
pub open spec fn cooldown_of(skill: Skill) -> int {
    if skill.cooldown is Some {
        skill.cooldown->0 as int
    } else {
        0
    }
}

/// The kill threshold of the counter-based variant.
pub open spec fn require_monsters_of(skill: Skill) -> int {
    if skill.require_monsters is Some {
        skill.require_monsters->0 as int
    } else {
        0
    }
}

/// The accumulated speed bonus, in thousandths.
pub open spec fn speed_percent_of(skill: Skill) -> int {
    if skill.speed_percent_bonus is Some {
        skill.speed_percent_bonus->0 as int
    } else {
        0
    }
}

/// The accumulated critical-chance bonus, in thousandths.
pub open spec fn critical_chance_of(skill: Skill) -> int {
    if skill.critical_chance_bonus is Some {
        skill.critical_chance_bonus->0 as int
    } else {
        0
    }
}

/// The accumulated restore-chance bonus, in thousandths.
pub open spec fn restore_chance_of(skill: Skill) -> int {
    if skill.restore_chance_bonus is Some {
        skill.restore_chance_bonus->0 as int
    } else {
        0
    }
}

/// The accumulated dodge-chance bonus, in thousandths.
pub open spec fn dodge_chance_of(skill: Skill) -> int {
    if skill.dodge_chance_bonus is Some {
        skill.dodge_chance_bonus->0 as int
    } else {
        0
    }
}

impl Skill {
    /// All fields sit inside the arithmetic bounds the upgrade formulas
    /// rely on. The duration never goes negative; the cooldown may, when
    /// upgrades reduce it past zero, and then means no delay at all.
    pub open spec fn wf(self) -> bool {
        &&& (self.duration is Some ==> 0 <= self.duration->0 <= STAT_LIMIT)
        &&& (self.cooldown is Some ==> stat_in_range(self.cooldown->0))
        &&& (self.speed_percent_bonus is Some ==> stat_in_range(self.speed_percent_bonus->0))
        &&& (self.critical_chance_bonus is Some ==> stat_in_range(self.critical_chance_bonus->0))
        &&& (self.restore_chance_bonus is Some ==> stat_in_range(self.restore_chance_bonus->0))
        &&& (self.dodge_chance_bonus is Some ==> stat_in_range(self.dodge_chance_bonus->0))
    }
}

/// Where the skill stands in its lifecycle. Exactly one timer is meaningful
/// per phase: the duration while `Active`, the cooldown while `Armed`.
#[derive(Clone, Copy, Debug, PartialEq, Eq, Structural)]
pub enum SkillPhase {
    Idle,
    Armed { cooldown_left: i64 },
    Active { duration_left: i64 },
}

/// The phase entered when a skill ends or fires: cooling down for
/// `cooldown` seconds, or straight back to idle when there is no delay.
pub open spec fn spec_armed(cooldown: int) -> SkillPhase {
    if cooldown >= 1 {
        SkillPhase::Armed { cooldown_left: cooldown as i64 }
    } else {
        SkillPhase::Idle
    }
}

/// The equipped skill plus its live timers and kill counter.
#[derive(Clone, Copy, Debug, PartialEq, Eq, Structural)]
pub struct PlayerSkill {
    pub skill: Skill,
    pub monster_counter: u32,
    pub phase: SkillPhase,
}

/// One simulation step of the phase machine: the running timer loses one
/// second; a duration that ends re-arms the cooldown; an idle skill waits.
pub open spec fn spec_tick(player_skill: PlayerSkill) -> PlayerSkill {
    let next_phase = match player_skill.phase {
        SkillPhase::Idle => SkillPhase::Idle,
        SkillPhase::Armed { cooldown_left } => {
            if cooldown_left <= 1 {
                SkillPhase::Idle
            } else {
                SkillPhase::Armed { cooldown_left: (cooldown_left - 1) as i64 }
            }
        },
        SkillPhase::Active { duration_left } => {
            if duration_left <= 1 {
                spec_armed(cooldown_of(player_skill.skill))
            } else {
                SkillPhase::Active { duration_left: (duration_left - 1) as i64 }
            }
        },
    };
    PlayerSkill { phase: next_phase, ..player_skill }
}

impl PlayerSkill {
    /// A live timer always has at least one second left.
    pub open spec fn phase_wf(self) -> bool {
        match self.phase {
            SkillPhase::Idle => true,
            SkillPhase::Armed { cooldown_left } => 1 <= cooldown_left <= STAT_LIMIT,
            SkillPhase::Active { duration_left } => 1 <= duration_left <= STAT_LIMIT,
        }
    }

    pub open spec fn wf(self) -> bool {
        self.skill.wf() && self.phase_wf()
    }

    /// Equips a skill: no kills counted yet, and the skill must first sit
    /// out its initial cooldown before it can trigger.
    pub fn new(skill: Skill) -> (player_skill: PlayerSkill)
        requires
            skill.wf(),
        ensures
            player_skill == (PlayerSkill {
                skill,
                monster_counter: 0,
                phase: SkillPhase::Armed { cooldown_left: INITIAL_COOLDOWN_SECONDS },
            }),
            player_skill.wf(),
    {
        PlayerSkill {
            skill,
            monster_counter: 0,
            phase: SkillPhase::Armed { cooldown_left: INITIAL_COOLDOWN_SECONDS },
        }
    }

    /// Advances whichever single timer the current phase runs by one second.
    pub fn tick(&mut self)
        requires
            old(self).wf(),
        ensures
            *final(self) == spec_tick(*old(self)),
            final(self).wf(),
    {
        match self.phase {
            SkillPhase::Idle => {},
            SkillPhase::Armed { cooldown_left } => {
                if cooldown_left <= 1 {
                    self.phase = SkillPhase::Idle;
                } else {
                    self.phase = SkillPhase::Armed { cooldown_left: cooldown_left - 1 };
                }
            },
            SkillPhase::Active { duration_left } => {
                if duration_left <= 1 {
                    self.phase = Self::armed_phase(&self.skill);
                } else {
                    self.phase = SkillPhase::Active { duration_left: duration_left - 1 };
                }
            },
        }
    }

    /// Grants an activation request for a timer-based skill: only an idle
    /// skill (its cooldown has elapsed) that is not the counter-based Armor
    /// variant starts running its duration.
    pub fn try_activate(&mut self) -> (activated: bool)
        requires
            old(self).wf(),
        ensures
            activated == (old(self).phase is Idle && old(self).skill.name != SkillType::Armor),
            activated ==> *final(self) == (PlayerSkill {
                phase: if duration_of(old(self).skill) >= 1 {
                    SkillPhase::Active { duration_left: duration_of(old(self).skill) as i64 }
                } else {
                    spec_armed(cooldown_of(old(self).skill))
                },
                ..*old(self)
            }),
            !activated ==> *final(self) == *old(self),
            final(self).wf(),
    {
        match self.phase {
            SkillPhase::Idle => {
                if !matches!(self.skill.name, SkillType::Armor) {
                    let duration: i64 = match self.skill.duration {
                        Some(d) => d,
                        None => 0,
                    };
                    if duration >= 1 {
                        self.phase = SkillPhase::Active { duration_left: duration };
                    } else {
                        self.phase = Self::armed_phase(&self.skill);
                    }
                    true
                } else {
                    false
                }
            },
            _ => false,
        }
    }

    /// Counts a monster kill towards the Armor trigger; other variants
    /// ignore kills. The counter saturates rather than wrapping.
    pub fn add_monster_kill(&mut self)
        ensures
            *final(self) == (PlayerSkill {
                monster_counter: if old(self).skill.name == SkillType::Armor
                    && old(self).monster_counter < u32::MAX {
                    (old(self).monster_counter + 1) as u32
                } else {
                    old(self).monster_counter
                },
                ..*old(self)
            }),
    {
        if matches!(self.skill.name, SkillType::Armor) && self.monster_counter < u32::MAX {
            self.monster_counter = self.monster_counter + 1;
        }
    }

    /// Fires the counter-based Armor skill: an idle Armor skill whose kill
    /// counter has reached the threshold fires an instantaneous effect,
    /// resets the counter and re-arms its cooldown.
    pub fn try_armor_trigger(&mut self) -> (fired: bool)
        requires
            old(self).wf(),
        ensures
            fired == (old(self).skill.name == SkillType::Armor
                && old(self).phase is Idle
                && old(self).monster_counter >= require_monsters_of(old(self).skill)),
            fired ==> *final(self) == (PlayerSkill {
                monster_counter: 0,
                phase: spec_armed(cooldown_of(old(self).skill)),
                ..*old(self)
            }),
            !fired ==> *final(self) == *old(self),
            final(self).wf(),
    {
        let threshold: u32 = match self.skill.require_monsters {
            Some(n) => n,
            None => 0,
        };
        if matches!(self.skill.name, SkillType::Armor)
            && matches!(self.phase, SkillPhase::Idle)
            && self.monster_counter >= threshold
        {
            self.monster_counter = 0;
            self.phase = Self::armed_phase(&self.skill);
            true
        } else {
            false
        }
    }

    /// The phase after a duration ends or a trigger fires.
    fn armed_phase(skill: &Skill) -> (phase: SkillPhase)
        requires
            skill.wf(),
        ensures
            phase == spec_armed(cooldown_of(*skill)),
    {
        let cooldown: i64 = match skill.cooldown {
            Some(c) => c,
            None => 0,
        };
        if cooldown >= 1 {
            SkillPhase::Armed { cooldown_left: cooldown }
        } else {
            SkillPhase::Idle
        }
    }
}

} // verus!
