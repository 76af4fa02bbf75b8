//! Monster spawn accounting: a per-room quota and a concurrency cap.

use vstd::prelude::*;
use crate::game_mode::GameMode;

verus! {

/// Monsters owed at the start of a classic-mode room on the given floor:
/// a fixed per-floor quota that grows with the floor index.
pub open spec fn spec_classic_quota(floor_index: int) -> int {
    10 + 2 * floor_index
}

/// Monsters owed by a survival-mode wave: an ever-increasing quota.
pub open spec fn spec_survival_quota(wave_index: int) -> int {
    10 + 5 * wave_index
}

/// Tracks how many monsters may still spawn in the current room or wave.
///
/// `max_available_monsters` caps how many are alive at once, independently of
/// how many the quota still owes; `required_monsters` only decreases, one per
/// issued spawn.
#[derive(Clone, Copy, Debug, PartialEq, Eq, Structural)]
pub struct MonsterSpawnController {
    pub game_mode: GameMode,
    pub max_available_monsters: u32,
    pub required_monsters: u32,
    pub alive_monsters: u32,
}

impl MonsterSpawnController {
    /// The live count never exceeds the concurrency cap.
    pub open spec fn wf(self) -> bool {
        self.alive_monsters <= self.max_available_monsters
    }

    /// The quota owed when a room or wave starts, saturated at the counter's
    /// range: the per-floor formula in classic mode, the per-wave formula in
    /// survival mode.
    pub open spec fn spec_quota(mode: GameMode, index: int) -> int {
        let owed = match mode {
            GameMode::ClassicMode => spec_classic_quota(index),
            GameMode::SurvivalMode => spec_survival_quota(index),
        };
        if owed > u32::MAX {
            u32::MAX as int
        } else {
            owed
        }
    }

    /// Starts a fresh controller for a mode, owing nothing yet.
    pub fn new(game_mode: GameMode, max_available_monsters: u32) -> (controller: MonsterSpawnController)
        ensures
            controller == (MonsterSpawnController {
                game_mode,
                max_available_monsters,
                required_monsters: 0,
                alive_monsters: 0,
            }),
            controller.wf(),
    {
        MonsterSpawnController {
            game_mode,
            max_available_monsters,
            required_monsters: 0,
            alive_monsters: 0,
        }
    }

    /// Refills the quota for a new room (classic: `index` is the floor) or
    /// wave (survival: `index` is the wave counter). The live count carries
    /// over; the cap and mode never change.
    pub fn start_room(&mut self, index: u32)
        requires
            old(self).wf(),
        ensures
            *final(self) == (MonsterSpawnController {
                required_monsters: final(self).required_monsters,
                ..*old(self)
            }),
            final(self).required_monsters
                == Self::spec_quota(old(self).game_mode, index as int),
            final(self).wf(),
    {
        let owed: u64 = match self.game_mode {
            GameMode::ClassicMode => 10u64 + 2u64 * (index as u64),
            GameMode::SurvivalMode => 10u64 + 5u64 * (index as u64),
        };
        self.required_monsters = if owed > u32::MAX as u64 {
            u32::MAX
        } else {
            owed as u32
        };
    }

    /// Issues one spawn when the quota still owes monsters and the cap has
    /// room: then one more is alive and one fewer is owed. Otherwise nothing
    /// changes and no spawn is issued.
    pub fn try_spawn(&mut self) -> (spawned: bool)
        requires
            old(self).wf(),
        ensures
            spawned == (old(self).alive_monsters < old(self).max_available_monsters
                && old(self).required_monsters > 0),
            *final(self) == spec_try_spawn(*old(self)),
            spawned ==> *final(self) == (MonsterSpawnController {
                alive_monsters: (old(self).alive_monsters + 1) as u32,
                required_monsters: (old(self).required_monsters - 1) as u32,
                ..*old(self)
            }),
            !spawned ==> *final(self) == *old(self),
            final(self).wf(),
    {
        if self.alive_monsters < self.max_available_monsters && self.required_monsters > 0 {
            self.alive_monsters = self.alive_monsters + 1;
            self.required_monsters = self.required_monsters - 1;
            true
        } else {
            false
        }
    }

    /// Records a monster death; the live count floors at zero.
    pub fn on_monster_killed(&mut self)
        requires
            old(self).wf(),
        ensures
            *final(self) == spec_on_monster_killed(*old(self)),
            *final(self) == (MonsterSpawnController {
                alive_monsters: if old(self).alive_monsters > 0 {
                    (old(self).alive_monsters - 1) as u32
                } else {
                    0
                },
                ..*old(self)
            }),
            final(self).wf(),
    {
        if self.alive_monsters > 0 {
            self.alive_monsters = self.alive_monsters - 1;
        }
    }

    /// The room or wave counts as cleared exactly when nothing is owed and
    /// nothing is alive.
    pub fn is_cleared(&self) -> (cleared: bool)
        ensures
            cleared == (self.required_monsters == 0 && self.alive_monsters == 0),
    {
        self.required_monsters == 0 && self.alive_monsters == 0
    }
}

/// What one spawn attempt leaves behind: the transition `try_spawn` takes.
pub open spec fn spec_try_spawn(c: MonsterSpawnController) -> MonsterSpawnController {
    if c.alive_monsters < c.max_available_monsters && c.required_monsters > 0 {
        MonsterSpawnController {
            alive_monsters: (c.alive_monsters + 1) as u32,
            required_monsters: (c.required_monsters - 1) as u32,
            ..c
        }
    } else {
        c
    }
}

/// What one monster death leaves behind: the transition `on_monster_killed`
/// takes.
pub open spec fn spec_on_monster_killed(c: MonsterSpawnController) -> MonsterSpawnController {
    MonsterSpawnController {
        alive_monsters: if c.alive_monsters > 0 {
            (c.alive_monsters - 1) as u32
        } else {
            0
        },
        ..c
    }
}

/// One event of the spawn accounting: a spawn attempt or a monster death.
#[derive(Clone, Copy, Debug, PartialEq, Eq, Structural)]
pub enum SpawnEvent {
    Spawn,
    Kill,
}

/// The controller after a sequence of spawn attempts and monster deaths.
pub open spec fn spec_after_spawn_events(
    c: MonsterSpawnController,
    events: Seq<SpawnEvent>,
) -> MonsterSpawnController
    decreases events.len(),
{
    if events.len() == 0 {
        c
    } else {
        let previous = spec_after_spawn_events(c, events.drop_last());
        match events.last() {
            SpawnEvent::Spawn => spec_try_spawn(previous),
            SpawnEvent::Kill => spec_on_monster_killed(previous),
        }
    }
}

/// For all spawn sequences: however spawn attempts and monster deaths
/// interleave, the live count never exceeds the cap.
pub proof fn lemma_spawn_cap_holds_for_all_sequences(
    c: MonsterSpawnController,
    events: Seq<SpawnEvent>,
)
    requires
        c.wf(),
    ensures
        spec_after_spawn_events(c, events).wf(),
    decreases events.len(),
{
    if events.len() > 0 {
        lemma_spawn_cap_holds_for_all_sequences(c, events.drop_last());
    }
}

} // verus!
