//! Wiring of one run: the initial resources of classic mode and the
//! cross-component events a simulation step raises.

use vstd::prelude::*;
use crate::dungeon::{Dungeon, PlayerDungeonStats};
use crate::game_mode::GameMode;
use crate::profile::Profile;
use crate::skill::{PlayerSkill, SkillType};
use crate::spawn::MonsterSpawnController;

verus! {

/// Monsters allowed alive at once in classic mode, regardless of the quota.
pub const CLASSIC_MAX_AVAILABLE_MONSTERS: u32 = 6;

/// Builds the resources a classic-mode run starts from: the first floor's
/// dungeon with the player at its entry room, the mirrored progression
/// facts (the entry room counts as already cleared), and a spawn
/// controller that owes nothing yet under the classic cap.
pub fn initiate_classic_mode() -> (resources: (Dungeon, PlayerDungeonStats, MonsterSpawnController))
    ensures
        resources.0.wf(),
        resources.0.current_floor_index == 0,
        resources.0.current_floor.current_position
            == resources.0.current_floor.spec_entry_room(),
        resources.0.current_floor.cleared_set() == Set::<int>::empty(),
        resources.1 == (PlayerDungeonStats {
            current_room_position: resources.0.current_floor.current_position,
            is_room_cleared: true,
            current_floor_index: 0,
        }),
        resources.2 == (MonsterSpawnController {
            game_mode: GameMode::ClassicMode,
            max_available_monsters: CLASSIC_MAX_AVAILABLE_MONSTERS,
            required_monsters: 0,
            alive_monsters: 0,
        }),
        resources.2.wf(),
{
    let dungeon = Dungeon::new();
    let player_dungeon_stats = PlayerDungeonStats {
        current_room_position: dungeon.current_floor.current_position,
        is_room_cleared: true,
        current_floor_index: 0,
    };
    let monster_spawn_controller = MonsterSpawnController::new(
        GameMode::ClassicMode,
        CLASSIC_MAX_AVAILABLE_MONSTERS,
    );
    (dungeon, player_dungeon_stats, monster_spawn_controller)
}

/// Clears the room the player stands in: the room joins the floor's
/// cleared set and the mirrored room-cleared flag is raised.
pub fn unlock_current_room(dungeon: &mut Dungeon, stats: &mut PlayerDungeonStats)
    requires
        old(dungeon).wf(),
    ensures
        final(dungeon).current_floor.cleared_set() == old(dungeon).current_floor.cleared_set()
            .insert(old(dungeon).current_floor.current_position as int),
        final(dungeon).current_floor.current_position
            == old(dungeon).current_floor.current_position,
        final(dungeon).current_floor_index == old(dungeon).current_floor_index,
        final(dungeon).wf(),
        *final(stats) == (PlayerDungeonStats { is_room_cleared: true, ..*old(stats) }),
{
    dungeon.mark_current_room_cleared();
    stats.is_room_cleared = true;
}

/// Records one monster death everywhere it counts: the spawn controller's
/// live count drops (floored at zero), the run's kill tally grows
/// (saturating at its range), and the equipped skill counts the kill
/// towards its Armor trigger.
pub fn record_monster_kill(
    spawn: &mut MonsterSpawnController,
    profile: &mut Profile,
    player_skill: &mut PlayerSkill,
)
    requires
        old(spawn).wf(),
    ensures
        *final(spawn) == (MonsterSpawnController {
            alive_monsters: if old(spawn).alive_monsters > 0 {
                (old(spawn).alive_monsters - 1) as u32
            } else {
                0
            },
            ..*old(spawn)
        }),
        final(spawn).wf(),
        *final(profile) == (Profile {
            total_killed_monsters: if old(profile).total_killed_monsters < usize::MAX {
                (old(profile).total_killed_monsters + 1) as usize
            } else {
                old(profile).total_killed_monsters
            },
            ..*old(profile)
        }),
        *final(player_skill) == (PlayerSkill {
            monster_counter: if old(player_skill).skill.name == SkillType::Armor
                && old(player_skill).monster_counter < u32::MAX {
                (old(player_skill).monster_counter + 1) as u32
            } else {
                old(player_skill).monster_counter
            },
            ..*old(player_skill)
        }),
{
    spawn.on_monster_killed();
    if profile.total_killed_monsters < usize::MAX {
        profile.total_killed_monsters = profile.total_killed_monsters + 1;
    }
    player_skill.add_monster_kill();
}

} // verus!
