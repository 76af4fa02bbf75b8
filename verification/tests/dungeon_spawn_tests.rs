use dungeon_core::dungeon::{Dungeon, DungeonError, Floor, Wave};
use dungeon_core::game_mode::GameMode;
use dungeon_core::spawn::MonsterSpawnController;

fn cleared_count(floor: &Floor) -> usize {
    floor.cleared.iter().filter(|c| **c).count()
}

#[test]
fn first_floor_layout() {
    let dungeon = Dungeon::new();
    assert_eq!(dungeon.current_floor_index, 0);
    assert_eq!(dungeon.current_floor.columns, 3);
    assert_eq!(dungeon.current_floor.rows, 3);
    assert_eq!(dungeon.current_floor.cleared.len(), 9);
    assert_eq!(dungeon.current_floor.current_position, 0);
    assert_eq!(cleared_count(&dungeon.current_floor), 0);
}

#[test]
fn mark_current_room_cleared_is_idempotent() {
    let mut dungeon = Dungeon::new();
    dungeon.mark_current_room_cleared();
    let after_once = cleared_count(&dungeon.current_floor);
    assert_eq!(after_once, 1);
    dungeon.mark_current_room_cleared();
    let after_twice = cleared_count(&dungeon.current_floor);
    assert_eq!(after_once, after_twice);
    assert!(dungeon.current_floor.cleared[0]);
}

#[test]
fn move_to_adjacent_room_succeeds() {
    let mut dungeon = Dungeon::new();
    // On a 3x3 grid, room 1 shares an edge with the entry room 0.
    assert_eq!(dungeon.move_to(1), Ok(()));
    assert_eq!(dungeon.current_floor.current_position, 1);
    // Down one row from room 1 is room 4.
    assert_eq!(dungeon.move_to(4), Ok(()));
    assert_eq!(dungeon.current_floor.current_position, 4);
}

#[test]
fn move_to_non_adjacent_room_is_invalid_transition() {
    let mut dungeon = Dungeon::new();
    assert_eq!(dungeon.move_to(4), Err(DungeonError::InvalidTransition));
    assert_eq!(dungeon.move_to(8), Err(DungeonError::InvalidTransition));
    // Row wrap: room 2 ends the first row, room 3 starts the second; their
    // indices differ by one but they share no edge.
    assert_eq!(dungeon.move_to(2), Err(DungeonError::InvalidTransition));
    assert_eq!(dungeon.current_floor.current_position, 0);
    // Out of the grid entirely.
    assert_eq!(dungeon.move_to(9), Err(DungeonError::InvalidTransition));
}

#[test]
fn advance_floor_requires_cleared_end_room() {
    let mut dungeon = Dungeon::new();
    assert_eq!(dungeon.advance_floor(), Err(DungeonError::FloorNotCleared));
    assert_eq!(dungeon.current_floor_index, 0);

    // Walk the grid to the end room, clearing it, then advance.
    for room in [1, 2, 5, 8] {
        dungeon.move_to(room).expect("adjacent step");
    }
    dungeon.mark_current_room_cleared();
    assert_eq!(dungeon.advance_floor(), Ok(()));
    assert_eq!(dungeon.current_floor_index, 1);
    // The next floor grows by one column and starts afresh.
    assert_eq!(dungeon.current_floor.columns, 4);
    assert_eq!(dungeon.current_floor.current_position, 0);
    assert_eq!(cleared_count(&dungeon.current_floor), 0);
}

#[test]
fn floor_growth_caps() {
    let floor = Floor::new(30);
    assert_eq!(floor.columns, 15);
    assert_eq!(floor.rows, 3);
    assert_eq!(floor.cleared.len(), 45);
}

#[test]
fn spawn_cap_holds_through_any_sequence() {
    let mut controller = MonsterSpawnController {
        game_mode: GameMode::ClassicMode,
        max_available_monsters: 3,
        required_monsters: 20,
        alive_monsters: 0,
    };
    // Interleave spawns and kills; the cap must hold after every call.
    for step in 0..200u32 {
        if step % 5 == 4 {
            controller.on_monster_killed();
        } else {
            controller.try_spawn();
        }
        assert!(controller.alive_monsters <= controller.max_available_monsters);
    }
}

#[test]
fn spawn_denied_at_cap_and_at_exhausted_quota() {
    let mut controller = MonsterSpawnController {
        game_mode: GameMode::ClassicMode,
        max_available_monsters: 2,
        required_monsters: 3,
        alive_monsters: 0,
    };
    assert!(controller.try_spawn());
    assert!(controller.try_spawn());
    // Cap reached: denied even though one monster is still owed.
    assert!(!controller.try_spawn());
    controller.on_monster_killed();
    assert!(controller.try_spawn());
    assert_eq!(controller.required_monsters, 0);
    // Quota exhausted: denied even though the cap has room.
    controller.on_monster_killed();
    assert!(!controller.try_spawn());
}

#[test]
fn kill_count_floors_at_zero() {
    let mut controller = MonsterSpawnController::new(GameMode::ClassicMode, 6);
    controller.on_monster_killed();
    assert_eq!(controller.alive_monsters, 0);
}

#[test]
fn classic_room_of_ten_clears_after_tenth_kill() {
    let mut controller = MonsterSpawnController {
        game_mode: GameMode::ClassicMode,
        max_available_monsters: 6,
        required_monsters: 10,
        alive_monsters: 0,
    };
    // One monster at a time: spawn it, kill it.
    for kill in 1..=9u32 {
        assert!(controller.try_spawn());
        controller.on_monster_killed();
        assert!(controller.alive_monsters <= 6);
        if kill == 9 {
            assert_eq!(controller.required_monsters, 1);
        }
        assert!(!controller.is_cleared());
    }
    assert!(controller.try_spawn());
    assert!(!controller.is_cleared());
    controller.on_monster_killed();
    assert!(controller.is_cleared());
}

#[test]
fn quota_formulas() {
    let mut classic = MonsterSpawnController::new(GameMode::ClassicMode, 6);
    classic.start_room(0);
    assert_eq!(classic.required_monsters, 10);
    classic.start_room(3);
    assert_eq!(classic.required_monsters, 16);

    let mut survival = MonsterSpawnController::new(GameMode::SurvivalMode, 6);
    survival.start_room(0);
    assert_eq!(survival.required_monsters, 10);
    survival.start_room(4);
    assert_eq!(survival.required_monsters, 30);
}

#[test]
fn wave_counter_advances() {
    let mut wave = Wave::new();
    assert_eq!(wave.wave_index, 0);
    wave.next_wave();
    wave.next_wave();
    assert_eq!(wave.wave_index, 2);
}
