//! Floor-by-floor room progression: a room grid per floor, the player's
//! position, the cleared set, and the step to the next floor.

use vstd::prelude::*;

verus! {

/// Grid rows of every floor.
pub const FLOOR_ROWS: usize = 3;

/// Grid columns of the first floor; later floors grow wider.
pub const FLOOR_BASE_COLUMNS: usize = 3;

/// How many columns deep floors stop growing.
pub const FLOOR_MAX_EXTRA_COLUMNS: usize = 12;

/// Recoverable failures of the tracker: the caller retries with a valid
/// target room, or finishes clearing the floor first.
#[derive(Clone, Copy, Debug, PartialEq, Eq, Structural)]
pub enum DungeonError {
    InvalidTransition,
    FloorNotCleared,
}

/// One floor: rooms on a grid, identified by index; moving is allowed
/// between edge-sharing rooms. Entry is the first room, exit the last.
/// A room once cleared stays cleared until the floor is discarded.
#[derive(Clone, Debug)]
pub struct Floor {
    pub columns: usize,
    pub rows: usize,
    pub current_position: usize,
    pub cleared: Vec<bool>,
}

/// Grid width of the floor with this index: difficulty scales by adding
/// columns until the growth cap.
pub open spec fn spec_floor_columns(floor_index: int) -> int {
    FLOOR_BASE_COLUMNS + if floor_index < FLOOR_MAX_EXTRA_COLUMNS {
        floor_index
    } else {
        FLOOR_MAX_EXTRA_COLUMNS as int
    }
}

impl Floor {
    pub open spec fn room_count(self) -> int {
        self.cleared@.len() as int
    }

    pub open spec fn wf(self) -> bool {
        &&& 1 <= self.columns <= 100
        &&& 1 <= self.rows <= 100
        &&& self.cleared@.len() == self.columns * self.rows
        &&& self.current_position < self.cleared@.len()
    }

    /// The identifiers of the rooms cleared so far.
    pub open spec fn cleared_set(self) -> Set<int> {
        Set::new(|i: int| 0 <= i < self.cleared@.len() && self.cleared@[i])
    }

    pub open spec fn room_row(self, room: int) -> int {
        room / self.columns as int
    }

    pub open spec fn room_column(self, room: int) -> int {
        room % self.columns as int
    }

    /// Rooms sharing a grid edge: one step along a row or a column.
    pub open spec fn spec_adjacent(self, a: int, b: int) -> bool {
        &&& 0 <= a < self.room_count()
        &&& 0 <= b < self.room_count()
        &&& {
            ||| (self.room_row(a) == self.room_row(b)
                && (self.room_column(a) - self.room_column(b) == 1
                    || self.room_column(b) - self.room_column(a) == 1))
            ||| (self.room_column(a) == self.room_column(b)
                && (self.room_row(a) - self.room_row(b) == 1
                    || self.room_row(b) - self.room_row(a) == 1))
        }
    }

    /// The designated entry room.
    pub open spec fn spec_entry_room(self) -> int {
        0
    }

    /// The exit room whose clearing unlocks the next floor.
    pub open spec fn spec_end_room(self) -> int {
        self.room_count() - 1
    }

    /// Builds the floor grid for `floor_index`: wider with depth, nothing
    /// cleared, the player at the entry room.
    pub fn new(floor_index: usize) -> (floor: Floor)
        ensures
            floor.wf(),
            floor.columns == spec_floor_columns(floor_index as int),
            floor.rows == FLOOR_ROWS,
            floor.current_position == floor.spec_entry_room(),
            floor.cleared_set() == Set::<int>::empty(),
    {
        let extra: usize = if floor_index < FLOOR_MAX_EXTRA_COLUMNS {
            floor_index
        } else {
            FLOOR_MAX_EXTRA_COLUMNS
        };
        let columns: usize = FLOOR_BASE_COLUMNS + extra;
        let rooms: usize = columns * FLOOR_ROWS;
        let mut cleared: Vec<bool> = Vec::new();
        let mut k: usize = 0;
        while k < rooms
            invariant
                k <= rooms,
                cleared@.len() == k,
                forall|i: int| 0 <= i < k ==> !cleared@[i],
            decreases rooms - k,
        {
            cleared.push(false);
            k += 1;
        }
        let floor = Floor {
            columns,
            rows: FLOOR_ROWS,
            current_position: 0,
            cleared,
        };
        proof {
            assert(floor.cleared_set() =~= Set::<int>::empty());
        }
        floor
    }

    /// Whether one may move between the two rooms.
    pub fn is_adjacent(&self, a: usize, b: usize) -> (adjacent: bool)
        requires
            self.wf(),
        ensures
            adjacent == self.spec_adjacent(a as int, b as int),
    {
        if a >= self.cleared.len() || b >= self.cleared.len() {
            return false;
        }
        let row_a: usize = a / self.columns;
        let col_a: usize = a % self.columns;
        let row_b: usize = b / self.columns;
        let col_b: usize = b % self.columns;
        (row_a == row_b && (col_a + 1 == col_b || col_b + 1 == col_a))
            || (col_a == col_b && (row_a + 1 == row_b || row_b + 1 == row_a))
    }

    /// Inserts the player's room into the cleared set; marking an already
    /// cleared room changes nothing.
    pub fn mark_current_room_cleared(&mut self)
        requires
            old(self).wf(),
        ensures
            final(self).cleared_set()
                == old(self).cleared_set().insert(old(self).current_position as int),
            final(self).columns == old(self).columns,
            final(self).rows == old(self).rows,
            final(self).current_position == old(self).current_position,
            final(self).cleared@.len() == old(self).cleared@.len(),
            final(self).wf(),
    {
        let position: usize = self.current_position;
        self.cleared[position] = true;
        proof {
            assert(self.cleared_set()
                =~= old(self).cleared_set().insert(old(self).current_position as int));
        }
    }

    /// Moves the player to a room sharing an edge with the current one;
    /// any other target is an invalid transition and changes nothing.
    pub fn move_to(&mut self, room_id: usize) -> (result: Result<(), DungeonError>)
        requires
            old(self).wf(),
        ensures
            result is Ok <==> old(self).spec_adjacent(
                old(self).current_position as int,
                room_id as int,
            ),
            result is Ok ==> *final(self) == (Floor { current_position: room_id, ..*old(self) }),
            result is Err ==> *final(self) == *old(self)
                && result == Err::<(), DungeonError>(DungeonError::InvalidTransition),
            final(self).wf(),
    {
        if self.is_adjacent(self.current_position, room_id) {
            self.current_position = room_id;
            Ok(())
        } else {
            Err(DungeonError::InvalidTransition)
        }
    }

    /// Whether the exit room has been cleared, which unlocks the next floor.
    pub fn is_end_room_cleared(&self) -> (cleared: bool)
        requires
            self.wf(),
        ensures
            cleared == self.cleared_set().contains(self.spec_end_room()),
    {
        self.cleared[self.cleared.len() - 1]
    }
}

/// Marking the current room cleared is idempotent: a second marking leaves
/// the cleared set — and so its size — unchanged.
pub proof fn lemma_mark_current_room_cleared_idempotent(cleared: Set<int>, room: int)
    ensures
        cleared.insert(room).insert(room) == cleared.insert(room),
{
    assert(cleared.insert(room).insert(room) =~= cleared.insert(room));
}

/// The run's floor progression: the floor the player is on and its index.
/// Advancing discards the old floor and generates the next one.
#[derive(Clone, Debug)]
pub struct Dungeon {
    pub current_floor: Floor,
    pub current_floor_index: usize,
}

impl Dungeon {
    pub open spec fn wf(self) -> bool {
        self.current_floor.wf()
    }

    /// Starts the run on the first floor, at its entry room, nothing cleared.
    pub fn new() -> (dungeon: Dungeon)
        ensures
            dungeon.wf(),
            dungeon.current_floor_index == 0,
            dungeon.current_floor.columns == spec_floor_columns(0),
            dungeon.current_floor.rows == FLOOR_ROWS,
            dungeon.current_floor.current_position == dungeon.current_floor.spec_entry_room(),
            dungeon.current_floor.cleared_set() == Set::<int>::empty(),
    {
        Dungeon { current_floor: Floor::new(0), current_floor_index: 0 }
    }

    /// Inserts the current room into this floor's cleared set.
    pub fn mark_current_room_cleared(&mut self)
        requires
            old(self).wf(),
        ensures
            final(self).current_floor.cleared_set() == old(self).current_floor.cleared_set()
                .insert(old(self).current_floor.current_position as int),
            final(self).current_floor.current_position
                == old(self).current_floor.current_position,
            final(self).current_floor.columns == old(self).current_floor.columns,
            final(self).current_floor.rows == old(self).current_floor.rows,
            final(self).current_floor_index == old(self).current_floor_index,
            final(self).wf(),
    {
        self.current_floor.mark_current_room_cleared();
    }

    /// Moves the player within the current floor.
    pub fn move_to(&mut self, room_id: usize) -> (result: Result<(), DungeonError>)
        requires
            old(self).wf(),
        ensures
            result is Ok <==> old(self).current_floor.spec_adjacent(
                old(self).current_floor.current_position as int,
                room_id as int,
            ),
            result is Ok ==> *final(self) == (Dungeon {
                current_floor: Floor {
                    current_position: room_id,
                    ..old(self).current_floor
                },
                ..*old(self)
            }),
            result is Err ==> *final(self) == *old(self)
                && result == Err::<(), DungeonError>(DungeonError::InvalidTransition),
            final(self).wf(),
    {
        self.current_floor.move_to(room_id)
    }

    /// Moves on to the next floor once this floor's exit room is cleared:
    /// the old floor is discarded and the next one generated, one column
    /// wider until the growth cap, with floor-local state reset. Before the
    /// exit room is cleared the call fails and changes nothing.
    pub fn advance_floor(&mut self) -> (result: Result<(), DungeonError>)
        requires
            old(self).wf(),
            old(self).current_floor_index < usize::MAX,
        ensures
            result is Ok <==> old(self).current_floor.cleared_set()
                .contains(old(self).current_floor.spec_end_room()),
            result is Ok ==> {
                &&& final(self).current_floor_index == old(self).current_floor_index + 1
                &&& final(self).current_floor.columns
                    == spec_floor_columns(final(self).current_floor_index as int)
                &&& final(self).current_floor.rows == FLOOR_ROWS
                &&& final(self).current_floor.current_position
                    == final(self).current_floor.spec_entry_room()
                &&& final(self).current_floor.cleared_set() == Set::<int>::empty()
            },
            result is Err ==> *final(self) == *old(self)
                && result == Err::<(), DungeonError>(DungeonError::FloorNotCleared),
            final(self).wf(),
    {
        if self.current_floor.is_end_room_cleared() {
            self.current_floor_index = self.current_floor_index + 1;
            self.current_floor = Floor::new(self.current_floor_index);
            Ok(())
        } else {
            Err(DungeonError::FloorNotCleared)
        }
    }
}

/// Floor-progression facts mirrored for the interface and the spawner.
#[derive(Clone, Copy, Debug, PartialEq, Eq, Structural)]
pub struct PlayerDungeonStats {
    pub current_room_position: usize,
    pub is_room_cleared: bool,
    pub current_floor_index: usize,
}

/// Counts survival-mode waves; each resolved reward moves to the next wave.
#[derive(Clone, Copy, Debug, PartialEq, Eq, Structural)]
pub struct Wave {
    pub wave_index: u32,
}

impl Wave {
    /// Starts at the first wave.
    pub fn new() -> (wave: Wave)
        ensures
            wave.wave_index == 0,
    {
        Wave { wave_index: 0 }
    }

    /// Moves the counter to the next wave.
    pub fn next_wave(&mut self)
        requires
            old(self).wave_index < u32::MAX,
        ensures
            final(self).wave_index == old(self).wave_index + 1,
    {
        self.wave_index = self.wave_index + 1;
    }
}

} // verus!
