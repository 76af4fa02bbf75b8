//! The game mode chosen at run start.

use vstd::prelude::*;

verus! {

/// Fixed for the whole run; drives the monster quota formula.
#[derive(Clone, Copy, Debug, PartialEq, Eq, Structural)]
pub enum GameMode {
    ClassicMode,
    SurvivalMode,
}

} // verus!
