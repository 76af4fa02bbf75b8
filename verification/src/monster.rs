//! Monster-side reference data that the core carries.

use vstd::prelude::*;

verus! {

/// Special behaviours a monster kind may carry.
#[derive(Clone, Copy, Debug, PartialEq, Eq, Structural)]
pub enum MonsterSkill {
    Split,
}

} // verus!
