//! An explicit random source, threaded through every randomized draw so a
//! run can be replayed deterministically from a seed.

use vstd::prelude::*;

verus! {

/// Multiplier of the linear congruential step.
pub const LCG_MULTIPLIER: u64 = 6364136223846793005;

/// Increment of the linear congruential step.
pub const LCG_INCREMENT: u64 = 1442695040888963407;

/// A small linear congruential generator. Nothing is promised about the
/// values it yields beyond their range; every contract downstream holds for
/// every sequence of draws.
#[derive(Clone, Copy, Debug)]
pub struct RandomSource {
    state: u64,
}

impl RandomSource {
    /// Starts the stream at a caller-chosen seed.
    pub fn new(seed: u64) -> RandomSource {
        RandomSource { state: seed }
    }

    /// Draws the next raw value.
    fn next_u64(&mut self) -> u64 {
        self.state = self.state.wrapping_mul(LCG_MULTIPLIER).wrapping_add(LCG_INCREMENT);
        self.state
    }

    /// Draws an index below `len`.
    pub fn next_index(&mut self, len: usize) -> (index: usize)
        requires
            len > 0,
        ensures
            index < len,
    {
        let raw: u64 = self.next_u64();
        let reduced: u64 = raw % (len as u64);
        reduced as usize
    }
}

} // verus!
