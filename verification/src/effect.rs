//! Elemental / status effects and the player's accumulated per-effect bonuses.

use vstd::prelude::*;
use crate::stats::stat_in_range;

verus! {

/// The closed set of effects a weapon or monster can trigger.
#[derive(Clone, Copy, Debug, PartialEq, Eq, Structural)]
pub enum EffectType {
    SpeedUp,
    EvasionUp,
    Focus,
    Slow,
    ReduceDamage,
    Disarm,
    Confuse,
    Stun,
}

/// A reference-table row: the starting duration (whole seconds) and bonus
/// (thousandths) of one effect type.
#[derive(Clone, Copy, Debug, PartialEq, Eq, Structural)]
pub struct Effect {
    pub name: EffectType,
    pub duration: i64,
    pub bonus: i64,
}

/// The accumulated state of one effect type on the player: upgrades add to
/// `bonus` and move `duration`, which upgrades never drive below one second.
#[derive(Clone, Copy, Debug, PartialEq, Eq, Structural)]
pub struct EffectInformation {
    pub name: EffectType,
    pub duration: i64,
    pub bonus: i64,
}

impl EffectInformation {
    /// Within the arithmetic bounds the upgrade formulas stay inside.
    pub open spec fn wf(self) -> bool {
        &&& stat_in_range(self.duration)
        &&& stat_in_range(self.bonus)
    }
}

/// One entry per effect type the player can ever trigger.
#[derive(Clone, Debug, PartialEq, Eq)]
pub struct PlayerEffects {
    pub information: Vec<EffectInformation>,
}

impl PlayerEffects {
    pub open spec fn wf(self) -> bool {
        forall|i: int| 0 <= i < self.information@.len() ==> self.information@[i].wf()
    }

    /// Whether some entry is recorded for `name`.
    pub open spec fn has_entry(self, name: EffectType) -> bool {
        exists|i: int| 0 <= i < self.information@.len() && self.information@[i].name == name
    }

    /// Builds the per-effect accumulation table from the reference rows.
    pub fn new(effects: &Vec<Effect>) -> (r: PlayerEffects)
        ensures
            r.information@.len() == effects@.len(),
            forall|i: int| 0 <= i < effects@.len() ==> r.information@[i]
                == (EffectInformation {
                    name: effects@[i].name,
                    duration: effects@[i].duration,
                    bonus: effects@[i].bonus,
                }),
    {
        let mut information: Vec<EffectInformation> = Vec::new();
        let mut k: usize = 0;
        while k < effects.len()
            invariant
                k <= effects@.len(),
                information@.len() == k,
                forall|i: int| 0 <= i < k ==> information@[i]
                    == (EffectInformation {
                        name: effects@[i].name,
                        duration: effects@[i].duration,
                        bonus: effects@[i].bonus,
                    }),
            decreases effects@.len() - k,
        {
            let row = &effects[k];
            information.push(EffectInformation {
                name: row.name,
                duration: row.duration,
                bonus: row.bonus,
            });
            k += 1;
        }
        PlayerEffects { information }
    }
}

} // verus!
