//! The immutable reference tables loaded once before a run starts.

use vstd::prelude::*;
use crate::effect::Effect;
use crate::hero_class::HeroClass;
use crate::skill::Skill;
use crate::stats::BaseStats;
use crate::weapon::Weapon;

verus! {

/// Per-class base stats plus the weapon, effect and skill rows. Loaded by a
/// collaborator from its storage format and never mutated during a run.
#[derive(Clone, Debug)]
pub struct Data {
    pub elf_base_stats: BaseStats,
    pub knight_base_stats: BaseStats,
    pub wizard_base_stats: BaseStats,
    pub lizard_base_stats: BaseStats,
    pub weapons: Vec<Weapon>,
    pub effects: Vec<Effect>,
    pub skills: Vec<Skill>,
}

/// The subsequence of weapon rows belonging to one class, in table order.
pub open spec fn spec_weapons_of_class(rows: Seq<Weapon>, class: HeroClass) -> Seq<Weapon>
    decreases rows.len(),
{
    if rows.len() == 0 {
        Seq::empty()
    } else {
        let rest = spec_weapons_of_class(rows.drop_last(), class);
        if rows.last().hero_class == class {
            rest.push(rows.last())
        } else {
            rest
        }
    }
}

impl Data {
    /// The base-stats row of one class.
    pub open spec fn spec_base_stats(self, class: HeroClass) -> BaseStats {
        match class {
            HeroClass::Elf => self.elf_base_stats,
            HeroClass::Knight => self.knight_base_stats,
            HeroClass::Wizard => self.wizard_base_stats,
            HeroClass::Lizard => self.lizard_base_stats,
        }
    }

    /// Looks up the base stats a run of this class starts from.
    pub fn get_base_stats(&self, class: HeroClass) -> (stats: BaseStats)
        ensures
            stats == self.spec_base_stats(class),
    {
        match class {
            HeroClass::Elf => self.elf_base_stats,
            HeroClass::Knight => self.knight_base_stats,
            HeroClass::Wizard => self.wizard_base_stats,
            HeroClass::Lizard => self.lizard_base_stats,
        }
    }

    /// The weapon rows of one class, in table order.
    pub fn get_weapons(&self, hero_class: HeroClass) -> (weapons: Vec<Weapon>)
        ensures
            weapons@ == spec_weapons_of_class(self.weapons@, hero_class),
    {
        let mut weapons: Vec<Weapon> = Vec::new();
        let mut k: usize = 0;
        while k < self.weapons.len()
            invariant
                k <= self.weapons@.len(),
                weapons@ == spec_weapons_of_class(self.weapons@.subrange(0, k as int), hero_class),
            decreases self.weapons@.len() - k,
        {
            let row = self.weapons[k];
            proof {
                assert(self.weapons@.subrange(0, k + 1 as int).drop_last()
                    =~= self.weapons@.subrange(0, k as int));
                assert(self.weapons@.subrange(0, k + 1 as int).last() == self.weapons@[k as int]);
            }
            if row.hero_class == hero_class {
                weapons.push(row);
            }
            k += 1;
        }
        proof {
            assert(self.weapons@.subrange(0, self.weapons@.len() as int) =~= self.weapons@);
        }
        weapons
    }
}

} // verus!
