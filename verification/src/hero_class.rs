//! The closed set of playable hero classes.

use vstd::prelude::*;

verus! {

/// Selects the base-stats row and the weapon table rows used everywhere else.
#[derive(Clone, Copy, Debug, PartialEq, Eq, Structural)]
pub enum HeroClass {
    Elf,
    Knight,
    Wizard,
    Lizard,
}

impl HeroClass {
    /// All hero classes, in their fixed presentation order.
    pub fn iterator() -> (classes: Vec<HeroClass>)
        ensures
            classes@ =~= seq![
                HeroClass::Elf,
                HeroClass::Knight,
                HeroClass::Wizard,
                HeroClass::Lizard,
            ],
    {
        let mut classes: Vec<HeroClass> = Vec::new();
        classes.push(HeroClass::Elf);
        classes.push(HeroClass::Knight);
        classes.push(HeroClass::Wizard);
        classes.push(HeroClass::Lizard);
        classes
    }
}

} // verus!
