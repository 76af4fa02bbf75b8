//! Display languages offered by the user interface.

use vstd::prelude::*;

verus! {

/// Chooses which glossary file the interface loads; nothing in the core
/// branches on it beyond carrying the choice.
#[derive(Clone, Copy, Debug, PartialEq, Eq, Structural)]
pub enum Language {
    VI,
    EN,
}

} // verus!
