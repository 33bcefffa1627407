//! The weapon-readied state.

use vstd::prelude::*;

verus! {

/// An entity holding its weapon at the ready.
#[derive(Clone, Copy, Debug, PartialEq, Eq, Structural)]
pub struct Data {
    /// Whether the entity is sneaking while it wields.
    pub is_sneaking: bool,
}

} // verus!
