//! The idling state.

use vstd::prelude::*;

verus! {

/// An entity at rest with nothing readied. The state carries no data.
#[derive(Clone, Copy, Debug, PartialEq, Eq, Structural)]
pub struct Data {}

impl Default for Data {
    fn default() -> (data: Data)
        ensures
            data == (Data {}),
    {
        Data {}
    }
}

} // verus!
