//! Requests to the movement and orientation adapter.
//!
//! The library decides which requests a tick makes; the owner of the entity
//! carries them out, in order, against the entity's physical state.

use vstd::prelude::*;

verus! {

/// A single-precision number, carried by its IEEE 754 bit pattern. The
/// library hands such numbers on and never computes with them.
#[derive(Clone, Copy, Debug, PartialEq, Eq, Structural)]
pub struct Scalar {
    pub bits: u32,
}

/// A direction to face in the horizontal plane.
#[derive(Clone, Copy, Debug, PartialEq, Eq, Structural)]
pub struct Facing {
    pub x: Scalar,
    pub y: Scalar,
}

/// One request to the adapter.
#[derive(Clone, Copy, Debug, PartialEq, Eq, Structural)]
pub enum AdapterCall {
    /// Turn the entity. Without a target it turns towards where it is
    /// steered; without a turn rate it turns at its usual rate.
    SetOrientation { target_facing: Option<Facing>, turn_rate_override: Option<Scalar> },
    /// Move the entity as it is steered, at this fraction of its normal
    /// speed.
    ApplyMovement { speed_fraction: Scalar },
}

} // verus!
