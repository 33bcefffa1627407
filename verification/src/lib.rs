//! Tick-by-tick resolution of an entity's action state.
//!
//! Every simulation tick the owner of an entity hands the entity's current
//! action state and the tick's facts to a pure function and gets back the state
//! for the next tick, the requests to make of the movement adapter, and the
//! events to publish. The stunned state is the one action state resolved here.

pub mod adapter;
pub mod character;
pub mod duration;
pub mod idle;
pub mod stage;
pub mod stunned;
pub mod trace;
pub mod wielding;
