//! The action states an entity can be in, and what resolving one yields.

use vstd::prelude::*;
use crate::adapter::AdapterCall;
use crate::idle;
use crate::stage::TickContext;
use crate::stunned;
use crate::wielding;

verus! {

/// How badly an entity's poise was broken. The presentation layer picks an
/// animation by it; resolution never reads or changes it.
#[derive(Clone, Copy, Debug, PartialEq, Eq, Structural)]
pub enum PoiseState {
    Normal,
    Interrupted,
    Stunned,
    Dazed,
    KnockedDown,
}

/// The action state of one entity. An entity is in exactly one at a time, and
/// a tick replaces it as a whole.
#[derive(Clone, Copy, Debug, PartialEq, Eq, Structural)]
pub enum CharacterState {
    Idle(idle::Data),
    Wielding(wielding::Data),
    Stunned(stunned::Data),
}

/// What one tick of an action state yields.
#[derive(Debug)]
pub struct StateUpdate {
    /// The action state for the next tick.
    pub character: CharacterState,
    /// The requests to make of the movement adapter, in order.
    pub adapter_calls: Vec<AdapterCall>,
}

/// The contract every action state meets: one resolution per tick, a function
/// of the state and the tick alone.
pub trait CharacterBehavior {
    /// The action state that follows this one after a tick.
    spec fn next_state(&self, ctx: TickContext) -> CharacterState;

    /// The requests a tick makes of the movement adapter, in order.
    spec fn adapter_calls(&self, ctx: TickContext) -> Seq<AdapterCall>;

    /// Resolves one tick. Events the state emits are appended to `events`;
    /// those already there are left as they were.
    fn behavior<E>(&self, ctx: &TickContext, events: &mut Vec<E>) -> (update: StateUpdate)
        ensures
            update.character == self.next_state(*ctx),
            update.adapter_calls@ == self.adapter_calls(*ctx),
            old(events)@.is_prefix_of(final(events)@),
    ;
}

} // verus!
