//! The stunned state: a build-up, then a recovery, then back to idling or to
//! the readied weapon.

use vstd::prelude::*;
use crate::adapter::{AdapterCall, Scalar};
use crate::character::{CharacterBehavior, CharacterState, PoiseState, StateUpdate};
use crate::duration::Duration;
use crate::idle;
use crate::stage::{stage_ticked, tick_stage, SkipPolicy, StageSection, StageTick, TickContext};
use crate::wielding;

verus! {

/// What is fixed when the stun begins and stays as it is until the stun ends.
#[derive(Clone, Copy, Debug, PartialEq, Eq, Structural)]
pub struct StaticData {
    /// How long the build-up lasts.
    pub buildup_duration: Duration,
    /// How long the recovery lasts.
    pub recover_duration: Duration,
    /// Fraction of normal movement speed allowed during the stun.
    pub movement_speed: Scalar,
    /// Which kind of stun this is, for the presentation layer.
    pub poise_state: PoiseState,
}

/// A stun in progress.
#[derive(Clone, Copy, Debug, PartialEq, Eq, Structural)]
pub struct Data {
    /// What does not change over the course of the stun.
    pub static_data: StaticData,
    /// Time spent in the current stage.
    pub timer: Duration,
    /// The stage the stun is in.
    pub stage_section: StageSection,
    /// Whether the entity had its weapon readied when the stun began.
    pub was_wielded: bool,
}

/// The state that follows a stun: the readied weapon, not sneaking, for an
/// entity that had it readied before; idling otherwise.
pub open spec fn exit_state_of(was_wielded: bool) -> CharacterState {
    if was_wielded {
        CharacterState::Wielding(wielding::Data { is_sneaking: false })
    } else {
        CharacterState::Idle(idle::Data {  })
    }
}

impl Data {
    /// The stun as it begins: in its build-up, with no time spent.
    pub open spec fn spec_new(static_data: StaticData, was_wielded: bool) -> Data {
        Data {
            static_data,
            timer: Duration::from_nanos_spec(0),
            stage_section: StageSection::Buildup,
            was_wielded,
        }
    }

    /// This stun with another timer.
    pub open spec fn spec_with_timer(self, timer: Duration) -> Data {
        Data { timer, ..self }
    }

    /// This stun at the start of `stage_section`.
    pub open spec fn spec_entering(self, stage_section: StageSection) -> Data {
        Data { timer: Duration::from_nanos_spec(0), stage_section, ..self }
    }

    /// The length of the stage the stun is in; the unknown stage has none.
    pub open spec fn stage_duration(self) -> Option<Duration> {
        match self.stage_section {
            StageSection::Buildup => Some(self.static_data.buildup_duration),
            StageSection::Recover => Some(self.static_data.recover_duration),
            StageSection::Other => None,
        }
    }

    /// Whether the stun is in a stage it knows with the timer short of that
    /// stage's duration.
    pub open spec fn stage_running(self) -> bool {
        match self.stage_duration() {
            Some(duration) => self.timer.as_nanos() < duration.as_nanos(),
            None => false,
        }
    }

    /// Every span the stun holds is well formed.
    pub open spec fn wf(self) -> bool {
        &&& self.timer.wf()
        &&& self.static_data.buildup_duration.wf()
        &&& self.static_data.recover_duration.wf()
    }

    /// Begins a stun.
    pub fn new(static_data: StaticData, was_wielded: bool) -> (data: Data)
        ensures
            data == Self::spec_new(static_data, was_wielded),
    {
        Data {
            static_data,
            timer: Duration::zero(),
            stage_section: StageSection::Buildup,
            was_wielded,
        }
    }

    /// A copy of this stun with another timer and nothing else changed.
    pub fn with_timer(&self, timer: Duration) -> (data: Data)
        ensures
            data == self.spec_with_timer(timer),
    {
        Data {
            static_data: self.static_data,
            timer,
            stage_section: self.stage_section,
            was_wielded: self.was_wielded,
        }
    }

    /// A copy of this stun at the start of `stage_section`: the timer is back
    /// at zero and nothing else is changed.
    pub fn entering(&self, stage_section: StageSection) -> (data: Data)
        ensures
            data == self.spec_entering(stage_section),
    {
        Data {
            static_data: self.static_data,
            timer: Duration::zero(),
            stage_section,
            was_wielded: self.was_wielded,
        }
    }

    /// The state that takes over when the stun ends, whichever way it ends.
    pub fn exit_state(&self) -> (successor: CharacterState)
        ensures
            successor == exit_state_of(self.was_wielded),
    {
        if self.was_wielded {
            CharacterState::Wielding(wielding::Data { is_sneaking: false })
        } else {
            CharacterState::Idle(idle::Data::default())
        }
    }
}

impl CharacterBehavior for Data {
    /// A stage short of its duration goes on with its timer advanced by the
    /// elapsed time. A finished build-up gives way to the recovery, a finished
    /// recovery ends the stun, and so does a stage the stun does not know.
    open spec fn next_state(&self, ctx: TickContext) -> CharacterState {
        match self.stage_duration() {
            Some(duration) => match stage_ticked(ctx, self.timer, duration, SkipPolicy::Ignore) {
                StageTick::Running(timer) => CharacterState::Stunned(self.spec_with_timer(timer)),
                StageTick::Finished => if self.stage_section == StageSection::Buildup {
                    CharacterState::Stunned(self.spec_entering(StageSection::Recover))
                } else {
                    exit_state_of(self.was_wielded)
                },
            },
            None => exit_state_of(self.was_wielded),
        }
    }

    /// In every stage: one turn towards where the entity is steered, at its
    /// usual rate, then one movement at the stun's speed fraction.
    open spec fn adapter_calls(&self, ctx: TickContext) -> Seq<AdapterCall> {
        seq![
            AdapterCall::SetOrientation { target_facing: None, turn_rate_override: None },
            AdapterCall::ApplyMovement { speed_fraction: self.static_data.movement_speed },
        ]
    }

    /// Resolves one tick of the stun. A stun emits no events.
    fn behavior<E>(&self, ctx: &TickContext, events: &mut Vec<E>) -> (update: StateUpdate)
        ensures
            final(events)@ == old(events)@,
    {
        let mut adapter_calls: Vec<AdapterCall> = Vec::new();
        adapter_calls.push(
            AdapterCall::SetOrientation { target_facing: None, turn_rate_override: None },
        );
        adapter_calls.push(
            AdapterCall::ApplyMovement { speed_fraction: self.static_data.movement_speed },
        );
        let character = match self.stage_section {
            StageSection::Buildup => {
                let duration = self.static_data.buildup_duration;
                match tick_stage(ctx, self.timer, duration, SkipPolicy::Ignore) {
                    StageTick::Running(timer) => CharacterState::Stunned(self.with_timer(timer)),
                    StageTick::Finished => CharacterState::Stunned(
                        self.entering(StageSection::Recover),
                    ),
                }
            },
            StageSection::Recover => {
                let duration = self.static_data.recover_duration;
                match tick_stage(ctx, self.timer, duration, SkipPolicy::Ignore) {
                    StageTick::Running(timer) => CharacterState::Stunned(self.with_timer(timer)),
                    StageTick::Finished => self.exit_state(),
                }
            },
            StageSection::Other => self.exit_state(),
        };
        assert(adapter_calls@ =~= self.adapter_calls(*ctx));
        StateUpdate { character, adapter_calls }
    }
}


/// A tick that leaves the stun in place leaves what was fixed at its start
/// in place too: the static data and the memory of the readied weapon.
pub proof fn lemma_tick_keeps_context(data: Data, ctx: TickContext)
    ensures
        data.next_state(ctx) matches CharacterState::Stunned(next) ==> {
            &&& next.static_data == data.static_data
            &&& next.was_wielded == data.was_wielded
        },
{
}

/// A stun gives way to one state only, fixed by whether the weapon was
/// readied when it began: a tick yields either the stun again or that state.
/// A finished recovery and an unknown stage end the stun alike, whatever the
/// timer and the tick.
pub proof fn lemma_tick_exit(data: Data, ctx: TickContext)
    ensures
        data.next_state(ctx) is Stunned || data.next_state(ctx) == exit_state_of(data.was_wielded),
        data.stage_section == StageSection::Other ==> data.next_state(ctx) == exit_state_of(
            data.was_wielded,
        ),
        data.stage_section == StageSection::Recover && data.timer.as_nanos()
            >= data.static_data.recover_duration.as_nanos() ==> data.next_state(ctx)
            == exit_state_of(data.was_wielded),
        exit_state_of(data.was_wielded) !is Stunned,
{
}

/// A stage goes on through a tick exactly when its timer stood short of the
/// stage's duration before the tick. The timer then grows by the elapsed time
/// and by no more, so it passes neither the longest span nor the duration by
/// as much as one tick's time. Any other tick leaves the stage, and a stage
/// that is entered starts at zero.
pub proof fn lemma_tick_timer(data: Data, ctx: TickContext)
    requires
        data.wf(),
        ctx.dt.wf(),
    ensures
        data.next_state(ctx) matches CharacterState::Stunned(next) ==> {
            &&& next.wf()
            &&& next.stage_section == data.stage_section <==> data.stage_running()
            &&& next.stage_section == data.stage_section ==> {
                &&& data.timer.as_nanos() <= next.timer.as_nanos()
                &&& next.timer.as_nanos() <= data.timer.as_nanos() + ctx.dt.as_nanos()
                &&& next.timer.as_nanos() < data.stage_duration().unwrap().as_nanos()
                    + ctx.dt.as_nanos()
                &&& next.timer.as_nanos() == data.timer.as_nanos() + ctx.dt.as_nanos()
                    || next.timer.as_nanos() == Duration::max_nanos()
            }
            &&& next.stage_section != data.stage_section ==> next.timer.as_nanos() == 0
        },
{
    Duration::lemma_saturating_add(data.timer, ctx.dt);
    Duration::lemma_from_nanos(0);
    data.timer.lemma_bounded();
    ctx.dt.lemma_bounded();
}

} // verus!
