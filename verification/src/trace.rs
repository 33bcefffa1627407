//! A stun followed over many ticks.
//!
//! The owner of an entity resolves its state once per tick and puts the result
//! in its place. The functions here say what that comes to over a run of ticks,
//! and the lemmas what holds of every such run.

use vstd::prelude::*;
use crate::character::{CharacterBehavior, CharacterState};
use crate::stage::{StageSection, TickContext};
use crate::stunned::{exit_state_of, lemma_tick_timer, Data, StaticData};

verus! {

/// The state after one tick. A stun is resolved; once it has given way, its
/// successor is left as it is: what that state does next is its own matter.
pub open spec fn step(state: CharacterState, ctx: TickContext) -> CharacterState {
    match state {
        CharacterState::Stunned(data) => data.next_state(ctx),
        _ => state,
    }
}

/// The state after the ticks of `ticks`, the first one first.
pub open spec fn run(state: CharacterState, ticks: Seq<TickContext>) -> CharacterState
    decreases ticks.len(),
{
    if ticks.len() == 0 {
        state
    } else {
        step(run(state, ticks.drop_last()), ticks.last())
    }
}

/// How far along a state is: a stun in its build-up, in its recovery, in a
/// stage it does not know, or over.
pub open spec fn progress(state: CharacterState) -> nat {
    match state {
        CharacterState::Stunned(data) => match data.stage_section {
            StageSection::Buildup => 0,
            StageSection::Recover => 1,
            StageSection::Other => 2,
        },
        _ => 3,
    }
}

/// Whether the state is a stun in the given stage.
pub open spec fn in_stage(state: CharacterState, stage_section: StageSection) -> bool {
    state matches CharacterState::Stunned(data) && data.stage_section == stage_section
}

/// An upper bound on the ticks left to a state, where each tick takes at
/// least a nanosecond: what is left of the current stage, one tick to leave
/// it, and the same for each stage still to come.
pub open spec fn ticks_left(state: CharacterState) -> nat {
    match state {
        CharacterState::Stunned(data) => match data.stage_section {
            StageSection::Buildup => short_of(
                data.timer.as_nanos(),
                data.static_data.buildup_duration.as_nanos(),
            ) + data.static_data.recover_duration.as_nanos() + 2,
            StageSection::Recover => short_of(
                data.timer.as_nanos(),
                data.static_data.recover_duration.as_nanos(),
            ) + 1,
            StageSection::Other => 1,
        },
        _ => 0,
    }
}

/// By how much `timer` falls short of `duration`.
pub open spec fn short_of(timer: nat, duration: nat) -> nat {
    if timer < duration {
        (duration - timer) as nat
    } else {
        0
    }
}

/// Whether every tick carries a well-formed elapsed time.
pub open spec fn ticks_wf(ticks: Seq<TickContext>) -> bool {
    forall|i: int| 0 <= i < ticks.len() ==> (#[trigger] ticks[i]).dt.wf()
}

/// Whether some time passes in every tick.
pub open spec fn time_passes(ticks: Seq<TickContext>) -> bool {
    forall|i: int| 0 <= i < ticks.len() ==> (#[trigger] ticks[i]).dt.as_nanos() >= 1
}

/// Running one tick more is running the ticks before it and then that tick.
pub proof fn lemma_run_next(state: CharacterState, ticks: Seq<TickContext>, n: int)
    requires
        0 <= n < ticks.len(),
    ensures
        run(state, ticks.take(n + 1)) == step(run(state, ticks.take(n)), ticks[n]),
{
    assert(ticks.take(n + 1).drop_last() =~= ticks.take(n));
}

/// The stages come in one order. Along any run of ticks a state only moves
/// forward: from the build-up to the recovery, from there out of the stun. It
/// never moves back, so the build-up, once left, is not seen again, and a stun
/// that is over stays over.
pub proof fn lemma_stage_order(state: CharacterState, ticks: Seq<TickContext>, i: int, j: int)
    requires
        0 <= i <= j <= ticks.len(),
    ensures
        progress(run(state, ticks.take(i))) <= progress(run(state, ticks.take(j))),
        !in_stage(run(state, ticks.take(i)), StageSection::Buildup) ==> !in_stage(
            run(state, ticks.take(j)),
            StageSection::Buildup,
        ),
        !(run(state, ticks.take(i)) is Stunned) ==> run(state, ticks.take(j)) == run(
            state,
            ticks.take(i),
        ),
    decreases j - i,
{
    if i < j {
        lemma_stage_order(state, ticks, i, j - 1);
        lemma_run_next(state, ticks, j - 1);
    }
}

/// One tick moves a stun at most one stage on, and never into a stage it
/// does not know.
pub proof fn lemma_one_stage_at_a_time(data: Data, ctx: TickContext)
    ensures
        progress(CharacterState::Stunned(data)) <= progress(data.next_state(ctx)),
        data.next_state(ctx) matches CharacterState::Stunned(next) ==> {
            ||| next.stage_section == data.stage_section
            ||| data.stage_section == StageSection::Buildup && next.stage_section
                == StageSection::Recover
        },
{
}

/// Whatever the ticks, a stun either still stands, with the static data and
/// the memory of the readied weapon it began with, or has given way to the one
/// successor that this memory fixes.
pub proof fn lemma_run_keeps_context(data: Data, ticks: Seq<TickContext>)
    ensures
        match run(CharacterState::Stunned(data), ticks) {
            CharacterState::Stunned(later) => {
                &&& later.static_data == data.static_data
                &&& later.was_wielded == data.was_wielded
                &&& data.stage_section != StageSection::Other ==> later.stage_section
                    != StageSection::Other
            },
            successor => successor == exit_state_of(data.was_wielded),
        },
    decreases ticks.len(),
{
    if ticks.len() > 0 {
        lemma_run_keeps_context(data, ticks.drop_last());
    }
}

/// A stun that has just begun is in its build-up or its recovery, with its
/// static data untouched, for as long as it stands; after it comes the
/// readied weapon, not sneaking, or idling, as the entity began.
pub proof fn lemma_run_from_start(
    static_data: StaticData,
    was_wielded: bool,
    ticks: Seq<TickContext>,
)
    ensures
        match run(CharacterState::Stunned(Data::spec_new(static_data, was_wielded)), ticks) {
            CharacterState::Stunned(later) => {
                &&& later.static_data == static_data
                &&& later.was_wielded == was_wielded
                &&& later.stage_section == StageSection::Buildup || later.stage_section
                    == StageSection::Recover
            },
            successor => successor == exit_state_of(was_wielded),
        },
{
    lemma_run_keeps_context(Data::spec_new(static_data, was_wielded), ticks);
}

/// Well-formed spans stay well formed along a run.
pub proof fn lemma_run_wf(data: Data, ticks: Seq<TickContext>)
    requires
        data.wf(),
        ticks_wf(ticks),
    ensures
        run(CharacterState::Stunned(data), ticks) matches CharacterState::Stunned(later)
            ==> later.wf(),
    decreases ticks.len(),
{
    if ticks.len() > 0 {
        let before = ticks.drop_last();
        assert forall|i: int| 0 <= i < before.len() implies (#[trigger] before[i]).dt.wf() by {
            assert(before[i] == ticks[i]);
        }
        lemma_run_wf(data, before);
        if let CharacterState::Stunned(earlier) = run(CharacterState::Stunned(data), before) {
            lemma_tick_timer(earlier, ticks.last());
        }
    }
}

/// Where time passes in a tick, the tick uses up one of the ticks a stun has
/// left.
pub proof fn lemma_tick_uses_time(data: Data, ctx: TickContext)
    requires
        data.wf(),
        ctx.dt.wf(),
        ctx.dt.as_nanos() >= 1,
    ensures
        ticks_left(data.next_state(ctx)) + 1 <= ticks_left(CharacterState::Stunned(data)),
{
    lemma_tick_timer(data, ctx);
    data.static_data.buildup_duration.lemma_bounded();
    data.static_data.recover_duration.lemma_bounded();
}

/// Every stun ends. Where time passes in every tick, a stun is over once as
/// many ticks have run as `ticks_left` allows it, and the state is then the
/// successor fixed by whether the weapon was readied when the stun began.
pub proof fn lemma_stun_ends(data: Data, ticks: Seq<TickContext>)
    requires
        data.wf(),
        ticks_wf(ticks),
        time_passes(ticks),
    ensures
        ticks_left(run(CharacterState::Stunned(data), ticks)) + ticks.len() <= ticks_left(
            CharacterState::Stunned(data),
        ) || run(CharacterState::Stunned(data), ticks) == exit_state_of(data.was_wielded),
        ticks.len() >= ticks_left(CharacterState::Stunned(data)) ==> run(
            CharacterState::Stunned(data),
            ticks,
        ) == exit_state_of(data.was_wielded),
    decreases ticks.len(),
{
    lemma_run_keeps_context(data, ticks);
    if ticks.len() > 0 {
        let before = ticks.drop_last();
        assert forall|i: int| 0 <= i < before.len() implies (#[trigger] before[i]).dt.wf()
            && before[i].dt.as_nanos() >= 1 by {
            assert(before[i] == ticks[i]);
        }
        lemma_stun_ends(data, before);
        lemma_run_wf(data, before);
        lemma_run_keeps_context(data, before);
        if let CharacterState::Stunned(earlier) = run(CharacterState::Stunned(data), before) {
            lemma_tick_uses_time(earlier, ticks.last());
        }
    }
}

} // verus!
