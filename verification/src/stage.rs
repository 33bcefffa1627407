//! Stages of an action state and the timer that runs within one.

use vstd::prelude::*;
use crate::duration::Duration;

verus! {

/// The phase an action state is in. Each state knows the stages it runs
/// through; `Other` stands for every stage a state does not know.
#[derive(Clone, Copy, Debug, PartialEq, Eq, Structural)]
pub enum StageSection {
    Buildup,
    Recover,
    Other,
}

/// What a tick tells the state it resolves.
#[derive(Clone, Copy, Debug, PartialEq, Eq, Structural)]
pub struct TickContext {
    /// Time elapsed since the previous tick.
    pub dt: Duration,
    /// Whether the controlling agent asked to skip the rest of a timed wait.
    pub skip_requested: bool,
}

/// How a state's stage timer answers a skip request.
#[derive(Clone, Copy, Debug, PartialEq, Eq, Structural)]
pub enum SkipPolicy {
    /// Skip requests are ignored: the timer always advances by elapsed time.
    Ignore,
    /// On a skip request the timer advances by this span in place of the
    /// elapsed time.
    AdvanceBy(Duration),
}

/// What one tick did to a stage.
#[derive(Clone, Copy, Debug, PartialEq, Eq, Structural)]
pub enum StageTick {
    /// The stage goes on, with this timer.
    Running(Duration),
    /// The stage's time was up before the tick.
    Finished,
}

/// The span by which a tick advances a stage timer under a policy.
pub open spec fn advance_of(ctx: TickContext, policy: SkipPolicy) -> Duration {
    match policy {
        SkipPolicy::Ignore => ctx.dt,
        SkipPolicy::AdvanceBy(span) => if ctx.skip_requested {
            span
        } else {
            ctx.dt
        },
    }
}

/// The timer a tick leaves behind: the old one plus the tick's advance, held at
/// the longest span.
pub open spec fn ticked(ctx: TickContext, timer: Duration, policy: SkipPolicy) -> Duration {
    timer.spec_saturating_add(advance_of(ctx, policy))
}

/// What a tick does to a stage of length `duration` whose timer stands at
/// `timer`. A timer that has reached the duration counts as done.
pub open spec fn stage_ticked(
    ctx: TickContext,
    timer: Duration,
    duration: Duration,
    policy: SkipPolicy,
) -> StageTick {
    if timer.as_nanos() < duration.as_nanos() {
        StageTick::Running(ticked(ctx, timer, policy))
    } else {
        StageTick::Finished
    }
}

/// Advances a stage timer by one tick: by the elapsed time, or, where the
/// policy names a span and the tick carries a skip request, by that span.
pub fn tick_or_skip(ctx: &TickContext, timer: Duration, policy: SkipPolicy) -> (next: Duration)
    ensures
        next == ticked(*ctx, timer, policy),
        next.wf(),
        next.as_nanos() == if timer.as_nanos() + advance_of(*ctx, policy).as_nanos()
            >= Duration::max_nanos() {
            Duration::max_nanos()
        } else {
            timer.as_nanos() + advance_of(*ctx, policy).as_nanos()
        },
{
    let advance = match policy {
        SkipPolicy::Ignore => ctx.dt,
        SkipPolicy::AdvanceBy(span) => if ctx.skip_requested {
            span
        } else {
            ctx.dt
        },
    };
    timer.saturating_add(advance)
}

/// Runs one tick of a stage: while the timer is short of the stage's
/// duration it advances and the stage goes on; once it has reached the
/// duration the stage is finished and the timer is left alone.
pub fn tick_stage(
    ctx: &TickContext,
    timer: Duration,
    duration: Duration,
    policy: SkipPolicy,
) -> (tick: StageTick)
    ensures
        tick == stage_ticked(*ctx, timer, duration, policy),
{
    if timer.lt(&duration) {
        StageTick::Running(tick_or_skip(ctx, timer, policy))
    } else {
        StageTick::Finished
    }
}

} // verus!
