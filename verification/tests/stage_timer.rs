use action_state::duration::Duration;
use action_state::stage::{tick_or_skip, tick_stage, SkipPolicy, StageTick, TickContext};

fn tick(millis: u64, skip_requested: bool) -> TickContext {
    TickContext { dt: Duration::from_millis(millis), skip_requested }
}

#[test]
fn timer_advances_by_elapsed_time() {
    let next = tick_or_skip(&tick(200, false), Duration::from_millis(900), SkipPolicy::Ignore);
    assert_eq!(next, Duration::from_millis(1_100));
}

#[test]
fn ignored_skip_request_advances_by_elapsed_time() {
    let next = tick_or_skip(&tick(200, true), Duration::from_millis(900), SkipPolicy::Ignore);
    assert_eq!(next, Duration::from_millis(1_100));
}

#[test]
fn skip_request_advances_by_the_policy_span() {
    let policy = SkipPolicy::AdvanceBy(Duration::from_secs(60));
    let next = tick_or_skip(&tick(200, true), Duration::from_millis(900), policy);
    assert_eq!(next, Duration::from_millis(60_900));
}

#[test]
fn policy_span_waits_for_a_skip_request() {
    let policy = SkipPolicy::AdvanceBy(Duration::from_secs(60));
    let next = tick_or_skip(&tick(200, false), Duration::from_millis(900), policy);
    assert_eq!(next, Duration::from_millis(1_100));
}

#[test]
fn timer_stops_at_the_longest_span() {
    let ctx = TickContext { dt: Duration::max(), skip_requested: false };
    let next = tick_or_skip(&ctx, Duration::from_millis(1), SkipPolicy::Ignore);
    assert_eq!(next, Duration::max());
}

#[test]
fn stage_short_of_its_duration_goes_on() {
    let outcome = tick_stage(
        &tick(200, false),
        Duration::from_millis(900),
        Duration::from_secs(1),
        SkipPolicy::Ignore,
    );
    assert_eq!(outcome, StageTick::Running(Duration::from_millis(1_100)));
}

#[test]
fn stage_at_its_duration_is_finished() {
    let outcome = tick_stage(
        &tick(200, false),
        Duration::from_secs(1),
        Duration::from_secs(1),
        SkipPolicy::Ignore,
    );
    assert_eq!(outcome, StageTick::Finished);
}

#[test]
fn stage_past_its_duration_is_finished() {
    let outcome = tick_stage(
        &tick(200, false),
        Duration::from_millis(1_100),
        Duration::from_secs(1),
        SkipPolicy::Ignore,
    );
    assert_eq!(outcome, StageTick::Finished);
}

#[test]
fn stage_without_duration_is_finished_at_once() {
    let outcome =
        tick_stage(&tick(200, false), Duration::zero(), Duration::zero(), SkipPolicy::Ignore);
    assert_eq!(outcome, StageTick::Finished);
}

#[test]
fn stage_with_zero_elapsed_time_stands_still() {
    let outcome = tick_stage(
        &tick(0, false),
        Duration::from_millis(10),
        Duration::from_secs(1),
        SkipPolicy::Ignore,
    );
    assert_eq!(outcome, StageTick::Running(Duration::from_millis(10)));
}

#[test]
fn skipped_stage_finishes_on_the_next_tick() {
    let policy = SkipPolicy::AdvanceBy(Duration::from_secs(3_600));
    let duration = Duration::from_secs(5);
    let first = tick_stage(&tick(16, true), Duration::from_millis(100), duration, policy);
    assert_eq!(first, StageTick::Running(Duration::from_millis(3_600_100)));
    let second = tick_stage(&tick(16, false), Duration::from_millis(3_600_100), duration, policy);
    assert_eq!(second, StageTick::Finished);
}

#[test]
fn stage_of_the_longest_duration_finishes_once_the_timer_is_full() {
    let ctx = TickContext { dt: Duration::max(), skip_requested: false };
    let first = tick_stage(&ctx, Duration::from_secs(1), Duration::max(), SkipPolicy::Ignore);
    assert_eq!(first, StageTick::Running(Duration::max()));
    let second = tick_stage(&ctx, Duration::max(), Duration::max(), SkipPolicy::Ignore);
    assert_eq!(second, StageTick::Finished);
}
