use action_state::adapter::Scalar;
use action_state::character::{CharacterBehavior, CharacterState, PoiseState};
use action_state::duration::Duration;
use action_state::idle;
use action_state::stage::{StageSection, TickContext};
use action_state::stunned::{Data, StaticData};
use action_state::wielding;

fn static_data() -> StaticData {
    StaticData {
        buildup_duration: Duration::from_millis(1_000),
        recover_duration: Duration::from_millis(500),
        movement_speed: Scalar { bits: 0.75_f32.to_bits() },
        poise_state: PoiseState::KnockedDown,
    }
}

/// Resolves the stun tick by tick until it gives way, and returns every state
/// on the way, the first and the successor included.
fn follow(data: Data, dt_millis: u64, limit: usize) -> Vec<CharacterState> {
    let ctx = TickContext { dt: Duration::from_millis(dt_millis), skip_requested: false };
    let mut states = vec![CharacterState::Stunned(data)];
    let mut current = data;
    for _ in 0..limit {
        let mut events: Vec<u8> = Vec::new();
        let update = current.behavior(&ctx, &mut events);
        assert!(events.is_empty());
        assert_eq!(update.adapter_calls.len(), 2);
        states.push(update.character);
        match update.character {
            CharacterState::Stunned(next) => current = next,
            _ => return states,
        }
    }
    panic!("the stun did not end within {} ticks", limit);
}

fn progress(state: &CharacterState) -> u8 {
    match state {
        CharacterState::Stunned(data) => match data.stage_section {
            StageSection::Buildup => 0,
            StageSection::Recover => 1,
            StageSection::Other => 2,
        },
        _ => 3,
    }
}

#[test]
fn stun_runs_its_stages_in_order() {
    let states = follow(Data::new(static_data(), false), 300, 100);
    let stages: Vec<u8> = states.iter().map(progress).collect();
    assert_eq!(stages, vec![0, 0, 0, 0, 0, 1, 1, 1, 3]);
    for pair in stages.windows(2) {
        assert!(pair[0] <= pair[1]);
    }
}

#[test]
fn stun_timers_along_a_run() {
    let states = follow(Data::new(static_data(), false), 300, 100);
    let timers: Vec<Duration> = states
        .iter()
        .filter_map(|state| match state {
            CharacterState::Stunned(data) => Some(data.timer),
            _ => None,
        })
        .collect();
    let expected: Vec<Duration> = [0, 300, 600, 900, 1_200, 0, 300, 600]
        .iter()
        .map(|&ms| Duration::from_millis(ms))
        .collect();
    assert_eq!(timers, expected);
}

#[test]
fn timer_is_short_of_the_duration_whenever_a_stage_goes_on() {
    let states = follow(Data::new(static_data(), true), 70, 100);
    for pair in states.windows(2) {
        if let (CharacterState::Stunned(before), CharacterState::Stunned(after)) =
            (pair[0], pair[1])
        {
            let duration = match before.stage_section {
                StageSection::Buildup => before.static_data.buildup_duration,
                _ => before.static_data.recover_duration,
            };
            if after.stage_section == before.stage_section {
                assert!(before.timer.lt(&duration));
                assert!(after.timer.lt(&duration.saturating_add(Duration::from_millis(70))));
            } else {
                assert!(!before.timer.lt(&duration));
                assert_eq!(after.timer, Duration::zero());
            }
        }
    }
}

#[test]
fn static_data_is_the_same_in_every_state_of_a_run() {
    let states = follow(Data::new(static_data(), true), 130, 100);
    let mut stunned = 0;
    for state in &states {
        if let CharacterState::Stunned(data) = state {
            assert_eq!(data.static_data, static_data());
            assert!(data.was_wielded);
            stunned += 1;
        }
    }
    assert_eq!(stunned, states.len() - 1);
}

#[test]
fn run_ends_idling_without_a_readied_weapon() {
    let states = follow(Data::new(static_data(), false), 250, 100);
    assert_eq!(states.last(), Some(&CharacterState::Idle(idle::Data::default())));
}

#[test]
fn run_ends_wielding_with_a_readied_weapon() {
    let states = follow(Data::new(static_data(), true), 250, 100);
    assert_eq!(
        states.last(),
        Some(&CharacterState::Wielding(wielding::Data { is_sneaking: false }))
    );
}

#[test]
fn run_takes_no_more_ticks_than_its_durations_allow() {
    let brief = StaticData {
        buildup_duration: Duration::new(0, 5),
        recover_duration: Duration::new(0, 3),
        ..static_data()
    };
    let ctx = TickContext { dt: Duration::new(0, 1), skip_requested: false };
    let mut current = Data::new(brief, false);
    let mut ticks = 0;
    loop {
        let mut events: Vec<u8> = Vec::new();
        ticks += 1;
        match current.behavior(&ctx, &mut events).character {
            CharacterState::Stunned(next) => current = next,
            successor => {
                assert_eq!(successor, CharacterState::Idle(idle::Data::default()));
                break;
            },
        }
        assert!(ticks <= 10);
    }
    assert_eq!(ticks, 5 + 3 + 2);
}

#[test]
fn stun_without_durations_ends_on_the_second_tick() {
    let instant = StaticData {
        buildup_duration: Duration::zero(),
        recover_duration: Duration::zero(),
        ..static_data()
    };
    let states = follow(Data::new(instant, true), 16, 10);
    let stages: Vec<u8> = states.iter().map(progress).collect();
    assert_eq!(stages, vec![0, 1, 3]);
}

#[test]
fn corrupt_stage_ends_a_run_on_the_first_tick() {
    let corrupt = Data {
        static_data: static_data(),
        timer: Duration::from_millis(123),
        stage_section: StageSection::Other,
        was_wielded: true,
    };
    let states = follow(corrupt, 16, 10);
    assert_eq!(states.len(), 2);
    assert_eq!(states[1], CharacterState::Wielding(wielding::Data { is_sneaking: false }));
}
