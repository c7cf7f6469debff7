use shape_transition::easing::EaseFunction;
use shape_transition::events::{new, submit_transition, NewTransition};
use shape_transition::shader::{Rgba, TransitionDefinition};
use shape_transition::state::{advance, update, Tick, TransitionState};

const SECOND: u64 = 1_000_000_000;

fn fixed(value: f64) -> i64 {
    (value * 1e9).round() as i64
}

fn rgba(red: f64, green: f64, blue: f64, alpha: f64) -> Rgba {
    Rgba { red: fixed(red), green: fixed(green), blue: fixed(blue), alpha: fixed(alpha) }
}

fn power_curve(easing: EaseFunction, progress: u64) -> Option<i64> {
    let t = progress as f64 / 1e9;
    if !(0.0..=1.0).contains(&t) {
        return None;
    }
    let eased = match easing {
        EaseFunction::Linear => t,
        EaseFunction::QuadraticIn => t.powi(2),
        EaseFunction::CubicIn => t.powi(3),
        EaseFunction::QuarticIn => t.powi(4),
        EaseFunction::QuinticIn => t.powi(5),
        _ => return None,
    };
    Some(fixed(eased))
}

fn pastel_brown() -> NewTransition {
    NewTransition {
        angle: 0,
        color: rgba(0.8, 0.6, 0.6, 1.0),
        color2: None,
        duration: 1_800_000_000,
        ease: EaseFunction::QuarticIn,
    }
}

#[test]
fn wipe_to_pastel_brown_runs_and_ends() {
    let mut shader = TransitionDefinition::default();
    let mut state = TransitionState::default();
    assert_eq!(shader.color2, rgba(0.0, 0.0, 0.0, 0.0));
    assert_eq!(state.started(), None);

    let start = 7 * SECOND;
    assert_eq!(submit_transition(&mut shader, &mut state, start, &pastel_brown()), Ok(()));
    assert_eq!(shader.color1, rgba(0.0, 0.0, 0.0, 0.0));
    assert_eq!(shader.color2, rgba(0.8, 0.6, 0.6, 1.0));
    assert_eq!(shader.driver, 0);
    assert_eq!(shader.movement_angle, 0);
    assert_eq!(state.progress(), 0);
    assert_eq!(state.started(), Some(start));
    assert_eq!(state.duration(), 1_800_000_000);
    assert_eq!(state.definition(), EaseFunction::QuarticIn);

    let tick = update(&mut shader, &mut state, start + 900_000_000, 900_000_000, power_curve);
    assert_eq!(tick, Tick::Advanced { easing: EaseFunction::QuarticIn, progress: 500_000_000 });
    assert_eq!(state.progress(), 500_000_000);
    assert_eq!(shader.driver, 62_500_000);
    assert_eq!(shader.color1, rgba(0.0, 0.0, 0.0, 0.0));

    let tick = update(&mut shader, &mut state, start + 1_810_000_001, 910_000_001, power_curve);
    assert_eq!(tick, Tick::Completed);
    assert_eq!(state.started(), None);
    assert_eq!(state.progress(), 0);
    assert_eq!(shader.driver, 0);
    assert_eq!(shader.color1, rgba(0.8, 0.6, 0.6, 1.0));
    assert_eq!(shader.color2, rgba(0.8, 0.6, 0.6, 1.0));
}

#[test]
fn wipe_at_sixty_frames_a_second_is_half_done_after_half_the_time() {
    let mut shader = TransitionDefinition::default();
    let mut state = TransitionState::default();
    assert_eq!(submit_transition(&mut shader, &mut state, 0, &pastel_brown()), Ok(()));
    let frame: u64 = 16_666_667;
    let mut now: u64 = 0;
    let mut last = 0;
    for _ in 0..54 {
        now += frame;
        let tick = update(&mut shader, &mut state, now, frame, power_curve);
        assert!(matches!(tick, Tick::Advanced { .. }));
        assert!(state.progress() >= last);
        last = state.progress();
    }
    assert!((state.progress() as i64 - 500_000_000).abs() < 1_000);
    assert!((shader.driver - 62_500_000).abs() < 1_000);
    let mut frames = 54;
    while state.started().is_some() {
        now += frame;
        update(&mut shader, &mut state, now, frame, power_curve);
        frames += 1;
        assert!(frames < 200);
    }
    assert!(now > 1_810_000_000);
    assert!(now - frame <= 1_810_000_000);
    assert_eq!(shader.color1, rgba(0.8, 0.6, 0.6, 1.0));
    assert_eq!(shader.driver, 0);
    assert_eq!(state.progress(), 0);
}

#[test]
fn wipe_is_still_running_at_exactly_duration_plus_epsilon() {
    let mut shader = TransitionDefinition::default();
    let mut state = TransitionState::default();
    let start = 3 * SECOND;
    assert_eq!(submit_transition(&mut shader, &mut state, start, &pastel_brown()), Ok(()));
    let tick = advance(&mut shader, &mut state, start + 1_810_000_000, 0);
    assert_eq!(tick, Tick::Advanced { easing: EaseFunction::QuarticIn, progress: 0 });
    assert_eq!(state.started(), Some(start));
    let tick = advance(&mut shader, &mut state, start + 1_810_000_001, 1);
    assert_eq!(tick, Tick::Completed);
    assert_eq!(state.started(), None);
}

#[test]
fn second_request_interrupts_the_first() {
    let mut shader = TransitionDefinition::default();
    let mut state = TransitionState::default();
    let first = pastel_brown();
    let second = NewTransition {
        angle: fixed(180.0),
        color: rgba(0.6, 0.6, 0.8, 1.0),
        color2: None,
        duration: 500_000_000,
        ease: EaseFunction::Linear,
    };
    assert_eq!(submit_transition(&mut shader, &mut state, SECOND, &first), Ok(()));
    update(&mut shader, &mut state, SECOND + 600_000_000, 600_000_000, power_curve);
    assert!(state.progress() > 0);
    assert!(shader.driver > 0);

    let restart = SECOND + 700_000_000;
    assert_eq!(submit_transition(&mut shader, &mut state, restart, &second), Ok(()));
    assert_eq!(state.definition(), EaseFunction::Linear);
    assert_eq!(state.duration(), 500_000_000);
    assert_eq!(state.progress(), 0);
    assert_eq!(state.started(), Some(restart));
    assert_eq!(shader.driver, 0);
    assert_eq!(shader.movement_angle, fixed(180.0));
    assert_eq!(shader.color1, rgba(0.8, 0.6, 0.6, 1.0));
    assert_eq!(shader.color2, rgba(0.6, 0.6, 0.8, 1.0));

    let tick = update(&mut shader, &mut state, restart + 250_000_000, 250_000_000, power_curve);
    assert_eq!(tick, Tick::Advanced { easing: EaseFunction::Linear, progress: 500_000_000 });
    assert_eq!(shader.driver, 500_000_000);

    let tick = update(&mut shader, &mut state, restart + 510_000_001, 260_000_001, power_curve);
    assert_eq!(tick, Tick::Completed);
    assert_eq!(shader.color1, rgba(0.6, 0.6, 0.8, 1.0));
    let tick = update(&mut shader, &mut state, restart + 3 * SECOND, SECOND, power_curve);
    assert_eq!(tick, Tick::Idle);
    assert_eq!(state.started(), None);
    assert_eq!(shader.color1, rgba(0.6, 0.6, 0.8, 1.0));
}

#[test]
fn two_requests_in_one_tick_leave_only_the_second_running() {
    let mut shader = TransitionDefinition::default();
    let mut state = TransitionState::default();
    let first = pastel_brown();
    let second = NewTransition {
        angle: fixed(90.0),
        color: rgba(0.1, 0.2, 0.3, 1.0),
        color2: None,
        duration: 2_500_000_000,
        ease: EaseFunction::CubicIn,
    };
    assert_eq!(new(&vec![first, second], &mut shader, &mut state, 42), Ok(()));
    assert_eq!(state.definition(), EaseFunction::CubicIn);
    assert_eq!(state.duration(), 2_500_000_000);
    assert_eq!(state.progress(), 0);
    assert_eq!(state.started(), Some(42));
    assert_eq!(shader.color1, rgba(0.8, 0.6, 0.6, 1.0));
    assert_eq!(shader.color2, rgba(0.1, 0.2, 0.3, 1.0));
    assert_eq!(shader.movement_angle, fixed(90.0));
    assert_eq!(shader.driver, 0);
}
