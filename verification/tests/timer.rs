use pomo::Action;
use pomo::KeyPress;
use pomo::LoopEvent;
use pomo::LoopStatus;
use pomo::Phase;
use pomo::PhaseConfig;
use pomo::Session;
use pomo::Spinner;
use pomo::TickOutcome;
use pomo::TimerState;
use pomo::Color;
use pomo::format_frame;

#[test]
fn small_delta_decreases_remaining() {
    let config = PhaseConfig::new(5000, 3000);
    let mut t = TimerState::initialize(&config, Phase::Active);
    let outcome = t.tick(&config, 2000);
    assert_eq!(outcome, TickOutcome::NoTransition);
    assert_eq!(t.phase, Phase::Active);
    assert_eq!(t.remaining, 3000);
    let outcome = t.tick(&config, 0);
    assert_eq!(outcome, TickOutcome::NoTransition);
    assert_eq!(t.remaining, 3000);
}

#[test]
fn exact_delta_transitions() {
    let config = PhaseConfig::new(5000, 3000);
    let mut t = TimerState::initialize(&config, Phase::Active);
    let outcome = t.tick(&config, 5000);
    assert_eq!(outcome, TickOutcome::PhaseTransitioned(Phase::Rest));
    assert_eq!(t.phase, Phase::Rest);
    assert_eq!(t.remaining, 3000);
}

#[test]
fn overshoot_applies_exactly_one_transition() {
    let config = PhaseConfig::new(5000, 3000);
    let mut t = TimerState::initialize(&config, Phase::Active);
    // An elapsed delta spanning several whole phase durations still flips
    // the phase only once, and the countdown restarts at the full new
    // duration, never negative.
    let outcome = t.tick(&config, 100_000);
    assert_eq!(outcome, TickOutcome::PhaseTransitioned(Phase::Rest));
    assert_eq!(t.phase, Phase::Rest);
    assert_eq!(t.remaining, 3000);
}

#[test]
fn rest_transitions_back_to_active() {
    let config = PhaseConfig::new(5000, 3000);
    let mut t = TimerState::initialize(&config, Phase::Rest);
    let outcome = t.tick(&config, 3000);
    assert_eq!(outcome, TickOutcome::PhaseTransitioned(Phase::Active));
    assert_eq!(t.phase, Phase::Active);
    assert_eq!(t.remaining, 5000);
}

#[test]
fn phase_sequence_alternates_with_period_two() {
    let config = PhaseConfig::new(5000, 3000);
    let mut t = TimerState::initialize(&config, Phase::Active);
    let mut phases = Vec::new();
    for _ in 0..6 {
        let remaining = t.remaining;
        let outcome = t.tick(&config, remaining);
        assert!(matches!(outcome, TickOutcome::PhaseTransitioned(_)));
        phases.push(t.phase);
    }
    assert_eq!(
        phases,
        vec![
            Phase::Rest,
            Phase::Active,
            Phase::Rest,
            Phase::Active,
            Phase::Rest,
            Phase::Active,
        ]
    );
}

#[test]
fn config_from_minutes() {
    let config = PhaseConfig::from_minutes(20, 5);
    assert_eq!(config.active, 1_200_000);
    assert_eq!(config.rest, 300_000);
    assert_eq!(config.duration(Phase::Active), 1_200_000);
    assert_eq!(config.duration(Phase::Rest), 300_000);
}

#[test]
fn spinner_cycles_after_full_period() {
    let mut s = Spinner::default();
    let len = s.animation.len();
    assert_eq!(len, 4);
    let first_round: Vec<char> = (0..len).map(|_| s.next_frame()).collect();
    assert_eq!(s.current_frame, 0);
    let second_round: Vec<char> = (0..len).map(|_| s.next_frame()).collect();
    assert_eq!(first_round, second_round);
    assert_eq!(s.current_frame, 0);
}

#[test]
fn beep_spinner_cycles() {
    let mut s = Spinner::beep();
    assert_eq!(s.animation.len(), 2);
    let a = s.next_frame();
    assert_eq!(s.current_frame, 1);
    let b = s.next_frame();
    assert_eq!(s.current_frame, 0);
    assert_ne!(a, b);
    assert_eq!(s.next_frame(), a);
    assert_eq!(s.next_frame(), b);
}

#[test]
fn spinner_for_phase_picks_the_sequence() {
    let active = Spinner::for_phase(Phase::Active);
    let rest = Spinner::for_phase(Phase::Rest);
    assert_eq!(active.animation, Spinner::default().animation);
    assert_eq!(rest.animation, Spinner::beep().animation);
    assert_eq!(active.current_frame, 0);
    assert_eq!(rest.current_frame, 0);
}

#[test]
fn format_pads_minutes_and_seconds() {
    let f = format_frame(Phase::Active, 125, 'x');
    assert_eq!(f.time_text, "02:05");
    assert_eq!(f.glyph, 'x');
}

#[test]
fn format_zero_is_all_zeros() {
    let f = format_frame(Phase::Rest, 0, 'x');
    assert_eq!(f.time_text, "00:00");
}

#[test]
fn format_keeps_three_digit_minutes() {
    let f = format_frame(Phase::Active, 7265, ' ');
    assert_eq!(f.time_text, "121:05");
}

#[test]
fn format_colors_follow_the_phase() {
    let active = format_frame(Phase::Active, 60, 'x');
    assert_eq!(active.glyph_fg, Some(Color::Green));
    assert_eq!(active.glyph_bg, Some(Color::Black));
    assert_eq!(active.time_fg, None);
    assert_eq!(active.time_bg, Some(Color::Black));
    let rest = format_frame(Phase::Rest, 60, 'x');
    assert_eq!(rest.glyph_fg, Some(Color::Green));
    assert_eq!(rest.glyph_bg, Some(Color::Black));
    assert_eq!(rest.time_fg, Some(Color::Black));
    assert_eq!(rest.time_bg, Some(Color::Green));
}

#[test]
fn one_minute_each_sixty_one_second_ticks() {
    // Active and rest both one minute; sixty-one one-second ticks starting
    // from a full active minute. Exactly one transition fires, on the
    // sixtieth cumulative second; the new phase is rest and its countdown
    // restarts at the full minute regardless of overshoot.
    let config = PhaseConfig::from_minutes(1, 1);
    let mut session = Session::new(config, Phase::Active);
    let mut transitions = 0;
    for second in 1..=61u64 {
        let before = session.timer.phase;
        let action = session.step(LoopEvent::Tick { elapsed: 1000 });
        let after = session.timer.phase;
        match action {
            Action::Render { frame: _, notify } => {
                if before != after {
                    transitions += 1;
                    assert_eq!(second, 60);
                    assert_eq!(after, Phase::Rest);
                    assert_eq!(session.timer.remaining, 60_000);
                    assert!(notify);
                } else {
                    assert!(!notify);
                }
            }
            _ => panic!("a tick while running must render"),
        }
    }
    assert_eq!(transitions, 1);
    assert_eq!(session.timer.phase, Phase::Rest);
    assert_eq!(session.timer.remaining, 59_000);
}

#[test]
fn escape_terminates_and_stops_ticking() {
    let config = PhaseConfig::from_minutes(1, 1);
    let mut session = Session::new(config, Phase::Active);
    let action = session.step(LoopEvent::Key { key: KeyPress::Escape });
    assert!(matches!(action, Action::Exit));
    assert_eq!(session.status, LoopStatus::Terminated);
    let remaining_before = session.timer.remaining;
    let frame_before = session.spinner.current_frame;
    let action = session.step(LoopEvent::Tick { elapsed: 5000 });
    assert!(matches!(action, Action::Ignore));
    assert_eq!(session.timer.remaining, remaining_before);
    assert_eq!(session.spinner.current_frame, frame_before);
}

#[test]
fn enter_and_ctrl_c_terminate_too() {
    let config = PhaseConfig::from_minutes(1, 1);
    let mut session = Session::new(config, Phase::Active);
    assert!(matches!(
        session.step(LoopEvent::Key { key: KeyPress::Enter }),
        Action::Exit
    ));
    assert_eq!(session.status, LoopStatus::Terminated);

    let mut session = Session::new(config, Phase::Active);
    assert!(matches!(
        session.step(LoopEvent::Key { key: KeyPress::CtrlC }),
        Action::Exit
    ));
    assert_eq!(session.status, LoopStatus::Terminated);
}

#[test]
fn other_keys_are_ignored() {
    let config = PhaseConfig::from_minutes(1, 1);
    let mut session = Session::new(config, Phase::Active);
    let action = session.step(LoopEvent::Key { key: KeyPress::Other });
    assert!(matches!(action, Action::Ignore));
    assert_eq!(session.status, LoopStatus::Running);
    assert_eq!(session.timer.remaining, 60_000);
}

#[test]
fn rest_to_active_does_not_notify() {
    let config = PhaseConfig::new(5000, 3000);
    let mut session = Session::new(config, Phase::Rest);
    let action = session.step(LoopEvent::Tick { elapsed: 3000 });
    match action {
        Action::Render { frame: _, notify } => assert!(!notify),
        _ => panic!("a tick while running must render"),
    }
    assert_eq!(session.timer.phase, Phase::Active);
    assert_eq!(session.timer.remaining, 5000);
}

#[test]
fn transition_switches_the_spinner_sequence() {
    let config = PhaseConfig::new(5000, 3000);
    let mut session = Session::new(config, Phase::Active);
    assert_eq!(session.spinner.animation, Spinner::default().animation);
    let action = session.step(LoopEvent::Tick { elapsed: 5000 });
    assert_eq!(session.spinner.animation, Spinner::beep().animation);
    // The new sequence was advanced once from its first glyph.
    assert_eq!(session.spinner.current_frame, 1);
    match action {
        Action::Render { frame, notify } => {
            assert!(notify);
            assert_eq!(frame.glyph, Spinner::beep().animation[0]);
            // The frame shows the new phase's full countdown.
            assert_eq!(frame.time_text, "00:03");
        }
        _ => panic!("a tick while running must render"),
    }
}

#[test]
fn render_shows_post_tick_countdown() {
    let config = PhaseConfig::from_minutes(2, 1);
    let mut session = Session::new(config, Phase::Active);
    let action = session.step(LoopEvent::Tick { elapsed: 250 });
    match action {
        Action::Render { frame, notify } => {
            assert!(!notify);
            // 119_750 ms left: 119 whole seconds, shown as 01:59.
            assert_eq!(frame.time_text, "01:59");
        }
        _ => panic!("a tick while running must render"),
    }
}
