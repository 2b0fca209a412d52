use porsmo::{
    clock_parts, pomodoro_alert_message, Command, Counter, PomoConfig, PomoState, PomoStateMode,
    PomoView, PomodoroMode, PomodoroSession,
};

const MIN: u64 = 60_000;

fn config() -> PomoConfig {
    PomoConfig::new(25 * MIN, 5 * MIN, 10 * MIN)
}

fn running_counter(s: &PomoState) -> Counter {
    match s.mode {
        PomoStateMode::Running { counter } => counter,
        PomoStateMode::Skip { .. } => panic!("expected a running state"),
    }
}

#[test]
fn counter_sums_stretches() {
    let c = Counter::new().start(100);
    assert_eq!(c.elapsed(350), 250);
    let c = c.stop(400);
    assert_eq!(c.elapsed(10_000), 300);
    assert!(!c.started());
    let c = c.start(1000).stop(1500);
    assert_eq!(c.elapsed(9999), 800);
}

#[test]
fn counter_start_and_stop_are_idempotent() {
    let c = Counter::new().start(10);
    assert_eq!(c.start(50), c);
    let s = c.stop(60);
    assert_eq!(s.stop(90), s);
    assert_eq!(s.elapsed(90), 50);
}

#[test]
fn counter_reading_before_start_counts_nothing() {
    let c = Counter::from_elapsed(7).start(100);
    assert_eq!(c.elapsed(50), 7);
}

#[test]
fn counter_saturates_instead_of_wrapping() {
    let c = Counter::from_elapsed(u64::MAX - 5).start(0);
    assert_eq!(c.elapsed(100), u64::MAX);
}

#[test]
fn pause_resume_toggle_keep_elapsed_without_time_passing() {
    let s = PomoState::new(config(), 0);
    let mut s = s.handle_command(Command::Pause, 3 * MIN).unwrap();
    let before = s.elapsed(3 * MIN);
    for cmd in [Command::Toggle, Command::Resume, Command::Toggle, Command::Toggle, Command::Pause] {
        s = s.handle_command(cmd, 3 * MIN).unwrap();
        assert_eq!(s.elapsed(3 * MIN), before);
    }
    assert_eq!(before, 3 * MIN);
}

#[test]
fn paused_counter_does_not_advance() {
    let s = PomoState::new(config(), 0);
    let s = s.handle_command(Command::Pause, MIN).unwrap();
    assert_eq!(s.elapsed(20 * MIN), MIN);
    assert!(!running_counter(&s).started());
    let s = s.handle_command(Command::Resume, 20 * MIN).unwrap();
    assert_eq!(s.elapsed(21 * MIN), 2 * MIN);
}

#[test]
fn session_cycle_of_eight() {
    let mut s = PomodoroSession::new();
    let expected = [
        PomodoroMode::Work,
        PomodoroMode::Break,
        PomodoroMode::Work,
        PomodoroMode::Break,
        PomodoroMode::Work,
        PomodoroMode::Break,
        PomodoroMode::Work,
        PomodoroMode::LongBreak,
    ];
    for (i, mode) in expected.iter().enumerate() {
        assert_eq!(s.mode, *mode);
        assert_eq!(s.number, i as u32);
        s = s.next();
    }
    assert_eq!(s.mode, PomodoroMode::Work);
    assert_eq!(s.number, 8);
}

#[test]
fn session_next_does_not_change_receiver() {
    let s = PomodoroSession::new();
    let n = s.next();
    assert_eq!(s, PomodoroSession::new());
    assert_eq!(n.mode, PomodoroMode::Break);
    assert_eq!(s.next_mode(), PomodoroMode::Break);
}

#[test]
fn session_after_long_break_is_work() {
    let s = PomodoroSession { mode: PomodoroMode::LongBreak, number: 15 };
    let n = s.next();
    assert_eq!(n, PomodoroSession { mode: PomodoroMode::Work, number: 16 });
}

#[test]
fn targets_follow_config() {
    let c = config();
    assert_eq!(PomodoroMode::Work.current_target(&c), 25 * MIN);
    assert_eq!(PomodoroMode::Break.current_target(&c), 5 * MIN);
    assert_eq!(PomodoroMode::LongBreak.current_target(&c), 10 * MIN);
}

#[test]
fn skip_then_no_resumes_frozen_time() {
    let s = PomoState::new(config(), 0);
    let asked = s.handle_command(Command::Skip, 7 * MIN).unwrap();
    assert_eq!(asked.mode, PomoStateMode::Skip { elapsed: 7 * MIN });
    assert_eq!(asked.elapsed(30 * MIN), 7 * MIN);
    let back = asked.handle_command(Command::No, 30 * MIN).unwrap();
    assert_eq!(back.elapsed(30 * MIN), 7 * MIN);
    assert!(running_counter(&back).started());
    assert_eq!(back.session, s.session);
    assert_eq!(back.elapsed(31 * MIN), 8 * MIN);
}

#[test]
fn skip_then_quit_resumes_frozen_time() {
    let s = PomoState::new(config(), 0);
    let asked = s.handle_command(Command::Skip, 4 * MIN).unwrap();
    let back = asked.handle_command(Command::Quit, 9 * MIN).unwrap();
    assert_eq!(back.elapsed(9 * MIN), 4 * MIN);
}

#[test]
fn skip_then_yes_advances_once() {
    let mut s = PomoState::new(config(), 0);
    s.set_alert(true);
    let asked = s.handle_command(Command::Skip, 2 * MIN).unwrap();
    let next = asked.handle_command(Command::Yes, 3 * MIN).unwrap();
    assert_eq!(next.session, PomodoroSession { mode: PomodoroMode::Break, number: 1 });
    assert!(!next.alerted());
    assert_eq!(next.elapsed(3 * MIN), 0);
    assert_eq!(next.elapsed(4 * MIN), MIN);
    assert_eq!(next.target(), 5 * MIN);
}

#[test]
fn skip_then_enter_advances_once() {
    let s = PomoState::new(config(), 0);
    let asked = s.handle_command(Command::Skip, 2 * MIN).unwrap();
    let next = asked.handle_command(Command::Enter, 2 * MIN).unwrap();
    assert_eq!(next.session.number, 1);
    assert_eq!(next.elapsed(2 * MIN), 0);
}

#[test]
fn skip_ignores_other_commands() {
    let s = PomoState::new(config(), 0);
    let asked = s.handle_command(Command::Skip, 2 * MIN).unwrap();
    for cmd in [Command::Pause, Command::Resume, Command::Toggle, Command::Skip, Command::Unknown] {
        assert_eq!(asked.handle_command(cmd, 5 * MIN), Some(asked));
    }
}

#[test]
fn quit_while_running_ends() {
    let s = PomoState::new(config(), 0);
    assert_eq!(s.handle_command(Command::Quit, MIN), None);
}

#[test]
fn running_ignores_yes_no_unknown() {
    let s = PomoState::new(config(), 0);
    for cmd in [Command::Yes, Command::No, Command::Unknown] {
        assert_eq!(s.handle_command(cmd, MIN), Some(s));
    }
}

#[test]
fn early_enter_is_noop() {
    let s = PomoState::new(config(), 0);
    assert_eq!(s.handle_command(Command::Enter, 24 * MIN), Some(s));
}

#[test]
fn enter_at_target_advances() {
    let mut s = PomoState::new(config(), 0);
    assert!(s.check_alert(26 * MIN));
    let next = s.handle_command(Command::Enter, 25 * MIN).unwrap();
    assert_eq!(next.session.mode, PomodoroMode::Break);
    assert!(!next.alerted());
    assert!(!next.should_alert(25 * MIN));
}

#[test]
fn alert_fires_once_per_overrun() {
    let mut s = PomoState::new(config(), 0);
    assert!(!s.check_alert(24 * MIN));
    assert!(s.check_alert(26 * MIN));
    for k in 1..=5 {
        assert!(!s.check_alert(26 * MIN + k * 1000));
    }
    assert!(s.alerted());
    let mut next = s.handle_command(Command::Enter, 27 * MIN).unwrap();
    assert!(!next.should_alert(27 * MIN));
    assert!(!next.check_alert(31 * MIN));
    assert!(next.check_alert(32 * MIN + 1));
}

#[test]
fn alert_not_due_exactly_at_target() {
    let s = PomoState::new(config(), 0);
    assert!(!s.should_alert(25 * MIN));
    assert!(s.should_alert(25 * MIN + 1));
}

#[test]
fn twenty_five_minute_scenario() {
    let mut s = PomoState::new(PomoConfig::new(25 * MIN, 5 * MIN, 15 * MIN), 0);
    match s.view(24 * MIN) {
        PomoView::Counting { left, running, title, round, .. } => {
            assert_eq!(left, MIN);
            assert!(running);
            assert_eq!(title, "Pomodoro (Work)");
            assert_eq!(round, 0);
        }
        other => panic!("unexpected view {:?}", other),
    }
    assert!(!s.should_alert(24 * MIN));
    assert!(s.should_alert(26 * MIN));
    match s.view(26 * MIN) {
        PomoView::Overrun { excess, title, message, .. } => {
            assert_eq!(excess, MIN);
            assert_eq!(title, "Work has ended! Start break?");
            assert_eq!(message, "Time for a short break");
        }
        other => panic!("unexpected view {:?}", other),
    }
    let mut fired = 0;
    for k in 0..6u64 {
        if s.check_alert(26 * MIN + k * 1000) {
            fired += 1;
        }
    }
    assert_eq!(fired, 1);
}

#[test]
fn skip_view_asks_for_next_phase() {
    let s = PomoState::new(config(), 0);
    let asked = s.handle_command(Command::Skip, MIN).unwrap();
    match asked.view(2 * MIN) {
        PomoView::Skip { prompt, next, round, controls } => {
            assert_eq!(prompt, "skip to break?");
            assert_eq!(next, PomodoroMode::Break);
            assert_eq!(round, 0);
            assert_eq!(controls, "[Enter]: Yes, [Q/N]: No");
        }
        other => panic!("unexpected view {:?}", other),
    }
}

#[test]
fn alert_messages_announce_next_phase() {
    assert_eq!(pomodoro_alert_message(PomodoroMode::Work), ("Your break ended!", "Time for some work"));
    assert_eq!(pomodoro_alert_message(PomodoroMode::Break), ("Pomodoro ended!", "Time for a short break"));
    assert_eq!(
        pomodoro_alert_message(PomodoroMode::LongBreak),
        ("Pomodoro 4 sessions complete!", "Time for a long break")
    );
    let mut s = PomoState::new(config(), 0);
    assert_eq!(s.alert_message(), ("Pomodoro ended!", "Time for a short break"));
    for _ in 0..7 {
        let asked = s.handle_command(Command::Skip, 0).unwrap();
        s = asked.handle_command(Command::Yes, 0).unwrap();
    }
    assert_eq!(s.session.mode, PomodoroMode::LongBreak);
    assert_eq!(s.alert_message(), ("Your break ended!", "Time for some work"));
    assert_eq!(s.target(), 10 * MIN);
}

#[test]
fn clock_parts_split() {
    assert_eq!(clock_parts(0), (0, 0, 0));
    assert_eq!(clock_parts(3_723_999), (1, 2, 3));
    assert_eq!(clock_parts(59_999), (0, 0, 59));
}

#[test]
fn keys_map_to_commands() {
    assert_eq!(Command::from_char('q'), Command::Quit);
    assert_eq!(Command::from_char('S'), Command::Skip);
    assert_eq!(Command::from_char(' '), Command::Toggle);
    assert_eq!(Command::from_char('y'), Command::Yes);
    assert_eq!(Command::from_char('n'), Command::No);
    assert_eq!(Command::from_char('x'), Command::Unknown);
}

#[test]
fn advances_only_on_due_enter_or_confirmed_skip() {
    let s = PomoState::new(config(), 0);
    assert!(!s.advances(Command::Enter, 24 * MIN));
    assert!(s.advances(Command::Enter, 25 * MIN));
    assert!(!s.advances(Command::Yes, 30 * MIN));
    let asked = s.handle_command(Command::Skip, MIN).unwrap();
    assert!(asked.advances(Command::Yes, MIN));
    assert!(asked.advances(Command::Enter, MIN));
    assert!(!asked.advances(Command::No, MIN));
}

#[test]
fn last_round_still_accepts_non_advancing_commands() {
    let mut s = PomoState::new(config(), 0);
    s.session = PomodoroSession { mode: PomodoroMode::LongBreak, number: u32::MAX };
    let paused = s.handle_command(Command::Pause, MIN).unwrap();
    assert_eq!(paused.elapsed(5 * MIN), MIN);
}
