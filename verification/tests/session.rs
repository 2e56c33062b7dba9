use pomodoro::config::SessionConfig;
use pomodoro::session::{long_break_due, Directive, Phase, PhaseKind, Session, SessionState};

fn config(work: u64, brk: u64, long: u64, cycles: u32) -> SessionConfig {
    SessionConfig {
        work_minutes: work,
        break_minutes: brk,
        long_break_minutes: long,
        cycles,
        sound_file: None,
    }
}

fn expect_phase(s: &mut Session, kind: PhaseKind, secs: u64) {
    let d = s.step();
    assert_eq!(d, Directive::RunPhase(Phase { kind, duration_secs: secs }));
}

fn expect_decide(s: &mut Session) {
    let d = s.step();
    assert_eq!(d, Directive::Decide);
}

fn expect_await(s: &mut Session) {
    let d = s.step();
    assert_eq!(d, Directive::AwaitInput);
}

#[test]
fn fresh_session_starts_at_work_with_counter_one() {
    let s = Session::new(config(25, 5, 15, 4));
    assert_eq!(s.cycle_count, 1);
    assert_eq!(s.state, SessionState::Work);
}

#[test]
fn phase_duration_is_minutes_times_sixty() {
    let mut s = Session::new(config(1, 2, 3, 4));
    expect_phase(&mut s, PhaseKind::Work, 60);
    expect_decide(&mut s);
    expect_phase(&mut s, PhaseKind::Break, 120);
}

#[test]
fn zero_minute_phase_runs_for_zero_seconds() {
    let mut s = Session::new(config(0, 0, 0, 1));
    expect_phase(&mut s, PhaseKind::Work, 0);
    expect_decide(&mut s);
    expect_phase(&mut s, PhaseKind::LongBreak, 0);
}

#[test]
fn default_scenario_long_break_on_fourth_pair() {
    // work=25, break=5, long-break=15, cycles=4: three Work/Break pairs,
    // then the fourth break is a Long Break and the counter resets to 1.
    let mut s = Session::new(config(25, 5, 15, 4));
    for pair in 0..3u32 {
        expect_phase(&mut s, PhaseKind::Work, 1500);
        expect_decide(&mut s);
        expect_phase(&mut s, PhaseKind::Break, 300);
        expect_await(&mut s);
        assert_eq!(s.cycle_count, pair + 2);
    }
    expect_phase(&mut s, PhaseKind::Work, 1500);
    expect_decide(&mut s);
    expect_phase(&mut s, PhaseKind::LongBreak, 900);
    expect_await(&mut s);
    assert_eq!(s.cycle_count, 1);
    assert_eq!(s.state, SessionState::Work);
}

#[test]
fn cycles_one_every_break_is_long() {
    let mut s = Session::new(config(25, 5, 15, 1));
    for _ in 0..5 {
        assert_eq!(s.cycle_count, 1);
        expect_phase(&mut s, PhaseKind::Work, 1500);
        expect_decide(&mut s);
        expect_phase(&mut s, PhaseKind::LongBreak, 900);
        expect_await(&mut s);
    }
    assert_eq!(s.cycle_count, 1);
}

#[test]
fn default_invocation_reproduces_default_scenario() {
    // A configuration built from the defaults steps exactly like one built
    // from the explicit values 25/5/15/4.
    let mut from_defaults = Session::new(SessionConfig::default());
    let mut explicit = Session::new(config(25, 5, 15, 4));
    for _ in 0..40 {
        assert_eq!(from_defaults.step(), explicit.step());
        assert_eq!(from_defaults.cycle_count, explicit.cycle_count);
        assert_eq!(from_defaults.state, explicit.state);
    }
}

#[test]
fn default_config_values() {
    let c = SessionConfig::default();
    assert_eq!(c.work_minutes, 25);
    assert_eq!(c.break_minutes, 5);
    assert_eq!(c.long_break_minutes, 15);
    assert_eq!(c.cycles, 4);
    assert!(c.sound_file.is_none());
}

#[test]
fn decision_same_inputs_same_branch() {
    for &(count, cycles) in &[(1u32, 1u32), (1, 4), (4, 4), (5, 4), (3, 4)] {
        let first = long_break_due(count, cycles);
        let second = long_break_due(count, cycles);
        assert_eq!(first, second);
        assert_eq!(first, count >= cycles);
    }
}

#[test]
fn cycle_counter_increments_only_after_ordinary_break() {
    let mut s = Session::new(config(10, 2, 20, 3));
    expect_phase(&mut s, PhaseKind::Work, 600);
    assert_eq!(s.cycle_count, 1);
    expect_decide(&mut s);
    assert_eq!(s.cycle_count, 1);
    expect_phase(&mut s, PhaseKind::Break, 120);
    assert_eq!(s.cycle_count, 2);
}

#[test]
fn phase_labels() {
    assert_eq!(PhaseKind::Work.label(), "Work");
    assert_eq!(PhaseKind::Break.label(), "Break");
    assert_eq!(PhaseKind::LongBreak.label(), "Long Break");
}

#[test]
fn completion_messages() {
    assert_eq!(
        PhaseKind::Work.completion_message(),
        "Work session completed! Time for a break."
    );
    assert_eq!(PhaseKind::Break.completion_message(), "Break completed! Back to work.");
    assert_eq!(
        PhaseKind::LongBreak.completion_message(),
        "Long break completed! Ready for a new set of cycles."
    );
}
