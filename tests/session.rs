use pomo::{Clock, Moment, PomoConfig, Session, SessionMode, Span};

const SEC: u128 = 1_000_000_000;
const MIN: u128 = 60 * SEC;

fn at(nanos: u128) -> Moment {
    Moment { nanos }
}

#[test]
fn default_config_is_25_5_15() {
    let cfg = PomoConfig::default();
    assert_eq!(cfg.long_session_minutes, 25);
    assert_eq!(cfg.short_break_minutes, 5);
    assert_eq!(cfg.long_break_minutes, 15);
}

#[test]
fn every_mode_has_a_duration() {
    let cfg = PomoConfig::default();
    assert_eq!(cfg.duration_of(SessionMode::LongSession), Span { nanos: 25 * MIN });
    assert_eq!(cfg.duration_of(SessionMode::ShortBreak), Span { nanos: 5 * MIN });
    assert_eq!(cfg.duration_of(SessionMode::LongBreak), Span { nanos: 15 * MIN });
}

#[test]
fn injected_config_sets_duration() {
    let cfg = PomoConfig { long_session_minutes: 50, short_break_minutes: 10, long_break_minutes: 30 };
    let s = Session::init(SessionMode::ShortBreak, &cfg, at(7));
    assert_eq!(s.duration(), Span { nanos: 10 * MIN });
    assert_eq!(s.mode(), SessionMode::ShortBreak);
    assert!(!s.is_paused());
}

#[test]
fn largest_configured_minutes_do_not_overflow() {
    let cfg = PomoConfig { long_session_minutes: u64::MAX, short_break_minutes: 0, long_break_minutes: 0 };
    assert_eq!(cfg.duration_of(SessionMode::LongSession).nanos, u64::MAX as u128 * MIN);
    assert_eq!(cfg.duration_of(SessionMode::ShortBreak).nanos, 0);
}

#[test]
fn remaining_after_ten_minutes_of_default_long_session() {
    let t = 123 * SEC;
    let s = Session::init(SessionMode::LongSession, &PomoConfig::default(), at(t));
    assert_eq!(s.remaining_at(at(t)), Span { nanos: 25 * MIN });
    assert_eq!(s.remaining_at(at(t + 10 * MIN)), Span { nanos: 15 * MIN });
    assert!(!s.is_ended_at(at(t + 24 * MIN + 59 * SEC)));
    assert!(s.is_ended_at(at(t + 25 * MIN + SEC)));
}

#[test]
fn pause_for_two_minutes_keeps_twenty_left() {
    let t = 5 * SEC;
    let mut s = Session::init(SessionMode::LongSession, &PomoConfig::default(), at(t));
    let before = s.remaining_at(at(t + 5 * MIN));
    assert_eq!(before, Span { nanos: 20 * MIN });
    s.toggle_pause_at(at(t + 5 * MIN));
    assert!(s.is_paused());
    assert_eq!(s.remaining_at(at(t + 6 * MIN)), Span { nanos: 20 * MIN });
    s.toggle_pause_at(at(t + 7 * MIN));
    assert!(!s.is_paused());
    assert_eq!(s.remaining_at(at(t + 7 * MIN)), before);
    assert_eq!(s.remaining_at(at(t + 8 * MIN)), Span { nanos: 19 * MIN });
}

#[test]
fn pauses_do_not_drift() {
    let mut s = Session::init(SessionMode::LongSession, &PomoConfig::default(), at(0));
    // runs 1 min, paused 3 min, runs 2 min, paused 10 min, runs 30 s
    s.toggle_pause_at(at(MIN));
    s.toggle_pause_at(at(4 * MIN));
    s.toggle_pause_at(at(6 * MIN));
    s.toggle_pause_at(at(16 * MIN));
    let left = s.remaining_at(at(16 * MIN + 30 * SEC));
    assert_eq!(left.nanos, 25 * MIN - (MIN + 2 * MIN + 30 * SEC));
}

#[test]
fn toggle_twice_at_one_moment_changes_nothing() {
    let mut s = Session::init(SessionMode::ShortBreak, &PomoConfig::default(), at(0));
    let before = s.remaining_at(at(2 * MIN));
    s.toggle_pause_at(at(MIN));
    s.toggle_pause_at(at(MIN));
    assert!(!s.is_paused());
    assert_eq!(s.remaining_at(at(2 * MIN)), before);

    s.toggle_pause_at(at(2 * MIN));
    let frozen = s.remaining_at(at(3 * MIN));
    s.toggle_pause_at(at(4 * MIN));
    s.toggle_pause_at(at(4 * MIN));
    assert!(s.is_paused());
    assert_eq!(s.remaining_at(at(9 * MIN)), frozen);
}

#[test]
fn ended_exactly_when_nothing_is_left() {
    let s = Session::init(SessionMode::ShortBreak, &PomoConfig::default(), at(0));
    assert!(!s.is_ended_at(at(5 * MIN - 1)));
    assert_eq!(s.remaining_at(at(5 * MIN - 1)).nanos, 1);
    assert!(s.is_ended_at(at(5 * MIN + 1)));
    assert_eq!(s.remaining_at(at(5 * MIN + 1)).nanos, 0);
    // at the very end nothing is left, and the session has not yet ended
    assert!(!s.is_ended_at(at(5 * MIN)));
    assert_eq!(s.remaining_at(at(5 * MIN)).nanos, 0);
}

#[test]
fn paused_session_does_not_end() {
    let mut s = Session::init(SessionMode::ShortBreak, &PomoConfig::default(), at(0));
    s.toggle_pause_at(at(MIN));
    assert!(!s.is_ended_at(at(60 * MIN)));
    assert_eq!(s.remaining_at(at(60 * MIN)), Span { nanos: 4 * MIN });
}

#[test]
fn clock_reading_before_start_counts_as_nothing_elapsed() {
    let s = Session::init(SessionMode::ShortBreak, &PomoConfig::default(), at(10 * MIN));
    assert_eq!(s.remaining_at(at(MIN)), Span { nanos: 5 * MIN });
    assert!(!s.is_ended_at(at(0)));
}

#[test]
fn resume_before_pause_reading_adds_no_pause() {
    let mut s = Session::init(SessionMode::ShortBreak, &PomoConfig::default(), at(0));
    s.toggle_pause_at(at(2 * MIN));
    s.toggle_pause_at(at(MIN));
    assert!(!s.is_paused());
    assert_eq!(s.remaining_at(at(2 * MIN)), Span { nanos: 3 * MIN });
}

#[test]
fn resume_near_clock_limit_saturates() {
    let mut s = Session::init(SessionMode::ShortBreak, &PomoConfig::default(), at(u128::MAX - 10));
    s.toggle_pause_at(at(0));
    s.toggle_pause_at(at(u128::MAX));
    assert!(!s.is_paused());
    assert_eq!(s.remaining_at(at(u128::MAX)), Span { nanos: 5 * MIN });
}

#[test]
fn live_clock_session_counts_down() {
    let clock = Clock::start();
    let cfg = PomoConfig::default();
    let mut s = Session::new(SessionMode::LongBreak, &cfg, &clock);
    assert_eq!(s.mode(), SessionMode::LongBreak);
    assert_eq!(s.duration(), Span { nanos: 15 * MIN });
    assert!(!s.is_ended(&clock));
    let left = s.remaining(&clock);
    assert!(left.nanos <= 15 * MIN);
    assert!(left.nanos > 14 * MIN);
    s.toggle_pause(&clock);
    assert!(s.is_paused());
    let frozen = s.remaining(&clock);
    assert_eq!(s.remaining(&clock), frozen);
    s.toggle_pause(&clock);
    assert!(!s.is_paused());
}

#[test]
fn clock_readings_do_not_go_back() {
    let clock = Clock::start();
    let a = clock.now();
    let b = clock.now();
    assert!(a.nanos <= b.nanos);
}

#[test]
fn mode_labels() {
    assert_eq!(SessionMode::LongSession.label(), "LongSession");
    assert_eq!(SessionMode::ShortBreak.label(), "ShortBreak");
    assert_eq!(SessionMode::LongBreak.label(), "LongBreak");
}

#[test]
fn span_seconds() {
    assert_eq!(Span::from_secs(90), Span { nanos: 90 * SEC });
    assert_eq!(Span { nanos: 90 * SEC + 999_999_999 }.as_secs(), 90);
}
