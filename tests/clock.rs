use pomodoro::clock::SessionState;
use pomodoro::config::Configuration;
use pomodoro::phase::Phase;

fn minutes(focus: u32, short_break: u32, long_break: u32) -> Configuration {
    Configuration {
        focus_minutes: focus,
        short_break_minutes: short_break,
        long_break_minutes: long_break,
        alarm_path: "alarm.mp3".to_string(),
    }
}

fn tick_n(s: &mut SessionState, n: u32) -> u32 {
    let mut completions = 0;
    for _ in 0..n {
        if s.advance().is_some() {
            completions += 1;
        }
    }
    completions
}

#[test]
fn initial_state_is_full_paused_focus() {
    for (f, sb, lb) in [(25, 5, 15), (1, 1, 1), (90, 20, 30)] {
        let s = SessionState::new(minutes(f, sb, lb));
        assert_eq!(s.phase(), Phase::Focus);
        assert_eq!(s.remaining_seconds(), f * 60);
        assert_eq!(s.completed_focus_sessions(), 0);
        assert!(!s.is_running());
        assert_eq!(s.progress(), (f * 60, f * 60));
    }
}

#[test]
fn advance_while_paused_changes_nothing() {
    let mut s = SessionState::new(minutes(1, 1, 1));
    for _ in 0..10 {
        assert!(s.advance().is_none());
    }
    assert_eq!(s.remaining_seconds(), 60);
    assert_eq!(s.phase(), Phase::Focus);
    assert!(!s.is_running());
}

#[test]
fn focus_interval_completes_on_the_tick_after_zero() {
    let mut s = SessionState::new(minutes(2, 1, 1));
    s.toggle_running();
    assert_eq!(tick_n(&mut s, 120), 0);
    assert_eq!(s.remaining_seconds(), 0);
    assert_eq!(s.phase(), Phase::Focus);
    assert_eq!(tick_n(&mut s, 1), 1);
    assert_eq!(s.completed_focus_sessions(), 1);
    assert_eq!(s.phase(), Phase::ShortBreak);
    assert_eq!(s.remaining_seconds(), 60);
}

#[test]
fn one_minute_end_to_end() {
    let mut s = SessionState::new(minutes(1, 1, 1));
    s.toggle_running();
    assert!(s.is_running());
    assert_eq!(tick_n(&mut s, 60), 0);
    assert_eq!(s.remaining_seconds(), 0);
    let effect = s.advance().expect("the focus phase ends");
    assert_eq!(effect.phase, Phase::ShortBreak);
    assert_eq!(effect.title, "Pomodoro");
    assert_eq!(effect.body, "Phase Complete!");
    assert_eq!(effect.alarm_path, "alarm.mp3");
    assert_eq!(s.phase(), Phase::ShortBreak);
    assert_eq!(s.remaining_seconds(), 60);
    assert_eq!(s.completed_focus_sessions(), 1);
}

#[test]
fn breaks_follow_the_four_session_cadence() {
    let mut s = SessionState::new(minutes(1, 2, 3));
    s.toggle_running();
    let mut breaks = Vec::new();
    for cycle in 0..5u64 {
        assert_eq!(s.phase(), Phase::Focus);
        assert_eq!(tick_n(&mut s, 60), 0);
        let into_break = s.advance().expect("focus ends");
        breaks.push(into_break.phase);
        assert_eq!(s.completed_focus_sessions(), cycle + 1);
        let length = s.remaining_seconds();
        assert_eq!(tick_n(&mut s, length), 0);
        let into_focus = s.advance().expect("break ends");
        assert_eq!(into_focus.phase, Phase::Focus);
        assert_eq!(into_focus.body, "Get to Work!");
        assert_eq!(s.remaining_seconds(), 60);
        assert_eq!(s.completed_focus_sessions(), cycle + 1);
    }
    assert_eq!(
        breaks,
        vec![Phase::ShortBreak, Phase::ShortBreak, Phase::ShortBreak, Phase::LongBreak, Phase::ShortBreak]
    );
}

#[test]
fn long_break_lasts_its_own_length() {
    let mut s = SessionState::new(minutes(1, 2, 3));
    s.toggle_running();
    for _ in 0..3 {
        tick_n(&mut s, 61);
        assert_eq!(s.remaining_seconds(), 120);
        tick_n(&mut s, 121);
    }
    tick_n(&mut s, 61);
    assert_eq!(s.phase(), Phase::LongBreak);
    assert_eq!(s.remaining_seconds(), 180);
    assert_eq!(s.completed_focus_sessions(), 4);
}

#[test]
fn reset_returns_to_paused_focus_and_keeps_the_count() {
    let mut s = SessionState::new(minutes(1, 1, 1));
    s.toggle_running();
    tick_n(&mut s, 61 + 30);
    assert_eq!(s.phase(), Phase::ShortBreak);
    s.reset();
    assert_eq!(s.phase(), Phase::Focus);
    assert!(!s.is_running());
    assert_eq!(s.remaining_seconds(), 60);
    assert_eq!(s.completed_focus_sessions(), 1);
    assert_eq!(s.progress(), (60, 60));
}

#[test]
fn toggle_flips_only_the_running_flag() {
    let mut s = SessionState::new(minutes(3, 1, 1));
    s.toggle_running();
    tick_n(&mut s, 5);
    s.toggle_running();
    assert!(!s.is_running());
    assert_eq!(s.remaining_seconds(), 175);
    s.toggle_running();
    assert!(s.is_running());
    assert_eq!(s.remaining_seconds(), 175);
}

#[test]
fn configure_while_paused_restarts_the_phase() {
    let mut s = SessionState::new(minutes(25, 5, 15));
    s.toggle_running();
    tick_n(&mut s, 10);
    s.toggle_running();
    s.configure(minutes(30, 5, 15));
    assert_eq!(s.remaining_seconds(), 1800);
    assert_eq!(s.phase(), Phase::Focus);
    assert_eq!(s.progress(), (1800, 1800));
    assert_eq!(s.config().focus_minutes, 30);
}

#[test]
fn configure_while_running_waits_for_the_next_phase() {
    let mut s = SessionState::new(minutes(1, 5, 15));
    s.toggle_running();
    tick_n(&mut s, 10);
    s.configure(minutes(2, 7, 15));
    assert_eq!(s.remaining_seconds(), 50);
    assert_eq!(s.progress(), (50, 60));
    tick_n(&mut s, 51);
    assert_eq!(s.phase(), Phase::ShortBreak);
    assert_eq!(s.remaining_seconds(), 420);
    tick_n(&mut s, 421);
    assert_eq!(s.phase(), Phase::Focus);
    assert_eq!(s.remaining_seconds(), 120);
}

#[test]
fn progress_falls_then_resets_on_completion() {
    let mut s = SessionState::new(minutes(1, 2, 3));
    s.toggle_running();
    let mut last = s.progress();
    for _ in 0..60 {
        s.advance();
        let p = s.progress();
        assert_eq!(p.1, last.1);
        assert!(p.0 <= last.0);
        last = p;
    }
    assert_eq!(last, (0, 60));
    s.advance();
    assert_eq!(s.progress(), (120, 120));
}

#[test]
fn effect_carries_the_current_alarm_path() {
    let mut s = SessionState::new(minutes(1, 1, 1));
    s.set_alarm_path("/sounds/bell.ogg".to_string());
    assert_eq!(s.config().alarm_path, "/sounds/bell.ogg");
    assert_eq!(s.config().focus_minutes, 1);
    s.toggle_running();
    tick_n(&mut s, 60);
    let e = s.advance().unwrap();
    assert_eq!(e.alarm_path, "/sounds/bell.ogg");
}

#[test]
fn timer_text_follows_the_countdown() {
    let mut s = SessionState::new(minutes(25, 5, 15));
    assert_eq!(s.timer_text(), "25:00");
    s.toggle_running();
    s.advance();
    assert_eq!(s.timer_text(), "24:59");
    tick_n(&mut s, 1499);
    assert_eq!(s.timer_text(), "00:00");
}
