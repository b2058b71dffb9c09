use tomat::preferences::{AlertConfig, AutoStartConfig, Preferences};
use tomat::screen::settings::{
    fits, number_input_edit, number_input_minus, number_input_plus, Action, Message, Settings,
};
use tomat::screen::timer::Phase;
use tomat::time::NANOS_PER_SEC;

const MIN: u128 = 60 * NANOS_PER_SEC;

#[test]
fn default_preferences() {
    let p = Preferences::new(vec![1, 2, 3]);
    assert_eq!(p.pomodoro_duration, 25 * MIN);
    assert_eq!(p.break_duration, 5 * MIN);
    assert_eq!(p.long_break_duration, 20 * MIN);
    assert_eq!(p.pomodoro_count, 4);
    assert!(!p.auto_start.enabled);
    assert_eq!(p.auto_start.delay, 3 * NANOS_PER_SEC);
    assert_eq!(p.alert.audio, vec![1, 2, 3]);
    assert_eq!(p.alert.timeout, 15 * NANOS_PER_SEC);
    assert!(p.alert.repeat);
    assert!(p.fits());
}

#[test]
fn duration_for_each_phase() {
    let p = Preferences::new(Vec::new());
    assert_eq!(p.duration_for(Phase::Focus), 25 * MIN);
    assert_eq!(p.duration_for(Phase::Break), 5 * MIN);
    assert_eq!(p.duration_for(Phase::LongBreak), 20 * MIN);
}

#[test]
fn auto_start_config_in_seconds() {
    let c = AutoStartConfig::new(true, 3);
    assert!(c.enabled);
    assert_eq!(c.delay, 3 * NANOS_PER_SEC);
}

#[test]
fn alert_loops_for_the_timeout_only_when_repeating() {
    let mut a = AlertConfig::with_audio(vec![9]);
    assert_eq!(a.loop_limit(), Some(15 * NANOS_PER_SEC));
    a.repeat = false;
    assert_eq!(a.loop_limit(), None);
}

#[test]
fn clone_keeps_everything() {
    let p = Preferences::new(vec![4, 5]);
    let q = p.clone();
    assert_eq!(q.alert.audio, vec![4, 5]);
    assert_eq!(q.pomodoro_duration, p.pomodoro_duration);
}

#[test]
fn plain_default_settings() {
    let s = tomat::settings::Settings::new();
    assert_eq!(s.pomodoro_duration, 1500);
    assert_eq!(s.short_break_duration, 300);
    assert_eq!(s.long_break_duration, 1200);
    assert_eq!(s.long_break_interval, 4);
}

#[test]
fn durations_are_edited_in_minutes() {
    let mut s = Settings::new(Preferences::new(Vec::new()));
    assert!(matches!(s.update(Message::PomodoroDurationChange(Some(30))), Action::Nothing));
    assert!(matches!(s.update(Message::BreakDurationChange(Some(7))), Action::Nothing));
    assert!(matches!(s.update(Message::LongBreakDurationChange(Some(0))), Action::Nothing));
    assert_eq!(s.preferences().pomodoro_duration, 30 * MIN);
    assert_eq!(s.preferences().break_duration, 7 * MIN);
    assert_eq!(s.preferences().long_break_duration, 0);
}

#[test]
fn emptied_fields_change_nothing() {
    let mut s = Settings::new(Preferences::new(Vec::new()));
    s.update(Message::PomodoroDurationChange(None));
    s.update(Message::PomodoroCountChange(None));
    s.update(Message::AutoStartDelayChange(None));
    assert_eq!(s.preferences().pomodoro_duration, 25 * MIN);
    assert_eq!(s.preferences().pomodoro_count, 4);
    assert_eq!(s.preferences().auto_start.delay, 3 * NANOS_PER_SEC);
}

#[test]
fn count_too_large_becomes_zero() {
    let mut s = Settings::new(Preferences::new(Vec::new()));
    s.update(Message::PomodoroCountChange(Some(6)));
    assert_eq!(s.preferences().pomodoro_count, 6);
    s.update(Message::PomodoroCountChange(Some(u32::MAX as u64)));
    assert_eq!(s.preferences().pomodoro_count, u32::MAX);
    s.update(Message::PomodoroCountChange(Some(u32::MAX as u64 + 1)));
    assert_eq!(s.preferences().pomodoro_count, 0);
}

#[test]
fn auto_start_is_edited() {
    let mut s = Settings::new(Preferences::new(Vec::new()));
    s.update(Message::AutoStartEnabledChange(true));
    s.update(Message::AutoStartDelayChange(Some(10)));
    assert!(s.preferences().auto_start.enabled);
    assert_eq!(s.preferences().auto_start.delay, 10 * NANOS_PER_SEC);
}

#[test]
fn back_and_apply() {
    let mut s = Settings::new(Preferences::new(Vec::new()));
    assert!(matches!(s.update(Message::Back), Action::Back));
    s.update(Message::PomodoroCountChange(Some(2)));
    match s.update(Message::Apply) {
        Action::Apply(p) => assert_eq!(p.pomodoro_count, 2),
        _ => panic!("expected apply"),
    }
    assert_eq!(s.preferences().pomodoro_count, 2);
}

#[test]
fn form_shows_minutes_and_the_wait_only_with_auto_start() {
    let mut s = Settings::new(Preferences::new(Vec::new()));
    let f = s.form();
    assert_eq!(f.pomodoro_minutes, 25);
    assert_eq!(f.break_minutes, 5);
    assert_eq!(f.long_break_minutes, 20);
    assert_eq!(f.pomodoro_count, 4);
    assert!(!f.auto_start);
    assert_eq!(f.auto_start_delay_secs, None);
    s.update(Message::AutoStartEnabledChange(true));
    assert_eq!(s.form().auto_start_delay_secs, Some(3));
}

#[test]
fn minutes_that_overflow_do_not_fit() {
    assert!(fits(&Message::PomodoroDurationChange(Some(u64::MAX / 60))));
    assert!(!fits(&Message::PomodoroDurationChange(Some(u64::MAX / 60 + 1))));
    assert!(!fits(&Message::BreakDurationChange(Some(u64::MAX))));
    assert!(fits(&Message::AutoStartDelayChange(Some(u64::MAX))));
}

#[test]
fn number_input_reads_typed_text() {
    assert_eq!(number_input_edit(5, ""), None);
    assert_eq!(number_input_edit(5, "42"), Some(42));
    assert_eq!(number_input_edit(5, "+7"), Some(7));
    assert_eq!(number_input_edit(5, "007"), Some(7));
    assert_eq!(number_input_edit(5, "4a"), Some(5));
    assert_eq!(number_input_edit(5, "+"), Some(5));
    assert_eq!(number_input_edit(5, "-1"), Some(5));
    assert_eq!(number_input_edit(5, " 1"), Some(5));
    assert_eq!(number_input_edit(5, "18446744073709551615"), Some(u64::MAX));
    assert_eq!(number_input_edit(5, "18446744073709551616"), Some(5));
}

#[test]
fn number_input_buttons_saturate() {
    assert_eq!(number_input_minus(0), 0);
    assert_eq!(number_input_minus(3), 2);
    assert_eq!(number_input_plus(3), 4);
    assert_eq!(number_input_plus(u64::MAX), u64::MAX);
}
