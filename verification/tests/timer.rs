use tomat::preferences::Preferences;
use tomat::screen::timer::{
    next_cycle_of, session_dots, session_progress, Action, Control, Effect, Message, Phase,
    SessionProgress, Task, Ticks, Timer, TimerStatus,
};
use tomat::time::NANOS_PER_SEC;

const MIN: u128 = 60 * NANOS_PER_SEC;

fn prefs() -> Preferences {
    Preferences::new(vec![7, 7, 7])
}

#[test]
fn new_timer_is_idle_at_focus() {
    let p = prefs();
    let t = Timer::new(&p);
    assert_eq!(t.status(), TimerStatus::Idle);
    assert_eq!(t.phase(), Phase::Focus);
    assert_eq!(t.session_count(), 0);
    assert_eq!(t.time_remaining(), 25 * MIN);
    assert!(t.window_focused());
    assert!(!t.notification_open());
}

#[test]
fn toggle_starts_for_the_whole_phase() {
    let p = prefs();
    let mut t = Timer::new(&p);
    let (a, e) = t.update(Message::ToggleTimer, &p, 1000);
    assert!(matches!(a, Action::Nothing));
    assert!(e.is_empty());
    assert_eq!(t.status(), TimerStatus::Running(1000 + 25 * MIN));
}

#[test]
fn pause_and_resume_keep_the_time_left() {
    let p = prefs();
    let mut t = Timer::new(&p);
    t.update(Message::ToggleTimer, &p, 0);
    t.update(Message::ToggleTimer, &p, 10 * MIN);
    assert_eq!(t.status(), TimerStatus::Paused);
    assert_eq!(t.time_remaining(), 15 * MIN);
    t.update(Message::ToggleTimer, &p, 12 * MIN);
    assert_eq!(t.status(), TimerStatus::Running(27 * MIN));
}

#[test]
fn start_then_pause_at_once_keeps_everything() {
    let p = prefs();
    let mut t = Timer::new(&p);
    t.run(&p, 5);
    t.pause(5);
    assert_eq!(t.status(), TimerStatus::Paused);
    assert_eq!(t.time_remaining(), 25 * MIN);
}

#[test]
fn tick_updates_the_time_left() {
    let p = prefs();
    let mut t = Timer::new(&p);
    t.update(Message::ToggleTimer, &p, 0);
    let (a, e) = t.update(Message::TimerTick(MIN), &p, MIN);
    assert!(matches!(a, Action::Nothing));
    assert!(e.is_empty());
    assert_eq!(t.time_remaining(), 24 * MIN);
    assert!(t.status().is_running());
}

#[test]
fn tick_at_the_deadline_raises_the_alert() {
    let p = prefs();
    let mut t = Timer::new(&p);
    t.update(Message::ToggleTimer, &p, 0);
    let (_, e) = t.update(Message::TimerTick(26 * MIN), &p, 26 * MIN);
    assert_eq!(e, vec![Effect::PlayAlert]);
    assert_eq!(t.status(), TimerStatus::Alert);
    assert_eq!(t.time_remaining(), 0);
}

#[test]
fn alert_without_focus_notifies_and_stop_closes() {
    let p = prefs();
    let mut t = Timer::new(&p);
    t.update(Message::WindowFocused(false), &p, 0);
    assert!(!t.window_focused());
    t.update(Message::ToggleTimer, &p, 0);
    let (_, e) = t.update(Message::TimerTick(25 * MIN), &p, 25 * MIN);
    assert_eq!(e, vec![Effect::ShowNotification, Effect::PlayAlert]);
    assert!(t.notification_open());
    let (a, e) = t.update(Message::StopAlert, &p, 25 * MIN);
    assert!(matches!(a, Action::Nothing));
    assert_eq!(e, vec![Effect::StopAlert, Effect::CloseNotification]);
    assert!(!t.notification_open());
    assert_eq!(t.status(), TimerStatus::Alert);
    let (_, e) = t.update(Message::StopAlert, &p, 25 * MIN);
    assert_eq!(e, vec![Effect::StopAlert]);
}

#[test]
fn alert_tick_asks_for_the_next_phase_once_the_sound_ends() {
    let p = prefs();
    let mut t = Timer::new(&p);
    let (a, _) = t.update(Message::AlertTick(false), &p, 0);
    assert!(matches!(a, Action::Nothing));
    let (a, _) = t.update(Message::AlertTick(true), &p, 0);
    assert!(matches!(a, Action::Task(Task::NextPhase)));
}

#[test]
fn a_full_cycle_of_four_sessions() {
    let p = prefs();
    let mut t = Timer::new(&p);
    let expected = [
        (Phase::Break, 1),
        (Phase::Focus, 1),
        (Phase::Break, 2),
        (Phase::Focus, 2),
        (Phase::Break, 3),
        (Phase::Focus, 3),
        (Phase::LongBreak, 4),
        (Phase::Focus, 0),
    ];
    for (phase, count) in expected {
        let (a, _) = t.update(Message::NextPhase, &p, 0);
        assert!(matches!(a, Action::Nothing));
        assert_eq!(t.phase(), phase);
        assert_eq!(t.session_count(), count);
        assert_eq!(t.status(), TimerStatus::Idle);
        assert_eq!(t.time_remaining(), p.duration_for(phase));
    }
}

#[test]
fn next_cycle_with_no_focus_sessions_goes_straight_to_long_break() {
    assert_eq!(next_cycle_of(Phase::Focus, 0, 0), (Phase::LongBreak, 0));
    assert_eq!(next_cycle_of(Phase::LongBreak, 0, 0), (Phase::Focus, 0));
    assert_eq!(next_cycle_of(Phase::Focus, 5, 3), (Phase::Break, 5));
    assert_eq!(next_cycle_of(Phase::Break, 2, 4), (Phase::Focus, 2));
}

#[test]
fn auto_start_with_a_wait_schedules_the_start() {
    let mut p = prefs();
    p.auto_start.enabled = true;
    let mut t = Timer::new(&p);
    let (a, _) = t.update(Message::NextPhase, &p, 0);
    match a {
        Action::Task(Task::RunAfter(delay, q)) => {
            assert_eq!(delay, 3 * NANOS_PER_SEC);
            assert!(q.auto_start.enabled);
            assert_eq!(q.pomodoro_count, 4);
        }
        _ => panic!("expected a scheduled start"),
    }
    assert_eq!(t.status(), TimerStatus::Idle);
    let (a, _) = t.update(Message::Run(p.clone()), &p, 100);
    assert!(matches!(a, Action::Nothing));
    assert_eq!(t.status(), TimerStatus::Running(100 + 5 * MIN));
}

#[test]
fn auto_start_without_a_wait_starts_at_once() {
    let mut p = prefs();
    p.auto_start.enabled = true;
    p.auto_start.delay = 0;
    let mut t = Timer::new(&p);
    let (a, _) = t.update(Message::NextPhase, &p, 7);
    assert!(matches!(a, Action::Nothing));
    assert_eq!(t.phase(), Phase::Break);
    assert_eq!(t.status(), TimerStatus::Running(7 + 5 * MIN));
}

#[test]
fn reset_goes_back_to_the_whole_phase() {
    let p = prefs();
    let mut t = Timer::new(&p);
    t.update(Message::ToggleTimer, &p, 0);
    t.update(Message::TimerTick(3 * MIN), &p, 3 * MIN);
    t.update(Message::Reset, &p, 3 * MIN);
    assert_eq!(t.status(), TimerStatus::Idle);
    assert_eq!(t.time_remaining(), 25 * MIN);
}

#[test]
fn open_settings_pauses_a_running_timer() {
    let p = prefs();
    let mut t = Timer::new(&p);
    t.update(Message::ToggleTimer, &p, 0);
    let (a, _) = t.update(Message::OpenSettings, &p, MIN);
    assert!(matches!(a, Action::OpenSettings));
    assert_eq!(t.status(), TimerStatus::Paused);
    assert_eq!(t.time_remaining(), 24 * MIN);
}

#[test]
fn toggle_in_alert_does_nothing() {
    let p = prefs();
    let mut t = Timer::new(&p);
    t.update(Message::ToggleTimer, &p, 0);
    t.update(Message::TimerTick(30 * MIN), &p, 30 * MIN);
    t.update(Message::ToggleTimer, &p, 31 * MIN);
    assert_eq!(t.status(), TimerStatus::Alert);
}

#[test]
fn refresh_follows_new_durations_only_while_idle() {
    let mut p = prefs();
    let mut t = Timer::new(&p);
    p.pomodoro_duration = 50 * MIN;
    t.refresh_time_remaining(&p);
    assert_eq!(t.time_remaining(), 50 * MIN);
    t.run(&p, 0);
    p.pomodoro_duration = 10 * MIN;
    t.refresh_time_remaining(&p);
    assert_eq!(t.time_remaining(), 50 * MIN);
}

#[test]
fn subscriptions_follow_the_status() {
    let p = prefs();
    let mut t = Timer::new(&p);
    assert_eq!(t.subscription().ticks, Ticks::Off);
    assert!(t.subscription().window_focus);
    t.update(Message::ToggleTimer, &p, 0);
    assert_eq!(t.subscription().ticks, Ticks::TimerEvery(500));
    t.update(Message::TimerTick(25 * MIN), &p, 25 * MIN);
    assert_eq!(t.subscription().ticks, Ticks::AlertEvery(50));
}

#[test]
fn controls_follow_the_status() {
    let p = prefs();
    let mut t = Timer::new(&p);
    assert_eq!(t.controls(), vec![Control::Toggle(false), Control::Skip]);
    t.update(Message::ToggleTimer, &p, 0);
    assert_eq!(
        t.controls(),
        vec![Control::Toggle(true), Control::Reset, Control::Skip]
    );
    t.update(Message::ToggleTimer, &p, 1);
    assert_eq!(
        t.controls(),
        vec![Control::Toggle(false), Control::Reset, Control::Skip]
    );
    t.update(Message::ToggleTimer, &p, 2);
    t.update(Message::TimerTick(26 * MIN), &p, 26 * MIN);
    assert_eq!(t.controls(), vec![Control::StopAlert]);
}

#[test]
fn session_progress_shows_dots_up_to_ten() {
    match session_progress(2, 4) {
        SessionProgress::Dots(d) => assert_eq!(d, vec![true, true, false, false]),
        _ => panic!("expected dots"),
    }
    assert_eq!(session_dots(0, 0), Vec::<bool>::new());
    assert_eq!(session_dots(3, 10).len(), 10);
}

#[test]
fn session_progress_shows_text_above_ten() {
    match session_progress(3, 12) {
        SessionProgress::Text(s) => assert_eq!(s, "3/12"),
        _ => panic!("expected text"),
    }
}

#[test]
fn phase_names() {
    assert_eq!(Phase::Focus.to_string(), "Focus");
    assert_eq!(Phase::Break.to_string(), "Break");
    assert_eq!(Phase::LongBreak.to_string(), "Long Break");
    assert!(Phase::Focus.is_focus());
    assert!(!Phase::Break.is_focus());
    assert!(Phase::LongBreak.is_long_break());
}

#[test]
fn status_predicates() {
    assert!(TimerStatus::Running(3).is_running());
    assert!(TimerStatus::Paused.is_paused());
    assert!(TimerStatus::Idle.is_idle());
    assert!(TimerStatus::Alert.is_alert());
    assert!(!TimerStatus::Alert.is_idle());
}

#[test]
fn step_fits_refuses_a_deadline_beyond_the_largest_moment() {
    let p = prefs();
    let t = Timer::new(&p);
    let max = tomat::time::MAX_SPAN;
    assert!(t.step_fits(&Message::ToggleTimer, &p, 0));
    assert!(!t.step_fits(&Message::ToggleTimer, &p, max));
    assert!(t.step_fits(&Message::Reset, &p, max));
}
