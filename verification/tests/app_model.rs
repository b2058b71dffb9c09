use tomat::screen::settings;
use tomat::screen::timer::{self, Effect, Phase, Task, Ticks, TimerStatus};
use tomat::screen::Screen;
use tomat::time::NANOS_PER_SEC;
use tomat::tomat::{Message, Tomat};

const MIN: u128 = 60 * NANOS_PER_SEC;

fn timer_status(app: &Tomat) -> TimerStatus {
    match app.screen() {
        Screen::Timer(t) => t.status(),
        Screen::Settings(_) => panic!("expected the timer screen"),
    }
}

#[test]
fn starts_on_the_timer_screen() {
    let app = Tomat::new(vec![1]);
    assert_eq!(timer_status(&app), TimerStatus::Idle);
    assert_eq!(app.preferences().alert.audio, vec![1]);
    assert_eq!(app.subscription().ticks, Ticks::Off);
    assert!(app.subscription().window_focus);
}

#[test]
fn settings_round_trip_keeps_the_timer_paused() {
    let mut app = Tomat::new(Vec::new());
    app.update(Message::Timer(timer::Message::ToggleTimer), 0);
    assert_eq!(app.subscription().ticks, Ticks::TimerEvery(500));
    let (task, effects) = app.update(Message::Timer(timer::Message::OpenSettings), MIN);
    assert!(task.is_none());
    assert!(effects.is_empty());
    assert!(matches!(app.screen(), Screen::Settings(_)));
    assert_eq!(app.subscription().ticks, Ticks::Off);
    assert!(!app.subscription().window_focus);
    // Timer messages are dropped while the form is open.
    app.update(Message::Timer(timer::Message::Reset), MIN);
    app.update(Message::Settings(settings::Message::Back), 2 * MIN);
    assert_eq!(timer_status(&app), TimerStatus::Paused);
    match app.screen() {
        Screen::Timer(t) => assert_eq!(t.time_remaining(), 24 * MIN),
        _ => unreachable!(),
    }
}

#[test]
fn apply_sets_preferences_and_refreshes_an_idle_timer() {
    let mut app = Tomat::new(Vec::new());
    app.update(Message::Timer(timer::Message::OpenSettings), 0);
    app.update(Message::Settings(settings::Message::PomodoroDurationChange(Some(40))), 0);
    assert_eq!(app.preferences().pomodoro_duration, 25 * MIN);
    app.update(Message::Settings(settings::Message::Apply), 0);
    assert_eq!(app.preferences().pomodoro_duration, 40 * MIN);
    assert!(matches!(app.screen(), Screen::Settings(_)));
    app.update(Message::Settings(settings::Message::Back), 0);
    match app.screen() {
        Screen::Timer(t) => {
            assert_eq!(t.time_remaining(), 40 * MIN);
            assert_eq!(t.phase(), Phase::Focus);
        }
        _ => panic!("expected the timer screen"),
    }
}

#[test]
fn settings_messages_are_dropped_on_the_timer_screen() {
    let mut app = Tomat::new(Vec::new());
    app.update(Message::Settings(settings::Message::PomodoroCountChange(Some(9))), 0);
    app.update(Message::Settings(settings::Message::Apply), 0);
    assert_eq!(app.preferences().pomodoro_count, 4);
    assert_eq!(timer_status(&app), TimerStatus::Idle);
}

#[test]
fn timer_tasks_and_effects_are_handed_on() {
    let mut app = Tomat::new(Vec::new());
    app.update(Message::Timer(timer::Message::ToggleTimer), 0);
    let (task, effects) = app.update(Message::Timer(timer::Message::TimerTick(25 * MIN)), 25 * MIN);
    assert!(task.is_none());
    assert_eq!(effects, vec![Effect::PlayAlert]);
    let (task, _) = app.update(Message::Timer(timer::Message::AlertTick(true)), 25 * MIN);
    assert!(matches!(task, Some(Task::NextPhase)));
    app.update(Message::Timer(timer::Message::NextPhase), 25 * MIN);
    match app.screen() {
        Screen::Timer(t) => {
            assert_eq!(t.phase(), Phase::Break);
            assert_eq!(t.session_count(), 1);
        }
        _ => panic!("expected the timer screen"),
    }
}

#[test]
fn message_ok_refuses_overflowing_minutes() {
    let mut app = Tomat::new(Vec::new());
    let m = Message::Settings(settings::Message::PomodoroDurationChange(Some(u64::MAX)));
    assert!(!app.message_ok(&m, 0));
    app.update(Message::Timer(timer::Message::OpenSettings), 0);
    let m = Message::Settings(settings::Message::PomodoroDurationChange(Some(3)));
    assert!(app.message_ok(&m, 0));
}
