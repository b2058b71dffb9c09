//! The application: the screen on display, the timer parked while the
//! settings form is open, and the preferences in force.
use crate::preferences::{Preferences, PreferencesView};
use crate::screen::settings::{self, answer, edited, message_fits, Settings};
use crate::screen::timer::{
    self, message_wf, Effect, Subscriptions, Task, TaskView, Ticks, Timer, TimerView,
};
use crate::screen::Screen;
use crate::time::MAX_SPAN;
use vstd::prelude::*;

verus! {

/// The application's state.
pub struct Tomat {
    screen: Screen,
    timer_state: Option<Timer>,
    preferences: Preferences,
}

/// A message for the screen it concerns.
#[derive(Clone, Debug)]
pub enum Message {
    Timer(timer::Message),
    Settings(settings::Message),
}

/// The mathematical value of a [`Screen`].
pub enum ScreenView {
    Timer(TimerView),
    Settings(PreferencesView),
}

impl View for Screen {
    type V = ScreenView;

    open spec fn view(&self) -> ScreenView {
        match self {
            Screen::Timer(t) => ScreenView::Timer(t@),
            Screen::Settings(s) => ScreenView::Settings(s@),
        }
    }
}

/// The mathematical value of a [`Tomat`].
pub struct TomatView {
    pub screen: ScreenView,
    /// The timer parked while the settings form is open.
    pub parked: Option<TimerView>,
    pub preferences: PreferencesView,
}

impl View for Tomat {
    type V = TomatView;

    closed spec fn view(&self) -> TomatView {
        TomatView {
            screen: self.screen@,
            parked: match self.timer_state {
                Some(t) => Some(t@),
                None => None,
            },
            preferences: self.preferences@,
        }
    }
}

impl TomatView {
    /// There is exactly one timer: on display, or parked while the settings
    /// form is open; every part obeys its bounds.
    pub open spec fn wf(self) -> bool {
        &&& self.preferences.wf()
        &&& match self.screen {
            ScreenView::Timer(t) => t.wf() && self.parked is None,
            ScreenView::Settings(f) => f.wf() && (self.parked matches Some(t) && t.wf()),
        }
    }

    /// The application as it starts: the timer screen with a fresh timer.
    pub open spec fn initial(p: PreferencesView) -> TomatView {
        TomatView {
            screen: ScreenView::Timer(TimerView::initial(p)),
            parked: None,
            preferences: p,
        }
    }

    /// A message can be handled: its values obey their bounds, and a timer
    /// message sets no deadline beyond what a moment holds.
    pub open spec fn message_ok(self, m: Message, now: int) -> bool {
        match m {
            Message::Timer(tm) => message_wf(tm) && (self.screen matches ScreenView::Timer(t)
                ==> t.step_fits(tm, self.preferences, now)),
            Message::Settings(sm) => message_fits(sm),
        }
    }

    /// What a message does: the next state, the task to schedule, and the
    /// side effects, in order. A message for the screen not on display is
    /// dropped. The timer asking for the settings parks the timer and opens
    /// the form over the preferences; leaving the form brings the parked
    /// timer back; applying the form sets the preferences and brings the
    /// parked timer's time in line with them while it is idle.
    pub open spec fn step(self, m: Message, now: int) -> (TomatView, Option<TaskView>, Seq<Effect>) {
        match m {
            Message::Timer(tm) => match self.screen {
                ScreenView::Timer(t) => {
                    let (t1, a, e) = t.step(tm, self.preferences, now);
                    match a {
                        timer::ActionView::OpenSettings => (
                            TomatView {
                                screen: ScreenView::Settings(self.preferences),
                                parked: Some(t1),
                                ..self
                            },
                            None,
                            e,
                        ),
                        timer::ActionView::Task(task) => (
                            TomatView { screen: ScreenView::Timer(t1), ..self },
                            Some(task),
                            e,
                        ),
                        timer::ActionView::Nothing => (
                            TomatView { screen: ScreenView::Timer(t1), ..self },
                            None,
                            e,
                        ),
                    }
                },
                ScreenView::Settings(_) => (self, None, Seq::empty()),
            },
            Message::Settings(sm) => match self.screen {
                ScreenView::Settings(f) => {
                    let f1 = edited(f, sm);
                    match answer(f, sm) {
                        settings::ActionView::Back => match self.parked {
                            Some(t) => (
                                TomatView { screen: ScreenView::Timer(t), parked: None, ..self },
                                None,
                                Seq::empty(),
                            ),
                            None => (
                                TomatView { screen: ScreenView::Settings(f1), ..self },
                                None,
                                Seq::empty(),
                            ),
                        },
                        settings::ActionView::Apply(p) => (
                            TomatView {
                                screen: ScreenView::Settings(f1),
                                parked: match self.parked {
                                    Some(t) => Some(t.refreshed(p)),
                                    None => None,
                                },
                                preferences: p,
                            },
                            None,
                            Seq::empty(),
                        ),
                        settings::ActionView::Nothing => (
                            TomatView { screen: ScreenView::Settings(f1), ..self },
                            None,
                            Seq::empty(),
                        ),
                    }
                },
                ScreenView::Timer(_) => (self, None, Seq::empty()),
            },
        }
    }

    /// What the application listens to: the timer's ticks and window focus
    /// on the timer screen, nothing on the settings screen.
    pub open spec fn subscriptions(self) -> Subscriptions {
        match self.screen {
            ScreenView::Timer(t) => t.subscriptions(),
            ScreenView::Settings(_) => Subscriptions { ticks: Ticks::Off, window_focus: false },
        }
    }
}

/// The mathematical value of an optional task.
pub open spec fn task_view(t: Option<Task>) -> Option<TaskView> {
    match t {
        Some(task) => Some(task@),
        None => None,
    }
}

impl Tomat {
    /// The timer screen with a fresh timer, under the default preferences
    /// with the given alert sound.
    pub fn new(alert_audio: Vec<u8>) -> (app: Self)
        ensures
            app@.wf(),
            app@ == TomatView::initial(PreferencesView::default_with(alert_audio@)),
    {
        let preferences = Preferences::new(alert_audio);
        Self {
            screen: Screen::Timer(Timer::new(&preferences)),
            timer_state: None,
            preferences,
        }
    }

    /// The screen on display.
    pub fn screen(&self) -> (s: &Screen)
        ensures
            s@ == self@.screen,
    {
        &self.screen
    }

    /// The preferences in force.
    pub fn preferences(&self) -> (p: &Preferences)
        ensures
            p@ == self@.preferences,
    {
        &self.preferences
    }

    /// Whether [`Tomat::update`] can handle `message` at `now`.
    pub fn message_ok(&self, message: &Message, now: u128) -> (b: bool)
        requires
            self@.wf(),
            now <= MAX_SPAN,
        ensures
            b == self@.message_ok(*message, now as int),
    {
        match message {
            Message::Timer(tm) => {
                let wf = match tm {
                    timer::Message::TimerTick(tick) => *tick <= MAX_SPAN,
                    timer::Message::Run(q) => q.fits(),
                    _ => true,
                };
                if !wf {
                    return false;
                }
                match &self.screen {
                    Screen::Timer(t) => t.step_fits(tm, &self.preferences, now),
                    Screen::Settings(_) => true,
                }
            },
            Message::Settings(sm) => settings::fits(sm),
        }
    }

    /// Handles a message at moment `now`: gives the task to schedule and the
    /// side effects to perform, in order.
    pub fn update(&mut self, message: Message, now: u128) -> (r: (Option<Task>, Vec<Effect>))
        requires
            old(self)@.wf(),
            now <= MAX_SPAN,
            old(self)@.message_ok(message, now as int),
        ensures
            final(self)@ == old(self)@.step(message, now as int).0,
            task_view(r.0) == old(self)@.step(message, now as int).1,
            r.1@ == old(self)@.step(message, now as int).2,
            final(self)@.wf(),
    {
        match message {
            Message::Timer(message) => {
                if let Screen::Timer(state) = &mut self.screen {
                    let (action, effects) = state.update(message, &self.preferences, now);
                    match action {
                        timer::Action::OpenSettings => {
                            let settings = Settings::new(self.preferences.clone());
                            let mut screen = Screen::Settings(settings);
                            std::mem::swap(&mut screen, &mut self.screen);
                            if let Screen::Timer(state) = screen {
                                self.timer_state = Some(state);
                            }
                            (None, effects)
                        },
                        timer::Action::Task(task) => (Some(task), effects),
                        timer::Action::Nothing => (None, effects),
                    }
                } else {
                    (None, Vec::new())
                }
            },
            Message::Settings(message) => {
                if let Screen::Settings(state) = &mut self.screen {
                    match state.update(message) {
                        settings::Action::Back => {
                            if let Some(timer_state) = self.timer_state.take() {
                                self.screen = Screen::Timer(timer_state);
                            }
                        },
                        settings::Action::Apply(preferences) => {
                            self.preferences = preferences;
                            if let Some(timer_state) = &mut self.timer_state {
                                timer_state.refresh_time_remaining(&self.preferences);
                            }
                        },
                        settings::Action::Nothing => {},
                    }
                }
                (None, Vec::new())
            },
        }
    }

    /// What the application listens to.
    pub fn subscription(&self) -> (s: Subscriptions)
        requires
            self@.wf(),
        ensures
            s == self@.subscriptions(),
    {
        match &self.screen {
            Screen::Timer(state) => state.subscription(),
            Screen::Settings(_) => Subscriptions { ticks: Ticks::Off, window_focus: false },
        }
    }
}

/// Opening the settings from the timer and leaving them again brings back
/// the same timer, paused if it was running, under the same preferences;
/// while the form is open the timer stays parked and the form shows the
/// preferences in force.
pub proof fn lemma_settings_round_trip(app: TomatView, now: int)
    requires
        app.wf(),
        app.screen matches ScreenView::Timer(_),
    ensures
        ({
            let t = app.screen->Timer_0;
            let opened = app.step(Message::Timer(timer::Message::OpenSettings), now).0;
            let back = opened.step(Message::Settings(settings::Message::Back), now).0;
            &&& opened.screen == ScreenView::Settings(app.preferences)
            &&& opened.parked == Some(t.paused(now))
            &&& back.screen == ScreenView::Timer(t.paused(now))
            &&& back.parked is None
            &&& back.preferences == app.preferences
        }),
{
}

/// Applying the form makes its preferences the ones in force, and the timer
/// found on leaving the form runs on them: while idle it shows the whole
/// duration of its phase under the new preferences.
pub proof fn lemma_apply_then_back(app: TomatView, now: int)
    requires
        app.wf(),
        app.screen matches ScreenView::Settings(_),
    ensures
        ({
            let f = app.screen->Settings_0;
            let t = app.parked->Some_0;
            let applied = app.step(Message::Settings(settings::Message::Apply), now).0;
            let back = applied.step(Message::Settings(settings::Message::Back), now).0;
            &&& applied.preferences == f
            &&& back.preferences == f
            &&& back.screen == ScreenView::Timer(t.refreshed(f))
            &&& (t.status is Idle ==> t.refreshed(f).time_remaining == f.duration_for(t.phase))
        }),
{
}

/// Every update keeps the application well formed: exactly one timer,
/// on display or parked while the form is open.
pub proof fn lemma_update_keeps_one_timer(app: TomatView, m: Message, now: int)
    requires
        app.wf(),
        0 <= now <= MAX_SPAN,
        app.message_ok(m, now),
    ensures
        app.step(m, now).0.wf(),
{
    match m {
        Message::Timer(tm) => {
            if let ScreenView::Timer(t) = app.screen {
                timer::lemma_timer_step_wf(t, tm, app.preferences, now);
            }
        },
        Message::Settings(sm) => {
            if let ScreenView::Settings(f) = app.screen {
                settings::lemma_edited_wf(f, sm);
            }
        },
    }
}

/// On the timer screen, a timer message goes to the timer: the state is
/// the timer's next state, the effects are the timer's effects, and a task
/// the timer asks for is handed on unchanged to the caller, whatever its
/// kind; no task is handed on otherwise.
pub proof fn lemma_timer_messages_reach_the_timer(app: TomatView, tm: timer::Message, now: int)
    requires
        app.screen matches ScreenView::Timer(_),
    ensures
        ({
            let t = app.screen->Timer_0;
            let (t1, a, e) = t.step(tm, app.preferences, now);
            let (r, task, effects) = app.step(Message::Timer(tm), now);
            &&& effects == e
            &&& r.preferences == app.preferences
            &&& (a matches timer::ActionView::Task(k) ==> task == Some(k))
            &&& (!(a is Task) ==> task is None)
            &&& (!(a is OpenSettings) ==> r.screen == ScreenView::Timer(t1) && r.parked
                == app.parked)
        }),
{
}

/// With auto start and a wait, moving to the next phase on the timer screen
/// hands the caller a task to start the timer after that wait with the
/// preferences in force; the timer waits, idle.
pub proof fn lemma_auto_start_is_scheduled(app: TomatView, now: int)
    requires
        app.screen matches ScreenView::Timer(_),
        app.preferences.auto_start.enabled,
        app.preferences.auto_start.delay != 0,
    ensures
        app.step(Message::Timer(timer::Message::NextPhase), now).1 == Some(
            TaskView::RunAfter(app.preferences.auto_start.delay as int, app.preferences),
        ),
        app.step(Message::Timer(timer::Message::NextPhase), now).0.screen matches ScreenView::Timer(
            t,
        ) && t.status is Idle,
{
}

/// While the form is open, timer messages are dropped; on the timer screen,
/// form messages are dropped. Nothing is asked of the caller.
pub proof fn lemma_messages_for_the_other_screen_are_dropped(app: TomatView, m: Message, now: int)
    requires
        (app.screen is Settings && m is Timer) || (app.screen is Timer && m is Settings),
    ensures
        app.step(m, now).0 == app,
        app.step(m, now).1 is None,
        app.step(m, now).2.len() == 0,
{
}

/// Applying the form and leaving it brings back the parked timer with its
/// time left untouched unless it is idle; an idle timer gets the whole
/// duration of its phase under the applied preferences.
pub proof fn lemma_apply_keeps_a_started_timer(app: TomatView, now: int)
    requires
        app.wf(),
        app.screen matches ScreenView::Settings(_),
    ensures
        ({
            let f = app.screen->Settings_0;
            let t = app.parked->Some_0;
            let applied = app.step(Message::Settings(settings::Message::Apply), now).0;
            let back = applied.step(Message::Settings(settings::Message::Back), now).0;
            &&& back.preferences == f
            &&& (!(t.status is Idle) ==> back.screen == ScreenView::Timer(t))
            &&& (t.status is Idle ==> back.screen == ScreenView::Timer(
                TimerView { time_remaining: f.duration_for(t.phase), ..t },
            ))
        }),
{
}

/// The application starts on the timer screen with a new timer and no
/// timer parked, and listens to the timer's events there; on the settings
/// screen it listens to nothing.
pub proof fn lemma_start_and_listening(p: PreferencesView, app: TomatView)
    ensures
        TomatView::initial(p).screen == ScreenView::Timer(TimerView::initial(p)),
        TomatView::initial(p).parked is None,
        TomatView::initial(p).preferences == p,
        app.screen matches ScreenView::Timer(t) ==> app.subscriptions() == t.subscriptions(),
        app.screen is Settings ==> app.subscriptions().ticks == Ticks::Off
            && !app.subscriptions().window_focus,
{
}

} // verus!
