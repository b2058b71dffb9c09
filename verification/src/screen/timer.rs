//! The timer: a state machine over phases of focus and break.
//!
//! [`Timer::update`] takes the timer's state, a message, the preferences and
//! the current moment, and gives the next state, what the application should
//! do next ([`Action`]) and the side effects it should perform ([`Effect`]):
//! showing a desktop notification, playing or stopping the alert sound.
use crate::preferences::{Preferences, PreferencesView};
use crate::text::{fraction, fraction_text};
use crate::time::{saturating_since, time_until, MAX_SPAN};
use vstd::prelude::*;
use vstd::string::*;

verus! {

/// The phase of a pomodoro cycle.
#[derive(Clone, Copy, Debug, PartialEq, Eq, Structural)]
pub enum Phase {
    Focus,
    Break,
    LongBreak,
}

/// The name of a phase as it is shown.
pub open spec fn phase_name(phase: Phase) -> Seq<char> {
    match phase {
        Phase::Focus => "Focus"@,
        Phase::Break => "Break"@,
        Phase::LongBreak => "Long Break"@,
    }
}

impl Phase {
    pub fn is_focus(&self) -> (b: bool)
        ensures
            b == (*self == Phase::Focus),
    {
        match self {
            Phase::Focus => true,
            _ => false,
        }
    }

    pub fn is_long_break(&self) -> (b: bool)
        ensures
            b == (*self == Phase::LongBreak),
    {
        match self {
            Phase::LongBreak => true,
            _ => false,
        }
    }

    /// The name of the phase as it is shown: "Focus", "Break" or
    /// "Long Break".
    pub fn to_string(&self) -> (s: String)
        ensures
            s@ == phase_name(*self),
    {
        match self {
            Phase::Focus => String::from_str("Focus"),
            Phase::Break => String::from_str("Break"),
            Phase::LongBreak => String::from_str("Long Break"),
        }
    }
}

/// Where the timer stands. A running timer holds the moment at which the
/// phase ends.
#[derive(Clone, Copy, Debug, PartialEq, Eq, Structural)]
pub enum TimerStatus {
    Running(u128),
    Paused,
    Idle,
    Alert,
}

impl TimerStatus {
    pub fn is_running(&self) -> (b: bool)
        ensures
            b == (*self is Running),
    {
        match self {
            TimerStatus::Running(_) => true,
            _ => false,
        }
    }

    pub fn is_paused(&self) -> (b: bool)
        ensures
            b == (*self is Paused),
    {
        match self {
            TimerStatus::Paused => true,
            _ => false,
        }
    }

    pub fn is_idle(&self) -> (b: bool)
        ensures
            b == (*self is Idle),
    {
        match self {
            TimerStatus::Idle => true,
            _ => false,
        }
    }

    pub fn is_alert(&self) -> (b: bool)
        ensures
            b == (*self is Alert),
    {
        match self {
            TimerStatus::Alert => true,
            _ => false,
        }
    }
}

/// A side effect that the caller performs after an update, in order.
#[derive(Clone, Copy, Debug, PartialEq, Eq, Structural)]
pub enum Effect {
    /// Show a desktop notification that the timer stopped, and keep its
    /// handle.
    ShowNotification,
    /// Play the alert sound of the preferences.
    PlayAlert,
    /// Stop the alert sound.
    StopAlert,
    /// Close the notification that was shown.
    CloseNotification,
}

/// A message for the timer. Moments are nanoseconds since the caller's
/// origin (see [`crate::time`]).
#[derive(Clone, Debug)]
pub enum Message {
    /// The clock ticked at the given moment.
    TimerTick(u128),
    /// The alert ticked; the flag tells whether the alert sound has finished.
    AlertTick(bool),
    ToggleTimer,
    Reset,
    OpenSettings,
    NextPhase,
    Run(Preferences),
    StopAlert,
    WindowFocused(bool),
}

/// Work the caller schedules to send a message back to the timer later.
#[derive(Clone, Debug)]
pub enum Task {
    /// Send [`Message::NextPhase`] at once.
    NextPhase,
    /// Wait for the given duration, then send [`Message::Run`] with the
    /// given preferences.
    RunAfter(u128, Preferences),
}

/// What the application does after a timer update.
#[derive(Clone, Debug)]
pub enum Action {
    Nothing,
    OpenSettings,
    Task(Task),
}

pub enum TaskView {
    NextPhase,
    RunAfter(int, PreferencesView),
}

pub enum ActionView {
    Nothing,
    OpenSettings,
    Task(TaskView),
}

impl View for Task {
    type V = TaskView;

    open spec fn view(&self) -> TaskView {
        match self {
            Task::NextPhase => TaskView::NextPhase,
            Task::RunAfter(delay, p) => TaskView::RunAfter(*delay as int, p@),
        }
    }
}

impl View for Action {
    type V = ActionView;

    open spec fn view(&self) -> ActionView {
        match self {
            Action::Nothing => ActionView::Nothing,
            Action::OpenSettings => ActionView::OpenSettings,
            Action::Task(t) => ActionView::Task(t@),
        }
    }
}

/// How often the caller sends ticks to the timer.
#[derive(Clone, Copy, Debug, PartialEq, Eq, Structural)]
pub enum Ticks {
    Off,
    /// Send [`Message::TimerTick`] every so many milliseconds.
    TimerEvery(u64),
    /// Send [`Message::AlertTick`] every so many milliseconds.
    AlertEvery(u64),
}

/// The events the caller listens to for the timer: ticks, and whether the
/// window gains or loses focus ([`Message::WindowFocused`]).
#[derive(Clone, Copy, Debug, PartialEq, Eq, Structural)]
pub struct Subscriptions {
    pub ticks: Ticks,
    pub window_focus: bool,
}

/// A control shown under the timer, with the message it sends.
#[derive(Clone, Copy, Debug, PartialEq, Eq, Structural)]
pub enum Control {
    /// Start or pause ([`Message::ToggleTimer`]); the flag tells whether the
    /// timer runs, so that the control shows "pause".
    Toggle(bool),
    /// [`Message::Reset`].
    Reset,
    /// [`Message::NextPhase`].
    Skip,
    /// [`Message::StopAlert`].
    StopAlert,
}

/// How far the current cycle has come: a "count/total" text when there are
/// more than ten focus sessions in a cycle, else one dot per session, filled
/// for those done.
#[derive(Clone, Debug)]
pub enum SessionProgress {
    Text(String),
    Dots(Vec<bool>),
}

/// The timer's state.
pub struct Timer {
    time_remaining: u128,
    status: TimerStatus,
    phase: Phase,
    session_count: u32,
    notification_open: bool,
    window_focused: bool,
}

/// The mathematical value of a [`Timer`].
pub struct TimerView {
    pub time_remaining: int,
    pub status: TimerStatus,
    pub phase: Phase,
    pub session_count: int,
    /// A notification was shown and not closed since.
    pub notification_open: bool,
    pub window_focused: bool,
}

impl View for Timer {
    type V = TimerView;

    closed spec fn view(&self) -> TimerView {
        TimerView {
            time_remaining: self.time_remaining as int,
            status: self.status,
            phase: self.phase,
            session_count: self.session_count as int,
            notification_open: self.notification_open,
            window_focused: self.window_focused,
        }
    }
}

/// The phase and the count of focus sessions done that follow `phase` and
/// `count` in a cycle of `total` focus sessions: a focus session counts
/// while the count is below `total`; after it comes a long break once the
/// count reaches `total`, else a break; a long break resets the count; a
/// break or a long break is followed by focus.
pub open spec fn next_cycle(phase: Phase, count: int, total: int) -> (Phase, int) {
    let count1 = if phase == Phase::Focus && count < total {
        count + 1
    } else if phase == Phase::LongBreak {
        0
    } else {
        count
    };
    let phase1 = if phase == Phase::Focus {
        if count1 == total {
            Phase::LongBreak
        } else {
            Phase::Break
        }
    } else {
        Phase::Focus
    };
    (phase1, count1)
}

impl TimerView {
    /// Durations and moments stay within [`MAX_SPAN`], the count within `u32`.
    pub open spec fn wf(self) -> bool {
        &&& 0 <= self.time_remaining <= MAX_SPAN
        &&& 0 <= self.session_count <= u32::MAX
        &&& (self.status matches TimerStatus::Running(t) ==> t <= MAX_SPAN)
    }

    /// The timer as it is created: idle at the start of a focus session.
    pub open spec fn initial(p: PreferencesView) -> TimerView {
        TimerView {
            time_remaining: p.pomodoro_duration,
            status: TimerStatus::Idle,
            phase: Phase::Focus,
            session_count: 0,
            notification_open: false,
            window_focused: true,
        }
    }

    /// The moment at which the phase would end if the timer started at
    /// `now`: an idle timer runs for the whole phase, a paused one for the
    /// time that was left.
    pub open spec fn deadline_from(self, p: PreferencesView, now: int) -> int {
        if self.status is Idle {
            now + p.duration_for(self.phase)
        } else {
            now + self.time_remaining
        }
    }

    /// Starting at `now` gives a deadline that a moment can hold.
    pub open spec fn start_fits(self, p: PreferencesView, now: int) -> bool {
        (self.status is Idle || self.status is Paused) ==> self.deadline_from(p, now) <= MAX_SPAN
    }

    /// The timer started at `now`: an idle or paused timer runs until its
    /// deadline; a running timer or one in alert is left as it is.
    pub open spec fn started(self, p: PreferencesView, now: int) -> TimerView {
        if self.status is Idle || self.status is Paused {
            TimerView { status: TimerStatus::Running(self.deadline_from(p, now) as u128), ..self }
        } else {
            self
        }
    }

    /// The timer paused at `now`: a running timer keeps the time left until
    /// its deadline; any other timer is left as it is.
    pub open spec fn paused(self, now: int) -> TimerView {
        match self.status {
            TimerStatus::Running(t) => TimerView {
                time_remaining: time_until(t as int, now),
                status: TimerStatus::Paused,
                ..self
            },
            _ => self,
        }
    }

    /// A clock tick at `now`: a running timer updates the time left; when
    /// no time is left the timer enters the alert, shows a notification if
    /// the window is not focused, and plays the alert sound.
    pub open spec fn ticked(self, now: int) -> (TimerView, Seq<Effect>) {
        let t1 = match self.status {
            TimerStatus::Running(t) => TimerView { time_remaining: time_until(t as int, now), ..self },
            _ => self,
        };
        if t1.time_remaining == 0 {
            if !t1.window_focused {
                (
                    TimerView { status: TimerStatus::Alert, notification_open: true, ..t1 },
                    seq![Effect::ShowNotification, Effect::PlayAlert],
                )
            } else {
                (TimerView { status: TimerStatus::Alert, ..t1 }, seq![Effect::PlayAlert])
            }
        } else {
            (t1, Seq::empty())
        }
    }

    /// The next phase of the cycle, idle, with its whole duration left.
    pub open spec fn advanced(self, p: PreferencesView) -> TimerView {
        let (phase1, count1) = next_cycle(self.phase, self.session_count, p.pomodoro_count);
        TimerView {
            phase: phase1,
            session_count: count1,
            time_remaining: p.duration_for(phase1),
            status: TimerStatus::Idle,
            ..self
        }
    }

    /// Moving to the next phase; with auto start, the timer starts at once
    /// when there is no wait, else the caller is asked to start it after the
    /// wait.
    pub open spec fn next_phase(self, p: PreferencesView, now: int) -> (TimerView, ActionView) {
        let t1 = self.advanced(p);
        if p.auto_start.enabled && p.auto_start.delay != 0 {
            (t1, ActionView::Task(TaskView::RunAfter(p.auto_start.delay as int, p)))
        } else if p.auto_start.enabled {
            (t1.started(p, now), ActionView::Nothing)
        } else {
            (t1, ActionView::Nothing)
        }
    }

    /// Back to the start of the current phase, idle.
    pub open spec fn reset(self, p: PreferencesView) -> TimerView {
        TimerView { time_remaining: p.duration_for(self.phase), status: TimerStatus::Idle, ..self }
    }

    /// The time left is brought in line with the preferences while idle.
    pub open spec fn refreshed(self, p: PreferencesView) -> TimerView {
        if self.status is Idle {
            TimerView { time_remaining: p.duration_for(self.phase), ..self }
        } else {
            self
        }
    }

    /// What a message does to the timer: the next state, the action for the
    /// application and the side effects, in order.
    pub open spec fn step(self, m: Message, p: PreferencesView, now: int) -> (
        TimerView,
        ActionView,
        Seq<Effect>,
    ) {
        match m {
            Message::TimerTick(tick) => {
                let (t1, e) = self.ticked(tick as int);
                (t1, ActionView::Nothing, e)
            },
            Message::AlertTick(finished) => (
                self,
                if finished {
                    ActionView::Task(TaskView::NextPhase)
                } else {
                    ActionView::Nothing
                },
                Seq::empty(),
            ),
            Message::NextPhase => {
                let (t1, a) = self.next_phase(p, now);
                (t1, a, Seq::empty())
            },
            Message::ToggleTimer => (
                match self.status {
                    TimerStatus::Running(_) => self.paused(now),
                    _ => self.started(p, now),
                },
                ActionView::Nothing,
                Seq::empty(),
            ),
            Message::Reset => (self.reset(p), ActionView::Nothing, Seq::empty()),
            Message::Run(q) => (self.started(q@, now), ActionView::Nothing, Seq::empty()),
            Message::OpenSettings => (self.paused(now), ActionView::OpenSettings, Seq::empty()),
            Message::StopAlert => (
                TimerView { notification_open: false, ..self },
                ActionView::Nothing,
                if self.notification_open {
                    seq![Effect::StopAlert, Effect::CloseNotification]
                } else {
                    seq![Effect::StopAlert]
                },
            ),
            Message::WindowFocused(focused) => (
                TimerView { window_focused: focused, ..self },
                ActionView::Nothing,
                Seq::empty(),
            ),
        }
    }

    /// A message can be handled without a deadline beyond what a moment
    /// holds.
    pub open spec fn step_fits(self, m: Message, p: PreferencesView, now: int) -> bool {
        match m {
            Message::ToggleTimer => self.start_fits(p, now),
            Message::Run(q) => self.start_fits(q@, now),
            Message::NextPhase => (p.auto_start.enabled && p.auto_start.delay == 0) ==> self.advanced(
                p,
            ).start_fits(p, now),
            _ => true,
        }
    }

    /// The ticks and events the timer listens to.
    pub open spec fn subscriptions(self) -> Subscriptions {
        Subscriptions {
            ticks: match self.status {
                TimerStatus::Running(_) => Ticks::TimerEvery(500),
                TimerStatus::Alert => Ticks::AlertEvery(50),
                _ => Ticks::Off,
            },
            window_focus: true,
        }
    }

    /// The controls shown: in alert only a stop button; else start or
    /// pause, reset unless idle, and skip.
    pub open spec fn controls(self) -> Seq<Control> {
        if self.status is Alert {
            seq![Control::StopAlert]
        } else if self.status is Idle {
            seq![Control::Toggle(false), Control::Skip]
        } else {
            seq![Control::Toggle(self.status is Running), Control::Reset, Control::Skip]
        }
    }
}

/// A message is well formed: its moment and preferences obey the bounds of
/// [`crate::time`].
pub open spec fn message_wf(m: Message) -> bool {
    match m {
        Message::TimerTick(tick) => tick <= MAX_SPAN,
        Message::Run(q) => q@.wf(),
        _ => true,
    }
}

impl Timer {
    /// An idle timer at the start of a focus session, with the window
    /// focused and no notification shown.
    pub fn new(preferences: &Preferences) -> (t: Self)
        requires
            preferences@.wf(),
        ensures
            t@ == TimerView::initial(preferences@),
            t@.wf(),
    {
        Self {
            time_remaining: preferences.pomodoro_duration,
            status: TimerStatus::Idle,
            phase: Phase::Focus,
            session_count: 0,
            notification_open: false,
            window_focused: true,
        }
    }

    pub fn time_remaining(&self) -> (d: u128)
        ensures
            d == self@.time_remaining,
    {
        self.time_remaining
    }

    pub fn status(&self) -> (s: TimerStatus)
        ensures
            s == self@.status,
    {
        self.status
    }

    pub fn phase(&self) -> (p: Phase)
        ensures
            p == self@.phase,
    {
        self.phase
    }

    pub fn session_count(&self) -> (c: u32)
        ensures
            c == self@.session_count,
    {
        self.session_count
    }

    pub fn window_focused(&self) -> (f: bool)
        ensures
            f == self@.window_focused,
    {
        self.window_focused
    }

    pub fn notification_open(&self) -> (o: bool)
        ensures
            o == self@.notification_open,
    {
        self.notification_open
    }

    /// Pauses a running timer at `now`, keeping the time left.
    pub fn pause(&mut self, now: u128)
        requires
            old(self)@.wf(),
            now <= MAX_SPAN,
        ensures
            final(self)@ == old(self)@.paused(now as int),
            final(self)@.wf(),
    {
        if let TimerStatus::Running(target_time) = self.status {
            self.time_remaining = saturating_since(target_time, now);
            self.status = TimerStatus::Paused;
        }
    }

    /// Starts an idle timer for its whole phase, or resumes a paused one for
    /// the time left, from `now`.
    pub fn run(&mut self, preferences: &Preferences, now: u128)
        requires
            old(self)@.wf(),
            preferences@.wf(),
            now <= MAX_SPAN,
            old(self)@.start_fits(preferences@, now as int),
        ensures
            final(self)@ == old(self)@.started(preferences@, now as int),
            final(self)@.wf(),
    {
        if self.status.is_idle() {
            let duration = preferences.duration_for(self.phase);
            self.status = TimerStatus::Running(now + duration);
        } else if self.status.is_paused() {
            self.status = TimerStatus::Running(now + self.time_remaining);
        }
    }

    /// While idle, the time left follows the duration of the phase in the
    /// preferences.
    pub fn refresh_time_remaining(&mut self, preferences: &Preferences)
        requires
            old(self)@.wf(),
            preferences@.wf(),
        ensures
            final(self)@ == old(self)@.refreshed(preferences@),
            final(self)@.wf(),
    {
        if self.status.is_idle() {
            self.time_remaining = preferences.duration_for(self.phase);
        }
    }

    /// Shows a notification when the window is not focused.
    fn notify(&mut self, effects: &mut Vec<Effect>)
        ensures
            final(self)@ == (if old(self)@.window_focused {
                old(self)@
            } else {
                TimerView { notification_open: true, ..old(self)@ }
            }),
            final(effects)@ == (if old(self)@.window_focused {
                old(effects)@
            } else {
                old(effects)@.push(Effect::ShowNotification)
            }),
    {
        if !self.window_focused {
            self.notification_open = true;
            effects.push(Effect::ShowNotification);
        }
    }

    /// Handles a message at moment `now`, giving the action for the
    /// application and the side effects to perform, in order.
    pub fn update(&mut self, message: Message, preferences: &Preferences, now: u128) -> (r: (
        Action,
        Vec<Effect>,
    ))
        requires
            old(self)@.wf(),
            preferences@.wf(),
            now <= MAX_SPAN,
            message_wf(message),
            old(self)@.step_fits(message, preferences@, now as int),
        ensures
            final(self)@ == old(self)@.step(message, preferences@, now as int).0,
            r.0@ == old(self)@.step(message, preferences@, now as int).1,
            r.1@ == old(self)@.step(message, preferences@, now as int).2,
            final(self)@.wf(),
    {
        let mut effects: Vec<Effect> = Vec::new();
        match message {
            Message::TimerTick(now) => {
                if let TimerStatus::Running(target_time) = self.status {
                    self.time_remaining = saturating_since(target_time, now);
                }
                if self.time_remaining == 0 {
                    self.notify(&mut effects);
                    self.status = TimerStatus::Alert;
                    effects.push(Effect::PlayAlert);
                }
                (Action::Nothing, effects)
            },
            Message::AlertTick(finished) => {
                if finished {
                    return (Action::Task(Task::NextPhase), effects);
                }
                (Action::Nothing, effects)
            },
            Message::NextPhase => {
                let (phase, count) = next_cycle_of(
                    self.phase,
                    self.session_count,
                    preferences.pomodoro_count,
                );
                self.session_count = count;
                self.phase = phase;
                self.time_remaining = preferences.duration_for(self.phase);
                self.status = TimerStatus::Idle;
                if preferences.auto_start.enabled {
                    let delay = preferences.auto_start.delay;
                    if delay != 0 {
                        return (Action::Task(Task::RunAfter(delay, preferences.clone())), effects);
                    }
                    self.run(preferences, now);
                }
                (Action::Nothing, effects)
            },
            Message::ToggleTimer => {
                match self.status {
                    TimerStatus::Idle | TimerStatus::Paused => self.run(preferences, now),
                    TimerStatus::Running(_) => self.pause(now),
                    TimerStatus::Alert => (),
                };
                (Action::Nothing, effects)
            },
            Message::Reset => {
                self.time_remaining = preferences.duration_for(self.phase);
                self.status = TimerStatus::Idle;
                (Action::Nothing, effects)
            },
            Message::Run(preferences) => {
                self.run(&preferences, now);
                (Action::Nothing, effects)
            },
            Message::OpenSettings => {
                if self.status.is_running() {
                    self.pause(now);
                }
                (Action::OpenSettings, effects)
            },
            Message::StopAlert => {
                effects.push(Effect::StopAlert);
                if self.notification_open {
                    self.notification_open = false;
                    effects.push(Effect::CloseNotification);
                }
                (Action::Nothing, effects)
            },
            Message::WindowFocused(focused) => {
                self.window_focused = focused;
                (Action::Nothing, effects)
            },
        }
    }

    /// Whether starting at `now` gives a deadline that a moment can hold.
    pub fn start_fits(&self, preferences: &Preferences, now: u128) -> (b: bool)
        requires
            self@.wf(),
            preferences@.wf(),
            now <= MAX_SPAN,
        ensures
            b == self@.start_fits(preferences@, now as int),
    {
        if self.status.is_idle() {
            now + preferences.duration_for(self.phase) <= MAX_SPAN
        } else if self.status.is_paused() {
            now + self.time_remaining <= MAX_SPAN
        } else {
            true
        }
    }

    /// Whether [`Timer::update`] can handle `message` at `now`: no deadline
    /// it sets lies beyond what a moment holds.
    pub fn step_fits(&self, message: &Message, preferences: &Preferences, now: u128) -> (b: bool)
        requires
            self@.wf(),
            preferences@.wf(),
            now <= MAX_SPAN,
            message_wf(*message),
        ensures
            b == self@.step_fits(*message, preferences@, now as int),
    {
        match message {
            Message::ToggleTimer => self.start_fits(preferences, now),
            Message::Run(q) => self.start_fits(q, now),
            Message::NextPhase => {
                if preferences.auto_start.enabled && preferences.auto_start.delay == 0 {
                    let (phase, _) = next_cycle_of(
                        self.phase,
                        self.session_count,
                        preferences.pomodoro_count,
                    );
                    now + preferences.duration_for(phase) <= MAX_SPAN
                } else {
                    true
                }
            },
            _ => true,
        }
    }

    /// The ticks and events the timer listens to: a clock tick every half
    /// second while running, an alert tick every fiftieth of a second in
    /// alert, and changes of window focus.
    pub fn subscription(&self) -> (s: Subscriptions)
        ensures
            s == self@.subscriptions(),
    {
        let ticks = if self.status.is_running() {
            Ticks::TimerEvery(500)
        } else if self.status.is_alert() {
            Ticks::AlertEvery(50)
        } else {
            Ticks::Off
        };
        Subscriptions { ticks, window_focus: true }
    }

    /// The controls shown under the timer.
    pub fn controls(&self) -> (c: Vec<Control>)
        ensures
            c@ == self@.controls(),
    {
        let mut controls: Vec<Control> = Vec::new();
        if !self.status.is_alert() {
            controls.push(Control::Toggle(self.status.is_running()));
            if !self.status.is_idle() {
                controls.push(Control::Reset);
            }
            controls.push(Control::Skip);
        } else {
            controls.push(Control::StopAlert);
        }
        controls
    }
}

/// The phase and count that follow `phase` and `count` in a cycle of
/// `total` focus sessions.
pub fn next_cycle_of(phase: Phase, count: u32, total: u32) -> (r: (Phase, u32))
    ensures
        (r.0, r.1 as int) == next_cycle(phase, count as int, total as int),
{
    let mut count = count;
    if phase.is_focus() && count < total {
        count += 1;
    } else if phase.is_long_break() {
        count = 0;
    }
    let phase = match phase {
        Phase::Focus if count == total => Phase::LongBreak,
        Phase::Focus => Phase::Break,
        Phase::Break | Phase::LongBreak => Phase::Focus,
    };
    (phase, count)
}

/// One dot per focus session of a cycle of `total`, filled for the first
/// `count`.
pub open spec fn dots(count: int, total: int) -> Seq<bool> {
    Seq::new(total as nat, |i: int| i < count)
}

/// The progress through a cycle of `total` focus sessions of which `count`
/// are done: "count/total" when `total` is above ten, else the dots.
pub fn session_progress(count: u32, total: u32) -> (p: SessionProgress)
    ensures
        total > 10 ==> (p matches SessionProgress::Text(s) && s@ == fraction(
            count as nat,
            total as nat,
        )),
        total <= 10 ==> (p matches SessionProgress::Dots(d) && d@ == dots(count as int, total as int)),
{
    if total > 10 {
        SessionProgress::Text(fraction_text(count as u64, total as u64))
    } else {
        SessionProgress::Dots(session_dots(count, total))
    }
}

/// One flag per session of the cycle, set for those done.
pub fn session_dots(count: u32, total: u32) -> (d: Vec<bool>)
    ensures
        d@ == dots(count as int, total as int),
{
    let mut dots_done: Vec<bool> = Vec::new();
    for i in 0..total
        invariant
            dots_done@ == dots(count as int, i as int),
    {
        dots_done.push(i < count);
        assert(dots_done@ =~= dots(count as int, i + 1));
    }
    dots_done
}

/// The phase and count after `k` moves to the next phase, from the first
/// focus session of a cycle of `total` focus sessions.
pub open spec fn cycle_after(total: int, k: nat) -> (Phase, int)
    decreases k,
{
    if k == 0 {
        (Phase::Focus, 0)
    } else {
        let (phase, count) = cycle_after(total, (k - 1) as nat);
        next_cycle(phase, count, total)
    }
}

/// A cycle of `total` focus sessions: from the first focus session, focus
/// and breaks alternate and each focus session done is counted; the break
/// after the last focus session is a long one; after `2 * total` moves the
/// cycle starts over, at focus with no session counted.
pub proof fn lemma_cycle(total: int, k: nat)
    requires
        total >= 1,
        k <= 2 * total,
    ensures
        k % 2 == 0 && k < 2 * total ==> cycle_after(total, k) == (Phase::Focus, (k / 2) as int),
        k % 2 == 1 ==> cycle_after(total, k) == (if (k + 1) / 2 == total {
            Phase::LongBreak
        } else {
            Phase::Break
        }, ((k + 1) / 2) as int),
        k == 2 * total ==> cycle_after(total, k) == (Phase::Focus, 0int),
    decreases k,
{
    if k > 0 {
        lemma_cycle(total, (k - 1) as nat);
    }
}

/// Moving to the next phase keeps the count of focus sessions done between
/// zero and the number of focus sessions of a cycle.
pub proof fn lemma_count_stays_in_cycle(phase: Phase, count: int, total: int)
    requires
        0 <= count <= total,
    ensures
        0 <= next_cycle(phase, count, total).1 <= total,
{
}

/// Pausing a running timer at `paused_at`, no later than its deadline, and
/// starting it again at `resumed_at` moves its deadline by the time it
/// stood paused: no time is lost or gained while paused.
pub proof fn lemma_pause_resume(
    t: TimerView,
    p: PreferencesView,
    deadline: u128,
    paused_at: int,
    resumed_at: int,
)
    requires
        t.status == TimerStatus::Running(deadline),
        paused_at <= deadline,
    ensures
        t.paused(paused_at).status is Paused,
        t.paused(paused_at).time_remaining == deadline - paused_at,
        t.paused(paused_at).started(p, resumed_at).status == TimerStatus::Running(
            (deadline + (resumed_at - paused_at)) as u128,
        ),
{
}

/// Starting a timer and pausing it again at the same moment leaves it
/// paused with the time it had: the whole phase when it was idle, the time
/// left when it was paused.
pub proof fn lemma_start_pause(t: TimerView, p: PreferencesView, now: int)
    requires
        t.status is Idle || t.status is Paused,
        t.start_fits(p, now),
        0 <= now,
        0 <= t.time_remaining,
        p.wf(),
    ensures
        t.started(p, now).paused(now).status is Paused,
        t.started(p, now).paused(now).time_remaining == (if t.status is Idle {
            p.duration_for(t.phase)
        } else {
            t.time_remaining
        }),
{
}

/// Every message handled keeps the timer within its bounds.
pub proof fn lemma_timer_step_wf(t: TimerView, m: Message, p: PreferencesView, now: int)
    requires
        t.wf(),
        p.wf(),
        0 <= now <= MAX_SPAN,
        message_wf(m),
        t.step_fits(m, p, now),
    ensures
        t.step(m, p, now).0.wf(),
{
}

/// Two timers agree on everything but the time left and the status.
pub open spec fn same_but_time_and_status(a: TimerView, b: TimerView) -> bool {
    &&& a.phase == b.phase
    &&& a.session_count == b.session_count
    &&& a.notification_open == b.notification_open
    &&& a.window_focused == b.window_focused
}

/// Moving to the next phase, case by case: a break or a long break is
/// followed by focus (a long break clears the count, a break keeps it); a
/// focus session below the cycle's length is counted, and is followed by a
/// long break exactly when that count reaches the length; a focus session at
/// or above the length is not counted and is followed by a long break only
/// when the count equals the length.
pub proof fn lemma_next_cycle_cases(phase: Phase, count: int, total: int)
    ensures
        phase == Phase::Break ==> next_cycle(phase, count, total) == (Phase::Focus, count),
        phase == Phase::LongBreak ==> next_cycle(phase, count, total) == (Phase::Focus, 0int),
        phase == Phase::Focus && count < total ==> next_cycle(phase, count, total) == (
            if count + 1 == total {
                Phase::LongBreak
            } else {
                Phase::Break
            },
            count + 1,
        ),
        phase == Phase::Focus && count >= total ==> next_cycle(phase, count, total) == (
            if count == total {
                Phase::LongBreak
            } else {
                Phase::Break
            },
            count,
        ),
{
}

/// Reset, whatever the timer was doing: idle, with the whole duration of
/// the current phase left, and nothing else changed.
pub proof fn lemma_reset(t: TimerView, p: PreferencesView, now: int)
    ensures
        ({
            let (r, a, e) = t.step(Message::Reset, p, now);
            &&& r.status == TimerStatus::Idle
            &&& r.time_remaining == p.duration_for(t.phase)
            &&& same_but_time_and_status(r, t)
            &&& a == ActionView::Nothing
            &&& e.len() == 0
        }),
{
}

/// Bringing the time left in line with the preferences touches an idle
/// timer only, and then only its time left, which becomes the whole
/// duration of its phase; a running, paused or alerting timer is left as it
/// is, so a paused timer keeps the time it had left.
pub proof fn lemma_refresh(t: TimerView, p: PreferencesView)
    ensures
        !(t.status is Idle) ==> t.refreshed(p) == t,
        t.status is Idle ==> t.refreshed(p).time_remaining == p.duration_for(t.phase),
        t.status is Idle ==> t.refreshed(p).status == TimerStatus::Idle,
        same_but_time_and_status(t.refreshed(p), t),
{
}

/// Start and pause: toggling an idle timer runs it until now plus the whole
/// phase; toggling a paused one runs it until now plus the time it had left;
/// toggling a running one pauses it with the time left until its deadline
/// (none once the deadline has passed); toggling during the alert does
/// nothing. The time left of a started timer, and everything but the time
/// and the status, stay as they were.
pub proof fn lemma_toggle(t: TimerView, p: PreferencesView, now: int)
    requires
        t.wf(),
        p.wf(),
        0 <= now,
        t.start_fits(p, now),
    ensures
        ({
            let (r, a, e) = t.step(Message::ToggleTimer, p, now);
            &&& a == ActionView::Nothing
            &&& e.len() == 0
            &&& same_but_time_and_status(r, t)
            &&& (t.status is Idle ==> r.status == TimerStatus::Running(
                (now + p.duration_for(t.phase)) as u128,
            ) && r.time_remaining == t.time_remaining)
            &&& (t.status is Paused ==> r.status == TimerStatus::Running(
                (now + t.time_remaining) as u128,
            ) && r.time_remaining == t.time_remaining)
            &&& (t.status matches TimerStatus::Running(d) ==> r.status == TimerStatus::Paused
                && r.time_remaining == (if d > now {
                d - now
            } else {
                0
            }))
            &&& (t.status is Alert ==> r == t)
        }),
{
}

/// The scheduled start runs the timer with the preferences it carries, like
/// a toggle on an idle or paused timer, and does nothing to a running one
/// or one in alert.
pub proof fn lemma_run(t: TimerView, q: Preferences, p: PreferencesView, now: int)
    requires
        0 <= now,
        q@.wf(),
        t.start_fits(q@, now),
    ensures
        ({
            let (r, a, e) = t.step(Message::Run(q), p, now);
            &&& a == ActionView::Nothing
            &&& e.len() == 0
            &&& r.time_remaining == t.time_remaining
            &&& same_but_time_and_status(r, t)
            &&& (t.status is Idle ==> r.status == TimerStatus::Running(
                (now + q@.duration_for(t.phase)) as u128,
            ))
            &&& (t.status is Paused ==> r.status == TimerStatus::Running(
                (now + t.time_remaining) as u128,
            ))
            &&& (t.status is Running || t.status is Alert ==> r == t)
        }),
{
}

/// A clock tick at `now`: a running timer's time left becomes the time until
/// its deadline; when no time is left the timer enters the alert and the
/// alert sound is played, after a notification exactly when the window is
/// not focused; otherwise nothing is asked for.
pub proof fn lemma_tick(t: TimerView, p: PreferencesView, tick: u128, now: int)
    ensures
        ({
            let (r, a, e) = t.step(Message::TimerTick(tick), p, now);
            let left = match t.status {
                TimerStatus::Running(d) => if d > tick {
                    d - tick
                } else {
                    0
                },
                _ => t.time_remaining,
            };
            &&& a == ActionView::Nothing
            &&& r.time_remaining == left
            &&& r.phase == t.phase
            &&& r.session_count == t.session_count
            &&& r.window_focused == t.window_focused
            &&& (left == 0 ==> r.status == TimerStatus::Alert)
            &&& (left != 0 ==> r.status == t.status && e.len() == 0 && r == (TimerView {
                time_remaining: left,
                ..t
            }))
            &&& (left == 0 && t.window_focused ==> e == seq![Effect::PlayAlert]
                && r.notification_open == t.notification_open)
            &&& (left == 0 && !t.window_focused ==> e == seq![
                Effect::ShowNotification,
                Effect::PlayAlert,
            ] && r.notification_open)
        }),
{
}

/// Once the alert sound has finished, an alert tick asks for the next phase;
/// before that it asks for nothing; it never changes the timer.
pub proof fn lemma_alert_tick(t: TimerView, p: PreferencesView, finished: bool, now: int)
    ensures
        t.step(Message::AlertTick(finished), p, now).0 == t,
        t.step(Message::AlertTick(finished), p, now).2.len() == 0,
        finished ==> t.step(Message::AlertTick(finished), p, now).1 == ActionView::Task(
            TaskView::NextPhase,
        ),
        !finished ==> t.step(Message::AlertTick(finished), p, now).1 == ActionView::Nothing,
{
}

/// Stopping the alert stops the sound, then closes the notification exactly
/// when one is open; afterwards none is open. Nothing else changes.
pub proof fn lemma_stop_alert(t: TimerView, p: PreferencesView, now: int)
    ensures
        ({
            let (r, a, e) = t.step(Message::StopAlert, p, now);
            &&& a == ActionView::Nothing
            &&& e[0] == Effect::StopAlert
            &&& (t.notification_open ==> e == seq![Effect::StopAlert, Effect::CloseNotification])
            &&& (!t.notification_open ==> e == seq![Effect::StopAlert])
            &&& !r.notification_open
            &&& r == (TimerView { notification_open: false, ..t })
        }),
{
}

/// Window focus is recorded and nothing else changes.
pub proof fn lemma_window_focus(t: TimerView, p: PreferencesView, focused: bool, now: int)
    ensures
        t.step(Message::WindowFocused(focused), p, now).0 == (TimerView {
            window_focused: focused,
            ..t
        }),
        t.step(Message::WindowFocused(focused), p, now).1 == ActionView::Nothing,
        t.step(Message::WindowFocused(focused), p, now).2.len() == 0,
{
}

/// Asking for the settings pauses a running timer (keeping the time left
/// until its deadline) and leaves any other timer as it is.
pub proof fn lemma_open_settings(t: TimerView, p: PreferencesView, now: int)
    ensures
        ({
            let (r, a, e) = t.step(Message::OpenSettings, p, now);
            &&& a == ActionView::OpenSettings
            &&& e.len() == 0
            &&& (t.status matches TimerStatus::Running(d) ==> r.status == TimerStatus::Paused
                && r.time_remaining == (if d > now {
                d - now
            } else {
                0
            }) && same_but_time_and_status(r, t))
            &&& (!(t.status is Running) ==> r == t)
        }),
{
}

/// Moving to the next phase: the phase and count follow the cycle, the
/// timer is idle with the whole new phase left unless auto start begins it
/// at once; with auto start and a wait, the caller is asked to start it
/// after that wait with the preferences in force; with auto start and no
/// wait it runs until now plus the new phase.
pub proof fn lemma_next_phase(t: TimerView, p: PreferencesView, now: int)
    requires
        0 <= now,
    ensures
        ({
            let (r, a, e) = t.step(Message::NextPhase, p, now);
            let (phase, count) = next_cycle(t.phase, t.session_count, p.pomodoro_count);
            &&& e.len() == 0
            &&& r.phase == phase
            &&& r.session_count == count
            &&& r.time_remaining == p.duration_for(phase)
            &&& r.notification_open == t.notification_open
            &&& r.window_focused == t.window_focused
            &&& (!p.auto_start.enabled ==> r.status == TimerStatus::Idle && a
                == ActionView::Nothing)
            &&& (p.auto_start.enabled && p.auto_start.delay != 0 ==> r.status == TimerStatus::Idle
                && a == ActionView::Task(TaskView::RunAfter(p.auto_start.delay as int, p)))
            &&& (p.auto_start.enabled && p.auto_start.delay == 0 ==> r.status
                == TimerStatus::Running((now + p.duration_for(phase)) as u128) && a
                == ActionView::Nothing)
        }),
{
}

/// Filled dots: the progress has one dot per focus session of the cycle,
/// and dot `i` is filled exactly when `i` is below the count done; so every
/// dot is filled once the count reaches the cycle's length, and none at the
/// start of a cycle.
pub proof fn lemma_dots(count: int, total: int)
    requires
        0 <= total,
    ensures
        dots(count, total).len() == total,
        forall|i: int| 0 <= i < total ==> (#[trigger] dots(count, total)[i] <==> i < count),
        count >= total ==> forall|i: int| 0 <= i < total ==> #[trigger] dots(count, total)[i],
        count <= 0 ==> forall|i: int| 0 <= i < total ==> !#[trigger] dots(count, total)[i],
{
}

/// The timer listens to clock ticks every half second exactly while it
/// runs, to alert ticks every fiftieth of a second exactly while in alert,
/// to no ticks otherwise, and always to window focus.
pub proof fn lemma_subscriptions(t: TimerView)
    ensures
        t.subscriptions().window_focus,
        (t.subscriptions().ticks == Ticks::TimerEvery(500)) == (t.status is Running),
        (t.subscriptions().ticks == Ticks::AlertEvery(50)) == (t.status is Alert),
        (t.subscriptions().ticks == Ticks::Off) == (t.status is Idle || t.status is Paused),
{
}

/// During the alert the only control is the stop button. Otherwise the
/// controls start with start/pause, showing "pause" exactly while running,
/// end with skip, and hold a reset button exactly when the timer is not idle.
pub proof fn lemma_controls(t: TimerView)
    ensures
        t.status is Alert ==> t.controls() == seq![Control::StopAlert],
        !(t.status is Alert) ==> t.controls()[0] == Control::Toggle(t.status is Running)
            && t.controls().last() == Control::Skip && t.controls().contains(Control::Reset) == !(
        t.status is Idle),
        !(t.status is Alert) ==> !t.controls().contains(Control::StopAlert),
{
    if !(t.status is Alert) {
        let c = t.controls();
        if t.status is Idle {
            assert(c[0] != Control::Reset && c[1] != Control::Reset);
            assert(c[0] != Control::StopAlert && c[1] != Control::StopAlert);
        } else {
            assert(c[1] == Control::Reset);
            assert(c[0] != Control::StopAlert && c[1] != Control::StopAlert && c[2]
                != Control::StopAlert);
        }
    }
}

/// A new timer is idle at the first focus session of a cycle, with the
/// whole focus duration left, the window focused and no notification.
pub proof fn lemma_initial(p: PreferencesView)
    ensures
        TimerView::initial(p).status == TimerStatus::Idle,
        TimerView::initial(p).phase == Phase::Focus,
        TimerView::initial(p).session_count == 0,
        TimerView::initial(p).time_remaining == p.pomodoro_duration,
        TimerView::initial(p).window_focused,
        !TimerView::initial(p).notification_open,
{
}

} // verus!
