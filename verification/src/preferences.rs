//! What the user chose: session lengths, how many focus sessions come before
//! a long break, whether the next phase starts by itself, and the alert.
use crate::screen::timer::Phase;
use crate::time::{span_from_secs, MAX_SPAN, NANOS_PER_SEC};
use vstd::prelude::*;

verus! {

/// The user's choices. Durations are in nanoseconds (see [`crate::time`]).
#[derive(Debug)]
pub struct Preferences {
    pub pomodoro_duration: u128,
    pub break_duration: u128,
    pub long_break_duration: u128,
    pub pomodoro_count: u32,
    pub auto_start: AutoStartConfig,
    pub alert: AlertConfig,
}

/// Whether the next phase starts by itself once a phase ends, and after how
/// long a wait (in nanoseconds).
#[derive(Clone, Copy, Debug, PartialEq, Eq, Structural)]
pub struct AutoStartConfig {
    pub enabled: bool,
    pub delay: u128,
}

/// The sound played when a phase ends, how long it repeats, and whether it
/// repeats at all.
#[derive(Debug)]
pub struct AlertConfig {
    pub audio: Vec<u8>,
    pub timeout: u128,
    pub repeat: bool,
}

/// The mathematical value of an [`AlertConfig`].
pub struct AlertConfigView {
    pub audio: Seq<u8>,
    pub timeout: int,
    pub repeat: bool,
}

/// The mathematical value of a [`Preferences`].
pub struct PreferencesView {
    pub pomodoro_duration: int,
    pub break_duration: int,
    pub long_break_duration: int,
    pub pomodoro_count: int,
    pub auto_start: AutoStartConfig,
    pub alert: AlertConfigView,
}

impl View for AlertConfig {
    type V = AlertConfigView;

    open spec fn view(&self) -> AlertConfigView {
        AlertConfigView { audio: self.audio@, timeout: self.timeout as int, repeat: self.repeat }
    }
}

impl View for Preferences {
    type V = PreferencesView;

    open spec fn view(&self) -> PreferencesView {
        PreferencesView {
            pomodoro_duration: self.pomodoro_duration as int,
            break_duration: self.break_duration as int,
            long_break_duration: self.long_break_duration as int,
            pomodoro_count: self.pomodoro_count as int,
            auto_start: self.auto_start,
            alert: self.alert@,
        }
    }
}

impl PreferencesView {
    /// Every duration is one that `std::time::Duration` can hold.
    pub open spec fn wf(self) -> bool {
        &&& 0 <= self.pomodoro_duration <= MAX_SPAN
        &&& 0 <= self.break_duration <= MAX_SPAN
        &&& 0 <= self.long_break_duration <= MAX_SPAN
        &&& 0 <= self.pomodoro_count <= u32::MAX
        &&& self.auto_start.delay <= MAX_SPAN
        &&& 0 <= self.alert.timeout <= MAX_SPAN
    }

    /// The default preferences with the given alert sound.
    pub open spec fn default_with(audio: Seq<u8>) -> PreferencesView {
        PreferencesView {
            pomodoro_duration: 25 * 60 * NANOS_PER_SEC,
            break_duration: 5 * 60 * NANOS_PER_SEC,
            long_break_duration: 20 * 60 * NANOS_PER_SEC,
            pomodoro_count: 4,
            auto_start: AutoStartConfig { enabled: false, delay: 3_000_000_000u128 },
            alert: AlertConfigView { audio, timeout: 15 * NANOS_PER_SEC, repeat: true },
        }
    }

    /// How long a phase lasts.
    pub open spec fn duration_for(self, phase: Phase) -> int {
        match phase {
            Phase::Focus => self.pomodoro_duration,
            Phase::Break => self.break_duration,
            Phase::LongBreak => self.long_break_duration,
        }
    }
}

impl Clone for AlertConfig {
    fn clone(&self) -> (c: Self)
        ensures
            c@ == self@,
    {
        let mut audio: Vec<u8> = Vec::new();
        let n = self.audio.len();
        for i in 0..n
            invariant
                n == self.audio.len(),
                audio@ == self.audio@.take(i as int),
        {
            audio.push(self.audio[i]);
            assert(self.audio@.take(i + 1) == self.audio@.take(i as int).push(self.audio@[i as int]));
        }
        assert(self.audio@.take(n as int) == self.audio@);
        AlertConfig { audio, timeout: self.timeout, repeat: self.repeat }
    }
}

impl Clone for Preferences {
    fn clone(&self) -> (c: Self)
        ensures
            c@ == self@,
    {
        Preferences {
            pomodoro_duration: self.pomodoro_duration,
            break_duration: self.break_duration,
            long_break_duration: self.long_break_duration,
            pomodoro_count: self.pomodoro_count,
            auto_start: self.auto_start,
            alert: self.alert.clone(),
        }
    }
}

impl AlertConfig {
    /// The default alert with the given sound: it repeats for fifteen seconds.
    pub fn with_audio(audio: Vec<u8>) -> (c: Self)
        ensures
            c@.audio == audio@,
            c@.timeout == 15 * NANOS_PER_SEC,
            c@.repeat,
    {
        Self { audio, timeout: span_from_secs(15), repeat: true }
    }

    /// How long the sound is looped: for the timeout when it repeats, or
    /// `None` when it is played once.
    pub fn loop_limit(&self) -> (limit: Option<u128>)
        ensures
            limit == (if self.repeat { Some(self.timeout) } else { None::<u128> }),
    {
        if self.repeat {
            Some(self.timeout)
        } else {
            None
        }
    }
}

impl AutoStartConfig {
    /// Auto start switched on or off, with a wait of `delay_in_secs` seconds.
    pub fn new(enabled: bool, delay_in_secs: u64) -> (c: Self)
        ensures
            c.enabled == enabled,
            c.delay == delay_in_secs * NANOS_PER_SEC,
    {
        Self { enabled, delay: span_from_secs(delay_in_secs) }
    }
}

impl Preferences {
    /// Twenty-five minutes of focus, five of break, twenty of long break, a
    /// long break after four focus sessions, no auto start (with a wait of
    /// three seconds when it is switched on), and the default alert with the
    /// given sound.
    pub fn new(alert_audio: Vec<u8>) -> (p: Self)
        ensures
            p@ == PreferencesView::default_with(alert_audio@),
            p@.wf(),
    {
        Self {
            pomodoro_duration: span_from_secs(25 * 60),
            break_duration: span_from_secs(5 * 60),
            long_break_duration: span_from_secs(20 * 60),
            pomodoro_count: 4,
            auto_start: AutoStartConfig::new(false, 3),
            alert: AlertConfig::with_audio(alert_audio),
        }
    }

    /// Whether every duration is one that `std::time::Duration` can hold.
    pub fn fits(&self) -> (b: bool)
        ensures
            b == self@.wf(),
    {
        self.pomodoro_duration <= MAX_SPAN && self.break_duration <= MAX_SPAN
            && self.long_break_duration <= MAX_SPAN && self.auto_start.delay <= MAX_SPAN
            && self.alert.timeout <= MAX_SPAN
    }

    /// How long the given phase lasts.
    pub fn duration_for(&self, phase: Phase) -> (d: u128)
        ensures
            d == self@.duration_for(phase),
    {
        match phase {
            Phase::Focus => self.pomodoro_duration,
            Phase::Break => self.break_duration,
            Phase::LongBreak => self.long_break_duration,
        }
    }
}

} // verus!
