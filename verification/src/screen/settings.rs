//! The settings form: it edits a copy of the preferences, which the user
//! applies or leaves.
use crate::preferences::{Preferences, PreferencesView};
use crate::text::{parse_decimal, parsed_u64};
use crate::time::{span_as_secs, span_from_secs, MAX_SPAN, NANOS_PER_SEC};
use vstd::prelude::*;

verus! {

/// The form, holding the preferences as edited so far.
pub struct Settings {
    preferences: Preferences,
}

/// A change made in the form. A number field sends `None` when it is
/// emptied, and the number otherwise.
#[derive(Clone, Debug)]
pub enum Message {
    Back,
    /// Minutes of focus.
    PomodoroDurationChange(Option<u64>),
    /// Minutes of break.
    BreakDurationChange(Option<u64>),
    /// Minutes of long break.
    LongBreakDurationChange(Option<u64>),
    /// Focus sessions before a long break.
    PomodoroCountChange(Option<u64>),
    AutoStartEnabledChange(bool),
    /// Seconds to wait before a phase starts by itself.
    AutoStartDelayChange(Option<u64>),
    Apply,
}

/// What the application does after the form handled a message.
#[derive(Clone, Debug)]
pub enum Action {
    Nothing,
    /// Leave the form.
    Back,
    /// Use these preferences from now on.
    Apply(Preferences),
}

pub enum ActionView {
    Nothing,
    Back,
    Apply(PreferencesView),
}

impl View for Action {
    type V = ActionView;

    open spec fn view(&self) -> ActionView {
        match self {
            Action::Nothing => ActionView::Nothing,
            Action::Back => ActionView::Back,
            Action::Apply(p) => ActionView::Apply(p@),
        }
    }
}

impl View for Settings {
    type V = PreferencesView;

    closed spec fn view(&self) -> PreferencesView {
        self.preferences@
    }
}

/// The values the form shows: durations in whole minutes, the count, the
/// auto start switch, and the wait in whole seconds, shown only while auto
/// start is on.
#[derive(Clone, Copy, Debug, PartialEq, Eq, Structural)]
pub struct SettingsForm {
    pub pomodoro_minutes: u64,
    pub break_minutes: u64,
    pub long_break_minutes: u64,
    pub pomodoro_count: u64,
    pub auto_start: bool,
    pub auto_start_delay_secs: Option<u64>,
}

/// Nanoseconds in one minute.
pub open spec fn nanos_per_min() -> int {
    60 * NANOS_PER_SEC
}

/// Whole minutes, rounded down.
pub open spec fn whole_minutes(span: int) -> int {
    span / NANOS_PER_SEC as int / 60
}

/// A message fits: a number of minutes is no more than `u64` can hold in
/// seconds.
pub open spec fn message_fits(m: Message) -> bool {
    match m {
        Message::PomodoroDurationChange(Some(c)) => c * 60 <= u64::MAX,
        Message::BreakDurationChange(Some(c)) => c * 60 <= u64::MAX,
        Message::LongBreakDurationChange(Some(c)) => c * 60 <= u64::MAX,
        _ => true,
    }
}

/// The preferences after a change in the form. An emptied field changes
/// nothing; a count too large for `u32` becomes zero.
pub open spec fn edited(p: PreferencesView, m: Message) -> PreferencesView {
    match m {
        Message::PomodoroDurationChange(Some(c)) => PreferencesView {
            pomodoro_duration: c * nanos_per_min(),
            ..p
        },
        Message::BreakDurationChange(Some(c)) => PreferencesView {
            break_duration: c * nanos_per_min(),
            ..p
        },
        Message::LongBreakDurationChange(Some(c)) => PreferencesView {
            long_break_duration: c * nanos_per_min(),
            ..p
        },
        Message::PomodoroCountChange(Some(c)) => PreferencesView {
            pomodoro_count: if c <= u32::MAX {
                c as int
            } else {
                0
            },
            ..p
        },
        Message::AutoStartEnabledChange(enabled) => PreferencesView {
            auto_start: crate::preferences::AutoStartConfig { enabled, ..p.auto_start },
            ..p
        },
        Message::AutoStartDelayChange(Some(c)) => PreferencesView {
            auto_start: crate::preferences::AutoStartConfig {
                delay: (c * NANOS_PER_SEC) as u128,
                ..p.auto_start
            },
            ..p
        },
        _ => p,
    }
}

/// What the form answers to a message: leave on `Back`, hand over the
/// edited preferences on `Apply`, nothing else.
pub open spec fn answer(p: PreferencesView, m: Message) -> ActionView {
    match m {
        Message::Back => ActionView::Back,
        Message::Apply => ActionView::Apply(p),
        _ => ActionView::Nothing,
    }
}

/// What a number field sends when its text becomes `text` while it shows
/// `value`: `None` when emptied, the number read when it reads as one, and
/// the value unchanged otherwise.
pub open spec fn number_input_answer(value: u64, text: Seq<char>) -> Option<u64> {
    if text.len() == 0 {
        None
    } else if parsed_u64(text) is Some {
        parsed_u64(text)
    } else {
        Some(value)
    }
}

impl Settings {
    /// A form over the given preferences.
    pub fn new(preferences: Preferences) -> (s: Self)
        ensures
            s@ == preferences@,
    {
        Self { preferences }
    }

    /// The preferences as edited so far.
    pub fn preferences(&self) -> (p: &Preferences)
        ensures
            p@ == self@,
    {
        &self.preferences
    }

    /// Applies a change; answers `Back` and `Apply` for the application.
    pub fn update(&mut self, message: Message) -> (a: Action)
        requires
            old(self)@.wf(),
            message_fits(message),
        ensures
            final(self)@ == edited(old(self)@, message),
            a@ == answer(old(self)@, message),
            final(self)@.wf(),
    {
        match message {
            Message::Back => Action::Back,
            Message::Apply => Action::Apply(self.preferences.clone()),
            Message::PomodoroDurationChange(c) => {
                if let Some(c) = c {
                    self.preferences.pomodoro_duration = span_from_secs(c * 60);
                }
                Action::Nothing
            },
            Message::BreakDurationChange(c) => {
                if let Some(c) = c {
                    self.preferences.break_duration = span_from_secs(c * 60);
                }
                Action::Nothing
            },
            Message::LongBreakDurationChange(c) => {
                if let Some(c) = c {
                    self.preferences.long_break_duration = span_from_secs(c * 60);
                }
                Action::Nothing
            },
            Message::PomodoroCountChange(c) => {
                if let Some(c) = c {
                    self.preferences.pomodoro_count = if c <= 4294967295u64 {
                        c as u32
                    } else {
                        0
                    };
                }
                Action::Nothing
            },
            Message::AutoStartEnabledChange(c) => {
                self.preferences.auto_start.enabled = c;
                Action::Nothing
            },
            Message::AutoStartDelayChange(c) => {
                if let Some(c) = c {
                    self.preferences.auto_start.delay = span_from_secs(c);
                }
                Action::Nothing
            },
        }
    }

    /// The values the form shows.
    pub fn form(&self) -> (f: SettingsForm)
        requires
            self@.wf(),
        ensures
            f.pomodoro_minutes == whole_minutes(self@.pomodoro_duration),
            f.break_minutes == whole_minutes(self@.break_duration),
            f.long_break_minutes == whole_minutes(self@.long_break_duration),
            f.pomodoro_count == self@.pomodoro_count,
            f.auto_start == self@.auto_start.enabled,
            f.auto_start_delay_secs == (if self@.auto_start.enabled {
                Some((self@.auto_start.delay / NANOS_PER_SEC) as u64)
            } else {
                None::<u64>
            }),
    {
        let p = &self.preferences;
        SettingsForm {
            pomodoro_minutes: span_as_secs(p.pomodoro_duration) / 60,
            break_minutes: span_as_secs(p.break_duration) / 60,
            long_break_minutes: span_as_secs(p.long_break_duration) / 60,
            pomodoro_count: p.pomodoro_count as u64,
            auto_start: p.auto_start.enabled,
            auto_start_delay_secs: if p.auto_start.enabled {
                Some(span_as_secs(p.auto_start.delay))
            } else {
                None
            },
        }
    }
}

/// Whether a message fits (see [`message_fits`]).
pub fn fits(message: &Message) -> (b: bool)
    ensures
        b == message_fits(*message),
{
    match message {
        Message::PomodoroDurationChange(Some(c)) => *c <= u64::MAX / 60,
        Message::BreakDurationChange(Some(c)) => *c <= u64::MAX / 60,
        Message::LongBreakDurationChange(Some(c)) => *c <= u64::MAX / 60,
        _ => true,
    }
}

/// What a number field sends when its text is edited to `text` while it
/// shows `value`.
pub fn number_input_edit(value: u64, text: &str) -> (r: Option<u64>)
    ensures
        r == number_input_answer(value, text@),
{
    if text.is_empty() {
        None
    } else if let Some(v) = parse_decimal(text) {
        Some(v)
    } else {
        Some(value)
    }
}

/// What the "minus" button of a number field sends: one less, never below
/// zero.
pub fn number_input_minus(value: u64) -> (r: u64)
    ensures
        r == (if value == 0 {
            0
        } else {
            value - 1
        }),
{
    value.saturating_sub(1)
}

/// What the "plus" button of a number field sends: one more, never beyond
/// `u64::MAX`.
pub fn number_input_plus(value: u64) -> (r: u64)
    ensures
        r == (if value == u64::MAX {
            u64::MAX as int
        } else {
            value + 1
        }),
{
    value.saturating_add(1)
}

/// Every change made in the form keeps the preferences within their
/// bounds.
pub proof fn lemma_edited_wf(p: PreferencesView, m: Message)
    requires
        p.wf(),
        message_fits(m),
    ensures
        edited(p, m).wf(),
{
    match m {
        Message::PomodoroDurationChange(Some(c)) | Message::BreakDurationChange(Some(c))
        | Message::LongBreakDurationChange(Some(c)) => {
            assert(c * nanos_per_min() <= MAX_SPAN) by (nonlinear_arith)
                requires
                    c * 60 <= u64::MAX,
            ;
        },
        _ => {},
    }
}

/// Each change in the form sets exactly the value it names and keeps every
/// other: a duration in minutes, the count (zero when too large for `u32`),
/// the auto start switch, the wait in seconds; an emptied field, `Back` and
/// `Apply` change nothing. `Back` answers `Back`, `Apply` hands over the
/// preferences as edited, any other change answers nothing.
pub proof fn lemma_edits(p: PreferencesView, m: Message)
    ensures
        m matches Message::PomodoroDurationChange(Some(c)) ==> edited(p, m) == (PreferencesView {
            pomodoro_duration: c * 60 * NANOS_PER_SEC,
            ..p
        }),
        m matches Message::BreakDurationChange(Some(c)) ==> edited(p, m) == (PreferencesView {
            break_duration: c * 60 * NANOS_PER_SEC,
            ..p
        }),
        m matches Message::LongBreakDurationChange(Some(c)) ==> edited(p, m) == (PreferencesView {
            long_break_duration: c * 60 * NANOS_PER_SEC,
            ..p
        }),
        m matches Message::PomodoroCountChange(Some(c)) ==> edited(p, m).pomodoro_count == (if c
            <= u32::MAX {
            c as int
        } else {
            0
        }),
        m matches Message::PomodoroCountChange(_) ==> edited(p, m) == (PreferencesView {
            pomodoro_count: edited(p, m).pomodoro_count,
            ..p
        }),
        m matches Message::AutoStartEnabledChange(b) ==> edited(p, m).auto_start.enabled == b
            && edited(p, m).auto_start.delay == p.auto_start.delay && edited(p, m) == (
        PreferencesView { auto_start: edited(p, m).auto_start, ..p }),
        m matches Message::AutoStartDelayChange(Some(c)) ==> edited(p, m).auto_start.delay == c
            * NANOS_PER_SEC && edited(p, m).auto_start.enabled == p.auto_start.enabled && edited(
            p,
            m,
        ) == (PreferencesView { auto_start: edited(p, m).auto_start, ..p }),
        m matches Message::PomodoroDurationChange(None) ==> edited(p, m) == p,
        m matches Message::BreakDurationChange(None) ==> edited(p, m) == p,
        m matches Message::LongBreakDurationChange(None) ==> edited(p, m) == p,
        m matches Message::PomodoroCountChange(None) ==> edited(p, m) == p,
        m matches Message::AutoStartDelayChange(None) ==> edited(p, m) == p,
        m is Back ==> edited(p, m) == p && answer(p, m) == ActionView::Back,
        m is Apply ==> edited(p, m) == p && answer(p, m) == ActionView::Apply(p),
        !(m is Back) && !(m is Apply) ==> answer(p, m) == ActionView::Nothing,
{
    match m {
        Message::PomodoroDurationChange(Some(c)) | Message::BreakDurationChange(Some(c))
        | Message::LongBreakDurationChange(Some(c)) => {
            assert(c * nanos_per_min() == c * 60 * NANOS_PER_SEC) by (nonlinear_arith);
        },
        _ => {},
    }
}

/// Switching auto start on or off takes effect, and switching it twice
/// comes back to where it was.
pub proof fn lemma_auto_start_switch(p: PreferencesView, b: bool)
    ensures
        edited(p, Message::AutoStartEnabledChange(b)).auto_start.enabled == b,
        edited(
            edited(p, Message::AutoStartEnabledChange(!p.auto_start.enabled)),
            Message::AutoStartEnabledChange(p.auto_start.enabled),
        ) == p,
{
}

/// The form shows what an edit set: a duration set to `c` minutes shows
/// `c` minutes.
pub proof fn lemma_minutes_round_trip(c: int)
    requires
        0 <= c,
    ensures
        whole_minutes(c * 60 * NANOS_PER_SEC) == c,
{
    assert(c * 60 * NANOS_PER_SEC / NANOS_PER_SEC as int == c * 60) by (nonlinear_arith);
}

/// A number field sends nothing once emptied, the number typed when the
/// text is a number's decimal writing, and keeps showing its value when the
/// text holds any character other than digits after an optional '+'.
pub proof fn lemma_number_input(value: u64, n: u64, text: Seq<char>, i: int)
    ensures
        number_input_answer(value, Seq::<char>::empty()) is None,
        number_input_answer(value, crate::text::decimal(n as nat)) == Some(n),
        0 <= i < text.len() && !crate::text::is_digit(text[i]) && !(i == 0 && text[0] == '+')
            ==> number_input_answer(value, text) == Some(value),
{
    crate::text::lemma_parse_decimal(n);
    crate::text::lemma_parse_rejects(text, i, n);
}

} // verus!
