//! The plain default session lengths, in whole seconds.
use vstd::prelude::*;

verus! {

/// Session lengths in seconds and the number of focus sessions between two
/// long breaks.
#[derive(Clone, Debug)]
pub struct Settings {
    pub pomodoro_duration: u64,
    pub short_break_duration: u64,
    pub long_break_duration: u64,
    pub long_break_interval: u32,
}

impl Settings {
    /// Twenty-five minutes of focus, five of short break, twenty of long
    /// break, and a long break after every four focus sessions.
    pub fn new() -> (s: Self)
        ensures
            s.pomodoro_duration == 25 * 60,
            s.short_break_duration == 5 * 60,
            s.long_break_duration == 20 * 60,
            s.long_break_interval == 4,
    {
        Self {
            pomodoro_duration: 25 * 60,
            short_break_duration: 5 * 60,
            long_break_duration: 20 * 60,
            long_break_interval: 4,
        }
    }
}

} // verus!
