//! The two screens of the application.
use vstd::prelude::*;

pub mod settings;
pub mod timer;

use settings::Settings;
use timer::Timer;

verus! {

/// The screen on display: the timer, or the settings form.
pub enum Screen {
    Timer(Timer),
    Settings(Settings),
}

} // verus!
