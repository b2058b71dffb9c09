//! Pomodoro timer logic: preferences, the timer state machine, the settings
//! form, the screens of the application and the text it shows.
//!
//! Every operation here is a pure decision on plain values. Reading the clock,
//! playing sounds, showing desktop notifications and drawing widgets are left
//! to the caller, which hands in the current moment and the observations it
//! made, and performs the effects that the decisions ask for.
pub mod preferences;
pub mod screen;
pub mod settings;
pub mod text;
pub mod time;
pub mod tomat;
