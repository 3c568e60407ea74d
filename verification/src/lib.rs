//! A countdown ("Pomodoro") timer library.
//!
//! The heart of the crate is [`timer::Timer`], a state machine that accounts
//! for elapsed and remaining time across pause/resume transitions and fires a
//! one-shot alert when the countdown expires. Time points are plain `u64`
//! millisecond readings of a monotonic clock, supplied by the caller; the
//! library itself never reads a clock, draws to a terminal or plays a sound.

pub mod display;
pub mod input;
pub mod laws;
pub mod timer;
