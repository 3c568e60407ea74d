//! The input dispatcher: maps key events to timer commands.

use vstd::prelude::*;
use crate::timer::Timer;

verus! {

/// A command for the event loop, decoded from one key event.
#[derive(Clone, Copy, PartialEq, Eq, Structural, Debug)]
pub enum Command {
    /// End the run and return control to the caller.
    Quit,
    /// Pause the countdown if running, resume it if paused.
    TogglePause,
    /// Restart the countdown from the full duration.
    Reset,
    /// Anything else: no effect.
    Ignore,
}

/// The command a key event decodes to: only "key pressed" events of the three
/// bound character keys act; everything else is ignored.
pub open spec fn spec_interpret_key(key: Option<char>, is_press: bool) -> Command {
    if !is_press {
        Command::Ignore
    } else if key == Some('q') {
        Command::Quit
    } else if key == Some(' ') {
        Command::TogglePause
    } else if key == Some('r') {
        Command::Reset
    } else {
        Command::Ignore
    }
}

/// Decodes one key event: `key` is the character of a character key (`None`
/// for any other key), `is_press` distinguishes presses from releases and
/// repeats, which are ignored to avoid double-triggering.
pub fn interpret_key(key: Option<char>, is_press: bool) -> (c: Command)
    ensures
        c == spec_interpret_key(key, is_press),
{
    if !is_press {
        return Command::Ignore;
    }
    match key {
        Some(ch) => {
            if ch == 'q' {
                Command::Quit
            } else if ch == ' ' {
                Command::TogglePause
            } else if ch == 'r' {
                Command::Reset
            } else {
                Command::Ignore
            }
        },
        None => Command::Ignore,
    }
}

/// The timer state after applying one command at clock reading `now`.
/// `TogglePause` pauses a running timer and resumes a paused one; `Quit` is
/// the event loop's concern and leaves the timer unchanged.
pub open spec fn spec_apply_command(t: Timer, c: Command, now: u64) -> Timer {
    match c {
        Command::TogglePause => if t.paused {
            t.spec_resume(now)
        } else {
            t.spec_pause(now)
        },
        Command::Reset => t.spec_reset(now),
        Command::Quit => t,
        Command::Ignore => t,
    }
}

/// Applies one decoded command to the timer at clock reading `now`.
pub fn apply_command(t: &mut Timer, c: Command, now: u64)
    requires
        old(t).wf(),
    ensures
        *final(t) == spec_apply_command(*old(t), c, now),
        final(t).wf(),
{
    match c {
        Command::TogglePause => {
            if t.paused {
                t.resume(now);
            } else {
                t.pause(now);
            }
        },
        Command::Reset => {
            t.reset(now);
        },
        Command::Quit => {},
        Command::Ignore => {},
    }
}

} // verus!
