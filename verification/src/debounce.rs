//! Input debouncing: a raw stream of key events is filtered into a
//! rate-limited stream of commands. A raw event is accepted only when at
//! least `DEBOUNCE_WINDOW_MS` has passed since the last accepted event;
//! rejected events are dropped. Accepted keys are mapped to commands, with
//! unmapped keys yielding `Command::Noop`.

use vstd::prelude::*;

verus! {

/// Minimum interval between two accepted input events, in milliseconds.
pub const DEBOUNCE_WINDOW_MS: u64 = 300;

/// A command produced by the debouncer and consumed by the session
/// controller.
#[derive(Clone, Copy, Debug, PartialEq, Eq, Structural)]
pub enum Command {
    Quit,
    TogglePlayPause,
    NextTrack,
    PreviousTrack,
    VolumeUp,
    VolumeDown,
    Noop,
}

/// The command bound to a key: `q` quits, `p` toggles play/pause, `+` and
/// `-` move the volume, `n` and `b` navigate the playlist; every other key
/// maps to `Noop`.
pub open spec fn spec_key_command(key: char) -> Command {
    if key == 'q' {
        Command::Quit
    } else if key == 'p' {
        Command::TogglePlayPause
    } else if key == '+' {
        Command::VolumeUp
    } else if key == '-' {
        Command::VolumeDown
    } else if key == 'n' {
        Command::NextTrack
    } else if key == 'b' {
        Command::PreviousTrack
    } else {
        Command::Noop
    }
}

/// Whether a raw event at `now` is accepted given the time of the last
/// accepted event; before any event has been accepted, every event is.
pub open spec fn spec_accepts(now: int, last_accepted: Option<u64>) -> bool {
    match last_accepted {
        Option::None => true,
        Option::Some(last) => now - last >= DEBOUNCE_WINDOW_MS,
    }
}

/// Maps a key to its command.
pub fn key_command(key: char) -> (c: Command)
    ensures
        c == spec_key_command(key),
{
    if key == 'q' {
        Command::Quit
    } else if key == 'p' {
        Command::TogglePlayPause
    } else if key == '+' {
        Command::VolumeUp
    } else if key == '-' {
        Command::VolumeDown
    } else if key == 'n' {
        Command::NextTrack
    } else if key == 'b' {
        Command::PreviousTrack
    } else {
        Command::Noop
    }
}

/// Filters one raw key event. An event inside the debounce window is
/// dropped: it yields `Noop` and leaves the acceptance time unchanged. An
/// accepted event yields its key's command and becomes the new last
/// accepted event.
pub fn debounce(key: char, now_ms: u64, last_accepted_ms: Option<u64>) -> (r: (
    Command,
    Option<u64>,
))
    requires
        last_accepted_ms is Some ==> last_accepted_ms->0 <= now_ms,
    ensures
        spec_accepts(now_ms as int, last_accepted_ms) ==> r == (
            spec_key_command(key),
            Some(now_ms),
        ),
        !spec_accepts(now_ms as int, last_accepted_ms) ==> r == (
            Command::Noop,
            last_accepted_ms,
        ),
{
    let accepted = match last_accepted_ms {
        Option::None => true,
        Option::Some(last) => now_ms - last >= DEBOUNCE_WINDOW_MS,
    };
    if accepted {
        (key_command(key), Some(now_ms))
    } else {
        (Command::Noop, last_accepted_ms)
    }
}

} // verus!
