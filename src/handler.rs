//! The key bindings: which command each key press stands for.

use vstd::prelude::*;
use crate::app::Command;

verus! {

/// The key of a key press, as far as the bindings tell keys apart.
#[derive(Debug, Clone, Copy, PartialEq, Eq)]
pub enum Key {
    Esc,
    Char(char),
    Left,
    Right,
    Up,
    Down,
    /// Any other key.
    Other,
}

/// A key press: the key, and whether Control was the only modifier held.
#[derive(Debug, Clone, Copy, PartialEq, Eq)]
pub struct KeyPress {
    pub key: Key,
    pub control: bool,
}

/// The command that `press` stands for.
pub open spec fn command_of(press: KeyPress) -> Command {
    match press.key {
        Key::Esc => Command::Quit,
        Key::Char(c) => if c == 'q' {
            Command::Quit
        } else if (c == 'c' || c == 'C') && press.control {
            Command::Quit
        } else if c == ' ' {
            Command::TogglePlayPause
        } else if c == 's' {
            Command::Stop
        } else {
            Command::Ignore
        },
        Key::Right => Command::Next,
        Key::Left => Command::Previous,
        Key::Up => Command::VolumeUp,
        Key::Down => Command::VolumeDown,
        Key::Other => Command::Ignore,
    }
}

/// The command that `press` stands for: Esc, `q` or Control-C quit, space
/// toggles play and pause, `s` stops, the arrows step tracks and volume, and
/// any other key means nothing.
pub fn command_for_key(press: KeyPress) -> (r: Command)
    ensures
        r == command_of(press),
{
    match press.key {
        Key::Esc => Command::Quit,
        Key::Char(c) => {
            if c == 'q' {
                Command::Quit
            } else if (c == 'c' || c == 'C') && press.control {
                Command::Quit
            } else if c == ' ' {
                Command::TogglePlayPause
            } else if c == 's' {
                Command::Stop
            } else {
                Command::Ignore
            }
        },
        Key::Right => Command::Next,
        Key::Left => Command::Previous,
        Key::Up => Command::VolumeUp,
        Key::Down => Command::VolumeDown,
        Key::Other => Command::Ignore,
    }
}

} // verus!
