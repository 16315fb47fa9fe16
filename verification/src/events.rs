//! What reaches the views from the keyboard.

use vstd::prelude::*;

verus! {

/// An event of the input source.
#[derive(Debug)]
pub enum Event<I> {
    /// A key press.
    Input(I),
}

/// A key press by its meaning. The views react to these and never to raw
/// key codes.
#[derive(Debug, Clone, Copy, PartialEq, Eq)]
pub enum KeyAction {
    /// Move the selection towards the start of the list.
    Up,
    /// Move the selection towards the end of the list.
    Down,
    /// Open the selected infrastructure.
    Confirm,
    /// Leave the map for the list of infrastructures.
    Back,
    /// Let the list of stations receive the moves.
    SwitchToStations,
    /// Let the list of segments receive the moves.
    SwitchToSegments,
    /// End the program.
    Quit,
    /// Any other key.
    Other,
}

impl KeyAction {
    /// The meaning of a printable key.
    pub open spec fn of_char(c: char) -> KeyAction {
        if c == '\n' {
            KeyAction::Confirm
        } else if c == 'b' {
            KeyAction::SwitchToStations
        } else if c == 's' {
            KeyAction::SwitchToSegments
        } else if c == 'q' {
            KeyAction::Quit
        } else {
            KeyAction::Other
        }
    }

    /// The meaning of a printable key: enter confirms, `b` and `s` pick the
    /// list of stations and of segments, `q` quits, and nothing else has one.
    pub fn from_char(c: char) -> (key: KeyAction)
        ensures
            key == KeyAction::of_char(c),
    {
        if c == '\n' {
            KeyAction::Confirm
        } else if c == 'b' {
            KeyAction::SwitchToStations
        } else if c == 's' {
            KeyAction::SwitchToSegments
        } else if c == 'q' {
            KeyAction::Quit
        } else {
            KeyAction::Other
        }
    }
}

} // verus!
