//! The keybinding table.
//!
//! A raw terminal event is reduced outside the library to a `KeyPress`: which
//! key, and whether Ctrl was held. Decoding a press into one of the closed
//! set of logical commands is the table below, decided once per event; the
//! state machine then works on commands alone and needs no real terminal.

use vstd::prelude::*;
use crate::ui::Command;

verus! {

/// The key of one terminal key event, as far as the table reads it.
#[derive(Debug, Clone, Copy, PartialEq, Eq, Structural)]
pub enum KeyCode {
    /// The escape key.
    Esc,
    /// A character key.
    Char(char),
    /// Any other key (arrows, backspace, ...): always an edit.
    Other,
}

/// One terminal key event: the key and the Ctrl modifier.
#[derive(Debug, Clone, Copy, PartialEq, Eq, Structural)]
pub struct KeyPress {
    pub code: KeyCode,
    pub ctrl: bool,
}

/// The command a key press decodes to: Esc and Ctrl+Q quit, Ctrl+X switches
/// the active field, Ctrl+G and Ctrl+H dispatch GET and POST, Ctrl+L pastes,
/// Ctrl+K selects all, and every other press is an edit of the active field.
pub open spec fn decoded(k: KeyPress) -> Command {
    match k.code {
        KeyCode::Esc => Command::Quit,
        KeyCode::Char(c) => if k.ctrl {
            if c == 'q' {
                Command::Quit
            } else if c == 'x' {
                Command::SwitchField
            } else if c == 'g' {
                Command::DispatchGet
            } else if c == 'h' {
                Command::DispatchPost
            } else if c == 'l' {
                Command::Paste
            } else if c == 'k' {
                Command::SelectAll
            } else {
                Command::Edit
            }
        } else {
            Command::Edit
        },
        KeyCode::Other => Command::Edit,
    }
}

/// Decode one key press into its logical command, per the keybinding table.
pub fn decode_key(k: KeyPress) -> (cmd: Command)
    ensures
        cmd == decoded(k),
{
    match k.code {
        KeyCode::Esc => Command::Quit,
        KeyCode::Char(c) => if k.ctrl {
            if c == 'q' {
                Command::Quit
            } else if c == 'x' {
                Command::SwitchField
            } else if c == 'g' {
                Command::DispatchGet
            } else if c == 'h' {
                Command::DispatchPost
            } else if c == 'l' {
                Command::Paste
            } else if c == 'k' {
                Command::SelectAll
            } else {
                Command::Edit
            }
        } else {
            Command::Edit
        },
        KeyCode::Other => Command::Edit,
    }
}

} // verus!
