//! What a key press means to the program before any screen sees it.

use vstd::prelude::*;
use crate::component::{KeyCode, KeyEvent};

verus! {

/// A key press as the event loop receives it.
#[derive(Clone, Copy, Debug, PartialEq, Eq, Structural)]
pub enum InputSignal {
    Key(KeyEvent),
    TerminateProgram,
}

/// The meaning of key press `key`: Control-C ends the program, Control-W
/// and Control-H erase the current word as Control-Backspace does, and any
/// other key passes unchanged.
pub fn process_key(key: KeyEvent) -> (r: InputSignal)
    ensures
        key.ctrl && key.code == KeyCode::Char('c') ==> r == InputSignal::TerminateProgram,
        key.ctrl && (key.code == KeyCode::Char('w') || key.code == KeyCode::Char('h')) ==> r
            == InputSignal::Key(KeyEvent { code: KeyCode::Backspace, ctrl: true }),
        !(key.ctrl && (key.code == KeyCode::Char('c') || key.code == KeyCode::Char('w')
            || key.code == KeyCode::Char('h'))) ==> r == InputSignal::Key(key),
{
    match key.code {
        KeyCode::Char(c) => {
            if key.ctrl && c == 'c' {
                InputSignal::TerminateProgram
            } else if key.ctrl && (c == 'w' || c == 'h') {
                InputSignal::Key(KeyEvent { code: KeyCode::Backspace, ctrl: key.ctrl })
            } else {
                InputSignal::Key(key)
            }
        },
        _ => InputSignal::Key(key),
    }
}

} // verus!
