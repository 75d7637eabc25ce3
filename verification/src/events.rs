//! The events the application reacts to.
use vstd::prelude::*;

use crate::llm::client::AsyncResult;

verus! {

/// The modifier bit of the Shift key.
pub const SHIFT: u8 = 1u8;

/// The modifier bit of the Control key.
pub const CONTROL: u8 = 2u8;

/// The modifier bit of the Alt key.
pub const ALT: u8 = 4u8;

/// The keys the application tells apart.
#[derive(Clone, Copy, Debug, PartialEq, Eq, Structural)]
pub enum KeyCode {
    Up,
    Down,
    Backspace,
    Enter,
    Char(char),
    Other,
}

/// A key event: the key, the modifier bits held with it, and whether it is a
/// press (rather than a repeat or a release).
#[derive(Clone, Copy, Debug, PartialEq, Eq, Structural)]
pub struct KeyEvent {
    pub code: KeyCode,
    pub modifiers: u8,
    pub is_press: bool,
}

/// The mouse events the application tells apart.
#[derive(Clone, Copy, Debug, PartialEq, Eq, Structural)]
pub enum MouseEventKind {
    ScrollDown,
    ScrollUp,
    Other,
}

/// An event of the terminal.
#[derive(Clone, Copy, Debug, PartialEq, Eq, Structural)]
pub enum InputEvent {
    Key(KeyEvent),
    Mouse(MouseEventKind),
    Resize(u16, u16),
    Other,
}

/// An event of the application: terminal input, the outcome of a request,
/// a clock tick, or the request to quit.
#[derive(Clone, Debug)]
pub enum Event {
    Input(InputEvent),
    ApiResponse(AsyncResult),
    Tick,
    Terminate,
}

} // verus!
