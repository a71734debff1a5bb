use vstd::prelude::*;

verus! {

/// A key press, reduced to what the state machine reads: the character that
/// was typed, the escape key, or anything else (a no-op).
#[derive(Clone, Copy, Debug, PartialEq, Eq, Structural)]
pub enum KeyCode {
    Char(char),
    Esc,
    Other,
}

/// One event consumed by the state machine: a key press or a one-second tick.
#[derive(Clone, Copy, Debug, PartialEq, Eq, Structural)]
pub enum AppEvent {
    Key(KeyCode),
    Tick,
}

} // verus!
