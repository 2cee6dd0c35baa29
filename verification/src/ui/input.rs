//! Key presses as the tabs see them.
use vstd::prelude::*;

verus! {

/// The key of a key press.
#[derive(Debug, Clone, Copy, PartialEq, Eq, Structural)]
pub enum KeyCode {
    Char(char),
    Backspace,
    Enter,
    Esc,
    Up,
    Down,
    Left,
    Right,
    Tab,
    /// Any key no tab reacts to.
    Other,
}

/// A key press: the key and whether Ctrl or Shift was held.
#[derive(Debug, Clone, Copy, PartialEq, Eq, Structural)]
pub struct Key {
    pub code: KeyCode,
    pub ctrl: bool,
    pub shift: bool,
}

impl Key {
    /// A press of `code` with no modifier.
    pub fn plain(code: KeyCode) -> (k: Key)
        ensures
            k == (Key { code, ctrl: false, shift: false }),
    {
        Key { code, ctrl: false, shift: false }
    }
}

/// The key moves up: the Up arrow or `k`.
pub open spec fn is_up(k: Key) -> bool {
    k.code == KeyCode::Up || k.code == KeyCode::Char('k')
}

/// The key moves down: the Down arrow or `j`.
pub open spec fn is_down(k: Key) -> bool {
    k.code == KeyCode::Down || k.code == KeyCode::Char('j')
}

/// The key moves left: the Left arrow or `h`.
pub open spec fn is_left(k: Key) -> bool {
    k.code == KeyCode::Left || k.code == KeyCode::Char('h')
}

/// The key moves right: the Right arrow or `l`.
pub open spec fn is_right(k: Key) -> bool {
    k.code == KeyCode::Right || k.code == KeyCode::Char('l')
}

/// The key is this character, with or without modifiers.
pub open spec fn is_char(k: Key, c: char) -> bool {
    k.code == KeyCode::Char(c)
}

/// The key is this character with Ctrl held.
pub open spec fn is_ctrl_char(k: Key, c: char) -> bool {
    k.code == KeyCode::Char(c) && k.ctrl
}

} // verus!
