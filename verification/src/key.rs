//! Keys as the editor sees them.

use vstd::prelude::*;

verus! {

/// One key event read from the keyboard.
///
/// The editor itself reacts to the four arrows, `PageUp`, `PageDown`, `Home`,
/// `End` and `Ctrl('q')`; every other key is accepted and ignored.
#[derive(Clone, Copy, Debug, PartialEq, Eq, Structural)]
pub enum Key {
    /// Backspace.
    Backspace,
    /// Left arrow.
    Left,
    /// Right arrow.
    Right,
    /// Up arrow.
    Up,
    /// Down arrow.
    Down,
    /// Home key.
    Home,
    /// End key.
    End,
    /// Page Up key.
    PageUp,
    /// Page Down key.
    PageDown,
    /// Backward Tab key.
    BackTab,
    /// Delete key.
    Delete,
    /// Insert key.
    Insert,
    /// Function key with its number.
    F(u8),
    /// A plain character.
    Char(char),
    /// A character typed with Alt held.
    Alt(char),
    /// A character typed with Ctrl held.
    Ctrl(char),
    /// The null byte.
    Null,
    /// Escape key.
    Esc,
}

impl Key {
    /// Whether this key moves the cursor.
    pub open spec fn is_navigation(self) -> bool {
        self is Up || self is Down || self is Left || self is Right || self is PageUp
            || self is PageDown || self is Home || self is End
    }

    /// Whether this key asks the editor to quit.
    pub open spec fn is_quit(self) -> bool {
        self == Key::Ctrl('q')
    }
}

} // verus!
