//! The identity of a key, independent of any terminal library.

use vstd::prelude::*;

verus! {

/// Represents a key.
///
/// Exactly one variant is active in a value. `F` and `Char` carry a payload,
/// which is kept as given: no function-key index and no character is rejected.
#[derive(Debug, PartialOrd, PartialEq, Eq, Clone, Copy, Hash, Structural)]
pub enum KeyCode {
    /// Backspace key.
    Backspace,
    /// Enter key.
    Enter,
    /// Left arrow key.
    Left,
    /// Right arrow key.
    Right,
    /// Up arrow key.
    Up,
    /// Down arrow key.
    Down,
    /// Home key.
    Home,
    /// End key.
    End,
    /// Page up key.
    PageUp,
    /// Page down key.
    PageDown,
    /// Tab key.
    Tab,
    /// Shift + Tab key.
    BackTab,
    /// Delete key.
    Delete,
    /// Insert key.
    Insert,
    /// F key.
    ///
    /// `KeyCode::F(1)` represents F1 key, etc.
    F(u8),
    /// A character.
    ///
    /// `KeyCode::Char('c')` represents `c` character, etc.
    Char(char),
    /// Null.
    Null,
    /// Escape key.
    Esc,
}

impl KeyCode {
    /// The place of the key's variant among the variants, counted from zero
    /// in the order in which they are declared.
    pub open spec fn tag(self) -> nat {
        match self {
            KeyCode::Backspace => 0,
            KeyCode::Enter => 1,
            KeyCode::Left => 2,
            KeyCode::Right => 3,
            KeyCode::Up => 4,
            KeyCode::Down => 5,
            KeyCode::Home => 6,
            KeyCode::End => 7,
            KeyCode::PageUp => 8,
            KeyCode::PageDown => 9,
            KeyCode::Tab => 10,
            KeyCode::BackTab => 11,
            KeyCode::Delete => 12,
            KeyCode::Insert => 13,
            KeyCode::F(_) => 14,
            KeyCode::Char(_) => 15,
            KeyCode::Null => 16,
            KeyCode::Esc => 17,
        }
    }

    /// The index that an `F` key carries; `None` for every other key.
    pub open spec fn f_number(self) -> Option<u8> {
        match self {
            KeyCode::F(f_number) => Some(f_number),
            _ => None,
        }
    }

    /// The character that a `Char` key carries; `None` for every other key.
    pub open spec fn character(self) -> Option<char> {
        match self {
            KeyCode::Char(character) => Some(character),
            _ => None,
        }
    }
}

/// Two keys are equal if and only if they are of the same variant and carry
/// the same payload.
pub proof fn lemma_equal_iff_same_tag_and_payload(a: KeyCode, b: KeyCode)
    ensures
        (a == b) <==> {
            &&& a.tag() == b.tag()
            &&& a.f_number() == b.f_number()
            &&& a.character() == b.character()
        },
{
}

} // verus!
