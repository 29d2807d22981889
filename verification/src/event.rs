//! Window events, reduced to what the viewers look at.

use vstd::prelude::*;

verus! {

/// A size in physical pixels.
#[derive(Copy, Clone, Debug, PartialEq, Eq, Structural)]
pub struct PhysicalSize {
    pub width: u32,
    pub height: u32,
}

/// The logical key of a keyboard event.
#[derive(Copy, Clone, Debug, PartialEq, Eq, Structural)]
pub enum Key {
    Space,
    Control,
    Shift,
    Alt,
    /// A key that produces the single character given.
    Character(char),
    /// Any other key.
    Other,
}

impl Key {
    /// The key that produces `text`: a character key where the text is a
    /// single character, and none that the viewers know otherwise.
    pub open spec fn of_text(text: Seq<char>) -> Key {
        if text.len() == 1 {
            Key::Character(text[0])
        } else {
            Key::Other
        }
    }

    /// The key that produces `text`.
    pub fn from_text(text: &str) -> (key: Key)
        ensures
            key == Key::of_text(text@),
    {
        if text.unicode_len() == 1 {
            Key::Character(text.get_char(0))
        } else {
            Key::Other
        }
    }
}

/// The physical key of a keyboard event.
#[derive(Copy, Clone, Debug, PartialEq, Eq, Structural)]
pub enum PhysicalKey {
    Escape,
    /// Any other key.
    Other,
}

/// Whether a key went down or came up.
#[derive(Copy, Clone, Debug, PartialEq, Eq, Structural)]
pub enum ElementState {
    Pressed,
    Released,
}

/// An event of the viewer's window.
#[derive(Copy, Clone, Debug, PartialEq, Eq, Structural)]
pub enum WindowEvent {
    CloseRequested,
    KeyboardInput { logical_key: Key, physical_key: PhysicalKey, state: ElementState },
    Resized(PhysicalSize),
    RedrawRequested,
    /// Any other event.
    Other,
}

impl WindowEvent {
    /// The logical key that this event presses, if it presses one.
    pub open spec fn pressed_key(self) -> Option<Key> {
        match self {
            WindowEvent::KeyboardInput { logical_key, state: ElementState::Pressed, .. } => Some(
                logical_key,
            ),
            _ => None,
        }
    }

    /// The logical key that this event presses, if it presses one.
    pub fn pressed(&self) -> (key: Option<Key>)
        ensures
            key == self.pressed_key(),
    {
        match self {
            WindowEvent::KeyboardInput { logical_key, state: ElementState::Pressed, .. } => Some(
                *logical_key,
            ),
            _ => None,
        }
    }
}

} // verus!
