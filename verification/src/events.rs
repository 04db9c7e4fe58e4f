//! Plain input-event data types.
//!
//! The platform layer translates its native pointer, keyboard and touch
//! events into these; the facade itself only defines the vocabulary.

use vstd::prelude::*;

verus! {

/// A mouse button.
#[derive(Copy, Clone, Debug, PartialEq, Eq, Structural)]
pub enum MouseButton {
    /// The primary button.
    Left,
    /// The secondary button.
    Right,
    /// The middle button or wheel click.
    Middle,
    /// Any further button, by its platform number.
    Other(u16),
}

/// Whether a button or key went down or up.
#[derive(Copy, Clone, Debug, PartialEq, Eq, Structural)]
pub enum ElementState {
    /// The button or key was pressed.
    Pressed,
    /// The button or key was released.
    Released,
}

/// The keyboard modifiers held during an event.
#[derive(Copy, Clone, Debug, PartialEq, Eq, Structural)]
pub struct Modifiers {
    /// Shift is held.
    pub shift: bool,
    /// Control is held.
    pub control: bool,
    /// Alt/Option is held.
    pub alt: bool,
    /// The platform's command key is held.
    pub command: bool,
    /// Caps lock is engaged.
    pub caps_lock: bool,
}

impl Modifiers {
    /// No modifier held.
    pub fn none() -> (r: Self)
        ensures
            r == (Modifiers {
                shift: false,
                control: false,
                alt: false,
                command: false,
                caps_lock: false,
            }),
    {
        Modifiers { shift: false, control: false, alt: false, command: false, caps_lock: false }
    }
}

/// The phase of a touch.
#[derive(Copy, Clone, Debug, PartialEq, Eq, Structural)]
pub enum TouchPhase {
    /// The touch started.
    Began,
    /// The touch moved.
    Moved,
    /// The touch ended.
    Ended,
    /// The touch was cancelled by the system.
    Cancelled,
}

} // verus!
