use vstd::prelude::*;

verus! {

/// A remote input event, as sent by the controlling side.
#[derive(Debug, Clone)]
pub enum InputEvent {
    MouseMove { x: i32, y: i32 },
    MouseDown { button: MouseButton, x: i32, y: i32 },
    MouseUp { button: MouseButton, x: i32, y: i32 },
    MouseWheel { delta: i32 },
    KeyDown { key: String, modifiers: Modifiers },
    KeyUp { key: String, modifiers: Modifiers },
    ClipboardSet { text: String },
}

#[derive(Debug, Clone, Copy, PartialEq, Eq, Structural)]
pub enum MouseButton {
    Left,
    Middle,
    Right,
}

/// The modifier keys held with a key event.
#[derive(Debug, Clone, Copy, PartialEq, Eq, Structural)]
pub struct Modifiers {
    pub ctrl: bool,
    pub alt: bool,
    pub shift: bool,
    pub meta: bool,
}

impl Default for Modifiers {
    /// No modifier held.
    fn default() -> (r: Self)
        ensures
            !r.ctrl && !r.alt && !r.shift && !r.meta,
    {
        Modifiers { ctrl: false, alt: false, shift: false, meta: false }
    }
}

} // verus!
