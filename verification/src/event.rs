//! The input events that a host delivers to a controller, once per frame and
//! in the order in which they occurred.

use vstd::prelude::*;

verus! {

#[derive(Clone, Copy, Debug, PartialEq, Eq, Structural)]
pub enum MouseButton {
    Left,
    Right,
    Middle,
}

#[derive(Clone, Copy, Debug, PartialEq, Eq, Structural)]
pub enum Key {
    ArrowDown,
    ArrowLeft,
    ArrowRight,
    ArrowUp,
    Escape,
    Tab,
    Backspace,
    Enter,
    Space,
    Insert,
    Delete,
    Home,
    End,
    PageUp,
    PageDown,
    A,
    D,
    S,
    W,
    Other,
}

/// Which modifier keys are held.
#[derive(Clone, Copy, Debug, PartialEq, Eq, Structural)]
pub struct Modifiers {
    pub alt: bool,
    pub ctrl: bool,
    pub shift: bool,
    pub command: bool,
}

/// A place on the screen in physical pixels, measured from the bottom left
/// corner.
#[derive(Clone, Copy, Debug, PartialEq, Eq, Structural)]
pub struct PixelPoint {
    pub x: i64,
    pub y: i64,
}

/// A movement on the screen in physical pixels: `x` to the right, `y` upward.
#[derive(Clone, Copy, Debug, PartialEq, Eq, Structural)]
pub struct PixelDelta {
    pub x: i64,
    pub y: i64,
}

/// One input event. A `handled` flag tells later consumers of the same batch
/// to ignore the event.
#[derive(Clone, Debug)]
#[allow(inconsistent_fields)]
pub enum Event {
    MousePress { button: MouseButton, position: PixelPoint, modifiers: Modifiers, handled: bool },
    MouseRelease { button: MouseButton, position: PixelPoint, modifiers: Modifiers, handled: bool },
    MouseMotion {
        button: Option<MouseButton>,
        delta: PixelDelta,
        position: PixelPoint,
        modifiers: Modifiers,
        handled: bool,
    },
    MouseWheel { delta: PixelDelta, position: PixelPoint, modifiers: Modifiers, handled: bool },
    MouseEnter,
    MouseLeave,
    KeyPress { kind: Key, modifiers: Modifiers, handled: bool },
    KeyRelease { kind: Key, modifiers: Modifiers, handled: bool },
    ModifiersChange { modifiers: Modifiers },
    Text(String),
}

} // verus!
