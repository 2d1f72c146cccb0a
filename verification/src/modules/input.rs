//! The input events that can be recorded and replayed, with plain values in
//! every field.

use vstd::prelude::*;

verus! {

/// A mouse button.
#[derive(Clone, Copy, Debug, PartialEq, Eq, Structural)]
pub enum Button {
    Left,
    Right,
    Middle,
}

/// A key of the keyboard, by its symbolic name. `Unknown` carries the raw
/// code of a key that has no name here.
#[derive(Clone, Copy, Debug, PartialEq, Eq, Structural)]
pub enum Key {
    // Letters, by their position on a QWERTY layout
    KeyA,
    KeyB,
    KeyC,
    KeyD,
    KeyE,
    KeyF,
    KeyG,
    KeyH,
    KeyI,
    KeyJ,
    KeyK,
    KeyL,
    KeyM,
    KeyN,
    KeyO,
    KeyP,
    KeyQ,
    KeyR,
    KeyS,
    KeyT,
    KeyU,
    KeyV,
    KeyW,
    KeyX,
    KeyY,
    KeyZ,
    // The digit row
    Num1,
    Num2,
    Num3,
    Num4,
    Num5,
    Num6,
    Num7,
    Num8,
    Num9,
    Num0,
    // Editing and whitespace
    Return,
    Escape,
    Backspace,
    Tab,
    Space,
    Delete,
    // Modifiers
    ShiftLeft,
    ShiftRight,
    ControlLeft,
    ControlRight,
    Alt,
    AltGr,
    MetaLeft,
    MetaRight,
    // Arrows
    UpArrow,
    DownArrow,
    LeftArrow,
    RightArrow,
    // Function keys
    F1,
    F2,
    F3,
    F4,
    F5,
    F6,
    F7,
    F8,
    F9,
    F10,
    F11,
    F12,
    // Navigation
    Home,
    End,
    PageUp,
    PageDown,
    // Anything else
    Unknown(u32),
}

/// One input event. Pointer coordinates are IEEE 754 double-precision values
/// held by their bit pattern, so that they are stored and compared exactly.
#[derive(Clone, Copy, Debug, PartialEq, Eq, Structural)]
pub enum EventType {
    KeyPress(Key),
    KeyRelease(Key),
    ButtonPress(Button),
    ButtonRelease(Button),
    MouseMove { x: u64, y: u64 },
    Wheel { delta_x: i64, delta_y: i64 },
}

} // verus!
