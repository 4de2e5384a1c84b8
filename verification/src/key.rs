//! Physical keys and the WASD-to-arrow table.

use vstd::prelude::*;

verus! {

/// A physical keyboard key, named by its position on a QWERTY layout.
///
/// Two keys are the same key exactly when they are the same variant (and, for
/// `Unknown`, carry the same platform code).
#[derive(Clone, Copy, Debug, PartialEq, Eq, Hash, Structural)]
pub enum Key {
    Alt,
    AltGr,
    Backspace,
    CapsLock,
    ControlLeft,
    ControlRight,
    Delete,
    DownArrow,
    End,
    Escape,
    F1,
    F10,
    F11,
    F12,
    F2,
    F3,
    F4,
    F5,
    F6,
    F7,
    F8,
    F9,
    Home,
    LeftArrow,
    MetaLeft,
    MetaRight,
    PageDown,
    PageUp,
    Return,
    RightArrow,
    ShiftLeft,
    ShiftRight,
    Space,
    Tab,
    UpArrow,
    PrintScreen,
    ScrollLock,
    Pause,
    NumLock,
    BackQuote,
    Num1,
    Num2,
    Num3,
    Num4,
    Num5,
    Num6,
    Num7,
    Num8,
    Num9,
    Num0,
    Minus,
    Equal,
    KeyQ,
    KeyW,
    KeyE,
    KeyR,
    KeyT,
    KeyY,
    KeyU,
    KeyI,
    KeyO,
    KeyP,
    LeftBracket,
    RightBracket,
    KeyA,
    KeyS,
    KeyD,
    KeyF,
    KeyG,
    KeyH,
    KeyJ,
    KeyK,
    KeyL,
    SemiColon,
    Quote,
    BackSlash,
    IntlBackslash,
    KeyZ,
    KeyX,
    KeyC,
    KeyV,
    KeyB,
    KeyN,
    KeyM,
    Comma,
    Dot,
    Slash,
    Insert,
    KpReturn,
    KpMinus,
    KpPlus,
    KpMultiply,
    KpDivide,
    Kp0,
    Kp1,
    Kp2,
    Kp3,
    Kp4,
    Kp5,
    Kp6,
    Kp7,
    Kp8,
    Kp9,
    KpDelete,
    Function,
    /// A key the platform reports only by its raw code.
    Unknown(u32),
}

/// The arrow key that stands in for `key` while navigation mode is on:
/// W, A, S, D give Up, Left, Down, Right; every other key gives nothing.
pub open spec fn arrow_of(key: Key) -> Option<Key> {
    match key {
        Key::KeyW => Some(Key::UpArrow),
        Key::KeyA => Some(Key::LeftArrow),
        Key::KeyS => Some(Key::DownArrow),
        Key::KeyD => Some(Key::RightArrow),
        _ => None,
    }
}

impl Key {
    /// The arrow key this key turns into in navigation mode, if it is one of
    /// the four directional source keys.
    pub fn arrow(self) -> (target: Option<Key>)
        ensures
            target == arrow_of(self),
    {
        match self {
            Key::KeyW => Some(Key::UpArrow),
            Key::KeyA => Some(Key::LeftArrow),
            Key::KeyS => Some(Key::DownArrow),
            Key::KeyD => Some(Key::RightArrow),
            _ => None,
        }
    }
}

} // verus!
