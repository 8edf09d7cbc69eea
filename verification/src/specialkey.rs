//! The keys and mouse buttons that actions name.

use vstd::prelude::*;

verus! {

/// The keys that have no character of their own.
pub enum SpecialKey {
    ShiftLeft,
    ShiftRight,
    LeftCtrl,
    RightCtrl,
    F1,
    F2,
    F3,
    F4,
    F5,
    F6,
    F7,
    F8,
    F9,
    F10,
    F11,
    F12,
    EndOne,
    HomeOne,
    EndTwo,
    HomeTwo,
    PageUpOne,
    PageDownOne,
    PageUpTwo,
    PageDownTwo,
    OSLeft,
    OSRight,
    ZenkakuHankaku,
    AltLeft,
    AltRight,
    ArrowLeftOne,
    ArrowRightOne,
    ArrowUpOne,
    ArrowDownOne,
    ArrowLeftTwo,
    ArrowRightTwo,
    ArrowUpTwo,
    ArrowDownTwo,
    InsertOne,
    InsertTwo,
    DeleteOne,
    DeleteTwo,
    Cancel,
    Help,
    Tab,
    Backspace,
    Clear,
    Return,
    Enter,
    Pause,
    Escape,
    Space,
    Numpad0,
    Numpad1,
    Numpad2,
    Numpad3,
    Numpad4,
    Numpad5,
    Numpad6,
    Numpad7,
    Numpad8,
    Numpad9,
    NumpadAdd,
    NumpadComma,
    NumpadDecimal,
    NumpadDivide,
    NumpadEnter,
    NumpadMultiply,
    NumpadSubtract,
}

/// The buttons of a mouse.
pub enum MouseButton {
    Left,
    Middle,
    Right,
    X1Back,
    X2Forward,
}

} // verus!
