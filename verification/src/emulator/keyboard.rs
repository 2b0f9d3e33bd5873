//! The keyboard key alphabet that binds may press.

use vstd::prelude::*;

verus! {

/// A keyboard key a bind may press: an enumerated symbolic key, a
/// Unicode character, or a raw numeric key code — exactly one of these
/// per value.
#[derive(Clone, Copy, Debug, PartialEq, Eq, Structural)]
pub enum Key {
    Add,
    Alt,
    Backspace,
    Break,
    Begin,
    Cancel,
    CapsLock,
    Clear,
    Command,
    Control,
    Decimal,
    Delete,
    Divide,
    DownArrow,
    End,
    Escape,
    Execute,
    Num0,
    Num1,
    Num2,
    Num3,
    Num4,
    Num5,
    Num6,
    Num7,
    Num8,
    Num9,
    A,
    B,
    C,
    D,
    E,
    F,
    G,
    H,
    I,
    J,
    K,
    L,
    M,
    N,
    O,
    P,
    Q,
    R,
    S,
    T,
    U,
    V,
    W,
    X,
    Y,
    Z,
    F1,
    F2,
    F3,
    F4,
    F5,
    F6,
    F7,
    F8,
    F9,
    F10,
    F11,
    F12,
    F13,
    F14,
    F15,
    F16,
    F17,
    F18,
    F19,
    F20,
    F21,
    F22,
    F23,
    F24,
    F25,
    F26,
    F27,
    F28,
    F29,
    F30,
    F31,
    F32,
    F33,
    F34,
    F35,
    Find,
    Hangul,
    Hanja,
    Help,
    Home,
    Insert,
    Kanji,
    LControl,
    LeftArrow,
    Linefeed,
    LMenu,
    LShift,
    MediaNextTrack,
    MediaPlayPause,
    MediaPrevTrack,
    MediaStop,
    Meta,
    ModeChange,
    Multiply,
    Numlock,
    Numpad0,
    Numpad1,
    Numpad2,
    Numpad3,
    Numpad4,
    Numpad5,
    Numpad6,
    Numpad7,
    Numpad8,
    Numpad9,
    OptionKey,
    PageDown,
    PageUp,
    Pause,
    Print,
    PrintScr,
    RControl,
    Redo,
    Enter,
    RightArrow,
    RShift,
    ScrollLock,
    Select,
    ScriptSwitch,
    Shift,
    ShiftLock,
    Space,
    Subtract,
    Super,
    SysReq,
    Tab,
    Undo,
    UpArrow,
    VolumeDown,
    VolumeMute,
    VolumeUp,
    MicMute,
    Windows,
    Unicode(char),
    Number(u32),
}

} // verus!
