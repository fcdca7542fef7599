//! The command vocabulary that scripts may use: key names accepted by the
//! keyboard builtins, key names accepted by the key-down query, mouse
//! button names, coordinate modes, and the press/release/click actions.
//!
//! Each vocabulary has a spec-level parse function from a character
//! sequence and an executable parser proved to match it. An unknown name
//! parses to `None`; the caller rejects it with a descriptive error and
//! never coerces it.

use vstd::prelude::*;
use crate::text::str_eq;

verus! {

/// Whether a keyboard or mouse action presses, releases, or clicks
/// (press then release).
#[derive(Clone, Copy, PartialEq, Eq, Structural, Debug)]
pub enum Direction {
    Press,
    Release,
    Click,
}


/// A named key that the keyboard builtins can press, release or click.
/// The names are the union over the supported platforms; the host maps
/// each to its native key. The name `Option` parses to `OptionKey`.
#[derive(Clone, Copy, PartialEq, Eq, Structural, Debug)]
pub enum KeySend {
    F1,
    F2,
    F3,
    F4,
    F5,
    F6,
    F7,
    F8,
    F9,
    F10,
    F11,
    F12,
    F13,
    F14,
    F15,
    F16,
    F17,
    F18,
    F19,
    F20,
    LShift,
    RShift,
    LCtrl,
    RCtrl,
    Tab,
    Space,
    LCommand,
    RCommand,
    OptionKey,
    CapsLock,
    Enter,
    Esc,
    Backspace,
    Delete,
    Up,
    Down,
    Left,
    Right,
    Home,
    End,
    PageUp,
    PageDown,
    Numpad0,
    Numpad1,
    Numpad2,
    Numpad3,
    Numpad4,
    Numpad5,
    Numpad6,
    Numpad7,
    Numpad8,
    Numpad9,
    NumpadAdd,
    NumpadSubtract,
    NumpadMultiply,
    NumpadDivide,
    NumpadEnter,
    NumpadDecimal,
}

pub open spec fn key_send_of_name(s: Seq<char>) -> Option<KeySend> {
    if s == "F1"@ {
        Some(KeySend::F1)
    } else
    if s == "F2"@ {
        Some(KeySend::F2)
    } else
    if s == "F3"@ {
        Some(KeySend::F3)
    } else
    if s == "F4"@ {
        Some(KeySend::F4)
    } else
    if s == "F5"@ {
        Some(KeySend::F5)
    } else
    if s == "F6"@ {
        Some(KeySend::F6)
    } else
    if s == "F7"@ {
        Some(KeySend::F7)
    } else
    if s == "F8"@ {
        Some(KeySend::F8)
    } else
    if s == "F9"@ {
        Some(KeySend::F9)
    } else
    if s == "F10"@ {
        Some(KeySend::F10)
    } else
    if s == "F11"@ {
        Some(KeySend::F11)
    } else
    if s == "F12"@ {
        Some(KeySend::F12)
    } else
    if s == "F13"@ {
        Some(KeySend::F13)
    } else
    if s == "F14"@ {
        Some(KeySend::F14)
    } else
    if s == "F15"@ {
        Some(KeySend::F15)
    } else
    if s == "F16"@ {
        Some(KeySend::F16)
    } else
    if s == "F17"@ {
        Some(KeySend::F17)
    } else
    if s == "F18"@ {
        Some(KeySend::F18)
    } else
    if s == "F19"@ {
        Some(KeySend::F19)
    } else
    if s == "F20"@ {
        Some(KeySend::F20)
    } else
    if s == "LShift"@ {
        Some(KeySend::LShift)
    } else
    if s == "RShift"@ {
        Some(KeySend::RShift)
    } else
    if s == "LCtrl"@ {
        Some(KeySend::LCtrl)
    } else
    if s == "RCtrl"@ {
        Some(KeySend::RCtrl)
    } else
    if s == "Tab"@ {
        Some(KeySend::Tab)
    } else
    if s == "Space"@ {
        Some(KeySend::Space)
    } else
    if s == "LCommand"@ {
        Some(KeySend::LCommand)
    } else
    if s == "RCommand"@ {
        Some(KeySend::RCommand)
    } else
    if s == "Option"@ {
        Some(KeySend::OptionKey)
    } else
    if s == "CapsLock"@ {
        Some(KeySend::CapsLock)
    } else
    if s == "Enter"@ {
        Some(KeySend::Enter)
    } else
    if s == "Esc"@ {
        Some(KeySend::Esc)
    } else
    if s == "Backspace"@ {
        Some(KeySend::Backspace)
    } else
    if s == "Delete"@ {
        Some(KeySend::Delete)
    } else
    if s == "Up"@ {
        Some(KeySend::Up)
    } else
    if s == "Down"@ {
        Some(KeySend::Down)
    } else
    if s == "Left"@ {
        Some(KeySend::Left)
    } else
    if s == "Right"@ {
        Some(KeySend::Right)
    } else
    if s == "Home"@ {
        Some(KeySend::Home)
    } else
    if s == "End"@ {
        Some(KeySend::End)
    } else
    if s == "PageUp"@ {
        Some(KeySend::PageUp)
    } else
    if s == "PageDown"@ {
        Some(KeySend::PageDown)
    } else
    if s == "Numpad0"@ {
        Some(KeySend::Numpad0)
    } else
    if s == "Numpad1"@ {
        Some(KeySend::Numpad1)
    } else
    if s == "Numpad2"@ {
        Some(KeySend::Numpad2)
    } else
    if s == "Numpad3"@ {
        Some(KeySend::Numpad3)
    } else
    if s == "Numpad4"@ {
        Some(KeySend::Numpad4)
    } else
    if s == "Numpad5"@ {
        Some(KeySend::Numpad5)
    } else
    if s == "Numpad6"@ {
        Some(KeySend::Numpad6)
    } else
    if s == "Numpad7"@ {
        Some(KeySend::Numpad7)
    } else
    if s == "Numpad8"@ {
        Some(KeySend::Numpad8)
    } else
    if s == "Numpad9"@ {
        Some(KeySend::Numpad9)
    } else
    if s == "NumpadAdd"@ {
        Some(KeySend::NumpadAdd)
    } else
    if s == "NumpadSubtract"@ {
        Some(KeySend::NumpadSubtract)
    } else
    if s == "NumpadMultiply"@ {
        Some(KeySend::NumpadMultiply)
    } else
    if s == "NumpadDivide"@ {
        Some(KeySend::NumpadDivide)
    } else
    if s == "NumpadEnter"@ {
        Some(KeySend::NumpadEnter)
    } else
    if s == "NumpadDecimal"@ {
        Some(KeySend::NumpadDecimal)
    } else {
        None
    }
}

#[verifier::rlimit(40)]
pub fn parse_key_send(name: &str) -> (r: Option<KeySend>)
    ensures
        r == key_send_of_name(name@),
{
    if str_eq(name, "F1") {
        Some(KeySend::F1)
    } else
    if str_eq(name, "F2") {
        Some(KeySend::F2)
    } else
    if str_eq(name, "F3") {
        Some(KeySend::F3)
    } else
    if str_eq(name, "F4") {
        Some(KeySend::F4)
    } else
    if str_eq(name, "F5") {
        Some(KeySend::F5)
    } else
    if str_eq(name, "F6") {
        Some(KeySend::F6)
    } else
    if str_eq(name, "F7") {
        Some(KeySend::F7)
    } else
    if str_eq(name, "F8") {
        Some(KeySend::F8)
    } else
    if str_eq(name, "F9") {
        Some(KeySend::F9)
    } else
    if str_eq(name, "F10") {
        Some(KeySend::F10)
    } else
    if str_eq(name, "F11") {
        Some(KeySend::F11)
    } else
    if str_eq(name, "F12") {
        Some(KeySend::F12)
    } else
    if str_eq(name, "F13") {
        Some(KeySend::F13)
    } else
    if str_eq(name, "F14") {
        Some(KeySend::F14)
    } else
    if str_eq(name, "F15") {
        Some(KeySend::F15)
    } else
    if str_eq(name, "F16") {
        Some(KeySend::F16)
    } else
    if str_eq(name, "F17") {
        Some(KeySend::F17)
    } else
    if str_eq(name, "F18") {
        Some(KeySend::F18)
    } else
    if str_eq(name, "F19") {
        Some(KeySend::F19)
    } else
    if str_eq(name, "F20") {
        Some(KeySend::F20)
    } else
    if str_eq(name, "LShift") {
        Some(KeySend::LShift)
    } else
    if str_eq(name, "RShift") {
        Some(KeySend::RShift)
    } else
    if str_eq(name, "LCtrl") {
        Some(KeySend::LCtrl)
    } else
    if str_eq(name, "RCtrl") {
        Some(KeySend::RCtrl)
    } else
    if str_eq(name, "Tab") {
        Some(KeySend::Tab)
    } else
    if str_eq(name, "Space") {
        Some(KeySend::Space)
    } else
    if str_eq(name, "LCommand") {
        Some(KeySend::LCommand)
    } else
    if str_eq(name, "RCommand") {
        Some(KeySend::RCommand)
    } else
    if str_eq(name, "Option") {
        Some(KeySend::OptionKey)
    } else
    if str_eq(name, "CapsLock") {
        Some(KeySend::CapsLock)
    } else
    if str_eq(name, "Enter") {
        Some(KeySend::Enter)
    } else
    if str_eq(name, "Esc") {
        Some(KeySend::Esc)
    } else
    if str_eq(name, "Backspace") {
        Some(KeySend::Backspace)
    } else
    if str_eq(name, "Delete") {
        Some(KeySend::Delete)
    } else
    if str_eq(name, "Up") {
        Some(KeySend::Up)
    } else
    if str_eq(name, "Down") {
        Some(KeySend::Down)
    } else
    if str_eq(name, "Left") {
        Some(KeySend::Left)
    } else
    if str_eq(name, "Right") {
        Some(KeySend::Right)
    } else
    if str_eq(name, "Home") {
        Some(KeySend::Home)
    } else
    if str_eq(name, "End") {
        Some(KeySend::End)
    } else
    if str_eq(name, "PageUp") {
        Some(KeySend::PageUp)
    } else
    if str_eq(name, "PageDown") {
        Some(KeySend::PageDown)
    } else
    if str_eq(name, "Numpad0") {
        Some(KeySend::Numpad0)
    } else
    if str_eq(name, "Numpad1") {
        Some(KeySend::Numpad1)
    } else
    if str_eq(name, "Numpad2") {
        Some(KeySend::Numpad2)
    } else
    if str_eq(name, "Numpad3") {
        Some(KeySend::Numpad3)
    } else
    if str_eq(name, "Numpad4") {
        Some(KeySend::Numpad4)
    } else
    if str_eq(name, "Numpad5") {
        Some(KeySend::Numpad5)
    } else
    if str_eq(name, "Numpad6") {
        Some(KeySend::Numpad6)
    } else
    if str_eq(name, "Numpad7") {
        Some(KeySend::Numpad7)
    } else
    if str_eq(name, "Numpad8") {
        Some(KeySend::Numpad8)
    } else
    if str_eq(name, "Numpad9") {
        Some(KeySend::Numpad9)
    } else
    if str_eq(name, "NumpadAdd") {
        Some(KeySend::NumpadAdd)
    } else
    if str_eq(name, "NumpadSubtract") {
        Some(KeySend::NumpadSubtract)
    } else
    if str_eq(name, "NumpadMultiply") {
        Some(KeySend::NumpadMultiply)
    } else
    if str_eq(name, "NumpadDivide") {
        Some(KeySend::NumpadDivide)
    } else
    if str_eq(name, "NumpadEnter") {
        Some(KeySend::NumpadEnter)
    } else
    if str_eq(name, "NumpadDecimal") {
        Some(KeySend::NumpadDecimal)
    } else {
        None
    }
}

/// A named mouse button that the mouse builtins can press, release or
/// click.
#[derive(Clone, Copy, PartialEq, Eq, Structural, Debug)]
pub enum ButtonSend {
    Left,
    Right,
    Middle,
    ScrollUp,
    ScrollDown,
    ScrollLeft,
    ScrollRight,
}

pub open spec fn button_send_of_name(s: Seq<char>) -> Option<ButtonSend> {
    if s == "Left"@ {
        Some(ButtonSend::Left)
    } else
    if s == "Right"@ {
        Some(ButtonSend::Right)
    } else
    if s == "Middle"@ {
        Some(ButtonSend::Middle)
    } else
    if s == "ScrollUp"@ {
        Some(ButtonSend::ScrollUp)
    } else
    if s == "ScrollDown"@ {
        Some(ButtonSend::ScrollDown)
    } else
    if s == "ScrollLeft"@ {
        Some(ButtonSend::ScrollLeft)
    } else
    if s == "ScrollRight"@ {
        Some(ButtonSend::ScrollRight)
    } else {
        None
    }
}

#[verifier::rlimit(10)]
pub fn parse_button_send(name: &str) -> (r: Option<ButtonSend>)
    ensures
        r == button_send_of_name(name@),
{
    if str_eq(name, "Left") {
        Some(ButtonSend::Left)
    } else
    if str_eq(name, "Right") {
        Some(ButtonSend::Right)
    } else
    if str_eq(name, "Middle") {
        Some(ButtonSend::Middle)
    } else
    if str_eq(name, "ScrollUp") {
        Some(ButtonSend::ScrollUp)
    } else
    if str_eq(name, "ScrollDown") {
        Some(ButtonSend::ScrollDown)
    } else
    if str_eq(name, "ScrollLeft") {
        Some(ButtonSend::ScrollLeft)
    } else
    if str_eq(name, "ScrollRight") {
        Some(ButtonSend::ScrollRight)
    } else {
        None
    }
}

/// The coordinate mode of a mouse move: absolute screen position or a
/// move relative to the current position.
#[derive(Clone, Copy, PartialEq, Eq, Structural, Debug)]
pub enum Coordinate {
    Abs,
    Rel,
}

pub open spec fn coordinate_of_name(s: Seq<char>) -> Option<Coordinate> {
    if s == "Abs"@ {
        Some(Coordinate::Abs)
    } else
    if s == "Rel"@ {
        Some(Coordinate::Rel)
    } else {
        None
    }
}

#[verifier::rlimit(10)]
pub fn parse_coordinate(name: &str) -> (r: Option<Coordinate>)
    ensures
        r == coordinate_of_name(name@),
{
    if str_eq(name, "Abs") {
        Some(Coordinate::Abs)
    } else
    if str_eq(name, "Rel") {
        Some(Coordinate::Rel)
    } else {
        None
    }
}

/// A key name accepted by the key-down query. This vocabulary is wider
/// than `KeySend` (it includes letters and digits) and mirrors the names
/// understood by the host's input-query backend.
#[derive(Clone, Copy, PartialEq, Eq, Structural, Debug)]
pub enum QueryKey {
    Key0,
    Key1,
    Key2,
    Key3,
    Key4,
    Key5,
    Key6,
    Key7,
    Key8,
    Key9,
    A,
    B,
    C,
    D,
    E,
    F,
    G,
    H,
    I,
    J,
    K,
    L,
    M,
    N,
    O,
    P,
    Q,
    R,
    S,
    T,
    U,
    V,
    W,
    X,
    Y,
    Z,
    F1,
    F2,
    F3,
    F4,
    F5,
    F6,
    F7,
    F8,
    F9,
    F10,
    F11,
    F12,
    F13,
    F14,
    F15,
    F16,
    F17,
    F18,
    F19,
    F20,
    Escape,
    Space,
    LControl,
    RControl,
    LShift,
    RShift,
    LAlt,
    RAlt,
    Command,
    RCommand,
    LOption,
    ROption,
    LMeta,
    RMeta,
    Enter,
    Up,
    Down,
    Left,
    Right,
    Backspace,
    CapsLock,
    Tab,
    Home,
    End,
    PageUp,
    PageDown,
    Insert,
    Delete,
    Numpad0,
    Numpad1,
    Numpad2,
    Numpad3,
    Numpad4,
    Numpad5,
    Numpad6,
    Numpad7,
    Numpad8,
    Numpad9,
    NumpadSubtract,
    NumpadAdd,
    NumpadDivide,
    NumpadMultiply,
    NumpadEquals,
    NumpadEnter,
    NumpadDecimal,
    Grave,
    Minus,
    Equal,
    LeftBracket,
    RightBracket,
    BackSlash,
    Semicolon,
    Apostrophe,
    Comma,
    Dot,
    Slash,
}

pub open spec fn query_key_of_name(s: Seq<char>) -> Option<QueryKey> {
    if s == "Key0"@ {
        Some(QueryKey::Key0)
    } else
    if s == "Key1"@ {
        Some(QueryKey::Key1)
    } else
    if s == "Key2"@ {
        Some(QueryKey::Key2)
    } else
    if s == "Key3"@ {
        Some(QueryKey::Key3)
    } else
    if s == "Key4"@ {
        Some(QueryKey::Key4)
    } else
    if s == "Key5"@ {
        Some(QueryKey::Key5)
    } else
    if s == "Key6"@ {
        Some(QueryKey::Key6)
    } else
    if s == "Key7"@ {
        Some(QueryKey::Key7)
    } else
    if s == "Key8"@ {
        Some(QueryKey::Key8)
    } else
    if s == "Key9"@ {
        Some(QueryKey::Key9)
    } else
    if s == "A"@ {
        Some(QueryKey::A)
    } else
    if s == "B"@ {
        Some(QueryKey::B)
    } else
    if s == "C"@ {
        Some(QueryKey::C)
    } else
    if s == "D"@ {
        Some(QueryKey::D)
    } else
    if s == "E"@ {
        Some(QueryKey::E)
    } else
    if s == "F"@ {
        Some(QueryKey::F)
    } else
    if s == "G"@ {
        Some(QueryKey::G)
    } else
    if s == "H"@ {
        Some(QueryKey::H)
    } else
    if s == "I"@ {
        Some(QueryKey::I)
    } else
    if s == "J"@ {
        Some(QueryKey::J)
    } else
    if s == "K"@ {
        Some(QueryKey::K)
    } else
    if s == "L"@ {
        Some(QueryKey::L)
    } else
    if s == "M"@ {
        Some(QueryKey::M)
    } else
    if s == "N"@ {
        Some(QueryKey::N)
    } else
    if s == "O"@ {
        Some(QueryKey::O)
    } else
    if s == "P"@ {
        Some(QueryKey::P)
    } else
    if s == "Q"@ {
        Some(QueryKey::Q)
    } else
    if s == "R"@ {
        Some(QueryKey::R)
    } else
    if s == "S"@ {
        Some(QueryKey::S)
    } else
    if s == "T"@ {
        Some(QueryKey::T)
    } else
    if s == "U"@ {
        Some(QueryKey::U)
    } else
    if s == "V"@ {
        Some(QueryKey::V)
    } else
    if s == "W"@ {
        Some(QueryKey::W)
    } else
    if s == "X"@ {
        Some(QueryKey::X)
    } else
    if s == "Y"@ {
        Some(QueryKey::Y)
    } else
    if s == "Z"@ {
        Some(QueryKey::Z)
    } else
    if s == "F1"@ {
        Some(QueryKey::F1)
    } else
    if s == "F2"@ {
        Some(QueryKey::F2)
    } else
    if s == "F3"@ {
        Some(QueryKey::F3)
    } else
    if s == "F4"@ {
        Some(QueryKey::F4)
    } else
    if s == "F5"@ {
        Some(QueryKey::F5)
    } else
    if s == "F6"@ {
        Some(QueryKey::F6)
    } else
    if s == "F7"@ {
        Some(QueryKey::F7)
    } else
    if s == "F8"@ {
        Some(QueryKey::F8)
    } else
    if s == "F9"@ {
        Some(QueryKey::F9)
    } else
    if s == "F10"@ {
        Some(QueryKey::F10)
    } else
    if s == "F11"@ {
        Some(QueryKey::F11)
    } else
    if s == "F12"@ {
        Some(QueryKey::F12)
    } else
    if s == "F13"@ {
        Some(QueryKey::F13)
    } else
    if s == "F14"@ {
        Some(QueryKey::F14)
    } else
    if s == "F15"@ {
        Some(QueryKey::F15)
    } else
    if s == "F16"@ {
        Some(QueryKey::F16)
    } else
    if s == "F17"@ {
        Some(QueryKey::F17)
    } else
    if s == "F18"@ {
        Some(QueryKey::F18)
    } else
    if s == "F19"@ {
        Some(QueryKey::F19)
    } else
    if s == "F20"@ {
        Some(QueryKey::F20)
    } else
    if s == "Escape"@ {
        Some(QueryKey::Escape)
    } else
    if s == "Space"@ {
        Some(QueryKey::Space)
    } else
    if s == "LControl"@ {
        Some(QueryKey::LControl)
    } else
    if s == "RControl"@ {
        Some(QueryKey::RControl)
    } else
    if s == "LShift"@ {
        Some(QueryKey::LShift)
    } else
    if s == "RShift"@ {
        Some(QueryKey::RShift)
    } else
    if s == "LAlt"@ {
        Some(QueryKey::LAlt)
    } else
    if s == "RAlt"@ {
        Some(QueryKey::RAlt)
    } else
    if s == "Command"@ {
        Some(QueryKey::Command)
    } else
    if s == "RCommand"@ {
        Some(QueryKey::RCommand)
    } else
    if s == "LOption"@ {
        Some(QueryKey::LOption)
    } else
    if s == "ROption"@ {
        Some(QueryKey::ROption)
    } else
    if s == "LMeta"@ {
        Some(QueryKey::LMeta)
    } else
    if s == "RMeta"@ {
        Some(QueryKey::RMeta)
    } else
    if s == "Enter"@ {
        Some(QueryKey::Enter)
    } else
    if s == "Up"@ {
        Some(QueryKey::Up)
    } else
    if s == "Down"@ {
        Some(QueryKey::Down)
    } else
    if s == "Left"@ {
        Some(QueryKey::Left)
    } else
    if s == "Right"@ {
        Some(QueryKey::Right)
    } else
    if s == "Backspace"@ {
        Some(QueryKey::Backspace)
    } else
    if s == "CapsLock"@ {
        Some(QueryKey::CapsLock)
    } else
    if s == "Tab"@ {
        Some(QueryKey::Tab)
    } else
    if s == "Home"@ {
        Some(QueryKey::Home)
    } else
    if s == "End"@ {
        Some(QueryKey::End)
    } else
    if s == "PageUp"@ {
        Some(QueryKey::PageUp)
    } else
    if s == "PageDown"@ {
        Some(QueryKey::PageDown)
    } else
    if s == "Insert"@ {
        Some(QueryKey::Insert)
    } else
    if s == "Delete"@ {
        Some(QueryKey::Delete)
    } else
    if s == "Numpad0"@ {
        Some(QueryKey::Numpad0)
    } else
    if s == "Numpad1"@ {
        Some(QueryKey::Numpad1)
    } else
    if s == "Numpad2"@ {
        Some(QueryKey::Numpad2)
    } else
    if s == "Numpad3"@ {
        Some(QueryKey::Numpad3)
    } else
    if s == "Numpad4"@ {
        Some(QueryKey::Numpad4)
    } else
    if s == "Numpad5"@ {
        Some(QueryKey::Numpad5)
    } else
    if s == "Numpad6"@ {
        Some(QueryKey::Numpad6)
    } else
    if s == "Numpad7"@ {
        Some(QueryKey::Numpad7)
    } else
    if s == "Numpad8"@ {
        Some(QueryKey::Numpad8)
    } else
    if s == "Numpad9"@ {
        Some(QueryKey::Numpad9)
    } else
    if s == "NumpadSubtract"@ {
        Some(QueryKey::NumpadSubtract)
    } else
    if s == "NumpadAdd"@ {
        Some(QueryKey::NumpadAdd)
    } else
    if s == "NumpadDivide"@ {
        Some(QueryKey::NumpadDivide)
    } else
    if s == "NumpadMultiply"@ {
        Some(QueryKey::NumpadMultiply)
    } else
    if s == "NumpadEquals"@ {
        Some(QueryKey::NumpadEquals)
    } else
    if s == "NumpadEnter"@ {
        Some(QueryKey::NumpadEnter)
    } else
    if s == "NumpadDecimal"@ {
        Some(QueryKey::NumpadDecimal)
    } else
    if s == "Grave"@ {
        Some(QueryKey::Grave)
    } else
    if s == "Minus"@ {
        Some(QueryKey::Minus)
    } else
    if s == "Equal"@ {
        Some(QueryKey::Equal)
    } else
    if s == "LeftBracket"@ {
        Some(QueryKey::LeftBracket)
    } else
    if s == "RightBracket"@ {
        Some(QueryKey::RightBracket)
    } else
    if s == "BackSlash"@ {
        Some(QueryKey::BackSlash)
    } else
    if s == "Semicolon"@ {
        Some(QueryKey::Semicolon)
    } else
    if s == "Apostrophe"@ {
        Some(QueryKey::Apostrophe)
    } else
    if s == "Comma"@ {
        Some(QueryKey::Comma)
    } else
    if s == "Dot"@ {
        Some(QueryKey::Dot)
    } else
    if s == "Slash"@ {
        Some(QueryKey::Slash)
    } else {
        None
    }
}

#[verifier::rlimit(60)]
pub fn parse_query_key(name: &str) -> (r: Option<QueryKey>)
    ensures
        r == query_key_of_name(name@),
{
    if str_eq(name, "Key0") {
        Some(QueryKey::Key0)
    } else
    if str_eq(name, "Key1") {
        Some(QueryKey::Key1)
    } else
    if str_eq(name, "Key2") {
        Some(QueryKey::Key2)
    } else
    if str_eq(name, "Key3") {
        Some(QueryKey::Key3)
    } else
    if str_eq(name, "Key4") {
        Some(QueryKey::Key4)
    } else
    if str_eq(name, "Key5") {
        Some(QueryKey::Key5)
    } else
    if str_eq(name, "Key6") {
        Some(QueryKey::Key6)
    } else
    if str_eq(name, "Key7") {
        Some(QueryKey::Key7)
    } else
    if str_eq(name, "Key8") {
        Some(QueryKey::Key8)
    } else
    if str_eq(name, "Key9") {
        Some(QueryKey::Key9)
    } else
    if str_eq(name, "A") {
        Some(QueryKey::A)
    } else
    if str_eq(name, "B") {
        Some(QueryKey::B)
    } else
    if str_eq(name, "C") {
        Some(QueryKey::C)
    } else
    if str_eq(name, "D") {
        Some(QueryKey::D)
    } else
    if str_eq(name, "E") {
        Some(QueryKey::E)
    } else
    if str_eq(name, "F") {
        Some(QueryKey::F)
    } else
    if str_eq(name, "G") {
        Some(QueryKey::G)
    } else
    if str_eq(name, "H") {
        Some(QueryKey::H)
    } else
    if str_eq(name, "I") {
        Some(QueryKey::I)
    } else
    if str_eq(name, "J") {
        Some(QueryKey::J)
    } else
    if str_eq(name, "K") {
        Some(QueryKey::K)
    } else
    if str_eq(name, "L") {
        Some(QueryKey::L)
    } else
    if str_eq(name, "M") {
        Some(QueryKey::M)
    } else
    if str_eq(name, "N") {
        Some(QueryKey::N)
    } else
    if str_eq(name, "O") {
        Some(QueryKey::O)
    } else
    if str_eq(name, "P") {
        Some(QueryKey::P)
    } else
    if str_eq(name, "Q") {
        Some(QueryKey::Q)
    } else
    if str_eq(name, "R") {
        Some(QueryKey::R)
    } else
    if str_eq(name, "S") {
        Some(QueryKey::S)
    } else
    if str_eq(name, "T") {
        Some(QueryKey::T)
    } else
    if str_eq(name, "U") {
        Some(QueryKey::U)
    } else
    if str_eq(name, "V") {
        Some(QueryKey::V)
    } else
    if str_eq(name, "W") {
        Some(QueryKey::W)
    } else
    if str_eq(name, "X") {
        Some(QueryKey::X)
    } else
    if str_eq(name, "Y") {
        Some(QueryKey::Y)
    } else
    if str_eq(name, "Z") {
        Some(QueryKey::Z)
    } else
    if str_eq(name, "F1") {
        Some(QueryKey::F1)
    } else
    if str_eq(name, "F2") {
        Some(QueryKey::F2)
    } else
    if str_eq(name, "F3") {
        Some(QueryKey::F3)
    } else
    if str_eq(name, "F4") {
        Some(QueryKey::F4)
    } else
    if str_eq(name, "F5") {
        Some(QueryKey::F5)
    } else
    if str_eq(name, "F6") {
        Some(QueryKey::F6)
    } else
    if str_eq(name, "F7") {
        Some(QueryKey::F7)
    } else
    if str_eq(name, "F8") {
        Some(QueryKey::F8)
    } else
    if str_eq(name, "F9") {
        Some(QueryKey::F9)
    } else
    if str_eq(name, "F10") {
        Some(QueryKey::F10)
    } else
    if str_eq(name, "F11") {
        Some(QueryKey::F11)
    } else
    if str_eq(name, "F12") {
        Some(QueryKey::F12)
    } else
    if str_eq(name, "F13") {
        Some(QueryKey::F13)
    } else
    if str_eq(name, "F14") {
        Some(QueryKey::F14)
    } else
    if str_eq(name, "F15") {
        Some(QueryKey::F15)
    } else
    if str_eq(name, "F16") {
        Some(QueryKey::F16)
    } else
    if str_eq(name, "F17") {
        Some(QueryKey::F17)
    } else
    if str_eq(name, "F18") {
        Some(QueryKey::F18)
    } else
    if str_eq(name, "F19") {
        Some(QueryKey::F19)
    } else
    if str_eq(name, "F20") {
        Some(QueryKey::F20)
    } else
    if str_eq(name, "Escape") {
        Some(QueryKey::Escape)
    } else
    if str_eq(name, "Space") {
        Some(QueryKey::Space)
    } else
    if str_eq(name, "LControl") {
        Some(QueryKey::LControl)
    } else
    if str_eq(name, "RControl") {
        Some(QueryKey::RControl)
    } else
    if str_eq(name, "LShift") {
        Some(QueryKey::LShift)
    } else
    if str_eq(name, "RShift") {
        Some(QueryKey::RShift)
    } else
    if str_eq(name, "LAlt") {
        Some(QueryKey::LAlt)
    } else
    if str_eq(name, "RAlt") {
        Some(QueryKey::RAlt)
    } else
    if str_eq(name, "Command") {
        Some(QueryKey::Command)
    } else
    if str_eq(name, "RCommand") {
        Some(QueryKey::RCommand)
    } else
    if str_eq(name, "LOption") {
        Some(QueryKey::LOption)
    } else
    if str_eq(name, "ROption") {
        Some(QueryKey::ROption)
    } else
    if str_eq(name, "LMeta") {
        Some(QueryKey::LMeta)
    } else
    if str_eq(name, "RMeta") {
        Some(QueryKey::RMeta)
    } else
    if str_eq(name, "Enter") {
        Some(QueryKey::Enter)
    } else
    if str_eq(name, "Up") {
        Some(QueryKey::Up)
    } else
    if str_eq(name, "Down") {
        Some(QueryKey::Down)
    } else
    if str_eq(name, "Left") {
        Some(QueryKey::Left)
    } else
    if str_eq(name, "Right") {
        Some(QueryKey::Right)
    } else
    if str_eq(name, "Backspace") {
        Some(QueryKey::Backspace)
    } else
    if str_eq(name, "CapsLock") {
        Some(QueryKey::CapsLock)
    } else
    if str_eq(name, "Tab") {
        Some(QueryKey::Tab)
    } else
    if str_eq(name, "Home") {
        Some(QueryKey::Home)
    } else
    if str_eq(name, "End") {
        Some(QueryKey::End)
    } else
    if str_eq(name, "PageUp") {
        Some(QueryKey::PageUp)
    } else
    if str_eq(name, "PageDown") {
        Some(QueryKey::PageDown)
    } else
    if str_eq(name, "Insert") {
        Some(QueryKey::Insert)
    } else
    if str_eq(name, "Delete") {
        Some(QueryKey::Delete)
    } else
    if str_eq(name, "Numpad0") {
        Some(QueryKey::Numpad0)
    } else
    if str_eq(name, "Numpad1") {
        Some(QueryKey::Numpad1)
    } else
    if str_eq(name, "Numpad2") {
        Some(QueryKey::Numpad2)
    } else
    if str_eq(name, "Numpad3") {
        Some(QueryKey::Numpad3)
    } else
    if str_eq(name, "Numpad4") {
        Some(QueryKey::Numpad4)
    } else
    if str_eq(name, "Numpad5") {
        Some(QueryKey::Numpad5)
    } else
    if str_eq(name, "Numpad6") {
        Some(QueryKey::Numpad6)
    } else
    if str_eq(name, "Numpad7") {
        Some(QueryKey::Numpad7)
    } else
    if str_eq(name, "Numpad8") {
        Some(QueryKey::Numpad8)
    } else
    if str_eq(name, "Numpad9") {
        Some(QueryKey::Numpad9)
    } else
    if str_eq(name, "NumpadSubtract") {
        Some(QueryKey::NumpadSubtract)
    } else
    if str_eq(name, "NumpadAdd") {
        Some(QueryKey::NumpadAdd)
    } else
    if str_eq(name, "NumpadDivide") {
        Some(QueryKey::NumpadDivide)
    } else
    if str_eq(name, "NumpadMultiply") {
        Some(QueryKey::NumpadMultiply)
    } else
    if str_eq(name, "NumpadEquals") {
        Some(QueryKey::NumpadEquals)
    } else
    if str_eq(name, "NumpadEnter") {
        Some(QueryKey::NumpadEnter)
    } else
    if str_eq(name, "NumpadDecimal") {
        Some(QueryKey::NumpadDecimal)
    } else
    if str_eq(name, "Grave") {
        Some(QueryKey::Grave)
    } else
    if str_eq(name, "Minus") {
        Some(QueryKey::Minus)
    } else
    if str_eq(name, "Equal") {
        Some(QueryKey::Equal)
    } else
    if str_eq(name, "LeftBracket") {
        Some(QueryKey::LeftBracket)
    } else
    if str_eq(name, "RightBracket") {
        Some(QueryKey::RightBracket)
    } else
    if str_eq(name, "BackSlash") {
        Some(QueryKey::BackSlash)
    } else
    if str_eq(name, "Semicolon") {
        Some(QueryKey::Semicolon)
    } else
    if str_eq(name, "Apostrophe") {
        Some(QueryKey::Apostrophe)
    } else
    if str_eq(name, "Comma") {
        Some(QueryKey::Comma)
    } else
    if str_eq(name, "Dot") {
        Some(QueryKey::Dot)
    } else
    if str_eq(name, "Slash") {
        Some(QueryKey::Slash)
    } else {
        None
    }
}

} // verus!
