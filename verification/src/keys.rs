//! The names of keys.

use vstd::prelude::*;

use crate::hotkeys::HotkeyManager;
use crate::text::{joined, lowercase, same_text, to_lowercase};

verus! {

/// A key as the window reports it.
#[derive(Debug, Clone, Copy, PartialEq, Eq, Structural)]
pub enum Key {
    Space,
    Enter,
    Tab,
    Backspace,
    Escape,
    Insert,
    Delete,
    Home,
    End,
    PageUp,
    PageDown,
    ArrowUp,
    ArrowDown,
    ArrowLeft,
    ArrowRight,
    F1,
    F2,
    F3,
    F4,
    F5,
    F6,
    F7,
    F8,
    F9,
    F10,
    F11,
    F12,
    A,
    B,
    C,
    D,
    E,
    F,
    G,
    H,
    I,
    J,
    K,
    L,
    M,
    N,
    O,
    P,
    Q,
    R,
    S,
    T,
    U,
    V,
    W,
    X,
    Y,
    Z,
    Num0,
    Num1,
    Num2,
    Num3,
    Num4,
    Num5,
    Num6,
    Num7,
    Num8,
    Num9,
    Minus,
    Equals,
    OpenBracket,
    CloseBracket,
    Backslash,
    Semicolon,
    Quote,
    Backtick,
    Comma,
    Period,
    Slash,
    /// A key that cannot be bound.
    Other,
}

/// A key as the system knows it, whichever window has the focus.
#[derive(Debug, Clone, Copy, PartialEq, Eq, Structural)]
pub enum Code {
    Space,
    Enter,
    Tab,
    Backspace,
    Escape,
    Insert,
    Delete,
    Home,
    End,
    PageUp,
    PageDown,
    ArrowUp,
    ArrowDown,
    ArrowLeft,
    ArrowRight,
    F1,
    F2,
    F3,
    F4,
    F5,
    F6,
    F7,
    F8,
    F9,
    F10,
    F11,
    F12,
    KeyA,
    KeyB,
    KeyC,
    KeyD,
    KeyE,
    KeyF,
    KeyG,
    KeyH,
    KeyI,
    KeyJ,
    KeyK,
    KeyL,
    KeyM,
    KeyN,
    KeyO,
    KeyP,
    KeyQ,
    KeyR,
    KeyS,
    KeyT,
    KeyU,
    KeyV,
    KeyW,
    KeyX,
    KeyY,
    KeyZ,
    Digit0,
    Digit1,
    Digit2,
    Digit3,
    Digit4,
    Digit5,
    Digit6,
    Digit7,
    Digit8,
    Digit9,
    Minus,
    Equal,
    BracketLeft,
    BracketRight,
    Backslash,
    Semicolon,
    Quote,
    Backquote,
    Comma,
    Period,
    Slash,
    Numpad0,
    Numpad1,
    Numpad2,
    Numpad3,
    Numpad4,
    Numpad5,
    Numpad6,
    Numpad7,
    Numpad8,
    Numpad9,
    NumpadAdd,
    NumpadSubtract,
    NumpadMultiply,
    NumpadDivide,
    NumpadDecimal,
    NumpadEnter,
}

/// The name of a key, for those that can be bound.
pub open spec fn key_name(key: Key) -> Option<Seq<char>> {
    match key {
        Key::Space => Some("Space"@),
        Key::Enter => Some("Enter"@),
        Key::Tab => Some("Tab"@),
        Key::Backspace => Some("Backspace"@),
        Key::Escape => Some("Escape"@),
        Key::Insert => Some("Insert"@),
        Key::Delete => Some("Delete"@),
        Key::Home => Some("Home"@),
        Key::End => Some("End"@),
        Key::PageUp => Some("PageUp"@),
        Key::PageDown => Some("PageDown"@),
        Key::ArrowUp => Some("ArrowUp"@),
        Key::ArrowDown => Some("ArrowDown"@),
        Key::ArrowLeft => Some("ArrowLeft"@),
        Key::ArrowRight => Some("ArrowRight"@),
        Key::F1 => Some("F1"@),
        Key::F2 => Some("F2"@),
        Key::F3 => Some("F3"@),
        Key::F4 => Some("F4"@),
        Key::F5 => Some("F5"@),
        Key::F6 => Some("F6"@),
        Key::F7 => Some("F7"@),
        Key::F8 => Some("F8"@),
        Key::F9 => Some("F9"@),
        Key::F10 => Some("F10"@),
        Key::F11 => Some("F11"@),
        Key::F12 => Some("F12"@),
        Key::A => Some("A"@),
        Key::B => Some("B"@),
        Key::C => Some("C"@),
        Key::D => Some("D"@),
        Key::E => Some("E"@),
        Key::F => Some("F"@),
        Key::G => Some("G"@),
        Key::H => Some("H"@),
        Key::I => Some("I"@),
        Key::J => Some("J"@),
        Key::K => Some("K"@),
        Key::L => Some("L"@),
        Key::M => Some("M"@),
        Key::N => Some("N"@),
        Key::O => Some("O"@),
        Key::P => Some("P"@),
        Key::Q => Some("Q"@),
        Key::R => Some("R"@),
        Key::S => Some("S"@),
        Key::T => Some("T"@),
        Key::U => Some("U"@),
        Key::V => Some("V"@),
        Key::W => Some("W"@),
        Key::X => Some("X"@),
        Key::Y => Some("Y"@),
        Key::Z => Some("Z"@),
        Key::Num0 => Some("0"@),
        Key::Num1 => Some("1"@),
        Key::Num2 => Some("2"@),
        Key::Num3 => Some("3"@),
        Key::Num4 => Some("4"@),
        Key::Num5 => Some("5"@),
        Key::Num6 => Some("6"@),
        Key::Num7 => Some("7"@),
        Key::Num8 => Some("8"@),
        Key::Num9 => Some("9"@),
        Key::Minus => Some("Minus"@),
        Key::Equals => Some("Equal"@),
        Key::OpenBracket => Some("BracketLeft"@),
        Key::CloseBracket => Some("BracketRight"@),
        Key::Backslash => Some("Backslash"@),
        Key::Semicolon => Some("Semicolon"@),
        Key::Quote => Some("Quote"@),
        Key::Backtick => Some("Backquote"@),
        Key::Comma => Some("Comma"@),
        Key::Period => Some("Period"@),
        Key::Slash => Some("Slash"@),
        Key::Other => None,
    }
}

impl HotkeyManager {
    /// The name of a key, for those that can be bound.
    pub fn egui_key_to_string(key: Key) -> (name: Option<String>)
        ensures
            crate::text::optional_text(name) == key_name(key),
    {
        let name: &str = match key {
            Key::Space => "Space",
            Key::Enter => "Enter",
            Key::Tab => "Tab",
            Key::Backspace => "Backspace",
            Key::Escape => "Escape",
            Key::Insert => "Insert",
            Key::Delete => "Delete",
            Key::Home => "Home",
            Key::End => "End",
            Key::PageUp => "PageUp",
            Key::PageDown => "PageDown",
            Key::ArrowUp => "ArrowUp",
            Key::ArrowDown => "ArrowDown",
            Key::ArrowLeft => "ArrowLeft",
            Key::ArrowRight => "ArrowRight",
            Key::F1 => "F1",
            Key::F2 => "F2",
            Key::F3 => "F3",
            Key::F4 => "F4",
            Key::F5 => "F5",
            Key::F6 => "F6",
            Key::F7 => "F7",
            Key::F8 => "F8",
            Key::F9 => "F9",
            Key::F10 => "F10",
            Key::F11 => "F11",
            Key::F12 => "F12",
            Key::A => "A",
            Key::B => "B",
            Key::C => "C",
            Key::D => "D",
            Key::E => "E",
            Key::F => "F",
            Key::G => "G",
            Key::H => "H",
            Key::I => "I",
            Key::J => "J",
            Key::K => "K",
            Key::L => "L",
            Key::M => "M",
            Key::N => "N",
            Key::O => "O",
            Key::P => "P",
            Key::Q => "Q",
            Key::R => "R",
            Key::S => "S",
            Key::T => "T",
            Key::U => "U",
            Key::V => "V",
            Key::W => "W",
            Key::X => "X",
            Key::Y => "Y",
            Key::Z => "Z",
            Key::Num0 => "0",
            Key::Num1 => "1",
            Key::Num2 => "2",
            Key::Num3 => "3",
            Key::Num4 => "4",
            Key::Num5 => "5",
            Key::Num6 => "6",
            Key::Num7 => "7",
            Key::Num8 => "8",
            Key::Num9 => "9",
            Key::Minus => "Minus",
            Key::Equals => "Equal",
            Key::OpenBracket => "BracketLeft",
            Key::CloseBracket => "BracketRight",
            Key::Backslash => "Backslash",
            Key::Semicolon => "Semicolon",
            Key::Quote => "Quote",
            Key::Backtick => "Backquote",
            Key::Comma => "Comma",
            Key::Period => "Period",
            Key::Slash => "Slash",
            Key::Other => {
                return None;
            },
        };
        Some(name.to_owned())
    }
}

/// The system's code of a key of the window.
pub open spec fn key_code(key: Key) -> Option<Code> {
    match key {
        Key::Space => Some(Code::Space),
        Key::Enter => Some(Code::Enter),
        Key::Tab => Some(Code::Tab),
        Key::Backspace => Some(Code::Backspace),
        Key::Escape => Some(Code::Escape),
        Key::Insert => Some(Code::Insert),
        Key::Delete => Some(Code::Delete),
        Key::Home => Some(Code::Home),
        Key::End => Some(Code::End),
        Key::PageUp => Some(Code::PageUp),
        Key::PageDown => Some(Code::PageDown),
        Key::ArrowUp => Some(Code::ArrowUp),
        Key::ArrowDown => Some(Code::ArrowDown),
        Key::ArrowLeft => Some(Code::ArrowLeft),
        Key::ArrowRight => Some(Code::ArrowRight),
        Key::F1 => Some(Code::F1),
        Key::F2 => Some(Code::F2),
        Key::F3 => Some(Code::F3),
        Key::F4 => Some(Code::F4),
        Key::F5 => Some(Code::F5),
        Key::F6 => Some(Code::F6),
        Key::F7 => Some(Code::F7),
        Key::F8 => Some(Code::F8),
        Key::F9 => Some(Code::F9),
        Key::F10 => Some(Code::F10),
        Key::F11 => Some(Code::F11),
        Key::F12 => Some(Code::F12),
        Key::A => Some(Code::KeyA),
        Key::B => Some(Code::KeyB),
        Key::C => Some(Code::KeyC),
        Key::D => Some(Code::KeyD),
        Key::E => Some(Code::KeyE),
        Key::F => Some(Code::KeyF),
        Key::G => Some(Code::KeyG),
        Key::H => Some(Code::KeyH),
        Key::I => Some(Code::KeyI),
        Key::J => Some(Code::KeyJ),
        Key::K => Some(Code::KeyK),
        Key::L => Some(Code::KeyL),
        Key::M => Some(Code::KeyM),
        Key::N => Some(Code::KeyN),
        Key::O => Some(Code::KeyO),
        Key::P => Some(Code::KeyP),
        Key::Q => Some(Code::KeyQ),
        Key::R => Some(Code::KeyR),
        Key::S => Some(Code::KeyS),
        Key::T => Some(Code::KeyT),
        Key::U => Some(Code::KeyU),
        Key::V => Some(Code::KeyV),
        Key::W => Some(Code::KeyW),
        Key::X => Some(Code::KeyX),
        Key::Y => Some(Code::KeyY),
        Key::Z => Some(Code::KeyZ),
        Key::Num0 => Some(Code::Digit0),
        Key::Num1 => Some(Code::Digit1),
        Key::Num2 => Some(Code::Digit2),
        Key::Num3 => Some(Code::Digit3),
        Key::Num4 => Some(Code::Digit4),
        Key::Num5 => Some(Code::Digit5),
        Key::Num6 => Some(Code::Digit6),
        Key::Num7 => Some(Code::Digit7),
        Key::Num8 => Some(Code::Digit8),
        Key::Num9 => Some(Code::Digit9),
        Key::Minus => Some(Code::Minus),
        Key::Equals => Some(Code::Equal),
        Key::OpenBracket => Some(Code::BracketLeft),
        Key::CloseBracket => Some(Code::BracketRight),
        Key::Backslash => Some(Code::Backslash),
        Key::Semicolon => Some(Code::Semicolon),
        Key::Quote => Some(Code::Quote),
        Key::Backtick => Some(Code::Backquote),
        Key::Comma => Some(Code::Comma),
        Key::Period => Some(Code::Period),
        Key::Slash => Some(Code::Slash),
        Key::Other => None,
    }
}

fn code_of_key(key: Key) -> (code: Option<Code>)
    ensures
        code == key_code(key),
{
    let code: Code = match key {
        Key::Space => Code::Space,
        Key::Enter => Code::Enter,
        Key::Tab => Code::Tab,
        Key::Backspace => Code::Backspace,
        Key::Escape => Code::Escape,
        Key::Insert => Code::Insert,
        Key::Delete => Code::Delete,
        Key::Home => Code::Home,
        Key::End => Code::End,
        Key::PageUp => Code::PageUp,
        Key::PageDown => Code::PageDown,
        Key::ArrowUp => Code::ArrowUp,
        Key::ArrowDown => Code::ArrowDown,
        Key::ArrowLeft => Code::ArrowLeft,
        Key::ArrowRight => Code::ArrowRight,
        Key::F1 => Code::F1,
        Key::F2 => Code::F2,
        Key::F3 => Code::F3,
        Key::F4 => Code::F4,
        Key::F5 => Code::F5,
        Key::F6 => Code::F6,
        Key::F7 => Code::F7,
        Key::F8 => Code::F8,
        Key::F9 => Code::F9,
        Key::F10 => Code::F10,
        Key::F11 => Code::F11,
        Key::F12 => Code::F12,
        Key::A => Code::KeyA,
        Key::B => Code::KeyB,
        Key::C => Code::KeyC,
        Key::D => Code::KeyD,
        Key::E => Code::KeyE,
        Key::F => Code::KeyF,
        Key::G => Code::KeyG,
        Key::H => Code::KeyH,
        Key::I => Code::KeyI,
        Key::J => Code::KeyJ,
        Key::K => Code::KeyK,
        Key::L => Code::KeyL,
        Key::M => Code::KeyM,
        Key::N => Code::KeyN,
        Key::O => Code::KeyO,
        Key::P => Code::KeyP,
        Key::Q => Code::KeyQ,
        Key::R => Code::KeyR,
        Key::S => Code::KeyS,
        Key::T => Code::KeyT,
        Key::U => Code::KeyU,
        Key::V => Code::KeyV,
        Key::W => Code::KeyW,
        Key::X => Code::KeyX,
        Key::Y => Code::KeyY,
        Key::Z => Code::KeyZ,
        Key::Num0 => Code::Digit0,
        Key::Num1 => Code::Digit1,
        Key::Num2 => Code::Digit2,
        Key::Num3 => Code::Digit3,
        Key::Num4 => Code::Digit4,
        Key::Num5 => Code::Digit5,
        Key::Num6 => Code::Digit6,
        Key::Num7 => Code::Digit7,
        Key::Num8 => Code::Digit8,
        Key::Num9 => Code::Digit9,
        Key::Minus => Code::Minus,
        Key::Equals => Code::Equal,
        Key::OpenBracket => Code::BracketLeft,
        Key::CloseBracket => Code::BracketRight,
        Key::Backslash => Code::Backslash,
        Key::Semicolon => Code::Semicolon,
        Key::Quote => Code::Quote,
        Key::Backtick => Code::Backquote,
        Key::Comma => Code::Comma,
        Key::Period => Code::Period,
        Key::Slash => Code::Slash,
        Key::Other => {
            return None;
        },
    };
    Some(code)
}

/// The key that a name in small letters stands for, among the keys with a name of their own.
pub open spec fn special_key(name: Seq<char>) -> Option<Key> {
    if name == "space"@ {
        Some(Key::Space)
    } else if name == "enter"@ || name == "return"@ {
        Some(Key::Enter)
    } else if name == "tab"@ {
        Some(Key::Tab)
    } else if name == "backspace"@ {
        Some(Key::Backspace)
    } else if name == "escape"@ || name == "esc"@ {
        Some(Key::Escape)
    } else if name == "insert"@ {
        Some(Key::Insert)
    } else if name == "delete"@ {
        Some(Key::Delete)
    } else if name == "home"@ {
        Some(Key::Home)
    } else if name == "end"@ {
        Some(Key::End)
    } else if name == "pageup"@ {
        Some(Key::PageUp)
    } else if name == "pagedown"@ {
        Some(Key::PageDown)
    } else if name == "arrowup"@ || name == "up"@ {
        Some(Key::ArrowUp)
    } else if name == "arrowdown"@ || name == "down"@ {
        Some(Key::ArrowDown)
    } else if name == "arrowleft"@ || name == "left"@ {
        Some(Key::ArrowLeft)
    } else if name == "arrowright"@ || name == "right"@ {
        Some(Key::ArrowRight)
    } else {
        None
    }
}

pub fn find_special_key(name: &str) -> (found: Option<Key>)
    ensures
        found == special_key(name@),
{
    if same_text(name, "space") {
        Some(Key::Space)
    } else if same_text(name, "enter") || same_text(name, "return") {
        Some(Key::Enter)
    } else if same_text(name, "tab") {
        Some(Key::Tab)
    } else if same_text(name, "backspace") {
        Some(Key::Backspace)
    } else if same_text(name, "escape") || same_text(name, "esc") {
        Some(Key::Escape)
    } else if same_text(name, "insert") {
        Some(Key::Insert)
    } else if same_text(name, "delete") {
        Some(Key::Delete)
    } else if same_text(name, "home") {
        Some(Key::Home)
    } else if same_text(name, "end") {
        Some(Key::End)
    } else if same_text(name, "pageup") {
        Some(Key::PageUp)
    } else if same_text(name, "pagedown") {
        Some(Key::PageDown)
    } else if same_text(name, "arrowup") || same_text(name, "up") {
        Some(Key::ArrowUp)
    } else if same_text(name, "arrowdown") || same_text(name, "down") {
        Some(Key::ArrowDown)
    } else if same_text(name, "arrowleft") || same_text(name, "left") {
        Some(Key::ArrowLeft)
    } else if same_text(name, "arrowright") || same_text(name, "right") {
        Some(Key::ArrowRight)
    } else {
        None
    }
}

/// The key that a name in small letters stands for, among the function keys.
pub open spec fn function_key(name: Seq<char>) -> Option<Key> {
    if name == "f1"@ {
        Some(Key::F1)
    } else if name == "f2"@ {
        Some(Key::F2)
    } else if name == "f3"@ {
        Some(Key::F3)
    } else if name == "f4"@ {
        Some(Key::F4)
    } else if name == "f5"@ {
        Some(Key::F5)
    } else if name == "f6"@ {
        Some(Key::F6)
    } else if name == "f7"@ {
        Some(Key::F7)
    } else if name == "f8"@ {
        Some(Key::F8)
    } else if name == "f9"@ {
        Some(Key::F9)
    } else if name == "f10"@ {
        Some(Key::F10)
    } else if name == "f11"@ {
        Some(Key::F11)
    } else if name == "f12"@ {
        Some(Key::F12)
    } else {
        None
    }
}

pub fn find_function_key(name: &str) -> (found: Option<Key>)
    ensures
        found == function_key(name@),
{
    if same_text(name, "f1") {
        Some(Key::F1)
    } else if same_text(name, "f2") {
        Some(Key::F2)
    } else if same_text(name, "f3") {
        Some(Key::F3)
    } else if same_text(name, "f4") {
        Some(Key::F4)
    } else if same_text(name, "f5") {
        Some(Key::F5)
    } else if same_text(name, "f6") {
        Some(Key::F6)
    } else if same_text(name, "f7") {
        Some(Key::F7)
    } else if same_text(name, "f8") {
        Some(Key::F8)
    } else if same_text(name, "f9") {
        Some(Key::F9)
    } else if same_text(name, "f10") {
        Some(Key::F10)
    } else if same_text(name, "f11") {
        Some(Key::F11)
    } else if same_text(name, "f12") {
        Some(Key::F12)
    } else {
        None
    }
}

/// The key that a name in small letters stands for, among the letters.
pub open spec fn letter_key(name: Seq<char>) -> Option<Key> {
    if name == "a"@ || name == "keya"@ {
        Some(Key::A)
    } else if name == "b"@ || name == "keyb"@ {
        Some(Key::B)
    } else if name == "c"@ || name == "keyc"@ {
        Some(Key::C)
    } else if name == "d"@ || name == "keyd"@ {
        Some(Key::D)
    } else if name == "e"@ || name == "keye"@ {
        Some(Key::E)
    } else if name == "f"@ || name == "keyf"@ {
        Some(Key::F)
    } else if name == "g"@ || name == "keyg"@ {
        Some(Key::G)
    } else if name == "h"@ || name == "keyh"@ {
        Some(Key::H)
    } else if name == "i"@ || name == "keyi"@ {
        Some(Key::I)
    } else if name == "j"@ || name == "keyj"@ {
        Some(Key::J)
    } else if name == "k"@ || name == "keyk"@ {
        Some(Key::K)
    } else if name == "l"@ || name == "keyl"@ {
        Some(Key::L)
    } else if name == "m"@ || name == "keym"@ {
        Some(Key::M)
    } else if name == "n"@ || name == "keyn"@ {
        Some(Key::N)
    } else if name == "o"@ || name == "keyo"@ {
        Some(Key::O)
    } else if name == "p"@ || name == "keyp"@ {
        Some(Key::P)
    } else if name == "q"@ || name == "keyq"@ {
        Some(Key::Q)
    } else if name == "r"@ || name == "keyr"@ {
        Some(Key::R)
    } else if name == "s"@ || name == "keys"@ {
        Some(Key::S)
    } else if name == "t"@ || name == "keyt"@ {
        Some(Key::T)
    } else if name == "u"@ || name == "keyu"@ {
        Some(Key::U)
    } else if name == "v"@ || name == "keyv"@ {
        Some(Key::V)
    } else if name == "w"@ || name == "keyw"@ {
        Some(Key::W)
    } else if name == "x"@ || name == "keyx"@ {
        Some(Key::X)
    } else if name == "y"@ || name == "keyy"@ {
        Some(Key::Y)
    } else if name == "z"@ || name == "keyz"@ {
        Some(Key::Z)
    } else {
        None
    }
}

pub fn find_letter_key(name: &str) -> (found: Option<Key>)
    ensures
        found == letter_key(name@),
{
    if same_text(name, "a") || same_text(name, "keya") {
        Some(Key::A)
    } else if same_text(name, "b") || same_text(name, "keyb") {
        Some(Key::B)
    } else if same_text(name, "c") || same_text(name, "keyc") {
        Some(Key::C)
    } else if same_text(name, "d") || same_text(name, "keyd") {
        Some(Key::D)
    } else if same_text(name, "e") || same_text(name, "keye") {
        Some(Key::E)
    } else if same_text(name, "f") || same_text(name, "keyf") {
        Some(Key::F)
    } else if same_text(name, "g") || same_text(name, "keyg") {
        Some(Key::G)
    } else if same_text(name, "h") || same_text(name, "keyh") {
        Some(Key::H)
    } else if same_text(name, "i") || same_text(name, "keyi") {
        Some(Key::I)
    } else if same_text(name, "j") || same_text(name, "keyj") {
        Some(Key::J)
    } else if same_text(name, "k") || same_text(name, "keyk") {
        Some(Key::K)
    } else if same_text(name, "l") || same_text(name, "keyl") {
        Some(Key::L)
    } else if same_text(name, "m") || same_text(name, "keym") {
        Some(Key::M)
    } else if same_text(name, "n") || same_text(name, "keyn") {
        Some(Key::N)
    } else if same_text(name, "o") || same_text(name, "keyo") {
        Some(Key::O)
    } else if same_text(name, "p") || same_text(name, "keyp") {
        Some(Key::P)
    } else if same_text(name, "q") || same_text(name, "keyq") {
        Some(Key::Q)
    } else if same_text(name, "r") || same_text(name, "keyr") {
        Some(Key::R)
    } else if same_text(name, "s") || same_text(name, "keys") {
        Some(Key::S)
    } else if same_text(name, "t") || same_text(name, "keyt") {
        Some(Key::T)
    } else if same_text(name, "u") || same_text(name, "keyu") {
        Some(Key::U)
    } else if same_text(name, "v") || same_text(name, "keyv") {
        Some(Key::V)
    } else if same_text(name, "w") || same_text(name, "keyw") {
        Some(Key::W)
    } else if same_text(name, "x") || same_text(name, "keyx") {
        Some(Key::X)
    } else if same_text(name, "y") || same_text(name, "keyy") {
        Some(Key::Y)
    } else if same_text(name, "z") || same_text(name, "keyz") {
        Some(Key::Z)
    } else {
        None
    }
}

/// The key that a name in small letters stands for, among the digits.
pub open spec fn digit_key(name: Seq<char>) -> Option<Key> {
    if name == "0"@ || name == "digit0"@ {
        Some(Key::Num0)
    } else if name == "1"@ || name == "digit1"@ {
        Some(Key::Num1)
    } else if name == "2"@ || name == "digit2"@ {
        Some(Key::Num2)
    } else if name == "3"@ || name == "digit3"@ {
        Some(Key::Num3)
    } else if name == "4"@ || name == "digit4"@ {
        Some(Key::Num4)
    } else if name == "5"@ || name == "digit5"@ {
        Some(Key::Num5)
    } else if name == "6"@ || name == "digit6"@ {
        Some(Key::Num6)
    } else if name == "7"@ || name == "digit7"@ {
        Some(Key::Num7)
    } else if name == "8"@ || name == "digit8"@ {
        Some(Key::Num8)
    } else if name == "9"@ || name == "digit9"@ {
        Some(Key::Num9)
    } else {
        None
    }
}

pub fn find_digit_key(name: &str) -> (found: Option<Key>)
    ensures
        found == digit_key(name@),
{
    if same_text(name, "0") || same_text(name, "digit0") {
        Some(Key::Num0)
    } else if same_text(name, "1") || same_text(name, "digit1") {
        Some(Key::Num1)
    } else if same_text(name, "2") || same_text(name, "digit2") {
        Some(Key::Num2)
    } else if same_text(name, "3") || same_text(name, "digit3") {
        Some(Key::Num3)
    } else if same_text(name, "4") || same_text(name, "digit4") {
        Some(Key::Num4)
    } else if same_text(name, "5") || same_text(name, "digit5") {
        Some(Key::Num5)
    } else if same_text(name, "6") || same_text(name, "digit6") {
        Some(Key::Num6)
    } else if same_text(name, "7") || same_text(name, "digit7") {
        Some(Key::Num7)
    } else if same_text(name, "8") || same_text(name, "digit8") {
        Some(Key::Num8)
    } else if same_text(name, "9") || same_text(name, "digit9") {
        Some(Key::Num9)
    } else {
        None
    }
}

/// The key that a name in small letters stands for, among the punctuation marks.
pub open spec fn sign_key(name: Seq<char>) -> Option<Key> {
    if name == "minus"@ || name == "-"@ {
        Some(Key::Minus)
    } else if name == "equal"@ || name == "="@ {
        Some(Key::Equals)
    } else if name == "bracketleft"@ || name == "["@ {
        Some(Key::OpenBracket)
    } else if name == "bracketright"@ || name == "]"@ {
        Some(Key::CloseBracket)
    } else if name == "backslash"@ || name == "\\"@ {
        Some(Key::Backslash)
    } else if name == "semicolon"@ || name == ";"@ {
        Some(Key::Semicolon)
    } else if name == "quote"@ || name == "'"@ {
        Some(Key::Quote)
    } else if name == "backquote"@ || name == "`"@ {
        Some(Key::Backtick)
    } else if name == "comma"@ || name == ","@ {
        Some(Key::Comma)
    } else if name == "period"@ || name == "."@ {
        Some(Key::Period)
    } else if name == "slash"@ || name == "/"@ {
        Some(Key::Slash)
    } else {
        None
    }
}

fn find_sign_key(name: &str) -> (found: Option<Key>)
    ensures
        found == sign_key(name@),
{
    if same_text(name, "minus") || same_text(name, "-") {
        Some(Key::Minus)
    } else if same_text(name, "equal") || same_text(name, "=") {
        Some(Key::Equals)
    } else if same_text(name, "bracketleft") || same_text(name, "[") {
        Some(Key::OpenBracket)
    } else if same_text(name, "bracketright") || same_text(name, "]") {
        Some(Key::CloseBracket)
    } else if same_text(name, "backslash") || same_text(name, "\\") {
        Some(Key::Backslash)
    } else if same_text(name, "semicolon") || same_text(name, ";") {
        Some(Key::Semicolon)
    } else if same_text(name, "quote") || same_text(name, "'") {
        Some(Key::Quote)
    } else if same_text(name, "backquote") || same_text(name, "`") {
        Some(Key::Backtick)
    } else if same_text(name, "comma") || same_text(name, ",") {
        Some(Key::Comma)
    } else if same_text(name, "period") || same_text(name, ".") {
        Some(Key::Period)
    } else if same_text(name, "slash") || same_text(name, "/") {
        Some(Key::Slash)
    } else {
        None
    }
}

/// The code that a name in small letters stands for, among the keys of the number pad.
pub open spec fn numpad_code(name: Seq<char>) -> Option<Code> {
    if name == "numpad0"@ {
        Some(Code::Numpad0)
    } else if name == "numpad1"@ {
        Some(Code::Numpad1)
    } else if name == "numpad2"@ {
        Some(Code::Numpad2)
    } else if name == "numpad3"@ {
        Some(Code::Numpad3)
    } else if name == "numpad4"@ {
        Some(Code::Numpad4)
    } else if name == "numpad5"@ {
        Some(Code::Numpad5)
    } else if name == "numpad6"@ {
        Some(Code::Numpad6)
    } else if name == "numpad7"@ {
        Some(Code::Numpad7)
    } else if name == "numpad8"@ {
        Some(Code::Numpad8)
    } else if name == "numpad9"@ {
        Some(Code::Numpad9)
    } else if name == "numpadadd"@ {
        Some(Code::NumpadAdd)
    } else if name == "numpadsubtract"@ {
        Some(Code::NumpadSubtract)
    } else if name == "numpadmultiply"@ {
        Some(Code::NumpadMultiply)
    } else if name == "numpaddivide"@ {
        Some(Code::NumpadDivide)
    } else if name == "numpaddecimal"@ {
        Some(Code::NumpadDecimal)
    } else if name == "numpadenter"@ {
        Some(Code::NumpadEnter)
    } else {
        None
    }
}

fn find_numpad_code(name: &str) -> (found: Option<Code>)
    ensures
        found == numpad_code(name@),
{
    if same_text(name, "numpad0") {
        Some(Code::Numpad0)
    } else if same_text(name, "numpad1") {
        Some(Code::Numpad1)
    } else if same_text(name, "numpad2") {
        Some(Code::Numpad2)
    } else if same_text(name, "numpad3") {
        Some(Code::Numpad3)
    } else if same_text(name, "numpad4") {
        Some(Code::Numpad4)
    } else if same_text(name, "numpad5") {
        Some(Code::Numpad5)
    } else if same_text(name, "numpad6") {
        Some(Code::Numpad6)
    } else if same_text(name, "numpad7") {
        Some(Code::Numpad7)
    } else if same_text(name, "numpad8") {
        Some(Code::Numpad8)
    } else if same_text(name, "numpad9") {
        Some(Code::Numpad9)
    } else if same_text(name, "numpadadd") {
        Some(Code::NumpadAdd)
    } else if same_text(name, "numpadsubtract") {
        Some(Code::NumpadSubtract)
    } else if same_text(name, "numpadmultiply") {
        Some(Code::NumpadMultiply)
    } else if same_text(name, "numpaddivide") {
        Some(Code::NumpadDivide)
    } else if same_text(name, "numpaddecimal") {
        Some(Code::NumpadDecimal)
    } else if same_text(name, "numpadenter") {
        Some(Code::NumpadEnter)
    } else {
        None
    }
}

/// The key that a name in small letters stands for.
pub open spec fn named_key(name: Seq<char>) -> Option<Key> {
    if special_key(name) is Some {
        special_key(name)
    } else if function_key(name) is Some {
        function_key(name)
    } else if letter_key(name) is Some {
        letter_key(name)
    } else if digit_key(name) is Some {
        digit_key(name)
    } else {
        sign_key(name)
    }
}

/// The code that a name in small letters stands for.
pub open spec fn named_code(name: Seq<char>) -> Option<Code> {
    match named_key(name) {
        Some(key) => key_code(key),
        None => numpad_code(name),
    }
}

fn find_named_key(name: &str) -> (found: Option<Key>)
    ensures
        found == named_key(name@),
{
    let found = find_special_key(name);
    if found.is_some() {
        return found;
    }
    let found = find_function_key(name);
    if found.is_some() {
        return found;
    }
    let found = find_letter_key(name);
    if found.is_some() {
        return found;
    }
    let found = find_digit_key(name);
    if found.is_some() {
        return found;
    }
    find_sign_key(name)
}

impl HotkeyManager {
    /// Convert key string to the window's key (for window-focused fallback). Capitals
    /// and small letters are the same.
    pub fn key_string_to_egui_key(key: &str) -> (found: Option<Key>)
        ensures
            found == named_key(lowercase(key@)),
    {
        find_named_key(to_lowercase(key).as_str())
    }

    /// Convert key string to the system's code. Capitals and small letters are the
    /// same; the error is a sentence with the name in it.
    pub fn key_string_to_code(key: &str) -> (found: Result<Code, String>)
        ensures
            match found {
                Ok(code) => named_code(lowercase(key@)) == Some(code),
                Err(message) => named_code(lowercase(key@)) is None && message@ == "Unknown key: "@
                    + key@,
            },
    {
        let name = to_lowercase(key);
        let found: Option<Code> = match find_named_key(name.as_str()) {
            Some(inner) => code_of_key(inner),
            None => find_numpad_code(name.as_str()),
        };
        match found {
            Some(code) => Ok(code),
            None => Err(joined("Unknown key: ", key)),
        }
    }
}

} // verus!
