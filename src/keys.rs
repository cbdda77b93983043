use vstd::prelude::*;

verus! {

/// The error returned when a hotkey string does not follow the hotkey grammar.
#[derive(Debug, PartialEq, Eq, Clone)]
pub struct ParseKeyError {
    /// The token that names no modifier or no key.
    pub token: String,
}

fn parse_error(token: &str) -> (e: ParseKeyError)
    ensures
        e.token@ == token@,
{
    ParseKeyError { token: token.to_owned() }
}

/// A set of modifier keys held with a key.
#[derive(Debug, PartialEq, Eq, Structural, Clone, Copy, Hash)]
pub struct Modifiers {
    pub ctrl: bool,
    pub alt: bool,
    pub shift: bool,
    pub logo: bool,
}

impl Modifiers {
    /// No modifier held.
    pub open spec fn none() -> Modifiers {
        Modifiers { ctrl: false, alt: false, shift: false, logo: false }
    }

    /// Every modifier held in either set.
    pub open spec fn merge(self, o: Modifiers) -> Modifiers {
        Modifiers {
            ctrl: self.ctrl || o.ctrl,
            alt: self.alt || o.alt,
            shift: self.shift || o.shift,
            logo: self.logo || o.logo,
        }
    }

    pub fn empty() -> (r: Modifiers)
        ensures
            r == Modifiers::none(),
    {
        Modifiers { ctrl: false, alt: false, shift: false, logo: false }
    }

    pub fn union(self, o: Modifiers) -> (r: Modifiers)
        ensures
            r == self.merge(o),
    {
        Modifiers {
            ctrl: self.ctrl || o.ctrl,
            alt: self.alt || o.alt,
            shift: self.shift || o.shift,
            logo: self.logo || o.logo,
        }
    }
}

/// A physical key, named as the windowing layer names its virtual key codes.
#[derive(Debug, PartialEq, Eq, Structural, Clone, Copy, Hash)]
pub enum KeyCode {
    Key0,
    Key1,
    Key2,
    Key3,
    Key4,
    Key5,
    Key6,
    Key7,
    Key8,
    Key9,
    Numpad0,
    Numpad1,
    Numpad2,
    Numpad3,
    Numpad4,
    Numpad5,
    Numpad6,
    Numpad7,
    Numpad8,
    Numpad9,
    A,
    B,
    C,
    D,
    E,
    F,
    G,
    H,
    I,
    J,
    K,
    L,
    M,
    N,
    O,
    P,
    Q,
    R,
    S,
    T,
    U,
    V,
    W,
    X,
    Y,
    Z,
    Backslash,
    LBracket,
    RBracket,
    Comma,
    Minus,
    Period,
    Apostrophe,
    Semicolon,
    Slash,
    LAlt,
    RAlt,
    Back,
    LControl,
    RControl,
    Return,
    LWin,
    RWin,
    LShift,
    RShift,
    Space,
    Tab,
    Convert,
    Delete,
    End,
    Home,
    Insert,
    PageDown,
    PageUp,
    Down,
    Up,
    Left,
    Right,
    Numlock,
    NumpadAdd,
    NumpadComma,
    NumpadDecimal,
    NumpadDivide,
    NumpadEnter,
    NumpadEquals,
    NumpadMultiply,
    NumpadSubtract,
    Escape,
}

/// The canonical token of each key: the one that formatting writes.
pub open spec fn key_name(k: KeyCode) -> Seq<char> {
    match k {
        KeyCode::Key0 => "Digit0"@,
        KeyCode::Key1 => "Digit1"@,
        KeyCode::Key2 => "Digit2"@,
        KeyCode::Key3 => "Digit3"@,
        KeyCode::Key4 => "Digit4"@,
        KeyCode::Key5 => "Digit5"@,
        KeyCode::Key6 => "Digit6"@,
        KeyCode::Key7 => "Digit7"@,
        KeyCode::Key8 => "Digit8"@,
        KeyCode::Key9 => "Digit9"@,
        KeyCode::Numpad0 => "Numpad0"@,
        KeyCode::Numpad1 => "Numpad1"@,
        KeyCode::Numpad2 => "Numpad2"@,
        KeyCode::Numpad3 => "Numpad3"@,
        KeyCode::Numpad4 => "Numpad4"@,
        KeyCode::Numpad5 => "Numpad5"@,
        KeyCode::Numpad6 => "Numpad6"@,
        KeyCode::Numpad7 => "Numpad7"@,
        KeyCode::Numpad8 => "Numpad8"@,
        KeyCode::Numpad9 => "Numpad9"@,
        KeyCode::A => "KeyA"@,
        KeyCode::B => "KeyB"@,
        KeyCode::C => "KeyC"@,
        KeyCode::D => "KeyD"@,
        KeyCode::E => "KeyE"@,
        KeyCode::F => "KeyF"@,
        KeyCode::G => "KeyG"@,
        KeyCode::H => "KeyH"@,
        KeyCode::I => "KeyI"@,
        KeyCode::J => "KeyJ"@,
        KeyCode::K => "KeyK"@,
        KeyCode::L => "KeyL"@,
        KeyCode::M => "KeyM"@,
        KeyCode::N => "KeyN"@,
        KeyCode::O => "KeyO"@,
        KeyCode::P => "KeyP"@,
        KeyCode::Q => "KeyQ"@,
        KeyCode::R => "KeyR"@,
        KeyCode::S => "KeyS"@,
        KeyCode::T => "KeyT"@,
        KeyCode::U => "KeyU"@,
        KeyCode::V => "KeyV"@,
        KeyCode::W => "KeyW"@,
        KeyCode::X => "KeyX"@,
        KeyCode::Y => "KeyY"@,
        KeyCode::Z => "KeyZ"@,
        KeyCode::Backslash => "Backslash"@,
        KeyCode::LBracket => "BracketLeft"@,
        KeyCode::RBracket => "BracketRight"@,
        KeyCode::Comma => "Comma"@,
        KeyCode::Minus => "Minus"@,
        KeyCode::Period => "Period"@,
        KeyCode::Apostrophe => "Quote"@,
        KeyCode::Semicolon => "Semicolon"@,
        KeyCode::Slash => "Slash"@,
        KeyCode::LAlt => "AltLeft"@,
        KeyCode::RAlt => "AltRight"@,
        KeyCode::Back => "Backspace"@,
        KeyCode::LControl => "ControlLeft"@,
        KeyCode::RControl => "ControlRight"@,
        KeyCode::Return => "Enter"@,
        KeyCode::LWin => "MetaLeft"@,
        KeyCode::RWin => "MetaRight"@,
        KeyCode::LShift => "ShiftLeft"@,
        KeyCode::RShift => "ShiftRight"@,
        KeyCode::Space => "Space"@,
        KeyCode::Tab => "Tab"@,
        KeyCode::Convert => "Convert"@,
        KeyCode::Delete => "Delete"@,
        KeyCode::End => "End"@,
        KeyCode::Home => "Home"@,
        KeyCode::Insert => "Insert"@,
        KeyCode::PageDown => "PageDown"@,
        KeyCode::PageUp => "PageUp"@,
        KeyCode::Down => "ArrowDown"@,
        KeyCode::Up => "ArrowUp"@,
        KeyCode::Left => "ArrowLeft"@,
        KeyCode::Right => "ArrowRight"@,
        KeyCode::Numlock => "NumLock"@,
        KeyCode::NumpadAdd => "NumpadAdd"@,
        KeyCode::NumpadComma => "NumpadComma"@,
        KeyCode::NumpadDecimal => "NumpadDecimal"@,
        KeyCode::NumpadDivide => "NumpadDivide"@,
        KeyCode::NumpadEnter => "NumpadEnter"@,
        KeyCode::NumpadEquals => "NumpadEqual"@,
        KeyCode::NumpadMultiply => "NumpadMultiply"@,
        KeyCode::NumpadSubtract => "NumpadSubtract"@,
        KeyCode::Escape => "Escape"@,
    }
}

/// The key that a base-key token stands for, if any. Tokens are told apart by
/// their first character, then compared whole.
pub open spec fn key_of(s: Seq<char>) -> Option<KeyCode> {
    if s.len() == 0 {
        None
    } else if s[0] == 'D' {
        if s == "Digit0"@ {
            Some(KeyCode::Key0)
        } else if s == "Digit1"@ {
            Some(KeyCode::Key1)
        } else if s == "Digit2"@ {
            Some(KeyCode::Key2)
        } else if s == "Digit3"@ {
            Some(KeyCode::Key3)
        } else if s == "Digit4"@ {
            Some(KeyCode::Key4)
        } else if s == "Digit5"@ {
            Some(KeyCode::Key5)
        } else if s == "Digit6"@ {
            Some(KeyCode::Key6)
        } else if s == "Digit7"@ {
            Some(KeyCode::Key7)
        } else if s == "Digit8"@ {
            Some(KeyCode::Key8)
        } else if s == "Digit9"@ {
            Some(KeyCode::Key9)
        } else if s == "D"@ {
            Some(KeyCode::D)
        } else if s == "Delete"@ {
            Some(KeyCode::Delete)
        } else {
            None
        }
    } else if s[0] == '0' {
        if s == "0"@ {
            Some(KeyCode::Key0)
        } else {
            None
        }
    } else if s[0] == '1' {
        if s == "1"@ {
            Some(KeyCode::Key1)
        } else {
            None
        }
    } else if s[0] == '2' {
        if s == "2"@ {
            Some(KeyCode::Key2)
        } else {
            None
        }
    } else if s[0] == '3' {
        if s == "3"@ {
            Some(KeyCode::Key3)
        } else {
            None
        }
    } else if s[0] == '4' {
        if s == "4"@ {
            Some(KeyCode::Key4)
        } else {
            None
        }
    } else if s[0] == '5' {
        if s == "5"@ {
            Some(KeyCode::Key5)
        } else {
            None
        }
    } else if s[0] == '6' {
        if s == "6"@ {
            Some(KeyCode::Key6)
        } else {
            None
        }
    } else if s[0] == '7' {
        if s == "7"@ {
            Some(KeyCode::Key7)
        } else {
            None
        }
    } else if s[0] == '8' {
        if s == "8"@ {
            Some(KeyCode::Key8)
        } else {
            None
        }
    } else if s[0] == '9' {
        if s == "9"@ {
            Some(KeyCode::Key9)
        } else {
            None
        }
    } else if s[0] == 'N' {
        if s == "Numpad0"@ {
            Some(KeyCode::Numpad0)
        } else if s == "Numpad1"@ {
            Some(KeyCode::Numpad1)
        } else if s == "Numpad2"@ {
            Some(KeyCode::Numpad2)
        } else if s == "Numpad3"@ {
            Some(KeyCode::Numpad3)
        } else if s == "Numpad4"@ {
            Some(KeyCode::Numpad4)
        } else if s == "Numpad5"@ {
            Some(KeyCode::Numpad5)
        } else if s == "Numpad6"@ {
            Some(KeyCode::Numpad6)
        } else if s == "Numpad7"@ {
            Some(KeyCode::Numpad7)
        } else if s == "Numpad8"@ {
            Some(KeyCode::Numpad8)
        } else if s == "Numpad9"@ {
            Some(KeyCode::Numpad9)
        } else if s == "N"@ {
            Some(KeyCode::N)
        } else if s == "NumLock"@ {
            Some(KeyCode::Numlock)
        } else if s == "NumpadAdd"@ {
            Some(KeyCode::NumpadAdd)
        } else if s == "NumpadComma"@ {
            Some(KeyCode::NumpadComma)
        } else if s == "NumpadDecimal"@ {
            Some(KeyCode::NumpadDecimal)
        } else if s == "NumpadDivide"@ {
            Some(KeyCode::NumpadDivide)
        } else if s == "NumpadEnter"@ {
            Some(KeyCode::NumpadEnter)
        } else if s == "NumpadEqual"@ {
            Some(KeyCode::NumpadEquals)
        } else if s == "NumpadMultiply"@ {
            Some(KeyCode::NumpadMultiply)
        } else if s == "NumpadSubtract"@ {
            Some(KeyCode::NumpadSubtract)
        } else {
            None
        }
    } else if s[0] == 'K' {
        if s == "KeyA"@ {
            Some(KeyCode::A)
        } else if s == "KeyB"@ {
            Some(KeyCode::B)
        } else if s == "KeyC"@ {
            Some(KeyCode::C)
        } else if s == "KeyD"@ {
            Some(KeyCode::D)
        } else if s == "KeyE"@ {
            Some(KeyCode::E)
        } else if s == "KeyF"@ {
            Some(KeyCode::F)
        } else if s == "KeyG"@ {
            Some(KeyCode::G)
        } else if s == "KeyH"@ {
            Some(KeyCode::H)
        } else if s == "KeyI"@ {
            Some(KeyCode::I)
        } else if s == "KeyJ"@ {
            Some(KeyCode::J)
        } else if s == "KeyK"@ {
            Some(KeyCode::K)
        } else if s == "K"@ {
            Some(KeyCode::K)
        } else if s == "KeyL"@ {
            Some(KeyCode::L)
        } else if s == "KeyM"@ {
            Some(KeyCode::M)
        } else if s == "KeyN"@ {
            Some(KeyCode::N)
        } else if s == "KeyO"@ {
            Some(KeyCode::O)
        } else if s == "KeyP"@ {
            Some(KeyCode::P)
        } else if s == "KeyQ"@ {
            Some(KeyCode::Q)
        } else if s == "KeyR"@ {
            Some(KeyCode::R)
        } else if s == "KeyS"@ {
            Some(KeyCode::S)
        } else if s == "KeyT"@ {
            Some(KeyCode::T)
        } else if s == "KeyU"@ {
            Some(KeyCode::U)
        } else if s == "KeyV"@ {
            Some(KeyCode::V)
        } else if s == "KeyW"@ {
            Some(KeyCode::W)
        } else if s == "KeyX"@ {
            Some(KeyCode::X)
        } else if s == "KeyY"@ {
            Some(KeyCode::Y)
        } else if s == "KeyZ"@ {
            Some(KeyCode::Z)
        } else {
            None
        }
    } else if s[0] == 'A' {
        if s == "A"@ {
            Some(KeyCode::A)
        } else if s == "AltLeft"@ {
            Some(KeyCode::LAlt)
        } else if s == "AltRight"@ {
            Some(KeyCode::RAlt)
        } else if s == "ArrowDown"@ {
            Some(KeyCode::Down)
        } else if s == "ArrowUp"@ {
            Some(KeyCode::Up)
        } else if s == "ArrowLeft"@ {
            Some(KeyCode::Left)
        } else if s == "ArrowRight"@ {
            Some(KeyCode::Right)
        } else {
            None
        }
    } else if s[0] == 'B' {
        if s == "B"@ {
            Some(KeyCode::B)
        } else if s == "Backslash"@ {
            Some(KeyCode::Backslash)
        } else if s == "BracketLeft"@ {
            Some(KeyCode::LBracket)
        } else if s == "BracketRight"@ {
            Some(KeyCode::RBracket)
        } else if s == "Backspace"@ {
            Some(KeyCode::Back)
        } else {
            None
        }
    } else if s[0] == 'C' {
        if s == "C"@ {
            Some(KeyCode::C)
        } else if s == "Comma"@ {
            Some(KeyCode::Comma)
        } else if s == "ControlLeft"@ {
            Some(KeyCode::LControl)
        } else if s == "ControlRight"@ {
            Some(KeyCode::RControl)
        } else if s == "Convert"@ {
            Some(KeyCode::Convert)
        } else {
            None
        }
    } else if s[0] == 'E' {
        if s == "E"@ {
            Some(KeyCode::E)
        } else if s == "Enter"@ {
            Some(KeyCode::Return)
        } else if s == "End"@ {
            Some(KeyCode::End)
        } else if s == "Escape"@ {
            Some(KeyCode::Escape)
        } else {
            None
        }
    } else if s[0] == 'F' {
        if s == "F"@ {
            Some(KeyCode::F)
        } else {
            None
        }
    } else if s[0] == 'G' {
        if s == "G"@ {
            Some(KeyCode::G)
        } else {
            None
        }
    } else if s[0] == 'H' {
        if s == "H"@ {
            Some(KeyCode::H)
        } else if s == "Home"@ {
            Some(KeyCode::Home)
        } else {
            None
        }
    } else if s[0] == 'I' {
        if s == "I"@ {
            Some(KeyCode::I)
        } else if s == "Insert"@ {
            Some(KeyCode::Insert)
        } else {
            None
        }
    } else if s[0] == 'J' {
        if s == "J"@ {
            Some(KeyCode::J)
        } else {
            None
        }
    } else if s[0] == 'L' {
        if s == "L"@ {
            Some(KeyCode::L)
        } else {
            None
        }
    } else if s[0] == 'M' {
        if s == "M"@ {
            Some(KeyCode::M)
        } else if s == "Minus"@ {
            Some(KeyCode::Minus)
        } else if s == "MetaLeft"@ {
            Some(KeyCode::LWin)
        } else if s == "MetaRight"@ {
            Some(KeyCode::RWin)
        } else {
            None
        }
    } else if s[0] == 'O' {
        if s == "O"@ {
            Some(KeyCode::O)
        } else {
            None
        }
    } else if s[0] == 'P' {
        if s == "P"@ {
            Some(KeyCode::P)
        } else if s == "Period"@ {
            Some(KeyCode::Period)
        } else if s == "PageDown"@ {
            Some(KeyCode::PageDown)
        } else if s == "PageUp"@ {
            Some(KeyCode::PageUp)
        } else {
            None
        }
    } else if s[0] == 'Q' {
        if s == "Q"@ {
            Some(KeyCode::Q)
        } else if s == "Quote"@ {
            Some(KeyCode::Apostrophe)
        } else {
            None
        }
    } else if s[0] == 'R' {
        if s == "R"@ {
            Some(KeyCode::R)
        } else {
            None
        }
    } else if s[0] == 'S' {
        if s == "S"@ {
            Some(KeyCode::S)
        } else if s == "Semicolon"@ {
            Some(KeyCode::Semicolon)
        } else if s == "Slash"@ {
            Some(KeyCode::Slash)
        } else if s == "ShiftLeft"@ {
            Some(KeyCode::LShift)
        } else if s == "ShiftRight"@ {
            Some(KeyCode::RShift)
        } else if s == "Space"@ {
            Some(KeyCode::Space)
        } else {
            None
        }
    } else if s[0] == 'T' {
        if s == "T"@ {
            Some(KeyCode::T)
        } else if s == "Tab"@ {
            Some(KeyCode::Tab)
        } else {
            None
        }
    } else if s[0] == 'U' {
        if s == "U"@ {
            Some(KeyCode::U)
        } else {
            None
        }
    } else if s[0] == 'V' {
        if s == "V"@ {
            Some(KeyCode::V)
        } else {
            None
        }
    } else if s[0] == 'W' {
        if s == "W"@ {
            Some(KeyCode::W)
        } else {
            None
        }
    } else if s[0] == 'X' {
        if s == "X"@ {
            Some(KeyCode::X)
        } else {
            None
        }
    } else if s[0] == 'Y' {
        if s == "Y"@ {
            Some(KeyCode::Y)
        } else {
            None
        }
    } else if s[0] == 'Z' {
        if s == "Z"@ {
            Some(KeyCode::Z)
        } else {
            None
        }
    } else {
        None
    }
}

/// A character that may stand in a key or modifier token.
pub open spec fn plain(c: char) -> bool {
    ('0' <= c && c <= '9') || ('A' <= c && c <= 'Z') || ('a' <= c && c <= 'z')
}


/// The characters of every key token.
proof fn lemma_token_texts()
    ensures
        "Digit0"@ == seq!['D', 'i', 'g', 'i', 't', '0'],
        "0"@ == seq!['0'],
        "Digit1"@ == seq!['D', 'i', 'g', 'i', 't', '1'],
        "1"@ == seq!['1'],
        "Digit2"@ == seq!['D', 'i', 'g', 'i', 't', '2'],
        "2"@ == seq!['2'],
        "Digit3"@ == seq!['D', 'i', 'g', 'i', 't', '3'],
        "3"@ == seq!['3'],
        "Digit4"@ == seq!['D', 'i', 'g', 'i', 't', '4'],
        "4"@ == seq!['4'],
        "Digit5"@ == seq!['D', 'i', 'g', 'i', 't', '5'],
        "5"@ == seq!['5'],
        "Digit6"@ == seq!['D', 'i', 'g', 'i', 't', '6'],
        "6"@ == seq!['6'],
        "Digit7"@ == seq!['D', 'i', 'g', 'i', 't', '7'],
        "7"@ == seq!['7'],
        "Digit8"@ == seq!['D', 'i', 'g', 'i', 't', '8'],
        "8"@ == seq!['8'],
        "Digit9"@ == seq!['D', 'i', 'g', 'i', 't', '9'],
        "9"@ == seq!['9'],
        "Numpad0"@ == seq!['N', 'u', 'm', 'p', 'a', 'd', '0'],
        "Numpad1"@ == seq!['N', 'u', 'm', 'p', 'a', 'd', '1'],
        "Numpad2"@ == seq!['N', 'u', 'm', 'p', 'a', 'd', '2'],
        "Numpad3"@ == seq!['N', 'u', 'm', 'p', 'a', 'd', '3'],
        "Numpad4"@ == seq!['N', 'u', 'm', 'p', 'a', 'd', '4'],
        "Numpad5"@ == seq!['N', 'u', 'm', 'p', 'a', 'd', '5'],
        "Numpad6"@ == seq!['N', 'u', 'm', 'p', 'a', 'd', '6'],
        "Numpad7"@ == seq!['N', 'u', 'm', 'p', 'a', 'd', '7'],
        "Numpad8"@ == seq!['N', 'u', 'm', 'p', 'a', 'd', '8'],
        "Numpad9"@ == seq!['N', 'u', 'm', 'p', 'a', 'd', '9'],
        "KeyA"@ == seq!['K', 'e', 'y', 'A'],
        "A"@ == seq!['A'],
        "KeyB"@ == seq!['K', 'e', 'y', 'B'],
        "B"@ == seq!['B'],
        "KeyC"@ == seq!['K', 'e', 'y', 'C'],
        "C"@ == seq!['C'],
        "KeyD"@ == seq!['K', 'e', 'y', 'D'],
        "D"@ == seq!['D'],
        "KeyE"@ == seq!['K', 'e', 'y', 'E'],
        "E"@ == seq!['E'],
        "KeyF"@ == seq!['K', 'e', 'y', 'F'],
        "F"@ == seq!['F'],
        "KeyG"@ == seq!['K', 'e', 'y', 'G'],
        "G"@ == seq!['G'],
        "KeyH"@ == seq!['K', 'e', 'y', 'H'],
        "H"@ == seq!['H'],
        "KeyI"@ == seq!['K', 'e', 'y', 'I'],
        "I"@ == seq!['I'],
        "KeyJ"@ == seq!['K', 'e', 'y', 'J'],
        "J"@ == seq!['J'],
        "KeyK"@ == seq!['K', 'e', 'y', 'K'],
        "K"@ == seq!['K'],
        "KeyL"@ == seq!['K', 'e', 'y', 'L'],
        "L"@ == seq!['L'],
        "KeyM"@ == seq!['K', 'e', 'y', 'M'],
        "M"@ == seq!['M'],
        "KeyN"@ == seq!['K', 'e', 'y', 'N'],
        "N"@ == seq!['N'],
        "KeyO"@ == seq!['K', 'e', 'y', 'O'],
        "O"@ == seq!['O'],
        "KeyP"@ == seq!['K', 'e', 'y', 'P'],
        "P"@ == seq!['P'],
        "KeyQ"@ == seq!['K', 'e', 'y', 'Q'],
        "Q"@ == seq!['Q'],
        "KeyR"@ == seq!['K', 'e', 'y', 'R'],
        "R"@ == seq!['R'],
        "KeyS"@ == seq!['K', 'e', 'y', 'S'],
        "S"@ == seq!['S'],
        "KeyT"@ == seq!['K', 'e', 'y', 'T'],
        "T"@ == seq!['T'],
        "KeyU"@ == seq!['K', 'e', 'y', 'U'],
        "U"@ == seq!['U'],
        "KeyV"@ == seq!['K', 'e', 'y', 'V'],
        "V"@ == seq!['V'],
        "KeyW"@ == seq!['K', 'e', 'y', 'W'],
        "W"@ == seq!['W'],
        "KeyX"@ == seq!['K', 'e', 'y', 'X'],
        "X"@ == seq!['X'],
        "KeyY"@ == seq!['K', 'e', 'y', 'Y'],
        "Y"@ == seq!['Y'],
        "KeyZ"@ == seq!['K', 'e', 'y', 'Z'],
        "Z"@ == seq!['Z'],
        "Backslash"@ == seq!['B', 'a', 'c', 'k', 's', 'l', 'a', 's', 'h'],
        "BracketLeft"@ == seq!['B', 'r', 'a', 'c', 'k', 'e', 't', 'L', 'e', 'f', 't'],
        "BracketRight"@ == seq!['B', 'r', 'a', 'c', 'k', 'e', 't', 'R', 'i', 'g', 'h', 't'],
        "Comma"@ == seq!['C', 'o', 'm', 'm', 'a'],
        "Minus"@ == seq!['M', 'i', 'n', 'u', 's'],
        "Period"@ == seq!['P', 'e', 'r', 'i', 'o', 'd'],
        "Quote"@ == seq!['Q', 'u', 'o', 't', 'e'],
        "Semicolon"@ == seq!['S', 'e', 'm', 'i', 'c', 'o', 'l', 'o', 'n'],
        "Slash"@ == seq!['S', 'l', 'a', 's', 'h'],
        "AltLeft"@ == seq!['A', 'l', 't', 'L', 'e', 'f', 't'],
        "AltRight"@ == seq!['A', 'l', 't', 'R', 'i', 'g', 'h', 't'],
        "Backspace"@ == seq!['B', 'a', 'c', 'k', 's', 'p', 'a', 'c', 'e'],
        "ControlLeft"@ == seq!['C', 'o', 'n', 't', 'r', 'o', 'l', 'L', 'e', 'f', 't'],
        "ControlRight"@ == seq!['C', 'o', 'n', 't', 'r', 'o', 'l', 'R', 'i', 'g', 'h', 't'],
        "Enter"@ == seq!['E', 'n', 't', 'e', 'r'],
        "MetaLeft"@ == seq!['M', 'e', 't', 'a', 'L', 'e', 'f', 't'],
        "MetaRight"@ == seq!['M', 'e', 't', 'a', 'R', 'i', 'g', 'h', 't'],
        "ShiftLeft"@ == seq!['S', 'h', 'i', 'f', 't', 'L', 'e', 'f', 't'],
        "ShiftRight"@ == seq!['S', 'h', 'i', 'f', 't', 'R', 'i', 'g', 'h', 't'],
        "Space"@ == seq!['S', 'p', 'a', 'c', 'e'],
        "Tab"@ == seq!['T', 'a', 'b'],
        "Convert"@ == seq!['C', 'o', 'n', 'v', 'e', 'r', 't'],
        "Delete"@ == seq!['D', 'e', 'l', 'e', 't', 'e'],
        "End"@ == seq!['E', 'n', 'd'],
        "Home"@ == seq!['H', 'o', 'm', 'e'],
        "Insert"@ == seq!['I', 'n', 's', 'e', 'r', 't'],
        "PageDown"@ == seq!['P', 'a', 'g', 'e', 'D', 'o', 'w', 'n'],
        "PageUp"@ == seq!['P', 'a', 'g', 'e', 'U', 'p'],
        "ArrowDown"@ == seq!['A', 'r', 'r', 'o', 'w', 'D', 'o', 'w', 'n'],
        "ArrowUp"@ == seq!['A', 'r', 'r', 'o', 'w', 'U', 'p'],
        "ArrowLeft"@ == seq!['A', 'r', 'r', 'o', 'w', 'L', 'e', 'f', 't'],
        "ArrowRight"@ == seq!['A', 'r', 'r', 'o', 'w', 'R', 'i', 'g', 'h', 't'],
        "NumLock"@ == seq!['N', 'u', 'm', 'L', 'o', 'c', 'k'],
        "NumpadAdd"@ == seq!['N', 'u', 'm', 'p', 'a', 'd', 'A', 'd', 'd'],
        "NumpadComma"@ == seq!['N', 'u', 'm', 'p', 'a', 'd', 'C', 'o', 'm', 'm', 'a'],
        "NumpadDecimal"@ == seq!['N', 'u', 'm', 'p', 'a', 'd', 'D', 'e', 'c', 'i', 'm', 'a', 'l'],
        "NumpadDivide"@ == seq!['N', 'u', 'm', 'p', 'a', 'd', 'D', 'i', 'v', 'i', 'd', 'e'],
        "NumpadEnter"@ == seq!['N', 'u', 'm', 'p', 'a', 'd', 'E', 'n', 't', 'e', 'r'],
        "NumpadEqual"@ == seq!['N', 'u', 'm', 'p', 'a', 'd', 'E', 'q', 'u', 'a', 'l'],
        "NumpadMultiply"@ == seq!['N', 'u', 'm', 'p', 'a', 'd', 'M', 'u', 'l', 't', 'i', 'p', 'l', 'y'],
        "NumpadSubtract"@ == seq!['N', 'u', 'm', 'p', 'a', 'd', 'S', 'u', 'b', 't', 'r', 'a', 'c', 't'],
        "Escape"@ == seq!['E', 's', 'c', 'a', 'p', 'e'],
{
    reveal_strlit("Digit0");
    assert("Digit0"@ =~= seq!['D', 'i', 'g', 'i', 't', '0']);
    reveal_strlit("0");
    assert("0"@ =~= seq!['0']);
    reveal_strlit("Digit1");
    assert("Digit1"@ =~= seq!['D', 'i', 'g', 'i', 't', '1']);
    reveal_strlit("1");
    assert("1"@ =~= seq!['1']);
    reveal_strlit("Digit2");
    assert("Digit2"@ =~= seq!['D', 'i', 'g', 'i', 't', '2']);
    reveal_strlit("2");
    assert("2"@ =~= seq!['2']);
    reveal_strlit("Digit3");
    assert("Digit3"@ =~= seq!['D', 'i', 'g', 'i', 't', '3']);
    reveal_strlit("3");
    assert("3"@ =~= seq!['3']);
    reveal_strlit("Digit4");
    assert("Digit4"@ =~= seq!['D', 'i', 'g', 'i', 't', '4']);
    reveal_strlit("4");
    assert("4"@ =~= seq!['4']);
    reveal_strlit("Digit5");
    assert("Digit5"@ =~= seq!['D', 'i', 'g', 'i', 't', '5']);
    reveal_strlit("5");
    assert("5"@ =~= seq!['5']);
    reveal_strlit("Digit6");
    assert("Digit6"@ =~= seq!['D', 'i', 'g', 'i', 't', '6']);
    reveal_strlit("6");
    assert("6"@ =~= seq!['6']);
    reveal_strlit("Digit7");
    assert("Digit7"@ =~= seq!['D', 'i', 'g', 'i', 't', '7']);
    reveal_strlit("7");
    assert("7"@ =~= seq!['7']);
    reveal_strlit("Digit8");
    assert("Digit8"@ =~= seq!['D', 'i', 'g', 'i', 't', '8']);
    reveal_strlit("8");
    assert("8"@ =~= seq!['8']);
    reveal_strlit("Digit9");
    assert("Digit9"@ =~= seq!['D', 'i', 'g', 'i', 't', '9']);
    reveal_strlit("9");
    assert("9"@ =~= seq!['9']);
    reveal_strlit("Numpad0");
    assert("Numpad0"@ =~= seq!['N', 'u', 'm', 'p', 'a', 'd', '0']);
    reveal_strlit("Numpad1");
    assert("Numpad1"@ =~= seq!['N', 'u', 'm', 'p', 'a', 'd', '1']);
    reveal_strlit("Numpad2");
    assert("Numpad2"@ =~= seq!['N', 'u', 'm', 'p', 'a', 'd', '2']);
    reveal_strlit("Numpad3");
    assert("Numpad3"@ =~= seq!['N', 'u', 'm', 'p', 'a', 'd', '3']);
    reveal_strlit("Numpad4");
    assert("Numpad4"@ =~= seq!['N', 'u', 'm', 'p', 'a', 'd', '4']);
    reveal_strlit("Numpad5");
    assert("Numpad5"@ =~= seq!['N', 'u', 'm', 'p', 'a', 'd', '5']);
    reveal_strlit("Numpad6");
    assert("Numpad6"@ =~= seq!['N', 'u', 'm', 'p', 'a', 'd', '6']);
    reveal_strlit("Numpad7");
    assert("Numpad7"@ =~= seq!['N', 'u', 'm', 'p', 'a', 'd', '7']);
    reveal_strlit("Numpad8");
    assert("Numpad8"@ =~= seq!['N', 'u', 'm', 'p', 'a', 'd', '8']);
    reveal_strlit("Numpad9");
    assert("Numpad9"@ =~= seq!['N', 'u', 'm', 'p', 'a', 'd', '9']);
    reveal_strlit("KeyA");
    assert("KeyA"@ =~= seq!['K', 'e', 'y', 'A']);
    reveal_strlit("A");
    assert("A"@ =~= seq!['A']);
    reveal_strlit("KeyB");
    assert("KeyB"@ =~= seq!['K', 'e', 'y', 'B']);
    reveal_strlit("B");
    assert("B"@ =~= seq!['B']);
    reveal_strlit("KeyC");
    assert("KeyC"@ =~= seq!['K', 'e', 'y', 'C']);
    reveal_strlit("C");
    assert("C"@ =~= seq!['C']);
    reveal_strlit("KeyD");
    assert("KeyD"@ =~= seq!['K', 'e', 'y', 'D']);
    reveal_strlit("D");
    assert("D"@ =~= seq!['D']);
    reveal_strlit("KeyE");
    assert("KeyE"@ =~= seq!['K', 'e', 'y', 'E']);
    reveal_strlit("E");
    assert("E"@ =~= seq!['E']);
    reveal_strlit("KeyF");
    assert("KeyF"@ =~= seq!['K', 'e', 'y', 'F']);
    reveal_strlit("F");
    assert("F"@ =~= seq!['F']);
    reveal_strlit("KeyG");
    assert("KeyG"@ =~= seq!['K', 'e', 'y', 'G']);
    reveal_strlit("G");
    assert("G"@ =~= seq!['G']);
    reveal_strlit("KeyH");
    assert("KeyH"@ =~= seq!['K', 'e', 'y', 'H']);
    reveal_strlit("H");
    assert("H"@ =~= seq!['H']);
    reveal_strlit("KeyI");
    assert("KeyI"@ =~= seq!['K', 'e', 'y', 'I']);
    reveal_strlit("I");
    assert("I"@ =~= seq!['I']);
    reveal_strlit("KeyJ");
    assert("KeyJ"@ =~= seq!['K', 'e', 'y', 'J']);
    reveal_strlit("J");
    assert("J"@ =~= seq!['J']);
    reveal_strlit("KeyK");
    assert("KeyK"@ =~= seq!['K', 'e', 'y', 'K']);
    reveal_strlit("K");
    assert("K"@ =~= seq!['K']);
    reveal_strlit("KeyL");
    assert("KeyL"@ =~= seq!['K', 'e', 'y', 'L']);
    reveal_strlit("L");
    assert("L"@ =~= seq!['L']);
    reveal_strlit("KeyM");
    assert("KeyM"@ =~= seq!['K', 'e', 'y', 'M']);
    reveal_strlit("M");
    assert("M"@ =~= seq!['M']);
    reveal_strlit("KeyN");
    assert("KeyN"@ =~= seq!['K', 'e', 'y', 'N']);
    reveal_strlit("N");
    assert("N"@ =~= seq!['N']);
    reveal_strlit("KeyO");
    assert("KeyO"@ =~= seq!['K', 'e', 'y', 'O']);
    reveal_strlit("O");
    assert("O"@ =~= seq!['O']);
    reveal_strlit("KeyP");
    assert("KeyP"@ =~= seq!['K', 'e', 'y', 'P']);
    reveal_strlit("P");
    assert("P"@ =~= seq!['P']);
    reveal_strlit("KeyQ");
    assert("KeyQ"@ =~= seq!['K', 'e', 'y', 'Q']);
    reveal_strlit("Q");
    assert("Q"@ =~= seq!['Q']);
    reveal_strlit("KeyR");
    assert("KeyR"@ =~= seq!['K', 'e', 'y', 'R']);
    reveal_strlit("R");
    assert("R"@ =~= seq!['R']);
    reveal_strlit("KeyS");
    assert("KeyS"@ =~= seq!['K', 'e', 'y', 'S']);
    reveal_strlit("S");
    assert("S"@ =~= seq!['S']);
    reveal_strlit("KeyT");
    assert("KeyT"@ =~= seq!['K', 'e', 'y', 'T']);
    reveal_strlit("T");
    assert("T"@ =~= seq!['T']);
    reveal_strlit("KeyU");
    assert("KeyU"@ =~= seq!['K', 'e', 'y', 'U']);
    reveal_strlit("U");
    assert("U"@ =~= seq!['U']);
    reveal_strlit("KeyV");
    assert("KeyV"@ =~= seq!['K', 'e', 'y', 'V']);
    reveal_strlit("V");
    assert("V"@ =~= seq!['V']);
    reveal_strlit("KeyW");
    assert("KeyW"@ =~= seq!['K', 'e', 'y', 'W']);
    reveal_strlit("W");
    assert("W"@ =~= seq!['W']);
    reveal_strlit("KeyX");
    assert("KeyX"@ =~= seq!['K', 'e', 'y', 'X']);
    reveal_strlit("X");
    assert("X"@ =~= seq!['X']);
    reveal_strlit("KeyY");
    assert("KeyY"@ =~= seq!['K', 'e', 'y', 'Y']);
    reveal_strlit("Y");
    assert("Y"@ =~= seq!['Y']);
    reveal_strlit("KeyZ");
    assert("KeyZ"@ =~= seq!['K', 'e', 'y', 'Z']);
    reveal_strlit("Z");
    assert("Z"@ =~= seq!['Z']);
    reveal_strlit("Backslash");
    assert("Backslash"@ =~= seq!['B', 'a', 'c', 'k', 's', 'l', 'a', 's', 'h']);
    reveal_strlit("BracketLeft");
    assert("BracketLeft"@ =~= seq!['B', 'r', 'a', 'c', 'k', 'e', 't', 'L', 'e', 'f', 't']);
    reveal_strlit("BracketRight");
    assert("BracketRight"@ =~= seq!['B', 'r', 'a', 'c', 'k', 'e', 't', 'R', 'i', 'g', 'h', 't']);
    reveal_strlit("Comma");
    assert("Comma"@ =~= seq!['C', 'o', 'm', 'm', 'a']);
    reveal_strlit("Minus");
    assert("Minus"@ =~= seq!['M', 'i', 'n', 'u', 's']);
    reveal_strlit("Period");
    assert("Period"@ =~= seq!['P', 'e', 'r', 'i', 'o', 'd']);
    reveal_strlit("Quote");
    assert("Quote"@ =~= seq!['Q', 'u', 'o', 't', 'e']);
    reveal_strlit("Semicolon");
    assert("Semicolon"@ =~= seq!['S', 'e', 'm', 'i', 'c', 'o', 'l', 'o', 'n']);
    reveal_strlit("Slash");
    assert("Slash"@ =~= seq!['S', 'l', 'a', 's', 'h']);
    reveal_strlit("AltLeft");
    assert("AltLeft"@ =~= seq!['A', 'l', 't', 'L', 'e', 'f', 't']);
    reveal_strlit("AltRight");
    assert("AltRight"@ =~= seq!['A', 'l', 't', 'R', 'i', 'g', 'h', 't']);
    reveal_strlit("Backspace");
    assert("Backspace"@ =~= seq!['B', 'a', 'c', 'k', 's', 'p', 'a', 'c', 'e']);
    reveal_strlit("ControlLeft");
    assert("ControlLeft"@ =~= seq!['C', 'o', 'n', 't', 'r', 'o', 'l', 'L', 'e', 'f', 't']);
    reveal_strlit("ControlRight");
    assert("ControlRight"@ =~= seq!['C', 'o', 'n', 't', 'r', 'o', 'l', 'R', 'i', 'g', 'h', 't']);
    reveal_strlit("Enter");
    assert("Enter"@ =~= seq!['E', 'n', 't', 'e', 'r']);
    reveal_strlit("MetaLeft");
    assert("MetaLeft"@ =~= seq!['M', 'e', 't', 'a', 'L', 'e', 'f', 't']);
    reveal_strlit("MetaRight");
    assert("MetaRight"@ =~= seq!['M', 'e', 't', 'a', 'R', 'i', 'g', 'h', 't']);
    reveal_strlit("ShiftLeft");
    assert("ShiftLeft"@ =~= seq!['S', 'h', 'i', 'f', 't', 'L', 'e', 'f', 't']);
    reveal_strlit("ShiftRight");
    assert("ShiftRight"@ =~= seq!['S', 'h', 'i', 'f', 't', 'R', 'i', 'g', 'h', 't']);
    reveal_strlit("Space");
    assert("Space"@ =~= seq!['S', 'p', 'a', 'c', 'e']);
    reveal_strlit("Tab");
    assert("Tab"@ =~= seq!['T', 'a', 'b']);
    reveal_strlit("Convert");
    assert("Convert"@ =~= seq!['C', 'o', 'n', 'v', 'e', 'r', 't']);
    reveal_strlit("Delete");
    assert("Delete"@ =~= seq!['D', 'e', 'l', 'e', 't', 'e']);
    reveal_strlit("End");
    assert("End"@ =~= seq!['E', 'n', 'd']);
    reveal_strlit("Home");
    assert("Home"@ =~= seq!['H', 'o', 'm', 'e']);
    reveal_strlit("Insert");
    assert("Insert"@ =~= seq!['I', 'n', 's', 'e', 'r', 't']);
    reveal_strlit("PageDown");
    assert("PageDown"@ =~= seq!['P', 'a', 'g', 'e', 'D', 'o', 'w', 'n']);
    reveal_strlit("PageUp");
    assert("PageUp"@ =~= seq!['P', 'a', 'g', 'e', 'U', 'p']);
    reveal_strlit("ArrowDown");
    assert("ArrowDown"@ =~= seq!['A', 'r', 'r', 'o', 'w', 'D', 'o', 'w', 'n']);
    reveal_strlit("ArrowUp");
    assert("ArrowUp"@ =~= seq!['A', 'r', 'r', 'o', 'w', 'U', 'p']);
    reveal_strlit("ArrowLeft");
    assert("ArrowLeft"@ =~= seq!['A', 'r', 'r', 'o', 'w', 'L', 'e', 'f', 't']);
    reveal_strlit("ArrowRight");
    assert("ArrowRight"@ =~= seq!['A', 'r', 'r', 'o', 'w', 'R', 'i', 'g', 'h', 't']);
    reveal_strlit("NumLock");
    assert("NumLock"@ =~= seq!['N', 'u', 'm', 'L', 'o', 'c', 'k']);
    reveal_strlit("NumpadAdd");
    assert("NumpadAdd"@ =~= seq!['N', 'u', 'm', 'p', 'a', 'd', 'A', 'd', 'd']);
    reveal_strlit("NumpadComma");
    assert("NumpadComma"@ =~= seq!['N', 'u', 'm', 'p', 'a', 'd', 'C', 'o', 'm', 'm', 'a']);
    reveal_strlit("NumpadDecimal");
    assert("NumpadDecimal"@ =~= seq!['N', 'u', 'm', 'p', 'a', 'd', 'D', 'e', 'c', 'i', 'm', 'a', 'l']);
    reveal_strlit("NumpadDivide");
    assert("NumpadDivide"@ =~= seq!['N', 'u', 'm', 'p', 'a', 'd', 'D', 'i', 'v', 'i', 'd', 'e']);
    reveal_strlit("NumpadEnter");
    assert("NumpadEnter"@ =~= seq!['N', 'u', 'm', 'p', 'a', 'd', 'E', 'n', 't', 'e', 'r']);
    reveal_strlit("NumpadEqual");
    assert("NumpadEqual"@ =~= seq!['N', 'u', 'm', 'p', 'a', 'd', 'E', 'q', 'u', 'a', 'l']);
    reveal_strlit("NumpadMultiply");
    assert("NumpadMultiply"@ =~= seq!['N', 'u', 'm', 'p', 'a', 'd', 'M', 'u', 'l', 't', 'i', 'p', 'l', 'y']);
    reveal_strlit("NumpadSubtract");
    assert("NumpadSubtract"@ =~= seq!['N', 'u', 'm', 'p', 'a', 'd', 'S', 'u', 'b', 't', 'r', 'a', 'c', 't']);
    reveal_strlit("Escape");
    assert("Escape"@ =~= seq!['E', 's', 'c', 'a', 'p', 'e']);
}

/// Every canonical key token is a non-empty run of letters and digits that
/// names its key back.
pub proof fn lemma_key_name(k: KeyCode)
    ensures
        key_name(k).len() > 0,
        forall|i: int| 0 <= i < key_name(k).len() ==> plain(#[trigger] key_name(k)[i]),
        key_of(key_name(k)) == Some(k),
{
    lemma_token_texts();
    // One case per key: each token is told apart from the tokens that share
    // its first character.
    match k {
        KeyCode::Key0 => {},
        KeyCode::Key1 => {},
        KeyCode::Key2 => {},
        KeyCode::Key3 => {},
        KeyCode::Key4 => {},
        KeyCode::Key5 => {},
        KeyCode::Key6 => {},
        KeyCode::Key7 => {},
        KeyCode::Key8 => {},
        KeyCode::Key9 => {},
        KeyCode::Numpad0 => {},
        KeyCode::Numpad1 => {},
        KeyCode::Numpad2 => {},
        KeyCode::Numpad3 => {},
        KeyCode::Numpad4 => {},
        KeyCode::Numpad5 => {},
        KeyCode::Numpad6 => {},
        KeyCode::Numpad7 => {},
        KeyCode::Numpad8 => {},
        KeyCode::Numpad9 => {},
        KeyCode::A => {},
        KeyCode::B => {},
        KeyCode::C => {},
        KeyCode::D => {},
        KeyCode::E => {},
        KeyCode::F => {},
        KeyCode::G => {},
        KeyCode::H => {},
        KeyCode::I => {},
        KeyCode::J => {},
        KeyCode::K => {},
        KeyCode::L => {},
        KeyCode::M => {},
        KeyCode::N => {},
        KeyCode::O => {},
        KeyCode::P => {},
        KeyCode::Q => {},
        KeyCode::R => {},
        KeyCode::S => {},
        KeyCode::T => {},
        KeyCode::U => {},
        KeyCode::V => {},
        KeyCode::W => {},
        KeyCode::X => {},
        KeyCode::Y => {},
        KeyCode::Z => {},
        KeyCode::Backslash => {},
        KeyCode::LBracket => {},
        KeyCode::RBracket => {},
        KeyCode::Comma => {},
        KeyCode::Minus => {},
        KeyCode::Period => {},
        KeyCode::Apostrophe => {},
        KeyCode::Semicolon => {},
        KeyCode::Slash => {},
        KeyCode::LAlt => {},
        KeyCode::RAlt => {},
        KeyCode::Back => {},
        KeyCode::LControl => {},
        KeyCode::RControl => {},
        KeyCode::Return => {},
        KeyCode::LWin => {},
        KeyCode::RWin => {},
        KeyCode::LShift => {},
        KeyCode::RShift => {},
        KeyCode::Space => {},
        KeyCode::Tab => {},
        KeyCode::Convert => {},
        KeyCode::Delete => {},
        KeyCode::End => {},
        KeyCode::Home => {},
        KeyCode::Insert => {},
        KeyCode::PageDown => {},
        KeyCode::PageUp => {},
        KeyCode::Down => {},
        KeyCode::Up => {},
        KeyCode::Left => {},
        KeyCode::Right => {},
        KeyCode::Numlock => {},
        KeyCode::NumpadAdd => {},
        KeyCode::NumpadComma => {},
        KeyCode::NumpadDecimal => {},
        KeyCode::NumpadDivide => {},
        KeyCode::NumpadEnter => {},
        KeyCode::NumpadEquals => {},
        KeyCode::NumpadMultiply => {},
        KeyCode::NumpadSubtract => {},
        KeyCode::Escape => {},
    }
}

/// Whether two strings hold the same characters.
pub fn same_text(a: &str, b: &str) -> (r: bool)
    ensures
        r == (a@ == b@),
{
    let n = a.unicode_len();
    let m = b.unicode_len();
    if n != m {
        return false;
    }
    let mut i: usize = 0;
    while i < n
        invariant
            n == a@.len(),
            m == b@.len(),
            n == m,
            i <= n,
            forall|j: int| 0 <= j < i ==> a@[j] == b@[j],
        decreases n - i,
    {
        if a.get_char(i) != b.get_char(i) {
            return false;
        }
        i = i + 1;
    }
    assert(a@ =~= b@);
    true
}

/// Looks up the key that a base-key token names.
pub fn str_to_virtual_key_code(s: &str) -> (r: Result<KeyCode, ParseKeyError>)
    ensures
        match key_of(s@) {
            Some(k) => r == Ok::<KeyCode, ParseKeyError>(k),
            None => r matches Err(e) && e.token@ == s@,
        },
{
    let n = s.unicode_len();
    if n == 0 {
        return Err(parse_error(s));
    }
    let c = s.get_char(0);
    if c == 'D' {
        if same_text(s, "Digit0") {
            return Ok(KeyCode::Key0);
        }
        if same_text(s, "Digit1") {
            return Ok(KeyCode::Key1);
        }
        if same_text(s, "Digit2") {
            return Ok(KeyCode::Key2);
        }
        if same_text(s, "Digit3") {
            return Ok(KeyCode::Key3);
        }
        if same_text(s, "Digit4") {
            return Ok(KeyCode::Key4);
        }
        if same_text(s, "Digit5") {
            return Ok(KeyCode::Key5);
        }
        if same_text(s, "Digit6") {
            return Ok(KeyCode::Key6);
        }
        if same_text(s, "Digit7") {
            return Ok(KeyCode::Key7);
        }
        if same_text(s, "Digit8") {
            return Ok(KeyCode::Key8);
        }
        if same_text(s, "Digit9") {
            return Ok(KeyCode::Key9);
        }
        if same_text(s, "D") {
            return Ok(KeyCode::D);
        }
        if same_text(s, "Delete") {
            return Ok(KeyCode::Delete);
        }
    } else if c == '0' {
        if same_text(s, "0") {
            return Ok(KeyCode::Key0);
        }
    } else if c == '1' {
        if same_text(s, "1") {
            return Ok(KeyCode::Key1);
        }
    } else if c == '2' {
        if same_text(s, "2") {
            return Ok(KeyCode::Key2);
        }
    } else if c == '3' {
        if same_text(s, "3") {
            return Ok(KeyCode::Key3);
        }
    } else if c == '4' {
        if same_text(s, "4") {
            return Ok(KeyCode::Key4);
        }
    } else if c == '5' {
        if same_text(s, "5") {
            return Ok(KeyCode::Key5);
        }
    } else if c == '6' {
        if same_text(s, "6") {
            return Ok(KeyCode::Key6);
        }
    } else if c == '7' {
        if same_text(s, "7") {
            return Ok(KeyCode::Key7);
        }
    } else if c == '8' {
        if same_text(s, "8") {
            return Ok(KeyCode::Key8);
        }
    } else if c == '9' {
        if same_text(s, "9") {
            return Ok(KeyCode::Key9);
        }
    } else if c == 'N' {
        if same_text(s, "Numpad0") {
            return Ok(KeyCode::Numpad0);
        }
        if same_text(s, "Numpad1") {
            return Ok(KeyCode::Numpad1);
        }
        if same_text(s, "Numpad2") {
            return Ok(KeyCode::Numpad2);
        }
        if same_text(s, "Numpad3") {
            return Ok(KeyCode::Numpad3);
        }
        if same_text(s, "Numpad4") {
            return Ok(KeyCode::Numpad4);
        }
        if same_text(s, "Numpad5") {
            return Ok(KeyCode::Numpad5);
        }
        if same_text(s, "Numpad6") {
            return Ok(KeyCode::Numpad6);
        }
        if same_text(s, "Numpad7") {
            return Ok(KeyCode::Numpad7);
        }
        if same_text(s, "Numpad8") {
            return Ok(KeyCode::Numpad8);
        }
        if same_text(s, "Numpad9") {
            return Ok(KeyCode::Numpad9);
        }
        if same_text(s, "N") {
            return Ok(KeyCode::N);
        }
        if same_text(s, "NumLock") {
            return Ok(KeyCode::Numlock);
        }
        if same_text(s, "NumpadAdd") {
            return Ok(KeyCode::NumpadAdd);
        }
        if same_text(s, "NumpadComma") {
            return Ok(KeyCode::NumpadComma);
        }
        if same_text(s, "NumpadDecimal") {
            return Ok(KeyCode::NumpadDecimal);
        }
        if same_text(s, "NumpadDivide") {
            return Ok(KeyCode::NumpadDivide);
        }
        if same_text(s, "NumpadEnter") {
            return Ok(KeyCode::NumpadEnter);
        }
        if same_text(s, "NumpadEqual") {
            return Ok(KeyCode::NumpadEquals);
        }
        if same_text(s, "NumpadMultiply") {
            return Ok(KeyCode::NumpadMultiply);
        }
        if same_text(s, "NumpadSubtract") {
            return Ok(KeyCode::NumpadSubtract);
        }
    } else if c == 'K' {
        if same_text(s, "KeyA") {
            return Ok(KeyCode::A);
        }
        if same_text(s, "KeyB") {
            return Ok(KeyCode::B);
        }
        if same_text(s, "KeyC") {
            return Ok(KeyCode::C);
        }
        if same_text(s, "KeyD") {
            return Ok(KeyCode::D);
        }
        if same_text(s, "KeyE") {
            return Ok(KeyCode::E);
        }
        if same_text(s, "KeyF") {
            return Ok(KeyCode::F);
        }
        if same_text(s, "KeyG") {
            return Ok(KeyCode::G);
        }
        if same_text(s, "KeyH") {
            return Ok(KeyCode::H);
        }
        if same_text(s, "KeyI") {
            return Ok(KeyCode::I);
        }
        if same_text(s, "KeyJ") {
            return Ok(KeyCode::J);
        }
        if same_text(s, "KeyK") {
            return Ok(KeyCode::K);
        }
        if same_text(s, "K") {
            return Ok(KeyCode::K);
        }
        if same_text(s, "KeyL") {
            return Ok(KeyCode::L);
        }
        if same_text(s, "KeyM") {
            return Ok(KeyCode::M);
        }
        if same_text(s, "KeyN") {
            return Ok(KeyCode::N);
        }
        if same_text(s, "KeyO") {
            return Ok(KeyCode::O);
        }
        if same_text(s, "KeyP") {
            return Ok(KeyCode::P);
        }
        if same_text(s, "KeyQ") {
            return Ok(KeyCode::Q);
        }
        if same_text(s, "KeyR") {
            return Ok(KeyCode::R);
        }
        if same_text(s, "KeyS") {
            return Ok(KeyCode::S);
        }
        if same_text(s, "KeyT") {
            return Ok(KeyCode::T);
        }
        if same_text(s, "KeyU") {
            return Ok(KeyCode::U);
        }
        if same_text(s, "KeyV") {
            return Ok(KeyCode::V);
        }
        if same_text(s, "KeyW") {
            return Ok(KeyCode::W);
        }
        if same_text(s, "KeyX") {
            return Ok(KeyCode::X);
        }
        if same_text(s, "KeyY") {
            return Ok(KeyCode::Y);
        }
        if same_text(s, "KeyZ") {
            return Ok(KeyCode::Z);
        }
    } else if c == 'A' {
        if same_text(s, "A") {
            return Ok(KeyCode::A);
        }
        if same_text(s, "AltLeft") {
            return Ok(KeyCode::LAlt);
        }
        if same_text(s, "AltRight") {
            return Ok(KeyCode::RAlt);
        }
        if same_text(s, "ArrowDown") {
            return Ok(KeyCode::Down);
        }
        if same_text(s, "ArrowUp") {
            return Ok(KeyCode::Up);
        }
        if same_text(s, "ArrowLeft") {
            return Ok(KeyCode::Left);
        }
        if same_text(s, "ArrowRight") {
            return Ok(KeyCode::Right);
        }
    } else if c == 'B' {
        if same_text(s, "B") {
            return Ok(KeyCode::B);
        }
        if same_text(s, "Backslash") {
            return Ok(KeyCode::Backslash);
        }
        if same_text(s, "BracketLeft") {
            return Ok(KeyCode::LBracket);
        }
        if same_text(s, "BracketRight") {
            return Ok(KeyCode::RBracket);
        }
        if same_text(s, "Backspace") {
            return Ok(KeyCode::Back);
        }
    } else if c == 'C' {
        if same_text(s, "C") {
            return Ok(KeyCode::C);
        }
        if same_text(s, "Comma") {
            return Ok(KeyCode::Comma);
        }
        if same_text(s, "ControlLeft") {
            return Ok(KeyCode::LControl);
        }
        if same_text(s, "ControlRight") {
            return Ok(KeyCode::RControl);
        }
        if same_text(s, "Convert") {
            return Ok(KeyCode::Convert);
        }
    } else if c == 'E' {
        if same_text(s, "E") {
            return Ok(KeyCode::E);
        }
        if same_text(s, "Enter") {
            return Ok(KeyCode::Return);
        }
        if same_text(s, "End") {
            return Ok(KeyCode::End);
        }
        if same_text(s, "Escape") {
            return Ok(KeyCode::Escape);
        }
    } else if c == 'F' {
        if same_text(s, "F") {
            return Ok(KeyCode::F);
        }
    } else if c == 'G' {
        if same_text(s, "G") {
            return Ok(KeyCode::G);
        }
    } else if c == 'H' {
        if same_text(s, "H") {
            return Ok(KeyCode::H);
        }
        if same_text(s, "Home") {
            return Ok(KeyCode::Home);
        }
    } else if c == 'I' {
        if same_text(s, "I") {
            return Ok(KeyCode::I);
        }
        if same_text(s, "Insert") {
            return Ok(KeyCode::Insert);
        }
    } else if c == 'J' {
        if same_text(s, "J") {
            return Ok(KeyCode::J);
        }
    } else if c == 'L' {
        if same_text(s, "L") {
            return Ok(KeyCode::L);
        }
    } else if c == 'M' {
        if same_text(s, "M") {
            return Ok(KeyCode::M);
        }
        if same_text(s, "Minus") {
            return Ok(KeyCode::Minus);
        }
        if same_text(s, "MetaLeft") {
            return Ok(KeyCode::LWin);
        }
        if same_text(s, "MetaRight") {
            return Ok(KeyCode::RWin);
        }
    } else if c == 'O' {
        if same_text(s, "O") {
            return Ok(KeyCode::O);
        }
    } else if c == 'P' {
        if same_text(s, "P") {
            return Ok(KeyCode::P);
        }
        if same_text(s, "Period") {
            return Ok(KeyCode::Period);
        }
        if same_text(s, "PageDown") {
            return Ok(KeyCode::PageDown);
        }
        if same_text(s, "PageUp") {
            return Ok(KeyCode::PageUp);
        }
    } else if c == 'Q' {
        if same_text(s, "Q") {
            return Ok(KeyCode::Q);
        }
        if same_text(s, "Quote") {
            return Ok(KeyCode::Apostrophe);
        }
    } else if c == 'R' {
        if same_text(s, "R") {
            return Ok(KeyCode::R);
        }
    } else if c == 'S' {
        if same_text(s, "S") {
            return Ok(KeyCode::S);
        }
        if same_text(s, "Semicolon") {
            return Ok(KeyCode::Semicolon);
        }
        if same_text(s, "Slash") {
            return Ok(KeyCode::Slash);
        }
        if same_text(s, "ShiftLeft") {
            return Ok(KeyCode::LShift);
        }
        if same_text(s, "ShiftRight") {
            return Ok(KeyCode::RShift);
        }
        if same_text(s, "Space") {
            return Ok(KeyCode::Space);
        }
    } else if c == 'T' {
        if same_text(s, "T") {
            return Ok(KeyCode::T);
        }
        if same_text(s, "Tab") {
            return Ok(KeyCode::Tab);
        }
    } else if c == 'U' {
        if same_text(s, "U") {
            return Ok(KeyCode::U);
        }
    } else if c == 'V' {
        if same_text(s, "V") {
            return Ok(KeyCode::V);
        }
    } else if c == 'W' {
        if same_text(s, "W") {
            return Ok(KeyCode::W);
        }
    } else if c == 'X' {
        if same_text(s, "X") {
            return Ok(KeyCode::X);
        }
    } else if c == 'Y' {
        if same_text(s, "Y") {
            return Ok(KeyCode::Y);
        }
    } else if c == 'Z' {
        if same_text(s, "Z") {
            return Ok(KeyCode::Z);
        }
    }
    Err(parse_error(s))
}

/// The canonical token of a key.
pub fn key_code_name(k: KeyCode) -> (r: &'static str)
    ensures
        r@ == key_name(k),
{
    match k {
        KeyCode::Key0 => "Digit0",
        KeyCode::Key1 => "Digit1",
        KeyCode::Key2 => "Digit2",
        KeyCode::Key3 => "Digit3",
        KeyCode::Key4 => "Digit4",
        KeyCode::Key5 => "Digit5",
        KeyCode::Key6 => "Digit6",
        KeyCode::Key7 => "Digit7",
        KeyCode::Key8 => "Digit8",
        KeyCode::Key9 => "Digit9",
        KeyCode::Numpad0 => "Numpad0",
        KeyCode::Numpad1 => "Numpad1",
        KeyCode::Numpad2 => "Numpad2",
        KeyCode::Numpad3 => "Numpad3",
        KeyCode::Numpad4 => "Numpad4",
        KeyCode::Numpad5 => "Numpad5",
        KeyCode::Numpad6 => "Numpad6",
        KeyCode::Numpad7 => "Numpad7",
        KeyCode::Numpad8 => "Numpad8",
        KeyCode::Numpad9 => "Numpad9",
        KeyCode::A => "KeyA",
        KeyCode::B => "KeyB",
        KeyCode::C => "KeyC",
        KeyCode::D => "KeyD",
        KeyCode::E => "KeyE",
        KeyCode::F => "KeyF",
        KeyCode::G => "KeyG",
        KeyCode::H => "KeyH",
        KeyCode::I => "KeyI",
        KeyCode::J => "KeyJ",
        KeyCode::K => "KeyK",
        KeyCode::L => "KeyL",
        KeyCode::M => "KeyM",
        KeyCode::N => "KeyN",
        KeyCode::O => "KeyO",
        KeyCode::P => "KeyP",
        KeyCode::Q => "KeyQ",
        KeyCode::R => "KeyR",
        KeyCode::S => "KeyS",
        KeyCode::T => "KeyT",
        KeyCode::U => "KeyU",
        KeyCode::V => "KeyV",
        KeyCode::W => "KeyW",
        KeyCode::X => "KeyX",
        KeyCode::Y => "KeyY",
        KeyCode::Z => "KeyZ",
        KeyCode::Backslash => "Backslash",
        KeyCode::LBracket => "BracketLeft",
        KeyCode::RBracket => "BracketRight",
        KeyCode::Comma => "Comma",
        KeyCode::Minus => "Minus",
        KeyCode::Period => "Period",
        KeyCode::Apostrophe => "Quote",
        KeyCode::Semicolon => "Semicolon",
        KeyCode::Slash => "Slash",
        KeyCode::LAlt => "AltLeft",
        KeyCode::RAlt => "AltRight",
        KeyCode::Back => "Backspace",
        KeyCode::LControl => "ControlLeft",
        KeyCode::RControl => "ControlRight",
        KeyCode::Return => "Enter",
        KeyCode::LWin => "MetaLeft",
        KeyCode::RWin => "MetaRight",
        KeyCode::LShift => "ShiftLeft",
        KeyCode::RShift => "ShiftRight",
        KeyCode::Space => "Space",
        KeyCode::Tab => "Tab",
        KeyCode::Convert => "Convert",
        KeyCode::Delete => "Delete",
        KeyCode::End => "End",
        KeyCode::Home => "Home",
        KeyCode::Insert => "Insert",
        KeyCode::PageDown => "PageDown",
        KeyCode::PageUp => "PageUp",
        KeyCode::Down => "ArrowDown",
        KeyCode::Up => "ArrowUp",
        KeyCode::Left => "ArrowLeft",
        KeyCode::Right => "ArrowRight",
        KeyCode::Numlock => "NumLock",
        KeyCode::NumpadAdd => "NumpadAdd",
        KeyCode::NumpadComma => "NumpadComma",
        KeyCode::NumpadDecimal => "NumpadDecimal",
        KeyCode::NumpadDivide => "NumpadDivide",
        KeyCode::NumpadEnter => "NumpadEnter",
        KeyCode::NumpadEquals => "NumpadEqual",
        KeyCode::NumpadMultiply => "NumpadMultiply",
        KeyCode::NumpadSubtract => "NumpadSubtract",
        KeyCode::Escape => "Escape",
    }
}

} // verus!

verus! {

/// Whether a character is white space in the sense of Unicode's `White_Space`
/// property, the set that `char::is_whitespace` tests.
pub open spec fn is_space(c: char) -> bool {
    ('\u{9}' <= c && c <= '\u{d}') || c == ' ' || c == '\u{85}' || c == '\u{a0}' || c
        == '\u{1680}' || ('\u{2000}' <= c && c <= '\u{200a}') || c == '\u{2028}' || c
        == '\u{2029}' || c == '\u{202f}' || c == '\u{205f}' || c == '\u{3000}'
}

pub fn char_is_space(c: char) -> (r: bool)
    ensures
        r == is_space(c),
{
    ('\u{9}' <= c && c <= '\u{d}') || c == ' ' || c == '\u{85}' || c == '\u{a0}' || c
        == '\u{1680}' || ('\u{2000}' <= c && c <= '\u{200a}') || c == '\u{2028}' || c
        == '\u{2029}' || c == '\u{202f}' || c == '\u{205f}' || c == '\u{3000}'
}

/// `s` without the white space at its end.
pub open spec fn trim_end(s: Seq<char>) -> Seq<char>
    decreases s.len(),
{
    if s.len() > 0 && is_space(s.last()) {
        trim_end(s.drop_last())
    } else {
        s
    }
}

/// `s` without the white space at its start.
pub open spec fn trim_start(s: Seq<char>) -> Seq<char>
    decreases s.len(),
{
    if s.len() > 0 && is_space(s[0]) {
        trim_start(s.drop_first())
    } else {
        s
    }
}

/// `s` without the white space at either end.
pub open spec fn trim(s: Seq<char>) -> Seq<char> {
    trim_start(trim_end(s))
}

/// Removes the white space at both ends of `s`.
pub fn trim_str(s: &str) -> (r: &str)
    ensures
        r@ == trim(s@),
{
    let n = s.unicode_len();
    let mut end: usize = n;
    assert(s@.subrange(0, n as int) =~= s@);
    while end > 0 && char_is_space(s.get_char(end - 1))
        invariant
            n == s@.len(),
            end <= n,
            trim_end(s@) == trim_end(s@.subrange(0, end as int)),
        decreases end,
    {
        assert(s@.subrange(0, end as int).drop_last() =~= s@.subrange(0, end - 1));
        end = end - 1;
    }
    let ghost t = s@.subrange(0, end as int);
    assert(trim_end(s@) == t);
    let mut start: usize = 0;
    while start < end && char_is_space(s.get_char(start))
        invariant
            n == s@.len(),
            end <= n,
            start <= end,
            t == s@.subrange(0, end as int),
            trim_start(t) == trim_start(s@.subrange(start as int, end as int)),
        decreases end - start,
    {
        assert(s@.subrange(start as int, end as int).drop_first() =~= s@.subrange(
            start + 1,
            end as int,
        ));
        start = start + 1;
    }
    s.substring_char(start, end)
}

/// Where the last `+` of `s` stands, or -1 when it holds none.
pub open spec fn last_plus(s: Seq<char>) -> int
    decreases s.len(),
{
    if s.len() == 0 {
        -1
    } else if s.last() == '+' {
        s.len() - 1
    } else {
        last_plus(s.drop_last())
    }
}

proof fn lemma_last_plus_range(s: Seq<char>)
    ensures
        -1 <= last_plus(s) < s.len(),
        last_plus(s) >= 0 ==> s[last_plus(s)] == '+',
    decreases s.len(),
{
    if s.len() > 0 && s.last() != '+' {
        lemma_last_plus_range(s.drop_last());
    }
}

/// Finds the last `+` of `s`.
pub fn find_last_plus(s: &str) -> (r: Option<usize>)
    ensures
        r == (if last_plus(s@) < 0 {
            None::<usize>
        } else {
            Some(last_plus(s@) as usize)
        }),
{
    let n = s.unicode_len();
    let mut i: usize = n;
    assert(s@.subrange(0, n as int) =~= s@);
    while i > 0
        invariant
            n == s@.len(),
            i <= n,
            last_plus(s@) == last_plus(s@.subrange(0, i as int)),
        decreases i,
    {
        let ghost p = s@.subrange(0, i as int);
        if s.get_char(i - 1) == '+' {
            return Some(i - 1);
        }
        assert(p.drop_last() =~= s@.subrange(0, i - 1));
        i = i - 1;
    }
    assert(s@.subrange(0, 0) =~= Seq::<char>::empty());
    None
}

/// The modifier that a single modifier token names.
pub open spec fn modifier_of(t: Seq<char>) -> Option<Modifiers> {
    if t == "Ctrl"@ {
        Some(Modifiers { ctrl: true, ..Modifiers::none() })
    } else if t == "Alt"@ {
        Some(Modifiers { alt: true, ..Modifiers::none() })
    } else if t == "Meta"@ {
        Some(Modifiers { logo: true, ..Modifiers::none() })
    } else if t == "Shift"@ {
        Some(Modifiers { shift: true, ..Modifiers::none() })
    } else {
        None
    }
}

/// The modifiers that a `+`-separated list of modifier tokens names; each
/// token may stand between white space.
pub open spec fn mods_of(s: Seq<char>) -> Option<Modifiers>
    decreases s.len(),
{
    let p = last_plus(s);
    if 0 <= p < s.len() {
        match (mods_of(s.subrange(0, p)), modifier_of(trim(s.subrange(p + 1, s.len() as int)))) {
            (Some(a), Some(b)) => Some(a.merge(b)),
            _ => None,
        }
    } else {
        modifier_of(trim(s))
    }
}

fn modifier_token(t: &str) -> (r: Result<Modifiers, ParseKeyError>)
    ensures
        match modifier_of(t@) {
            Some(m) => r == Ok::<Modifiers, ParseKeyError>(m),
            None => r matches Err(e) && e.token@ == t@,
        },
{
    let none = Modifiers::empty();
    if same_text(t, "Ctrl") {
        Ok(Modifiers { ctrl: true, ..none })
    } else if same_text(t, "Alt") {
        Ok(Modifiers { alt: true, ..none })
    } else if same_text(t, "Meta") {
        Ok(Modifiers { logo: true, ..none })
    } else if same_text(t, "Shift") {
        Ok(Modifiers { shift: true, ..none })
    } else {
        Err(parse_error(t))
    }
}

/// The leftmost token of a modifier list that names no modifier, once
/// trimmed; it matters where `mods_of(s)` is `None`.
pub open spec fn mods_error(s: Seq<char>) -> Seq<char>
    decreases s.len(),
{
    let p = last_plus(s);
    if 0 <= p < s.len() {
        if mods_of(s.subrange(0, p)) is None {
            mods_error(s.subrange(0, p))
        } else {
            trim(s.subrange(p + 1, s.len() as int))
        }
    } else {
        trim(s)
    }
}

/// Reads a `+`-separated list of modifier tokens.
pub fn str_to_mods(s: &str) -> (r: Result<Modifiers, ParseKeyError>)
    ensures
        match mods_of(s@) {
            Some(m) => r == Ok::<Modifiers, ParseKeyError>(m),
            None => r matches Err(e) && e.token@ == mods_error(s@),
        },
    decreases s@.len(),
{
    proof {
        lemma_last_plus_range(s@);
    }
    match find_last_plus(s) {
        None => modifier_token(trim_str(s)),
        Some(p) => {
            let n = s.unicode_len();
            let head = str_to_mods(s.substring_char(0, p));
            let tail = modifier_token(trim_str(s.substring_char(p + 1, n)));
            match (head, tail) {
                (Ok(a), Ok(b)) => Ok(a.union(b)),
                (Err(e), _) => Err(e),
                (_, Err(e)) => Err(e),
            }
        },
    }
}

} // verus!

verus! {

/// A key together with the modifiers held with it.
#[derive(Debug, PartialEq, Eq, Structural, Clone, Copy, Hash)]
pub struct Key {
    pub key: KeyCode,
    pub mods: Modifiers,
}

/// The hotkey that a string names: an optional `+`-separated list of
/// modifier tokens, a `+`, then one base-key token.
pub open spec fn parse_key(s: Seq<char>) -> Option<Key> {
    let p = last_plus(s);
    if 0 <= p < s.len() {
        match (mods_of(trim(s.subrange(0, p))), key_of(trim(s.subrange(p + 1, s.len() as int)))) {
            (Some(m), Some(k)) => Some(Key { key: k, mods: m }),
            _ => None,
        }
    } else {
        match key_of(s) {
            Some(k) => Some(Key { key: k, mods: Modifiers::none() }),
            None => None,
        }
    }
}

/// The token that a hotkey string fails on, where `parse_key(s)` is `None`:
/// the first bad modifier token, else the base-key token.
pub open spec fn parse_error_token(s: Seq<char>) -> Seq<char> {
    let p = last_plus(s);
    if 0 <= p < s.len() {
        let m = trim(s.subrange(0, p));
        if mods_of(m) is None {
            mods_error(m)
        } else {
            trim(s.subrange(p + 1, s.len() as int))
        }
    } else {
        s
    }
}

/// The hotkey that a platform hotkey stands for, given the name of its key
/// and the modifiers it holds.
pub open spec fn hotkey_key(name: Seq<char>, m: Modifiers) -> Option<Key> {
    match key_of(name) {
        Some(k) => Some(Key { key: k, mods: m }),
        None => None,
    }
}

/// `acc` with the token `tok` added to its `+`-separated list when `on`.
pub open spec fn add_token(acc: Seq<char>, on: bool, tok: Seq<char>) -> Seq<char> {
    if !on {
        acc
    } else if acc.len() == 0 {
        tok
    } else {
        acc + seq!['+'] + tok
    }
}

/// The modifier list of a set, in the order Ctrl, Alt, Meta, Shift.
pub open spec fn mods_text(m: Modifiers) -> Seq<char> {
    add_token(
        add_token(add_token(add_token(Seq::empty(), m.ctrl, "Ctrl"@), m.alt, "Alt"@), m.logo, "Meta"@),
        m.shift,
        "Shift"@,
    )
}

/// The text of a hotkey: its modifier list, a `+` if that list is not empty,
/// then the canonical token of its key.
pub open spec fn format_key(k: Key) -> Seq<char> {
    if mods_text(k.mods).len() == 0 {
        key_name(k.key)
    } else {
        mods_text(k.mods) + seq!['+'] + key_name(k.key)
    }
}

fn push_token(out: &mut String, on: bool, tok: &str)
    ensures
        final(out)@ == add_token(old(out)@, on, tok@),
{
    if on {
        if out.as_str().unicode_len() > 0 {
            proof {
                reveal_strlit("+");
            }
            assert("+"@ =~= seq!['+']);
            out.append("+");
        }
        out.append(tok);
    }
}

impl Key {
    pub fn new(key: KeyCode) -> (r: Key)
        ensures
            r == (Key { key, mods: Modifiers::none() }),
    {
        Key::from(key, Modifiers::empty())
    }

    pub fn ctrl(key: KeyCode) -> (r: Key)
        ensures
            r == (Key { key, mods: Modifiers { ctrl: true, ..Modifiers::none() } }),
    {
        Key::from(key, Modifiers { ctrl: true, ..Modifiers::empty() })
    }

    pub fn cmd(key: KeyCode) -> (r: Key)
        ensures
            r == (Key { key, mods: Modifiers { logo: true, ..Modifiers::none() } }),
    {
        Key::from(key, Modifiers { logo: true, ..Modifiers::empty() })
    }

    pub fn shift(key: KeyCode) -> (r: Key)
        ensures
            r == (Key { key, mods: Modifiers { shift: true, ..Modifiers::none() } }),
    {
        Key::from(key, Modifiers { shift: true, ..Modifiers::empty() })
    }

    pub fn alt(key: KeyCode) -> (r: Key)
        ensures
            r == (Key { key, mods: Modifiers { alt: true, ..Modifiers::none() } }),
    {
        Key::from(key, Modifiers { alt: true, ..Modifiers::empty() })
    }

    /// The hotkey of a key event from the window, with the modifiers held.
    pub fn from(key: KeyCode, mods: Modifiers) -> (r: Key)
        ensures
            r == (Key { key, mods }),
    {
        Key { key, mods }
    }

    /// The hotkey of a platform hotkey, given the name of its key and the
    /// modifiers it holds; fails when no key has that name.
    pub fn from_hotkey(name: &str, mods: Modifiers) -> (r: Result<Key, ParseKeyError>)
        ensures
            match hotkey_key(name@, mods) {
                Some(k) => r == Ok::<Key, ParseKeyError>(k),
                None => r matches Err(e) && e.token@ == name@,
            },
    {
        let key = str_to_virtual_key_code(name)?;
        Ok(Key::from(key, mods))
    }

    /// Reads a hotkey from its text.
    pub fn from_str(s: &str) -> (r: Result<Key, ParseKeyError>)
        ensures
            match parse_key(s@) {
                Some(k) => r == Ok::<Key, ParseKeyError>(k),
                None => r matches Err(e) && e.token@ == parse_error_token(s@),
            },
    {
        proof {
            lemma_last_plus_range(s@);
        }
        match find_last_plus(s) {
            Some(p) => {
                let n = s.unicode_len();
                let mods = str_to_mods(trim_str(s.substring_char(0, p)))?;
                let key = str_to_virtual_key_code(trim_str(s.substring_char(p + 1, n)))?;
                Ok(Key { key, mods })
            },
            None => {
                let key = str_to_virtual_key_code(s)?;
                Ok(Key { key, mods: Modifiers::empty() })
            },
        }
    }

    /// The text of the hotkey, which reads back as the same hotkey.
    pub fn to_string(&self) -> (r: String)
        ensures
            r@ == format_key(*self),
    {
        let mut out = String::new();
        push_token(&mut out, self.mods.ctrl, "Ctrl");
        push_token(&mut out, self.mods.alt, "Alt");
        push_token(&mut out, self.mods.logo, "Meta");
        push_token(&mut out, self.mods.shift, "Shift");
        if out.as_str().unicode_len() > 0 {
            proof {
                reveal_strlit("+");
                assert("+"@ =~= seq!['+']);
            }
            out.append("+");
        }
        out.append(key_code_name(self.key));
        proof {
            if mods_text(self.mods).len() > 0 {
                assert(out@ =~= mods_text(self.mods) + seq!['+'] + key_name(self.key));
            } else {
                assert(out@ =~= key_name(self.key));
            }
        }
        out
    }
}

impl std::str::FromStr for Key {
    type Err = ParseKeyError;

    fn from_str(s: &str) -> Result<Key, ParseKeyError> {
        Key::from_str(s)
    }
}

} // verus!

verus! {

proof fn lemma_last_plus_none(b: Seq<char>)
    requires
        forall|i: int| 0 <= i < b.len() ==> b[i] != '+',
    ensures
        last_plus(b) == -1,
    decreases b.len(),
{
    if b.len() > 0 {
        assert(b.last() == b[b.len() - 1]);
        lemma_last_plus_none(b.drop_last());
    }
}

proof fn lemma_last_plus_after(a: Seq<char>, b: Seq<char>)
    requires
        forall|i: int| 0 <= i < b.len() ==> b[i] != '+',
    ensures
        last_plus(a + seq!['+'] + b) == a.len(),
    decreases b.len(),
{
    let s = a + seq!['+'] + b;
    if b.len() > 0 {
        assert(s.last() == b[b.len() - 1]);
        assert(s.drop_last() =~= a + seq!['+'] + b.drop_last());
        lemma_last_plus_after(a, b.drop_last());
    }
}

proof fn lemma_trim_plain_ends(s: Seq<char>)
    requires
        s.len() > 0,
        plain(s[0]),
        plain(s.last()),
    ensures
        trim(s) == s,
{
}

/// The four modifier tokens: their characters and what each names.
proof fn lemma_modifier_tokens()
    ensures
        "Ctrl"@ == seq!['C', 't', 'r', 'l'],
        "Alt"@ == seq!['A', 'l', 't'],
        "Meta"@ == seq!['M', 'e', 't', 'a'],
        "Shift"@ == seq!['S', 'h', 'i', 'f', 't'],
        modifier_of("Ctrl"@) == Some(Modifiers { ctrl: true, ..Modifiers::none() }),
        modifier_of("Alt"@) == Some(Modifiers { alt: true, ..Modifiers::none() }),
        modifier_of("Meta"@) == Some(Modifiers { logo: true, ..Modifiers::none() }),
        modifier_of("Shift"@) == Some(Modifiers { shift: true, ..Modifiers::none() }),
{
    reveal_strlit("Ctrl");
    reveal_strlit("Alt");
    reveal_strlit("Meta");
    reveal_strlit("Shift");
    assert("Ctrl"@ =~= seq!['C', 't', 'r', 'l']);
    assert("Alt"@ =~= seq!['A', 'l', 't']);
    assert("Meta"@ =~= seq!['M', 'e', 't', 'a']);
    assert("Shift"@ =~= seq!['S', 'h', 'i', 'f', 't']);
}

/// A modifier list written as text, one token at a time, reads back as the
/// set it was written from.
proof fn lemma_add_token(acc: Seq<char>, on: bool, tok: Seq<char>, m0: Modifiers, mt: Modifiers)
    requires
        acc.len() == 0 ==> m0 == Modifiers::none(),
        acc.len() > 0 ==> mods_of(acc) == Some(m0) && plain(acc[0]) && plain(acc.last()),
        forall|i: int| 0 <= i < acc.len() ==> plain(#[trigger] acc[i]) || acc[i] == '+',
        tok.len() > 0,
        forall|i: int| 0 <= i < tok.len() ==> plain(#[trigger] tok[i]),
        modifier_of(tok) == Some(mt),
    ensures
        ({
            let r = add_token(acc, on, tok);
            let m = if on {
                m0.merge(mt)
            } else {
                m0
            };
            &&& r.len() == 0 <==> (acc.len() == 0 && !on)
            &&& r.len() == 0 ==> m == Modifiers::none()
            &&& r.len() > 0 ==> mods_of(r) == Some(m) && plain(r[0]) && plain(r.last())
            &&& forall|i: int| 0 <= i < r.len() ==> plain(#[trigger] r[i]) || r[i] == '+'
        }),
{
    let r = add_token(acc, on, tok);
    assert(plain(tok[tok.len() - 1]));
    lemma_trim_plain_ends(tok);
    if on {
        if acc.len() == 0 {
            lemma_last_plus_none(tok);
            assert(mods_of(tok) == modifier_of(trim(tok)));
        } else {
            lemma_last_plus_after(acc, tok);
            let p = acc.len() as int;
            assert(r.subrange(0, p) =~= acc);
            assert(r.subrange(p + 1, r.len() as int) =~= tok);
            assert(r.last() == tok.last());
            assert(r[0] == acc[0]);
            assert forall|i: int| 0 <= i < r.len() implies plain(#[trigger] r[i]) || r[i] == '+' by {
                if i < p {
                    assert(r[i] == acc[i]);
                } else if i > p {
                    assert(r[i] == tok[i - p - 1]);
                }
            }
        }
    }
}

proof fn lemma_mods_text(m: Modifiers)
    ensures
        ({
            let t = mods_text(m);
            &&& t.len() == 0 ==> m == Modifiers::none()
            &&& t.len() > 0 ==> mods_of(t) == Some(m) && plain(t[0]) && plain(t.last())
            &&& forall|i: int| 0 <= i < t.len() ==> plain(#[trigger] t[i]) || t[i] == '+'
        }),
{
    lemma_modifier_tokens();
    let none = Modifiers::none();
    let c = Modifiers { ctrl: true, ..none };
    let a = Modifiers { alt: true, ..none };
    let l = Modifiers { logo: true, ..none };
    let s = Modifiers { shift: true, ..none };
    let t0 = Seq::<char>::empty();
    let t1 = add_token(t0, m.ctrl, "Ctrl"@);
    let m1 = if m.ctrl { none.merge(c) } else { none };
    lemma_add_token(t0, m.ctrl, "Ctrl"@, none, c);
    let t2 = add_token(t1, m.alt, "Alt"@);
    let m2 = if m.alt { m1.merge(a) } else { m1 };
    lemma_add_token(t1, m.alt, "Alt"@, m1, a);
    let t3 = add_token(t2, m.logo, "Meta"@);
    let m3 = if m.logo { m2.merge(l) } else { m2 };
    lemma_add_token(t2, m.logo, "Meta"@, m2, l);
    let m4 = if m.shift { m3.merge(s) } else { m3 };
    lemma_add_token(t3, m.shift, "Shift"@, m3, s);
    assert(m4 == m);
}

/// Formatting a hotkey and reading the text back gives the same hotkey.
pub proof fn lemma_parse_format(k: Key)
    ensures
        parse_key(format_key(k)) == Some(k),
{
    let t = mods_text(k.mods);
    let n = key_name(k.key);
    lemma_mods_text(k.mods);
    lemma_key_name(k.key);
    assert(plain(n[0]) && plain(n[n.len() - 1]));
    lemma_trim_plain_ends(n);
    if t.len() == 0 {
        lemma_last_plus_none(n);
    } else {
        let s = t + seq!['+'] + n;
        lemma_last_plus_after(t, n);
        lemma_trim_plain_ends(t);
        assert(s.subrange(0, t.len() as int) =~= t);
        assert(s.subrange(t.len() as int + 1, s.len() as int) =~= n);
    }
}

/// Every text that reads as a hotkey reads, once formatted and read again,
/// as the same hotkey.
pub proof fn lemma_round_trip(s: Seq<char>)
    requires
        parse_key(s) is Some,
    ensures
        parse_key(format_key(parse_key(s).unwrap())) == parse_key(s),
{
    lemma_parse_format(parse_key(s).unwrap());
}

/// The three ways of building a hotkey agree: from its text, from a platform
/// hotkey's key name and modifiers, and from a window key event.
pub proof fn lemma_constructors_agree(key: KeyCode, mods: Modifiers)
    ensures
        parse_key(format_key(Key { key, mods })) == Some(Key { key, mods }),
        hotkey_key(key_name(key), mods) == Some(Key { key, mods }),
{
    lemma_parse_format(Key { key, mods });
    lemma_key_name(key);
}

} // verus!

verus! {

/// Whether `t` is one of the four modifier tokens.
pub open spec fn is_modifier_token(t: Seq<char>) -> bool {
    t == "Ctrl"@ || t == "Alt"@ || t == "Meta"@ || t == "Shift"@
}

/// Modifier tokens joined by `+`, in the order given.
pub open spec fn join_tokens(ms: Seq<Seq<char>>) -> Seq<char>
    decreases ms.len(),
{
    if ms.len() == 0 {
        Seq::empty()
    } else {
        add_token(join_tokens(ms.drop_last()), true, ms.last())
    }
}

/// The set of modifiers that a list of modifier tokens names.
pub open spec fn tokens_mods(ms: Seq<Seq<char>>) -> Modifiers
    decreases ms.len(),
{
    if ms.len() == 0 {
        Modifiers::none()
    } else {
        match modifier_of(ms.last()) {
            Some(m) => tokens_mods(ms.drop_last()).merge(m),
            None => tokens_mods(ms.drop_last()),
        }
    }
}

/// A hotkey text: the modifier tokens, each followed by `+`, then a base-key
/// token.
pub open spec fn chord_text(ms: Seq<Seq<char>>, b: Seq<char>) -> Seq<char> {
    if ms.len() == 0 {
        b
    } else {
        join_tokens(ms) + seq!['+'] + b
    }
}

proof fn lemma_join_tokens(ms: Seq<Seq<char>>)
    requires
        forall|i: int| 0 <= i < ms.len() ==> is_modifier_token(#[trigger] ms[i]),
    ensures
        ({
            let t = join_tokens(ms);
            &&& t.len() == 0 <==> ms.len() == 0
            &&& ms.len() == 0 ==> tokens_mods(ms) == Modifiers::none()
            &&& t.len() > 0 ==> mods_of(t) == Some(tokens_mods(ms)) && plain(t[0]) && plain(t.last())
            &&& forall|i: int| 0 <= i < t.len() ==> plain(#[trigger] t[i]) || t[i] == '+'
        }),
    decreases ms.len(),
{
    if ms.len() > 0 {
        let d = ms.drop_last();
        assert forall|i: int| 0 <= i < d.len() implies is_modifier_token(#[trigger] d[i]) by {
            assert(d[i] == ms[i]);
        }
        lemma_join_tokens(d);
        lemma_modifier_tokens();
        let tok = ms.last();
        assert(is_modifier_token(ms[ms.len() - 1]));
        let mt = modifier_of(tok).unwrap();
        lemma_add_token(join_tokens(d), true, tok, tokens_mods(d), mt);
    }
}

/// Every base-key token is a non-empty run of letters and digits.
proof fn lemma_key_token(b: Seq<char>)
    requires
        key_of(b) is Some,
    ensures
        b.len() > 0,
        forall|i: int| 0 <= i < b.len() ==> plain(#[trigger] b[i]),
{
    lemma_token_texts();
}

/// Any hotkey text, with its modifier tokens in any order and any token of
/// its key, reads as the key that token names with the modifiers listed.
pub proof fn lemma_parse_chord(ms: Seq<Seq<char>>, b: Seq<char>)
    requires
        forall|i: int| 0 <= i < ms.len() ==> is_modifier_token(#[trigger] ms[i]),
        key_of(b) is Some,
    ensures
        parse_key(chord_text(ms, b)) == Some(Key { key: key_of(b).unwrap(), mods: tokens_mods(ms) }),
{
    let t = join_tokens(ms);
    lemma_join_tokens(ms);
    lemma_key_token(b);
    assert(plain(b[0]) && plain(b[b.len() - 1]));
    lemma_trim_plain_ends(b);
    if ms.len() == 0 {
        lemma_last_plus_none(b);
    } else {
        let s = t + seq!['+'] + b;
        lemma_last_plus_after(t, b);
        lemma_trim_plain_ends(t);
        assert(s.subrange(0, t.len() as int) =~= t);
        assert(s.subrange(t.len() as int + 1, s.len() as int) =~= b);
    }
}

/// Any text that names the hotkey that `s` reads as, in any modifier order
/// and with any token of its key, reads as that same hotkey.
pub proof fn lemma_round_trip_any_text(s: Seq<char>, ms: Seq<Seq<char>>, b: Seq<char>)
    requires
        parse_key(s) is Some,
        forall|i: int| 0 <= i < ms.len() ==> is_modifier_token(#[trigger] ms[i]),
        key_of(b) == Some(parse_key(s).unwrap().key),
        tokens_mods(ms) == parse_key(s).unwrap().mods,
    ensures
        parse_key(chord_text(ms, b)) == parse_key(s),
{
    lemma_parse_chord(ms, b);
}

/// A hotkey text, a platform hotkey with that key's name and those modifiers,
/// and a window event with that key and those modifiers give one hotkey.
pub proof fn lemma_constructors_agree_any_text(ms: Seq<Seq<char>>, b: Seq<char>)
    requires
        forall|i: int| 0 <= i < ms.len() ==> is_modifier_token(#[trigger] ms[i]),
        key_of(b) is Some,
    ensures
        parse_key(chord_text(ms, b)) == hotkey_key(b, tokens_mods(ms)),
        hotkey_key(b, tokens_mods(ms)) == Some(Key { key: key_of(b).unwrap(), mods: tokens_mods(ms) }),
{
    lemma_parse_chord(ms, b);
}

} // verus!
