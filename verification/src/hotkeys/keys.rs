//! Key codes that global shortcuts can be bound to, and their names.
use vstd::prelude::*;
use crate::text::chars_eq_str;

verus! {

/// A physical key that a shortcut can be bound to.
#[derive(Debug, Clone, Copy, PartialEq, Eq, Hash, Structural)]
pub enum Code {
    KeyA,
    KeyB,
    KeyC,
    KeyD,
    KeyE,
    KeyF,
    KeyG,
    KeyH,
    KeyI,
    KeyJ,
    KeyK,
    KeyL,
    KeyM,
    KeyN,
    KeyO,
    KeyP,
    KeyQ,
    KeyR,
    KeyS,
    KeyT,
    KeyU,
    KeyV,
    KeyW,
    KeyX,
    KeyY,
    KeyZ,
    Digit0,
    Digit1,
    Digit2,
    Digit3,
    Digit4,
    Digit5,
    Digit6,
    Digit7,
    Digit8,
    Digit9,
    F1,
    F2,
    F3,
    F4,
    F5,
    F6,
    F7,
    F8,
    F9,
    F10,
    F11,
    F12,
    Space,
    Enter,
    Tab,
    Escape,
    Backspace,
    Delete,
    Insert,
    Home,
    End,
    PageUp,
    PageDown,
    ArrowUp,
    ArrowDown,
    ArrowLeft,
    ArrowRight,
    Minus,
    Equal,
    BracketLeft,
    BracketRight,
    Backslash,
    Semicolon,
    Quote,
    Backquote,
    Comma,
    Period,
    Slash,
    Numpad0,
    Numpad1,
    Numpad2,
    Numpad3,
    Numpad4,
    Numpad5,
    Numpad6,
    Numpad7,
    Numpad8,
    Numpad9,
    NumpadAdd,
    NumpadSubtract,
    NumpadMultiply,
    NumpadDivide,
    NumpadDecimal,
    NumpadEnter,
    AltLeft,
    AltRight,
    ControlLeft,
    ControlRight,
    ShiftLeft,
    ShiftRight,
    MetaLeft,
    MetaRight,
}

/// The key that a (lower-case) key name denotes, if any.
pub open spec fn code_from_name(s: Seq<char>) -> Option<Code> {
    if s == "a"@ {
        Some(Code::KeyA)
    } else if s == "b"@ {
        Some(Code::KeyB)
    } else if s == "c"@ {
        Some(Code::KeyC)
    } else if s == "d"@ {
        Some(Code::KeyD)
    } else if s == "e"@ {
        Some(Code::KeyE)
    } else if s == "f"@ {
        Some(Code::KeyF)
    } else if s == "g"@ {
        Some(Code::KeyG)
    } else if s == "h"@ {
        Some(Code::KeyH)
    } else if s == "i"@ {
        Some(Code::KeyI)
    } else if s == "j"@ {
        Some(Code::KeyJ)
    } else if s == "k"@ {
        Some(Code::KeyK)
    } else if s == "l"@ {
        Some(Code::KeyL)
    } else if s == "m"@ {
        Some(Code::KeyM)
    } else if s == "n"@ {
        Some(Code::KeyN)
    } else if s == "o"@ {
        Some(Code::KeyO)
    } else if s == "p"@ {
        Some(Code::KeyP)
    } else if s == "q"@ {
        Some(Code::KeyQ)
    } else if s == "r"@ {
        Some(Code::KeyR)
    } else if s == "s"@ {
        Some(Code::KeyS)
    } else if s == "t"@ {
        Some(Code::KeyT)
    } else if s == "u"@ {
        Some(Code::KeyU)
    } else if s == "v"@ {
        Some(Code::KeyV)
    } else if s == "w"@ {
        Some(Code::KeyW)
    } else if s == "x"@ {
        Some(Code::KeyX)
    } else if s == "y"@ {
        Some(Code::KeyY)
    } else if s == "z"@ {
        Some(Code::KeyZ)
    } else if s == "0"@ || s == "digit0"@ {
        Some(Code::Digit0)
    } else if s == "1"@ || s == "digit1"@ {
        Some(Code::Digit1)
    } else if s == "2"@ || s == "digit2"@ {
        Some(Code::Digit2)
    } else if s == "3"@ || s == "digit3"@ {
        Some(Code::Digit3)
    } else if s == "4"@ || s == "digit4"@ {
        Some(Code::Digit4)
    } else if s == "5"@ || s == "digit5"@ {
        Some(Code::Digit5)
    } else if s == "6"@ || s == "digit6"@ {
        Some(Code::Digit6)
    } else if s == "7"@ || s == "digit7"@ {
        Some(Code::Digit7)
    } else if s == "8"@ || s == "digit8"@ {
        Some(Code::Digit8)
    } else if s == "9"@ || s == "digit9"@ {
        Some(Code::Digit9)
    } else if s == "f1"@ {
        Some(Code::F1)
    } else if s == "f2"@ {
        Some(Code::F2)
    } else if s == "f3"@ {
        Some(Code::F3)
    } else if s == "f4"@ {
        Some(Code::F4)
    } else if s == "f5"@ {
        Some(Code::F5)
    } else if s == "f6"@ {
        Some(Code::F6)
    } else if s == "f7"@ {
        Some(Code::F7)
    } else if s == "f8"@ {
        Some(Code::F8)
    } else if s == "f9"@ {
        Some(Code::F9)
    } else if s == "f10"@ {
        Some(Code::F10)
    } else if s == "f11"@ {
        Some(Code::F11)
    } else if s == "f12"@ {
        Some(Code::F12)
    } else if s == "space"@ || s == " "@ {
        Some(Code::Space)
    } else if s == "enter"@ || s == "return"@ {
        Some(Code::Enter)
    } else if s == "tab"@ {
        Some(Code::Tab)
    } else if s == "escape"@ || s == "esc"@ {
        Some(Code::Escape)
    } else if s == "backspace"@ {
        Some(Code::Backspace)
    } else if s == "delete"@ || s == "del"@ {
        Some(Code::Delete)
    } else if s == "insert"@ || s == "ins"@ {
        Some(Code::Insert)
    } else if s == "home"@ {
        Some(Code::Home)
    } else if s == "end"@ {
        Some(Code::End)
    } else if s == "pageup"@ || s == "pgup"@ {
        Some(Code::PageUp)
    } else if s == "pagedown"@ || s == "pgdn"@ {
        Some(Code::PageDown)
    } else if s == "up"@ || s == "arrowup"@ {
        Some(Code::ArrowUp)
    } else if s == "down"@ || s == "arrowdown"@ {
        Some(Code::ArrowDown)
    } else if s == "left"@ || s == "arrowleft"@ {
        Some(Code::ArrowLeft)
    } else if s == "right"@ || s == "arrowright"@ {
        Some(Code::ArrowRight)
    } else if s == "minus"@ || s == "-"@ {
        Some(Code::Minus)
    } else if s == "equal"@ || s == "equals"@ || s == "="@ {
        Some(Code::Equal)
    } else if s == "bracketleft"@ || s == "["@ {
        Some(Code::BracketLeft)
    } else if s == "bracketright"@ || s == "]"@ {
        Some(Code::BracketRight)
    } else if s == "backslash"@ || s == "\\"@ {
        Some(Code::Backslash)
    } else if s == "semicolon"@ || s == ";"@ {
        Some(Code::Semicolon)
    } else if s == "quote"@ || s == "'"@ {
        Some(Code::Quote)
    } else if s == "backquote"@ || s == "`"@ {
        Some(Code::Backquote)
    } else if s == "comma"@ || s == ","@ {
        Some(Code::Comma)
    } else if s == "period"@ || s == "."@ {
        Some(Code::Period)
    } else if s == "slash"@ || s == "/"@ {
        Some(Code::Slash)
    } else if s == "numpad0"@ || s == "num0"@ {
        Some(Code::Numpad0)
    } else if s == "numpad1"@ || s == "num1"@ {
        Some(Code::Numpad1)
    } else if s == "numpad2"@ || s == "num2"@ {
        Some(Code::Numpad2)
    } else if s == "numpad3"@ || s == "num3"@ {
        Some(Code::Numpad3)
    } else if s == "numpad4"@ || s == "num4"@ {
        Some(Code::Numpad4)
    } else if s == "numpad5"@ || s == "num5"@ {
        Some(Code::Numpad5)
    } else if s == "numpad6"@ || s == "num6"@ {
        Some(Code::Numpad6)
    } else if s == "numpad7"@ || s == "num7"@ {
        Some(Code::Numpad7)
    } else if s == "numpad8"@ || s == "num8"@ {
        Some(Code::Numpad8)
    } else if s == "numpad9"@ || s == "num9"@ {
        Some(Code::Numpad9)
    } else if s == "numpadadd"@ || s == "numpadplus"@ {
        Some(Code::NumpadAdd)
    } else if s == "numpadsubtract"@ || s == "numpadminus"@ {
        Some(Code::NumpadSubtract)
    } else if s == "numpadmultiply"@ || s == "numpadstar"@ {
        Some(Code::NumpadMultiply)
    } else if s == "numpaddivide"@ || s == "numpadslash"@ {
        Some(Code::NumpadDivide)
    } else if s == "numpaddecimal"@ || s == "numpaddot"@ {
        Some(Code::NumpadDecimal)
    } else if s == "numpadenter"@ {
        Some(Code::NumpadEnter)
    } else if s == "altleft"@ || s == "leftalt"@ || s == "lalt"@ {
        Some(Code::AltLeft)
    } else if s == "altright"@ || s == "rightalt"@ || s == "ralt"@ || s == "altgr"@ {
        Some(Code::AltRight)
    } else if s == "controlleft"@ || s == "leftctrl"@ || s == "lctrl"@ {
        Some(Code::ControlLeft)
    } else if s == "controlright"@ || s == "rightctrl"@ || s == "rctrl"@ {
        Some(Code::ControlRight)
    } else if s == "shiftleft"@ || s == "leftshift"@ || s == "lshift"@ {
        Some(Code::ShiftLeft)
    } else if s == "shiftright"@ || s == "rightshift"@ || s == "rshift"@ {
        Some(Code::ShiftRight)
    } else if s == "metaleft"@ || s == "leftmeta"@ || s == "lmeta"@ || s == "leftsuper"@ || s == "lsuper"@ {
        Some(Code::MetaLeft)
    } else if s == "metaright"@ || s == "rightmeta"@ || s == "rmeta"@ || s == "rightsuper"@ || s == "rsuper"@ {
        Some(Code::MetaRight)
    } else {
        None
    }
}

/// The display name of a key, as shortcuts are written back out.
pub open spec fn code_display(code: Code) -> Seq<char> {
    match code {
        Code::KeyA => "A"@,
        Code::KeyB => "B"@,
        Code::KeyC => "C"@,
        Code::KeyD => "D"@,
        Code::KeyE => "E"@,
        Code::KeyF => "F"@,
        Code::KeyG => "G"@,
        Code::KeyH => "H"@,
        Code::KeyI => "I"@,
        Code::KeyJ => "J"@,
        Code::KeyK => "K"@,
        Code::KeyL => "L"@,
        Code::KeyM => "M"@,
        Code::KeyN => "N"@,
        Code::KeyO => "O"@,
        Code::KeyP => "P"@,
        Code::KeyQ => "Q"@,
        Code::KeyR => "R"@,
        Code::KeyS => "S"@,
        Code::KeyT => "T"@,
        Code::KeyU => "U"@,
        Code::KeyV => "V"@,
        Code::KeyW => "W"@,
        Code::KeyX => "X"@,
        Code::KeyY => "Y"@,
        Code::KeyZ => "Z"@,
        Code::Digit0 => "0"@,
        Code::Digit1 => "1"@,
        Code::Digit2 => "2"@,
        Code::Digit3 => "3"@,
        Code::Digit4 => "4"@,
        Code::Digit5 => "5"@,
        Code::Digit6 => "6"@,
        Code::Digit7 => "7"@,
        Code::Digit8 => "8"@,
        Code::Digit9 => "9"@,
        Code::F1 => "F1"@,
        Code::F2 => "F2"@,
        Code::F3 => "F3"@,
        Code::F4 => "F4"@,
        Code::F5 => "F5"@,
        Code::F6 => "F6"@,
        Code::F7 => "F7"@,
        Code::F8 => "F8"@,
        Code::F9 => "F9"@,
        Code::F10 => "F10"@,
        Code::F11 => "F11"@,
        Code::F12 => "F12"@,
        Code::Space => "Space"@,
        Code::Enter => "Enter"@,
        Code::Tab => "Tab"@,
        Code::Escape => "Escape"@,
        Code::Backspace => "Backspace"@,
        Code::Delete => "Delete"@,
        Code::Insert => "Insert"@,
        Code::Home => "Home"@,
        Code::End => "End"@,
        Code::PageUp => "PageUp"@,
        Code::PageDown => "PageDown"@,
        Code::ArrowUp => "Up"@,
        Code::ArrowDown => "Down"@,
        Code::ArrowLeft => "Left"@,
        Code::ArrowRight => "Right"@,
        Code::Minus => "Unknown"@,
        Code::Equal => "Unknown"@,
        Code::BracketLeft => "Unknown"@,
        Code::BracketRight => "Unknown"@,
        Code::Backslash => "Unknown"@,
        Code::Semicolon => "Unknown"@,
        Code::Quote => "Unknown"@,
        Code::Backquote => "Unknown"@,
        Code::Comma => "Unknown"@,
        Code::Period => "Unknown"@,
        Code::Slash => "Unknown"@,
        Code::Numpad0 => "Unknown"@,
        Code::Numpad1 => "Unknown"@,
        Code::Numpad2 => "Unknown"@,
        Code::Numpad3 => "Unknown"@,
        Code::Numpad4 => "Unknown"@,
        Code::Numpad5 => "Unknown"@,
        Code::Numpad6 => "Unknown"@,
        Code::Numpad7 => "Unknown"@,
        Code::Numpad8 => "Unknown"@,
        Code::Numpad9 => "Unknown"@,
        Code::NumpadAdd => "Unknown"@,
        Code::NumpadSubtract => "Unknown"@,
        Code::NumpadMultiply => "Unknown"@,
        Code::NumpadDivide => "Unknown"@,
        Code::NumpadDecimal => "Unknown"@,
        Code::NumpadEnter => "Unknown"@,
        Code::AltLeft => "LeftAlt"@,
        Code::AltRight => "RightAlt"@,
        Code::ControlLeft => "LeftCtrl"@,
        Code::ControlRight => "RightCtrl"@,
        Code::ShiftLeft => "LeftShift"@,
        Code::ShiftRight => "RightShift"@,
        Code::MetaLeft => "LeftSuper"@,
        Code::MetaRight => "RightSuper"@,
    }
}

/// The key that the lower-case name `k` denotes, if any.
pub fn lookup_code(k: &Vec<char>) -> (r: Option<Code>)
    ensures
        r == code_from_name(k@),
{
    if chars_eq_str(k, "a") {
        return Some(Code::KeyA);
    }
    if chars_eq_str(k, "b") {
        return Some(Code::KeyB);
    }
    if chars_eq_str(k, "c") {
        return Some(Code::KeyC);
    }
    if chars_eq_str(k, "d") {
        return Some(Code::KeyD);
    }
    if chars_eq_str(k, "e") {
        return Some(Code::KeyE);
    }
    if chars_eq_str(k, "f") {
        return Some(Code::KeyF);
    }
    if chars_eq_str(k, "g") {
        return Some(Code::KeyG);
    }
    if chars_eq_str(k, "h") {
        return Some(Code::KeyH);
    }
    if chars_eq_str(k, "i") {
        return Some(Code::KeyI);
    }
    if chars_eq_str(k, "j") {
        return Some(Code::KeyJ);
    }
    if chars_eq_str(k, "k") {
        return Some(Code::KeyK);
    }
    if chars_eq_str(k, "l") {
        return Some(Code::KeyL);
    }
    if chars_eq_str(k, "m") {
        return Some(Code::KeyM);
    }
    if chars_eq_str(k, "n") {
        return Some(Code::KeyN);
    }
    if chars_eq_str(k, "o") {
        return Some(Code::KeyO);
    }
    if chars_eq_str(k, "p") {
        return Some(Code::KeyP);
    }
    if chars_eq_str(k, "q") {
        return Some(Code::KeyQ);
    }
    if chars_eq_str(k, "r") {
        return Some(Code::KeyR);
    }
    if chars_eq_str(k, "s") {
        return Some(Code::KeyS);
    }
    if chars_eq_str(k, "t") {
        return Some(Code::KeyT);
    }
    if chars_eq_str(k, "u") {
        return Some(Code::KeyU);
    }
    if chars_eq_str(k, "v") {
        return Some(Code::KeyV);
    }
    if chars_eq_str(k, "w") {
        return Some(Code::KeyW);
    }
    if chars_eq_str(k, "x") {
        return Some(Code::KeyX);
    }
    if chars_eq_str(k, "y") {
        return Some(Code::KeyY);
    }
    if chars_eq_str(k, "z") {
        return Some(Code::KeyZ);
    }
    if chars_eq_str(k, "0") || chars_eq_str(k, "digit0") {
        return Some(Code::Digit0);
    }
    if chars_eq_str(k, "1") || chars_eq_str(k, "digit1") {
        return Some(Code::Digit1);
    }
    if chars_eq_str(k, "2") || chars_eq_str(k, "digit2") {
        return Some(Code::Digit2);
    }
    if chars_eq_str(k, "3") || chars_eq_str(k, "digit3") {
        return Some(Code::Digit3);
    }
    if chars_eq_str(k, "4") || chars_eq_str(k, "digit4") {
        return Some(Code::Digit4);
    }
    if chars_eq_str(k, "5") || chars_eq_str(k, "digit5") {
        return Some(Code::Digit5);
    }
    if chars_eq_str(k, "6") || chars_eq_str(k, "digit6") {
        return Some(Code::Digit6);
    }
    if chars_eq_str(k, "7") || chars_eq_str(k, "digit7") {
        return Some(Code::Digit7);
    }
    if chars_eq_str(k, "8") || chars_eq_str(k, "digit8") {
        return Some(Code::Digit8);
    }
    if chars_eq_str(k, "9") || chars_eq_str(k, "digit9") {
        return Some(Code::Digit9);
    }
    if chars_eq_str(k, "f1") {
        return Some(Code::F1);
    }
    if chars_eq_str(k, "f2") {
        return Some(Code::F2);
    }
    if chars_eq_str(k, "f3") {
        return Some(Code::F3);
    }
    if chars_eq_str(k, "f4") {
        return Some(Code::F4);
    }
    if chars_eq_str(k, "f5") {
        return Some(Code::F5);
    }
    if chars_eq_str(k, "f6") {
        return Some(Code::F6);
    }
    if chars_eq_str(k, "f7") {
        return Some(Code::F7);
    }
    if chars_eq_str(k, "f8") {
        return Some(Code::F8);
    }
    if chars_eq_str(k, "f9") {
        return Some(Code::F9);
    }
    if chars_eq_str(k, "f10") {
        return Some(Code::F10);
    }
    if chars_eq_str(k, "f11") {
        return Some(Code::F11);
    }
    if chars_eq_str(k, "f12") {
        return Some(Code::F12);
    }
    if chars_eq_str(k, "space") || chars_eq_str(k, " ") {
        return Some(Code::Space);
    }
    if chars_eq_str(k, "enter") || chars_eq_str(k, "return") {
        return Some(Code::Enter);
    }
    if chars_eq_str(k, "tab") {
        return Some(Code::Tab);
    }
    if chars_eq_str(k, "escape") || chars_eq_str(k, "esc") {
        return Some(Code::Escape);
    }
    if chars_eq_str(k, "backspace") {
        return Some(Code::Backspace);
    }
    if chars_eq_str(k, "delete") || chars_eq_str(k, "del") {
        return Some(Code::Delete);
    }
    if chars_eq_str(k, "insert") || chars_eq_str(k, "ins") {
        return Some(Code::Insert);
    }
    if chars_eq_str(k, "home") {
        return Some(Code::Home);
    }
    if chars_eq_str(k, "end") {
        return Some(Code::End);
    }
    if chars_eq_str(k, "pageup") || chars_eq_str(k, "pgup") {
        return Some(Code::PageUp);
    }
    if chars_eq_str(k, "pagedown") || chars_eq_str(k, "pgdn") {
        return Some(Code::PageDown);
    }
    if chars_eq_str(k, "up") || chars_eq_str(k, "arrowup") {
        return Some(Code::ArrowUp);
    }
    if chars_eq_str(k, "down") || chars_eq_str(k, "arrowdown") {
        return Some(Code::ArrowDown);
    }
    if chars_eq_str(k, "left") || chars_eq_str(k, "arrowleft") {
        return Some(Code::ArrowLeft);
    }
    if chars_eq_str(k, "right") || chars_eq_str(k, "arrowright") {
        return Some(Code::ArrowRight);
    }
    if chars_eq_str(k, "minus") || chars_eq_str(k, "-") {
        return Some(Code::Minus);
    }
    if chars_eq_str(k, "equal") || chars_eq_str(k, "equals") || chars_eq_str(k, "=") {
        return Some(Code::Equal);
    }
    if chars_eq_str(k, "bracketleft") || chars_eq_str(k, "[") {
        return Some(Code::BracketLeft);
    }
    if chars_eq_str(k, "bracketright") || chars_eq_str(k, "]") {
        return Some(Code::BracketRight);
    }
    if chars_eq_str(k, "backslash") || chars_eq_str(k, "\\") {
        return Some(Code::Backslash);
    }
    if chars_eq_str(k, "semicolon") || chars_eq_str(k, ";") {
        return Some(Code::Semicolon);
    }
    if chars_eq_str(k, "quote") || chars_eq_str(k, "'") {
        return Some(Code::Quote);
    }
    if chars_eq_str(k, "backquote") || chars_eq_str(k, "`") {
        return Some(Code::Backquote);
    }
    if chars_eq_str(k, "comma") || chars_eq_str(k, ",") {
        return Some(Code::Comma);
    }
    if chars_eq_str(k, "period") || chars_eq_str(k, ".") {
        return Some(Code::Period);
    }
    if chars_eq_str(k, "slash") || chars_eq_str(k, "/") {
        return Some(Code::Slash);
    }
    if chars_eq_str(k, "numpad0") || chars_eq_str(k, "num0") {
        return Some(Code::Numpad0);
    }
    if chars_eq_str(k, "numpad1") || chars_eq_str(k, "num1") {
        return Some(Code::Numpad1);
    }
    if chars_eq_str(k, "numpad2") || chars_eq_str(k, "num2") {
        return Some(Code::Numpad2);
    }
    if chars_eq_str(k, "numpad3") || chars_eq_str(k, "num3") {
        return Some(Code::Numpad3);
    }
    if chars_eq_str(k, "numpad4") || chars_eq_str(k, "num4") {
        return Some(Code::Numpad4);
    }
    if chars_eq_str(k, "numpad5") || chars_eq_str(k, "num5") {
        return Some(Code::Numpad5);
    }
    if chars_eq_str(k, "numpad6") || chars_eq_str(k, "num6") {
        return Some(Code::Numpad6);
    }
    if chars_eq_str(k, "numpad7") || chars_eq_str(k, "num7") {
        return Some(Code::Numpad7);
    }
    if chars_eq_str(k, "numpad8") || chars_eq_str(k, "num8") {
        return Some(Code::Numpad8);
    }
    if chars_eq_str(k, "numpad9") || chars_eq_str(k, "num9") {
        return Some(Code::Numpad9);
    }
    if chars_eq_str(k, "numpadadd") || chars_eq_str(k, "numpadplus") {
        return Some(Code::NumpadAdd);
    }
    if chars_eq_str(k, "numpadsubtract") || chars_eq_str(k, "numpadminus") {
        return Some(Code::NumpadSubtract);
    }
    if chars_eq_str(k, "numpadmultiply") || chars_eq_str(k, "numpadstar") {
        return Some(Code::NumpadMultiply);
    }
    if chars_eq_str(k, "numpaddivide") || chars_eq_str(k, "numpadslash") {
        return Some(Code::NumpadDivide);
    }
    if chars_eq_str(k, "numpaddecimal") || chars_eq_str(k, "numpaddot") {
        return Some(Code::NumpadDecimal);
    }
    if chars_eq_str(k, "numpadenter") {
        return Some(Code::NumpadEnter);
    }
    if chars_eq_str(k, "altleft") || chars_eq_str(k, "leftalt") || chars_eq_str(k, "lalt") {
        return Some(Code::AltLeft);
    }
    if chars_eq_str(k, "altright") || chars_eq_str(k, "rightalt") || chars_eq_str(k, "ralt") || chars_eq_str(k, "altgr") {
        return Some(Code::AltRight);
    }
    if chars_eq_str(k, "controlleft") || chars_eq_str(k, "leftctrl") || chars_eq_str(k, "lctrl") {
        return Some(Code::ControlLeft);
    }
    if chars_eq_str(k, "controlright") || chars_eq_str(k, "rightctrl") || chars_eq_str(k, "rctrl") {
        return Some(Code::ControlRight);
    }
    if chars_eq_str(k, "shiftleft") || chars_eq_str(k, "leftshift") || chars_eq_str(k, "lshift") {
        return Some(Code::ShiftLeft);
    }
    if chars_eq_str(k, "shiftright") || chars_eq_str(k, "rightshift") || chars_eq_str(k, "rshift") {
        return Some(Code::ShiftRight);
    }
    if chars_eq_str(k, "metaleft") || chars_eq_str(k, "leftmeta") || chars_eq_str(k, "lmeta") || chars_eq_str(k, "leftsuper") || chars_eq_str(k, "lsuper") {
        return Some(Code::MetaLeft);
    }
    if chars_eq_str(k, "metaright") || chars_eq_str(k, "rightmeta") || chars_eq_str(k, "rmeta") || chars_eq_str(k, "rightsuper") || chars_eq_str(k, "rsuper") {
        return Some(Code::MetaRight);
    }
    None
}

/// The display name of `code`.
pub fn code_to_string(code: Code) -> (r: &'static str)
    ensures
        r@ == code_display(code),
{
    match code {
        Code::KeyA => "A",
        Code::KeyB => "B",
        Code::KeyC => "C",
        Code::KeyD => "D",
        Code::KeyE => "E",
        Code::KeyF => "F",
        Code::KeyG => "G",
        Code::KeyH => "H",
        Code::KeyI => "I",
        Code::KeyJ => "J",
        Code::KeyK => "K",
        Code::KeyL => "L",
        Code::KeyM => "M",
        Code::KeyN => "N",
        Code::KeyO => "O",
        Code::KeyP => "P",
        Code::KeyQ => "Q",
        Code::KeyR => "R",
        Code::KeyS => "S",
        Code::KeyT => "T",
        Code::KeyU => "U",
        Code::KeyV => "V",
        Code::KeyW => "W",
        Code::KeyX => "X",
        Code::KeyY => "Y",
        Code::KeyZ => "Z",
        Code::Digit0 => "0",
        Code::Digit1 => "1",
        Code::Digit2 => "2",
        Code::Digit3 => "3",
        Code::Digit4 => "4",
        Code::Digit5 => "5",
        Code::Digit6 => "6",
        Code::Digit7 => "7",
        Code::Digit8 => "8",
        Code::Digit9 => "9",
        Code::F1 => "F1",
        Code::F2 => "F2",
        Code::F3 => "F3",
        Code::F4 => "F4",
        Code::F5 => "F5",
        Code::F6 => "F6",
        Code::F7 => "F7",
        Code::F8 => "F8",
        Code::F9 => "F9",
        Code::F10 => "F10",
        Code::F11 => "F11",
        Code::F12 => "F12",
        Code::Space => "Space",
        Code::Enter => "Enter",
        Code::Tab => "Tab",
        Code::Escape => "Escape",
        Code::Backspace => "Backspace",
        Code::Delete => "Delete",
        Code::Insert => "Insert",
        Code::Home => "Home",
        Code::End => "End",
        Code::PageUp => "PageUp",
        Code::PageDown => "PageDown",
        Code::ArrowUp => "Up",
        Code::ArrowDown => "Down",
        Code::ArrowLeft => "Left",
        Code::ArrowRight => "Right",
        Code::Minus => "Unknown",
        Code::Equal => "Unknown",
        Code::BracketLeft => "Unknown",
        Code::BracketRight => "Unknown",
        Code::Backslash => "Unknown",
        Code::Semicolon => "Unknown",
        Code::Quote => "Unknown",
        Code::Backquote => "Unknown",
        Code::Comma => "Unknown",
        Code::Period => "Unknown",
        Code::Slash => "Unknown",
        Code::Numpad0 => "Unknown",
        Code::Numpad1 => "Unknown",
        Code::Numpad2 => "Unknown",
        Code::Numpad3 => "Unknown",
        Code::Numpad4 => "Unknown",
        Code::Numpad5 => "Unknown",
        Code::Numpad6 => "Unknown",
        Code::Numpad7 => "Unknown",
        Code::Numpad8 => "Unknown",
        Code::Numpad9 => "Unknown",
        Code::NumpadAdd => "Unknown",
        Code::NumpadSubtract => "Unknown",
        Code::NumpadMultiply => "Unknown",
        Code::NumpadDivide => "Unknown",
        Code::NumpadDecimal => "Unknown",
        Code::NumpadEnter => "Unknown",
        Code::AltLeft => "LeftAlt",
        Code::AltRight => "RightAlt",
        Code::ControlLeft => "LeftCtrl",
        Code::ControlRight => "RightCtrl",
        Code::ShiftLeft => "LeftShift",
        Code::ShiftRight => "RightShift",
        Code::MetaLeft => "LeftSuper",
        Code::MetaRight => "RightSuper",
    }
}

} // verus!
