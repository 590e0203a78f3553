//! The key table: which keys' written names read back.
use vstd::prelude::*;
use crate::hotkeys::keys::{code_display, code_from_name, Code};
use crate::hotkeys::laws::{key_name_reads_back, law_shortcut_text_round_trip};
use crate::hotkeys::manager::{
    ascii_parse_shortcut, modifier_of_part, spec_shortcut_string, Shortcut, ShortcutParse,
};
use crate::platform::Platform;
use crate::text::{ascii_lower, is_ascii_chars};

verus! {

/// "unknown" names no key.
proof fn lemma_unknown_names_no_key()
    ensures
        ascii_lower("Unknown"@) == "unknown"@,
        code_from_name("unknown"@) is None,
{
    assert(ascii_lower("Unknown"@) =~= "unknown"@) by {
        reveal_strlit("Unknown");
        reveal_strlit("unknown");
    }
    reveal_strlit(" ");
    reveal_strlit("'");
    reveal_strlit(",");
    reveal_strlit("-");
    reveal_strlit(".");
    reveal_strlit("/");
    reveal_strlit("0");
    reveal_strlit("1");
    reveal_strlit("2");
    reveal_strlit("3");
    reveal_strlit("4");
    reveal_strlit("5");
    reveal_strlit("6");
    reveal_strlit("7");
    reveal_strlit("8");
    reveal_strlit("9");
    reveal_strlit(";");
    reveal_strlit("=");
    reveal_strlit("A");
    reveal_strlit("B");
    reveal_strlit("C");
    reveal_strlit("D");
    reveal_strlit("E");
    reveal_strlit("F");
    reveal_strlit("G");
    reveal_strlit("H");
    reveal_strlit("I");
    reveal_strlit("J");
    reveal_strlit("K");
    reveal_strlit("L");
    reveal_strlit("M");
    reveal_strlit("N");
    reveal_strlit("O");
    reveal_strlit("P");
    reveal_strlit("Q");
    reveal_strlit("R");
    reveal_strlit("S");
    reveal_strlit("T");
    reveal_strlit("U");
    reveal_strlit("V");
    reveal_strlit("W");
    reveal_strlit("X");
    reveal_strlit("Y");
    reveal_strlit("Z");
    reveal_strlit("[");
    reveal_strlit("\\");
    reveal_strlit("]");
    reveal_strlit("`");
    reveal_strlit("a");
    reveal_strlit("b");
    reveal_strlit("c");
    reveal_strlit("d");
    reveal_strlit("e");
    reveal_strlit("f");
    reveal_strlit("g");
    reveal_strlit("h");
    reveal_strlit("i");
    reveal_strlit("j");
    reveal_strlit("k");
    reveal_strlit("l");
    reveal_strlit("m");
    reveal_strlit("n");
    reveal_strlit("o");
    reveal_strlit("p");
    reveal_strlit("q");
    reveal_strlit("r");
    reveal_strlit("s");
    reveal_strlit("t");
    reveal_strlit("u");
    reveal_strlit("v");
    reveal_strlit("w");
    reveal_strlit("x");
    reveal_strlit("y");
    reveal_strlit("z");
    reveal_strlit("F1");
    reveal_strlit("F2");
    reveal_strlit("F3");
    reveal_strlit("F4");
    reveal_strlit("F5");
    reveal_strlit("F6");
    reveal_strlit("F7");
    reveal_strlit("F8");
    reveal_strlit("F9");
    reveal_strlit("Up");
    reveal_strlit("f1");
    reveal_strlit("f2");
    reveal_strlit("f3");
    reveal_strlit("f4");
    reveal_strlit("f5");
    reveal_strlit("f6");
    reveal_strlit("f7");
    reveal_strlit("f8");
    reveal_strlit("f9");
    reveal_strlit("up");
    reveal_strlit("End");
    reveal_strlit("F10");
    reveal_strlit("F11");
    reveal_strlit("F12");
    reveal_strlit("Tab");
    reveal_strlit("alt");
    reveal_strlit("cmd");
    reveal_strlit("del");
    reveal_strlit("end");
    reveal_strlit("esc");
    reveal_strlit("f10");
    reveal_strlit("f11");
    reveal_strlit("f12");
    reveal_strlit("ins");
    reveal_strlit("tab");
    reveal_strlit("win");
    reveal_strlit("Down");
    reveal_strlit("Home");
    reveal_strlit("Left");
    reveal_strlit("ctrl");
    reveal_strlit("down");
    reveal_strlit("home");
    reveal_strlit("lalt");
    reveal_strlit("left");
    reveal_strlit("meta");
    reveal_strlit("num0");
    reveal_strlit("num1");
    reveal_strlit("num2");
    reveal_strlit("num3");
    reveal_strlit("num4");
    reveal_strlit("num5");
    reveal_strlit("num6");
    reveal_strlit("num7");
    reveal_strlit("num8");
    reveal_strlit("num9");
    reveal_strlit("pgdn");
    reveal_strlit("pgup");
    reveal_strlit("ralt");
    reveal_strlit("Enter");
    reveal_strlit("Right");
    reveal_strlit("Space");
    reveal_strlit("altgr");
    reveal_strlit("comma");
    reveal_strlit("enter");
    reveal_strlit("equal");
    reveal_strlit("lctrl");
    reveal_strlit("lmeta");
    reveal_strlit("minus");
    reveal_strlit("quote");
    reveal_strlit("rctrl");
    reveal_strlit("right");
    reveal_strlit("rmeta");
    reveal_strlit("shift");
    reveal_strlit("slash");
    reveal_strlit("space");
    reveal_strlit("super");
    reveal_strlit("Delete");
    reveal_strlit("Escape");
    reveal_strlit("Insert");
    reveal_strlit("PageUp");
    reveal_strlit("delete");
    reveal_strlit("digit0");
    reveal_strlit("digit1");
    reveal_strlit("digit2");
    reveal_strlit("digit3");
    reveal_strlit("digit4");
    reveal_strlit("digit5");
    reveal_strlit("digit6");
    reveal_strlit("digit7");
    reveal_strlit("digit8");
    reveal_strlit("digit9");
    reveal_strlit("equals");
    reveal_strlit("escape");
    reveal_strlit("insert");
    reveal_strlit("lshift");
    reveal_strlit("lsuper");
    reveal_strlit("option");
    reveal_strlit("pageup");
    reveal_strlit("period");
    reveal_strlit("return");
    reveal_strlit("rshift");
    reveal_strlit("rsuper");
    reveal_strlit("LeftAlt");
    reveal_strlit("Unknown");
    reveal_strlit("altleft");
    reveal_strlit("arrowup");
    reveal_strlit("command");
    reveal_strlit("control");
    reveal_strlit("leftalt");
    reveal_strlit("numpad0");
    reveal_strlit("numpad1");
    reveal_strlit("numpad2");
    reveal_strlit("numpad3");
    reveal_strlit("numpad4");
    reveal_strlit("numpad5");
    reveal_strlit("numpad6");
    reveal_strlit("numpad7");
    reveal_strlit("numpad8");
    reveal_strlit("numpad9");
    reveal_strlit("unknown");
    reveal_strlit("LeftCtrl");
    reveal_strlit("PageDown");
    reveal_strlit("RightAlt");
    reveal_strlit("altright");
    reveal_strlit("leftctrl");
    reveal_strlit("leftmeta");
    reveal_strlit("metaleft");
    reveal_strlit("pagedown");
    reveal_strlit("rightalt");
    reveal_strlit("Backspace");
    reveal_strlit("LeftShift");
    reveal_strlit("LeftSuper");
    reveal_strlit("RightCtrl");
    reveal_strlit("arrowdown");
    reveal_strlit("arrowleft");
    reveal_strlit("backquote");
    reveal_strlit("backslash");
    reveal_strlit("backspace");
    reveal_strlit("cmdorctrl");
    reveal_strlit("leftshift");
    reveal_strlit("leftsuper");
    reveal_strlit("metaright");
    reveal_strlit("numpadadd");
    reveal_strlit("numpaddot");
    reveal_strlit("rightctrl");
    reveal_strlit("rightmeta");
    reveal_strlit("semicolon");
    reveal_strlit("shiftleft");
    reveal_strlit("RightShift");
    reveal_strlit("RightSuper");
    reveal_strlit("arrowright");
    reveal_strlit("numpadplus");
    reveal_strlit("numpadstar");
    reveal_strlit("rightshift");
    reveal_strlit("rightsuper");
    reveal_strlit("shiftright");
    reveal_strlit("bracketleft");
    reveal_strlit("controlleft");
    reveal_strlit("numpadenter");
    reveal_strlit("numpadminus");
    reveal_strlit("numpadslash");
    reveal_strlit("bracketright");
    reveal_strlit("controlright");
    reveal_strlit("numpaddivide");
    reveal_strlit("numpaddecimal");
    reveal_strlit("numpadmultiply");
    reveal_strlit("numpadsubtract");
    reveal_strlit("commandorcontrol");
    assert("unknown"@[0] != "arrowup"@[0]);
    assert("unknown"@[0] != "numpad0"@[0]);
    assert("unknown"@[0] != "numpad1"@[0]);
    assert("unknown"@[0] != "numpad2"@[0]);
    assert("unknown"@[0] != "numpad3"@[0]);
    assert("unknown"@[0] != "numpad4"@[0]);
    assert("unknown"@[0] != "numpad5"@[0]);
    assert("unknown"@[0] != "numpad6"@[0]);
    assert("unknown"@[0] != "numpad7"@[0]);
    assert("unknown"@[0] != "numpad8"@[0]);
    assert("unknown"@[0] != "numpad9"@[0]);
    assert("unknown"@[0] != "altleft"@[0]);
    assert("unknown"@[0] != "leftalt"@[0]);
}

/// The table rows from `KeyA` to `KeyJ`: each key's written name reads back
/// as the key exactly when it is not "Unknown".
proof fn lemma_key_names_1(k: Code, platform: Platform)
    requires
        k == Code::KeyA || k == Code::KeyB || k == Code::KeyC || k == Code::KeyD || k == Code::KeyE || k == Code::KeyF || k == Code::KeyG || k == Code::KeyH || k == Code::KeyI || k == Code::KeyJ,
    ensures
        key_name_reads_back(k, platform) == (code_display(k) != "Unknown"@),
{
    reveal_strlit(" ");
    reveal_strlit("'");
    reveal_strlit(",");
    reveal_strlit("-");
    reveal_strlit(".");
    reveal_strlit("/");
    reveal_strlit("0");
    reveal_strlit("1");
    reveal_strlit("2");
    reveal_strlit("3");
    reveal_strlit("4");
    reveal_strlit("5");
    reveal_strlit("6");
    reveal_strlit("7");
    reveal_strlit("8");
    reveal_strlit("9");
    reveal_strlit(";");
    reveal_strlit("=");
    reveal_strlit("A");
    reveal_strlit("B");
    reveal_strlit("C");
    reveal_strlit("D");
    reveal_strlit("E");
    reveal_strlit("F");
    reveal_strlit("G");
    reveal_strlit("H");
    reveal_strlit("I");
    reveal_strlit("J");
    reveal_strlit("K");
    reveal_strlit("L");
    reveal_strlit("M");
    reveal_strlit("N");
    reveal_strlit("O");
    reveal_strlit("P");
    reveal_strlit("Q");
    reveal_strlit("R");
    reveal_strlit("S");
    reveal_strlit("T");
    reveal_strlit("U");
    reveal_strlit("V");
    reveal_strlit("W");
    reveal_strlit("X");
    reveal_strlit("Y");
    reveal_strlit("Z");
    reveal_strlit("[");
    reveal_strlit("\\");
    reveal_strlit("]");
    reveal_strlit("`");
    reveal_strlit("a");
    reveal_strlit("b");
    reveal_strlit("c");
    reveal_strlit("d");
    reveal_strlit("e");
    reveal_strlit("f");
    reveal_strlit("g");
    reveal_strlit("h");
    reveal_strlit("i");
    reveal_strlit("j");
    reveal_strlit("k");
    reveal_strlit("l");
    reveal_strlit("m");
    reveal_strlit("n");
    reveal_strlit("o");
    reveal_strlit("p");
    reveal_strlit("q");
    reveal_strlit("r");
    reveal_strlit("s");
    reveal_strlit("t");
    reveal_strlit("u");
    reveal_strlit("v");
    reveal_strlit("w");
    reveal_strlit("x");
    reveal_strlit("y");
    reveal_strlit("z");
    reveal_strlit("F1");
    reveal_strlit("F2");
    reveal_strlit("F3");
    reveal_strlit("F4");
    reveal_strlit("F5");
    reveal_strlit("F6");
    reveal_strlit("F7");
    reveal_strlit("F8");
    reveal_strlit("F9");
    reveal_strlit("Up");
    reveal_strlit("f1");
    reveal_strlit("f2");
    reveal_strlit("f3");
    reveal_strlit("f4");
    reveal_strlit("f5");
    reveal_strlit("f6");
    reveal_strlit("f7");
    reveal_strlit("f8");
    reveal_strlit("f9");
    reveal_strlit("up");
    reveal_strlit("End");
    reveal_strlit("F10");
    reveal_strlit("F11");
    reveal_strlit("F12");
    reveal_strlit("Tab");
    reveal_strlit("alt");
    reveal_strlit("cmd");
    reveal_strlit("del");
    reveal_strlit("end");
    reveal_strlit("esc");
    reveal_strlit("f10");
    reveal_strlit("f11");
    reveal_strlit("f12");
    reveal_strlit("ins");
    reveal_strlit("tab");
    reveal_strlit("win");
    reveal_strlit("Down");
    reveal_strlit("Home");
    reveal_strlit("Left");
    reveal_strlit("ctrl");
    reveal_strlit("down");
    reveal_strlit("home");
    reveal_strlit("lalt");
    reveal_strlit("left");
    reveal_strlit("meta");
    reveal_strlit("num0");
    reveal_strlit("num1");
    reveal_strlit("num2");
    reveal_strlit("num3");
    reveal_strlit("num4");
    reveal_strlit("num5");
    reveal_strlit("num6");
    reveal_strlit("num7");
    reveal_strlit("num8");
    reveal_strlit("num9");
    reveal_strlit("pgdn");
    reveal_strlit("pgup");
    reveal_strlit("ralt");
    reveal_strlit("Enter");
    reveal_strlit("Right");
    reveal_strlit("Space");
    reveal_strlit("altgr");
    reveal_strlit("comma");
    reveal_strlit("enter");
    reveal_strlit("equal");
    reveal_strlit("lctrl");
    reveal_strlit("lmeta");
    reveal_strlit("minus");
    reveal_strlit("quote");
    reveal_strlit("rctrl");
    reveal_strlit("right");
    reveal_strlit("rmeta");
    reveal_strlit("shift");
    reveal_strlit("slash");
    reveal_strlit("space");
    reveal_strlit("super");
    reveal_strlit("Delete");
    reveal_strlit("Escape");
    reveal_strlit("Insert");
    reveal_strlit("PageUp");
    reveal_strlit("delete");
    reveal_strlit("digit0");
    reveal_strlit("digit1");
    reveal_strlit("digit2");
    reveal_strlit("digit3");
    reveal_strlit("digit4");
    reveal_strlit("digit5");
    reveal_strlit("digit6");
    reveal_strlit("digit7");
    reveal_strlit("digit8");
    reveal_strlit("digit9");
    reveal_strlit("equals");
    reveal_strlit("escape");
    reveal_strlit("insert");
    reveal_strlit("lshift");
    reveal_strlit("lsuper");
    reveal_strlit("option");
    reveal_strlit("pageup");
    reveal_strlit("period");
    reveal_strlit("return");
    reveal_strlit("rshift");
    reveal_strlit("rsuper");
    reveal_strlit("LeftAlt");
    reveal_strlit("Unknown");
    reveal_strlit("altleft");
    reveal_strlit("arrowup");
    reveal_strlit("command");
    reveal_strlit("control");
    reveal_strlit("leftalt");
    reveal_strlit("numpad0");
    reveal_strlit("numpad1");
    reveal_strlit("numpad2");
    reveal_strlit("numpad3");
    reveal_strlit("numpad4");
    reveal_strlit("numpad5");
    reveal_strlit("numpad6");
    reveal_strlit("numpad7");
    reveal_strlit("numpad8");
    reveal_strlit("numpad9");
    reveal_strlit("unknown");
    reveal_strlit("LeftCtrl");
    reveal_strlit("PageDown");
    reveal_strlit("RightAlt");
    reveal_strlit("altright");
    reveal_strlit("leftctrl");
    reveal_strlit("leftmeta");
    reveal_strlit("metaleft");
    reveal_strlit("pagedown");
    reveal_strlit("rightalt");
    reveal_strlit("Backspace");
    reveal_strlit("LeftShift");
    reveal_strlit("LeftSuper");
    reveal_strlit("RightCtrl");
    reveal_strlit("arrowdown");
    reveal_strlit("arrowleft");
    reveal_strlit("backquote");
    reveal_strlit("backslash");
    reveal_strlit("backspace");
    reveal_strlit("cmdorctrl");
    reveal_strlit("leftshift");
    reveal_strlit("leftsuper");
    reveal_strlit("metaright");
    reveal_strlit("numpadadd");
    reveal_strlit("numpaddot");
    reveal_strlit("rightctrl");
    reveal_strlit("rightmeta");
    reveal_strlit("semicolon");
    reveal_strlit("shiftleft");
    reveal_strlit("RightShift");
    reveal_strlit("RightSuper");
    reveal_strlit("arrowright");
    reveal_strlit("numpadplus");
    reveal_strlit("numpadstar");
    reveal_strlit("rightshift");
    reveal_strlit("rightsuper");
    reveal_strlit("shiftright");
    reveal_strlit("bracketleft");
    reveal_strlit("controlleft");
    reveal_strlit("numpadenter");
    reveal_strlit("numpadminus");
    reveal_strlit("numpadslash");
    reveal_strlit("bracketright");
    reveal_strlit("controlright");
    reveal_strlit("numpaddivide");
    reveal_strlit("numpaddecimal");
    reveal_strlit("numpadmultiply");
    reveal_strlit("numpadsubtract");
    reveal_strlit("commandorcontrol");
    match k {
        Code::KeyA => {
            assert(ascii_lower("A"@) =~= "a"@) by {
                reveal_strlit("A");
                reveal_strlit("a");
            }
            assert(code_from_name("a"@) == Some(Code::KeyA)) by {
            }
            assert(modifier_of_part("a"@, platform) is None) by {
            }
            assert(is_ascii_chars("A"@) && "A"@ != "Unknown"@) by {
            }
        },
        Code::KeyB => {
            assert(ascii_lower("B"@) =~= "b"@) by {
                reveal_strlit("B");
                reveal_strlit("b");
            }
            assert(code_from_name("b"@) == Some(Code::KeyB)) by {
                assert("b"@[0] != "a"@[0]);
            }
            assert(modifier_of_part("b"@, platform) is None) by {
            }
            assert(is_ascii_chars("B"@) && "B"@ != "Unknown"@) by {
            }
        },
        Code::KeyC => {
            assert(ascii_lower("C"@) =~= "c"@) by {
                reveal_strlit("C");
                reveal_strlit("c");
            }
            assert(code_from_name("c"@) == Some(Code::KeyC)) by {
                assert("c"@[0] != "a"@[0]);
                assert("c"@[0] != "b"@[0]);
            }
            assert(modifier_of_part("c"@, platform) is None) by {
            }
            assert(is_ascii_chars("C"@) && "C"@ != "Unknown"@) by {
            }
        },
        Code::KeyD => {
            assert(ascii_lower("D"@) =~= "d"@) by {
                reveal_strlit("D");
                reveal_strlit("d");
            }
            assert(code_from_name("d"@) == Some(Code::KeyD)) by {
                assert("d"@[0] != "a"@[0]);
                assert("d"@[0] != "b"@[0]);
                assert("d"@[0] != "c"@[0]);
            }
            assert(modifier_of_part("d"@, platform) is None) by {
            }
            assert(is_ascii_chars("D"@) && "D"@ != "Unknown"@) by {
            }
        },
        Code::KeyE => {
            assert(ascii_lower("E"@) =~= "e"@) by {
                reveal_strlit("E");
                reveal_strlit("e");
            }
            assert(code_from_name("e"@) == Some(Code::KeyE)) by {
                assert("e"@[0] != "a"@[0]);
                assert("e"@[0] != "b"@[0]);
                assert("e"@[0] != "c"@[0]);
                assert("e"@[0] != "d"@[0]);
            }
            assert(modifier_of_part("e"@, platform) is None) by {
            }
            assert(is_ascii_chars("E"@) && "E"@ != "Unknown"@) by {
            }
        },
        Code::KeyF => {
            assert(ascii_lower("F"@) =~= "f"@) by {
                reveal_strlit("F");
                reveal_strlit("f");
            }
            assert(code_from_name("f"@) == Some(Code::KeyF)) by {
                assert("f"@[0] != "a"@[0]);
                assert("f"@[0] != "b"@[0]);
                assert("f"@[0] != "c"@[0]);
                assert("f"@[0] != "d"@[0]);
                assert("f"@[0] != "e"@[0]);
            }
            assert(modifier_of_part("f"@, platform) is None) by {
            }
            assert(is_ascii_chars("F"@) && "F"@ != "Unknown"@) by {
            }
        },
        Code::KeyG => {
            assert(ascii_lower("G"@) =~= "g"@) by {
                reveal_strlit("G");
                reveal_strlit("g");
            }
            assert(code_from_name("g"@) == Some(Code::KeyG)) by {
                assert("g"@[0] != "a"@[0]);
                assert("g"@[0] != "b"@[0]);
                assert("g"@[0] != "c"@[0]);
                assert("g"@[0] != "d"@[0]);
                assert("g"@[0] != "e"@[0]);
                assert("g"@[0] != "f"@[0]);
            }
            assert(modifier_of_part("g"@, platform) is None) by {
            }
            assert(is_ascii_chars("G"@) && "G"@ != "Unknown"@) by {
            }
        },
        Code::KeyH => {
            assert(ascii_lower("H"@) =~= "h"@) by {
                reveal_strlit("H");
                reveal_strlit("h");
            }
            assert(code_from_name("h"@) == Some(Code::KeyH)) by {
                assert("h"@[0] != "a"@[0]);
                assert("h"@[0] != "b"@[0]);
                assert("h"@[0] != "c"@[0]);
                assert("h"@[0] != "d"@[0]);
                assert("h"@[0] != "e"@[0]);
                assert("h"@[0] != "f"@[0]);
                assert("h"@[0] != "g"@[0]);
            }
            assert(modifier_of_part("h"@, platform) is None) by {
            }
            assert(is_ascii_chars("H"@) && "H"@ != "Unknown"@) by {
            }
        },
        Code::KeyI => {
            assert(ascii_lower("I"@) =~= "i"@) by {
                reveal_strlit("I");
                reveal_strlit("i");
            }
            assert(code_from_name("i"@) == Some(Code::KeyI)) by {
                assert("i"@[0] != "a"@[0]);
                assert("i"@[0] != "b"@[0]);
                assert("i"@[0] != "c"@[0]);
                assert("i"@[0] != "d"@[0]);
                assert("i"@[0] != "e"@[0]);
                assert("i"@[0] != "f"@[0]);
                assert("i"@[0] != "g"@[0]);
                assert("i"@[0] != "h"@[0]);
            }
            assert(modifier_of_part("i"@, platform) is None) by {
            }
            assert(is_ascii_chars("I"@) && "I"@ != "Unknown"@) by {
            }
        },
        Code::KeyJ => {
            assert(ascii_lower("J"@) =~= "j"@) by {
                reveal_strlit("J");
                reveal_strlit("j");
            }
            assert(code_from_name("j"@) == Some(Code::KeyJ)) by {
                assert("j"@[0] != "a"@[0]);
                assert("j"@[0] != "b"@[0]);
                assert("j"@[0] != "c"@[0]);
                assert("j"@[0] != "d"@[0]);
                assert("j"@[0] != "e"@[0]);
                assert("j"@[0] != "f"@[0]);
                assert("j"@[0] != "g"@[0]);
                assert("j"@[0] != "h"@[0]);
                assert("j"@[0] != "i"@[0]);
            }
            assert(modifier_of_part("j"@, platform) is None) by {
            }
            assert(is_ascii_chars("J"@) && "J"@ != "Unknown"@) by {
            }
        },
        _ => {},
    }
}

/// The table rows from `KeyK` to `KeyT`: each key's written name reads back
/// as the key exactly when it is not "Unknown".
proof fn lemma_key_names_2(k: Code, platform: Platform)
    requires
        k == Code::KeyK || k == Code::KeyL || k == Code::KeyM || k == Code::KeyN || k == Code::KeyO || k == Code::KeyP || k == Code::KeyQ || k == Code::KeyR || k == Code::KeyS || k == Code::KeyT,
    ensures
        key_name_reads_back(k, platform) == (code_display(k) != "Unknown"@),
{
    reveal_strlit(" ");
    reveal_strlit("'");
    reveal_strlit(",");
    reveal_strlit("-");
    reveal_strlit(".");
    reveal_strlit("/");
    reveal_strlit("0");
    reveal_strlit("1");
    reveal_strlit("2");
    reveal_strlit("3");
    reveal_strlit("4");
    reveal_strlit("5");
    reveal_strlit("6");
    reveal_strlit("7");
    reveal_strlit("8");
    reveal_strlit("9");
    reveal_strlit(";");
    reveal_strlit("=");
    reveal_strlit("A");
    reveal_strlit("B");
    reveal_strlit("C");
    reveal_strlit("D");
    reveal_strlit("E");
    reveal_strlit("F");
    reveal_strlit("G");
    reveal_strlit("H");
    reveal_strlit("I");
    reveal_strlit("J");
    reveal_strlit("K");
    reveal_strlit("L");
    reveal_strlit("M");
    reveal_strlit("N");
    reveal_strlit("O");
    reveal_strlit("P");
    reveal_strlit("Q");
    reveal_strlit("R");
    reveal_strlit("S");
    reveal_strlit("T");
    reveal_strlit("U");
    reveal_strlit("V");
    reveal_strlit("W");
    reveal_strlit("X");
    reveal_strlit("Y");
    reveal_strlit("Z");
    reveal_strlit("[");
    reveal_strlit("\\");
    reveal_strlit("]");
    reveal_strlit("`");
    reveal_strlit("a");
    reveal_strlit("b");
    reveal_strlit("c");
    reveal_strlit("d");
    reveal_strlit("e");
    reveal_strlit("f");
    reveal_strlit("g");
    reveal_strlit("h");
    reveal_strlit("i");
    reveal_strlit("j");
    reveal_strlit("k");
    reveal_strlit("l");
    reveal_strlit("m");
    reveal_strlit("n");
    reveal_strlit("o");
    reveal_strlit("p");
    reveal_strlit("q");
    reveal_strlit("r");
    reveal_strlit("s");
    reveal_strlit("t");
    reveal_strlit("u");
    reveal_strlit("v");
    reveal_strlit("w");
    reveal_strlit("x");
    reveal_strlit("y");
    reveal_strlit("z");
    reveal_strlit("F1");
    reveal_strlit("F2");
    reveal_strlit("F3");
    reveal_strlit("F4");
    reveal_strlit("F5");
    reveal_strlit("F6");
    reveal_strlit("F7");
    reveal_strlit("F8");
    reveal_strlit("F9");
    reveal_strlit("Up");
    reveal_strlit("f1");
    reveal_strlit("f2");
    reveal_strlit("f3");
    reveal_strlit("f4");
    reveal_strlit("f5");
    reveal_strlit("f6");
    reveal_strlit("f7");
    reveal_strlit("f8");
    reveal_strlit("f9");
    reveal_strlit("up");
    reveal_strlit("End");
    reveal_strlit("F10");
    reveal_strlit("F11");
    reveal_strlit("F12");
    reveal_strlit("Tab");
    reveal_strlit("alt");
    reveal_strlit("cmd");
    reveal_strlit("del");
    reveal_strlit("end");
    reveal_strlit("esc");
    reveal_strlit("f10");
    reveal_strlit("f11");
    reveal_strlit("f12");
    reveal_strlit("ins");
    reveal_strlit("tab");
    reveal_strlit("win");
    reveal_strlit("Down");
    reveal_strlit("Home");
    reveal_strlit("Left");
    reveal_strlit("ctrl");
    reveal_strlit("down");
    reveal_strlit("home");
    reveal_strlit("lalt");
    reveal_strlit("left");
    reveal_strlit("meta");
    reveal_strlit("num0");
    reveal_strlit("num1");
    reveal_strlit("num2");
    reveal_strlit("num3");
    reveal_strlit("num4");
    reveal_strlit("num5");
    reveal_strlit("num6");
    reveal_strlit("num7");
    reveal_strlit("num8");
    reveal_strlit("num9");
    reveal_strlit("pgdn");
    reveal_strlit("pgup");
    reveal_strlit("ralt");
    reveal_strlit("Enter");
    reveal_strlit("Right");
    reveal_strlit("Space");
    reveal_strlit("altgr");
    reveal_strlit("comma");
    reveal_strlit("enter");
    reveal_strlit("equal");
    reveal_strlit("lctrl");
    reveal_strlit("lmeta");
    reveal_strlit("minus");
    reveal_strlit("quote");
    reveal_strlit("rctrl");
    reveal_strlit("right");
    reveal_strlit("rmeta");
    reveal_strlit("shift");
    reveal_strlit("slash");
    reveal_strlit("space");
    reveal_strlit("super");
    reveal_strlit("Delete");
    reveal_strlit("Escape");
    reveal_strlit("Insert");
    reveal_strlit("PageUp");
    reveal_strlit("delete");
    reveal_strlit("digit0");
    reveal_strlit("digit1");
    reveal_strlit("digit2");
    reveal_strlit("digit3");
    reveal_strlit("digit4");
    reveal_strlit("digit5");
    reveal_strlit("digit6");
    reveal_strlit("digit7");
    reveal_strlit("digit8");
    reveal_strlit("digit9");
    reveal_strlit("equals");
    reveal_strlit("escape");
    reveal_strlit("insert");
    reveal_strlit("lshift");
    reveal_strlit("lsuper");
    reveal_strlit("option");
    reveal_strlit("pageup");
    reveal_strlit("period");
    reveal_strlit("return");
    reveal_strlit("rshift");
    reveal_strlit("rsuper");
    reveal_strlit("LeftAlt");
    reveal_strlit("Unknown");
    reveal_strlit("altleft");
    reveal_strlit("arrowup");
    reveal_strlit("command");
    reveal_strlit("control");
    reveal_strlit("leftalt");
    reveal_strlit("numpad0");
    reveal_strlit("numpad1");
    reveal_strlit("numpad2");
    reveal_strlit("numpad3");
    reveal_strlit("numpad4");
    reveal_strlit("numpad5");
    reveal_strlit("numpad6");
    reveal_strlit("numpad7");
    reveal_strlit("numpad8");
    reveal_strlit("numpad9");
    reveal_strlit("unknown");
    reveal_strlit("LeftCtrl");
    reveal_strlit("PageDown");
    reveal_strlit("RightAlt");
    reveal_strlit("altright");
    reveal_strlit("leftctrl");
    reveal_strlit("leftmeta");
    reveal_strlit("metaleft");
    reveal_strlit("pagedown");
    reveal_strlit("rightalt");
    reveal_strlit("Backspace");
    reveal_strlit("LeftShift");
    reveal_strlit("LeftSuper");
    reveal_strlit("RightCtrl");
    reveal_strlit("arrowdown");
    reveal_strlit("arrowleft");
    reveal_strlit("backquote");
    reveal_strlit("backslash");
    reveal_strlit("backspace");
    reveal_strlit("cmdorctrl");
    reveal_strlit("leftshift");
    reveal_strlit("leftsuper");
    reveal_strlit("metaright");
    reveal_strlit("numpadadd");
    reveal_strlit("numpaddot");
    reveal_strlit("rightctrl");
    reveal_strlit("rightmeta");
    reveal_strlit("semicolon");
    reveal_strlit("shiftleft");
    reveal_strlit("RightShift");
    reveal_strlit("RightSuper");
    reveal_strlit("arrowright");
    reveal_strlit("numpadplus");
    reveal_strlit("numpadstar");
    reveal_strlit("rightshift");
    reveal_strlit("rightsuper");
    reveal_strlit("shiftright");
    reveal_strlit("bracketleft");
    reveal_strlit("controlleft");
    reveal_strlit("numpadenter");
    reveal_strlit("numpadminus");
    reveal_strlit("numpadslash");
    reveal_strlit("bracketright");
    reveal_strlit("controlright");
    reveal_strlit("numpaddivide");
    reveal_strlit("numpaddecimal");
    reveal_strlit("numpadmultiply");
    reveal_strlit("numpadsubtract");
    reveal_strlit("commandorcontrol");
    match k {
        Code::KeyK => {
            assert(ascii_lower("K"@) =~= "k"@) by {
                reveal_strlit("K");
                reveal_strlit("k");
            }
            assert(code_from_name("k"@) == Some(Code::KeyK)) by {
                assert("k"@[0] != "a"@[0]);
                assert("k"@[0] != "b"@[0]);
                assert("k"@[0] != "c"@[0]);
                assert("k"@[0] != "d"@[0]);
                assert("k"@[0] != "e"@[0]);
                assert("k"@[0] != "f"@[0]);
                assert("k"@[0] != "g"@[0]);
                assert("k"@[0] != "h"@[0]);
                assert("k"@[0] != "i"@[0]);
                assert("k"@[0] != "j"@[0]);
            }
            assert(modifier_of_part("k"@, platform) is None) by {
            }
            assert(is_ascii_chars("K"@) && "K"@ != "Unknown"@) by {
            }
        },
        Code::KeyL => {
            assert(ascii_lower("L"@) =~= "l"@) by {
                reveal_strlit("L");
                reveal_strlit("l");
            }
            assert(code_from_name("l"@) == Some(Code::KeyL)) by {
                assert("l"@[0] != "a"@[0]);
                assert("l"@[0] != "b"@[0]);
                assert("l"@[0] != "c"@[0]);
                assert("l"@[0] != "d"@[0]);
                assert("l"@[0] != "e"@[0]);
                assert("l"@[0] != "f"@[0]);
                assert("l"@[0] != "g"@[0]);
                assert("l"@[0] != "h"@[0]);
                assert("l"@[0] != "i"@[0]);
                assert("l"@[0] != "j"@[0]);
                assert("l"@[0] != "k"@[0]);
            }
            assert(modifier_of_part("l"@, platform) is None) by {
            }
            assert(is_ascii_chars("L"@) && "L"@ != "Unknown"@) by {
            }
        },
        Code::KeyM => {
            assert(ascii_lower("M"@) =~= "m"@) by {
                reveal_strlit("M");
                reveal_strlit("m");
            }
            assert(code_from_name("m"@) == Some(Code::KeyM)) by {
                assert("m"@[0] != "a"@[0]);
                assert("m"@[0] != "b"@[0]);
                assert("m"@[0] != "c"@[0]);
                assert("m"@[0] != "d"@[0]);
                assert("m"@[0] != "e"@[0]);
                assert("m"@[0] != "f"@[0]);
                assert("m"@[0] != "g"@[0]);
                assert("m"@[0] != "h"@[0]);
                assert("m"@[0] != "i"@[0]);
                assert("m"@[0] != "j"@[0]);
                assert("m"@[0] != "k"@[0]);
                assert("m"@[0] != "l"@[0]);
            }
            assert(modifier_of_part("m"@, platform) is None) by {
            }
            assert(is_ascii_chars("M"@) && "M"@ != "Unknown"@) by {
            }
        },
        Code::KeyN => {
            assert(ascii_lower("N"@) =~= "n"@) by {
                reveal_strlit("N");
                reveal_strlit("n");
            }
            assert(code_from_name("n"@) == Some(Code::KeyN)) by {
                assert("n"@[0] != "a"@[0]);
                assert("n"@[0] != "b"@[0]);
                assert("n"@[0] != "c"@[0]);
                assert("n"@[0] != "d"@[0]);
                assert("n"@[0] != "e"@[0]);
                assert("n"@[0] != "f"@[0]);
                assert("n"@[0] != "g"@[0]);
                assert("n"@[0] != "h"@[0]);
                assert("n"@[0] != "i"@[0]);
                assert("n"@[0] != "j"@[0]);
                assert("n"@[0] != "k"@[0]);
                assert("n"@[0] != "l"@[0]);
                assert("n"@[0] != "m"@[0]);
            }
            assert(modifier_of_part("n"@, platform) is None) by {
            }
            assert(is_ascii_chars("N"@) && "N"@ != "Unknown"@) by {
            }
        },
        Code::KeyO => {
            assert(ascii_lower("O"@) =~= "o"@) by {
                reveal_strlit("O");
                reveal_strlit("o");
            }
            assert(code_from_name("o"@) == Some(Code::KeyO)) by {
                assert("o"@[0] != "a"@[0]);
                assert("o"@[0] != "b"@[0]);
                assert("o"@[0] != "c"@[0]);
                assert("o"@[0] != "d"@[0]);
                assert("o"@[0] != "e"@[0]);
                assert("o"@[0] != "f"@[0]);
                assert("o"@[0] != "g"@[0]);
                assert("o"@[0] != "h"@[0]);
                assert("o"@[0] != "i"@[0]);
                assert("o"@[0] != "j"@[0]);
                assert("o"@[0] != "k"@[0]);
                assert("o"@[0] != "l"@[0]);
                assert("o"@[0] != "m"@[0]);
                assert("o"@[0] != "n"@[0]);
            }
            assert(modifier_of_part("o"@, platform) is None) by {
            }
            assert(is_ascii_chars("O"@) && "O"@ != "Unknown"@) by {
            }
        },
        Code::KeyP => {
            assert(ascii_lower("P"@) =~= "p"@) by {
                reveal_strlit("P");
                reveal_strlit("p");
            }
            assert(code_from_name("p"@) == Some(Code::KeyP)) by {
                assert("p"@[0] != "a"@[0]);
                assert("p"@[0] != "b"@[0]);
                assert("p"@[0] != "c"@[0]);
                assert("p"@[0] != "d"@[0]);
                assert("p"@[0] != "e"@[0]);
                assert("p"@[0] != "f"@[0]);
                assert("p"@[0] != "g"@[0]);
                assert("p"@[0] != "h"@[0]);
                assert("p"@[0] != "i"@[0]);
                assert("p"@[0] != "j"@[0]);
                assert("p"@[0] != "k"@[0]);
                assert("p"@[0] != "l"@[0]);
                assert("p"@[0] != "m"@[0]);
                assert("p"@[0] != "n"@[0]);
                assert("p"@[0] != "o"@[0]);
            }
            assert(modifier_of_part("p"@, platform) is None) by {
            }
            assert(is_ascii_chars("P"@) && "P"@ != "Unknown"@) by {
            }
        },
        Code::KeyQ => {
            assert(ascii_lower("Q"@) =~= "q"@) by {
                reveal_strlit("Q");
                reveal_strlit("q");
            }
            assert(code_from_name("q"@) == Some(Code::KeyQ)) by {
                assert("q"@[0] != "a"@[0]);
                assert("q"@[0] != "b"@[0]);
                assert("q"@[0] != "c"@[0]);
                assert("q"@[0] != "d"@[0]);
                assert("q"@[0] != "e"@[0]);
                assert("q"@[0] != "f"@[0]);
                assert("q"@[0] != "g"@[0]);
                assert("q"@[0] != "h"@[0]);
                assert("q"@[0] != "i"@[0]);
                assert("q"@[0] != "j"@[0]);
                assert("q"@[0] != "k"@[0]);
                assert("q"@[0] != "l"@[0]);
                assert("q"@[0] != "m"@[0]);
                assert("q"@[0] != "n"@[0]);
                assert("q"@[0] != "o"@[0]);
                assert("q"@[0] != "p"@[0]);
            }
            assert(modifier_of_part("q"@, platform) is None) by {
            }
            assert(is_ascii_chars("Q"@) && "Q"@ != "Unknown"@) by {
            }
        },
        Code::KeyR => {
            assert(ascii_lower("R"@) =~= "r"@) by {
                reveal_strlit("R");
                reveal_strlit("r");
            }
            assert(code_from_name("r"@) == Some(Code::KeyR)) by {
                assert("r"@[0] != "a"@[0]);
                assert("r"@[0] != "b"@[0]);
                assert("r"@[0] != "c"@[0]);
                assert("r"@[0] != "d"@[0]);
                assert("r"@[0] != "e"@[0]);
                assert("r"@[0] != "f"@[0]);
                assert("r"@[0] != "g"@[0]);
                assert("r"@[0] != "h"@[0]);
                assert("r"@[0] != "i"@[0]);
                assert("r"@[0] != "j"@[0]);
                assert("r"@[0] != "k"@[0]);
                assert("r"@[0] != "l"@[0]);
                assert("r"@[0] != "m"@[0]);
                assert("r"@[0] != "n"@[0]);
                assert("r"@[0] != "o"@[0]);
                assert("r"@[0] != "p"@[0]);
                assert("r"@[0] != "q"@[0]);
            }
            assert(modifier_of_part("r"@, platform) is None) by {
            }
            assert(is_ascii_chars("R"@) && "R"@ != "Unknown"@) by {
            }
        },
        Code::KeyS => {
            assert(ascii_lower("S"@) =~= "s"@) by {
                reveal_strlit("S");
                reveal_strlit("s");
            }
            assert(code_from_name("s"@) == Some(Code::KeyS)) by {
                assert("s"@[0] != "a"@[0]);
                assert("s"@[0] != "b"@[0]);
                assert("s"@[0] != "c"@[0]);
                assert("s"@[0] != "d"@[0]);
                assert("s"@[0] != "e"@[0]);
                assert("s"@[0] != "f"@[0]);
                assert("s"@[0] != "g"@[0]);
                assert("s"@[0] != "h"@[0]);
                assert("s"@[0] != "i"@[0]);
                assert("s"@[0] != "j"@[0]);
                assert("s"@[0] != "k"@[0]);
                assert("s"@[0] != "l"@[0]);
                assert("s"@[0] != "m"@[0]);
                assert("s"@[0] != "n"@[0]);
                assert("s"@[0] != "o"@[0]);
                assert("s"@[0] != "p"@[0]);
                assert("s"@[0] != "q"@[0]);
                assert("s"@[0] != "r"@[0]);
            }
            assert(modifier_of_part("s"@, platform) is None) by {
            }
            assert(is_ascii_chars("S"@) && "S"@ != "Unknown"@) by {
            }
        },
        Code::KeyT => {
            assert(ascii_lower("T"@) =~= "t"@) by {
                reveal_strlit("T");
                reveal_strlit("t");
            }
            assert(code_from_name("t"@) == Some(Code::KeyT)) by {
                assert("t"@[0] != "a"@[0]);
                assert("t"@[0] != "b"@[0]);
                assert("t"@[0] != "c"@[0]);
                assert("t"@[0] != "d"@[0]);
                assert("t"@[0] != "e"@[0]);
                assert("t"@[0] != "f"@[0]);
                assert("t"@[0] != "g"@[0]);
                assert("t"@[0] != "h"@[0]);
                assert("t"@[0] != "i"@[0]);
                assert("t"@[0] != "j"@[0]);
                assert("t"@[0] != "k"@[0]);
                assert("t"@[0] != "l"@[0]);
                assert("t"@[0] != "m"@[0]);
                assert("t"@[0] != "n"@[0]);
                assert("t"@[0] != "o"@[0]);
                assert("t"@[0] != "p"@[0]);
                assert("t"@[0] != "q"@[0]);
                assert("t"@[0] != "r"@[0]);
                assert("t"@[0] != "s"@[0]);
            }
            assert(modifier_of_part("t"@, platform) is None) by {
            }
            assert(is_ascii_chars("T"@) && "T"@ != "Unknown"@) by {
            }
        },
        _ => {},
    }
}

/// The table rows from `KeyU` to `Digit3`: each key's written name reads back
/// as the key exactly when it is not "Unknown".
proof fn lemma_key_names_3(k: Code, platform: Platform)
    requires
        k == Code::KeyU || k == Code::KeyV || k == Code::KeyW || k == Code::KeyX || k == Code::KeyY || k == Code::KeyZ || k == Code::Digit0 || k == Code::Digit1 || k == Code::Digit2 || k == Code::Digit3,
    ensures
        key_name_reads_back(k, platform) == (code_display(k) != "Unknown"@),
{
    reveal_strlit(" ");
    reveal_strlit("'");
    reveal_strlit(",");
    reveal_strlit("-");
    reveal_strlit(".");
    reveal_strlit("/");
    reveal_strlit("0");
    reveal_strlit("1");
    reveal_strlit("2");
    reveal_strlit("3");
    reveal_strlit("4");
    reveal_strlit("5");
    reveal_strlit("6");
    reveal_strlit("7");
    reveal_strlit("8");
    reveal_strlit("9");
    reveal_strlit(";");
    reveal_strlit("=");
    reveal_strlit("A");
    reveal_strlit("B");
    reveal_strlit("C");
    reveal_strlit("D");
    reveal_strlit("E");
    reveal_strlit("F");
    reveal_strlit("G");
    reveal_strlit("H");
    reveal_strlit("I");
    reveal_strlit("J");
    reveal_strlit("K");
    reveal_strlit("L");
    reveal_strlit("M");
    reveal_strlit("N");
    reveal_strlit("O");
    reveal_strlit("P");
    reveal_strlit("Q");
    reveal_strlit("R");
    reveal_strlit("S");
    reveal_strlit("T");
    reveal_strlit("U");
    reveal_strlit("V");
    reveal_strlit("W");
    reveal_strlit("X");
    reveal_strlit("Y");
    reveal_strlit("Z");
    reveal_strlit("[");
    reveal_strlit("\\");
    reveal_strlit("]");
    reveal_strlit("`");
    reveal_strlit("a");
    reveal_strlit("b");
    reveal_strlit("c");
    reveal_strlit("d");
    reveal_strlit("e");
    reveal_strlit("f");
    reveal_strlit("g");
    reveal_strlit("h");
    reveal_strlit("i");
    reveal_strlit("j");
    reveal_strlit("k");
    reveal_strlit("l");
    reveal_strlit("m");
    reveal_strlit("n");
    reveal_strlit("o");
    reveal_strlit("p");
    reveal_strlit("q");
    reveal_strlit("r");
    reveal_strlit("s");
    reveal_strlit("t");
    reveal_strlit("u");
    reveal_strlit("v");
    reveal_strlit("w");
    reveal_strlit("x");
    reveal_strlit("y");
    reveal_strlit("z");
    reveal_strlit("F1");
    reveal_strlit("F2");
    reveal_strlit("F3");
    reveal_strlit("F4");
    reveal_strlit("F5");
    reveal_strlit("F6");
    reveal_strlit("F7");
    reveal_strlit("F8");
    reveal_strlit("F9");
    reveal_strlit("Up");
    reveal_strlit("f1");
    reveal_strlit("f2");
    reveal_strlit("f3");
    reveal_strlit("f4");
    reveal_strlit("f5");
    reveal_strlit("f6");
    reveal_strlit("f7");
    reveal_strlit("f8");
    reveal_strlit("f9");
    reveal_strlit("up");
    reveal_strlit("End");
    reveal_strlit("F10");
    reveal_strlit("F11");
    reveal_strlit("F12");
    reveal_strlit("Tab");
    reveal_strlit("alt");
    reveal_strlit("cmd");
    reveal_strlit("del");
    reveal_strlit("end");
    reveal_strlit("esc");
    reveal_strlit("f10");
    reveal_strlit("f11");
    reveal_strlit("f12");
    reveal_strlit("ins");
    reveal_strlit("tab");
    reveal_strlit("win");
    reveal_strlit("Down");
    reveal_strlit("Home");
    reveal_strlit("Left");
    reveal_strlit("ctrl");
    reveal_strlit("down");
    reveal_strlit("home");
    reveal_strlit("lalt");
    reveal_strlit("left");
    reveal_strlit("meta");
    reveal_strlit("num0");
    reveal_strlit("num1");
    reveal_strlit("num2");
    reveal_strlit("num3");
    reveal_strlit("num4");
    reveal_strlit("num5");
    reveal_strlit("num6");
    reveal_strlit("num7");
    reveal_strlit("num8");
    reveal_strlit("num9");
    reveal_strlit("pgdn");
    reveal_strlit("pgup");
    reveal_strlit("ralt");
    reveal_strlit("Enter");
    reveal_strlit("Right");
    reveal_strlit("Space");
    reveal_strlit("altgr");
    reveal_strlit("comma");
    reveal_strlit("enter");
    reveal_strlit("equal");
    reveal_strlit("lctrl");
    reveal_strlit("lmeta");
    reveal_strlit("minus");
    reveal_strlit("quote");
    reveal_strlit("rctrl");
    reveal_strlit("right");
    reveal_strlit("rmeta");
    reveal_strlit("shift");
    reveal_strlit("slash");
    reveal_strlit("space");
    reveal_strlit("super");
    reveal_strlit("Delete");
    reveal_strlit("Escape");
    reveal_strlit("Insert");
    reveal_strlit("PageUp");
    reveal_strlit("delete");
    reveal_strlit("digit0");
    reveal_strlit("digit1");
    reveal_strlit("digit2");
    reveal_strlit("digit3");
    reveal_strlit("digit4");
    reveal_strlit("digit5");
    reveal_strlit("digit6");
    reveal_strlit("digit7");
    reveal_strlit("digit8");
    reveal_strlit("digit9");
    reveal_strlit("equals");
    reveal_strlit("escape");
    reveal_strlit("insert");
    reveal_strlit("lshift");
    reveal_strlit("lsuper");
    reveal_strlit("option");
    reveal_strlit("pageup");
    reveal_strlit("period");
    reveal_strlit("return");
    reveal_strlit("rshift");
    reveal_strlit("rsuper");
    reveal_strlit("LeftAlt");
    reveal_strlit("Unknown");
    reveal_strlit("altleft");
    reveal_strlit("arrowup");
    reveal_strlit("command");
    reveal_strlit("control");
    reveal_strlit("leftalt");
    reveal_strlit("numpad0");
    reveal_strlit("numpad1");
    reveal_strlit("numpad2");
    reveal_strlit("numpad3");
    reveal_strlit("numpad4");
    reveal_strlit("numpad5");
    reveal_strlit("numpad6");
    reveal_strlit("numpad7");
    reveal_strlit("numpad8");
    reveal_strlit("numpad9");
    reveal_strlit("unknown");
    reveal_strlit("LeftCtrl");
    reveal_strlit("PageDown");
    reveal_strlit("RightAlt");
    reveal_strlit("altright");
    reveal_strlit("leftctrl");
    reveal_strlit("leftmeta");
    reveal_strlit("metaleft");
    reveal_strlit("pagedown");
    reveal_strlit("rightalt");
    reveal_strlit("Backspace");
    reveal_strlit("LeftShift");
    reveal_strlit("LeftSuper");
    reveal_strlit("RightCtrl");
    reveal_strlit("arrowdown");
    reveal_strlit("arrowleft");
    reveal_strlit("backquote");
    reveal_strlit("backslash");
    reveal_strlit("backspace");
    reveal_strlit("cmdorctrl");
    reveal_strlit("leftshift");
    reveal_strlit("leftsuper");
    reveal_strlit("metaright");
    reveal_strlit("numpadadd");
    reveal_strlit("numpaddot");
    reveal_strlit("rightctrl");
    reveal_strlit("rightmeta");
    reveal_strlit("semicolon");
    reveal_strlit("shiftleft");
    reveal_strlit("RightShift");
    reveal_strlit("RightSuper");
    reveal_strlit("arrowright");
    reveal_strlit("numpadplus");
    reveal_strlit("numpadstar");
    reveal_strlit("rightshift");
    reveal_strlit("rightsuper");
    reveal_strlit("shiftright");
    reveal_strlit("bracketleft");
    reveal_strlit("controlleft");
    reveal_strlit("numpadenter");
    reveal_strlit("numpadminus");
    reveal_strlit("numpadslash");
    reveal_strlit("bracketright");
    reveal_strlit("controlright");
    reveal_strlit("numpaddivide");
    reveal_strlit("numpaddecimal");
    reveal_strlit("numpadmultiply");
    reveal_strlit("numpadsubtract");
    reveal_strlit("commandorcontrol");
    match k {
        Code::KeyU => {
            assert(ascii_lower("U"@) =~= "u"@) by {
                reveal_strlit("U");
                reveal_strlit("u");
            }
            assert(code_from_name("u"@) == Some(Code::KeyU)) by {
                assert("u"@[0] != "a"@[0]);
                assert("u"@[0] != "b"@[0]);
                assert("u"@[0] != "c"@[0]);
                assert("u"@[0] != "d"@[0]);
                assert("u"@[0] != "e"@[0]);
                assert("u"@[0] != "f"@[0]);
                assert("u"@[0] != "g"@[0]);
                assert("u"@[0] != "h"@[0]);
                assert("u"@[0] != "i"@[0]);
                assert("u"@[0] != "j"@[0]);
                assert("u"@[0] != "k"@[0]);
                assert("u"@[0] != "l"@[0]);
                assert("u"@[0] != "m"@[0]);
                assert("u"@[0] != "n"@[0]);
                assert("u"@[0] != "o"@[0]);
                assert("u"@[0] != "p"@[0]);
                assert("u"@[0] != "q"@[0]);
                assert("u"@[0] != "r"@[0]);
                assert("u"@[0] != "s"@[0]);
                assert("u"@[0] != "t"@[0]);
            }
            assert(modifier_of_part("u"@, platform) is None) by {
            }
            assert(is_ascii_chars("U"@) && "U"@ != "Unknown"@) by {
            }
        },
        Code::KeyV => {
            assert(ascii_lower("V"@) =~= "v"@) by {
                reveal_strlit("V");
                reveal_strlit("v");
            }
            assert(code_from_name("v"@) == Some(Code::KeyV)) by {
                assert("v"@[0] != "a"@[0]);
                assert("v"@[0] != "b"@[0]);
                assert("v"@[0] != "c"@[0]);
                assert("v"@[0] != "d"@[0]);
                assert("v"@[0] != "e"@[0]);
                assert("v"@[0] != "f"@[0]);
                assert("v"@[0] != "g"@[0]);
                assert("v"@[0] != "h"@[0]);
                assert("v"@[0] != "i"@[0]);
                assert("v"@[0] != "j"@[0]);
                assert("v"@[0] != "k"@[0]);
                assert("v"@[0] != "l"@[0]);
                assert("v"@[0] != "m"@[0]);
                assert("v"@[0] != "n"@[0]);
                assert("v"@[0] != "o"@[0]);
                assert("v"@[0] != "p"@[0]);
                assert("v"@[0] != "q"@[0]);
                assert("v"@[0] != "r"@[0]);
                assert("v"@[0] != "s"@[0]);
                assert("v"@[0] != "t"@[0]);
                assert("v"@[0] != "u"@[0]);
            }
            assert(modifier_of_part("v"@, platform) is None) by {
            }
            assert(is_ascii_chars("V"@) && "V"@ != "Unknown"@) by {
            }
        },
        Code::KeyW => {
            assert(ascii_lower("W"@) =~= "w"@) by {
                reveal_strlit("W");
                reveal_strlit("w");
            }
            assert(code_from_name("w"@) == Some(Code::KeyW)) by {
                assert("w"@[0] != "a"@[0]);
                assert("w"@[0] != "b"@[0]);
                assert("w"@[0] != "c"@[0]);
                assert("w"@[0] != "d"@[0]);
                assert("w"@[0] != "e"@[0]);
                assert("w"@[0] != "f"@[0]);
                assert("w"@[0] != "g"@[0]);
                assert("w"@[0] != "h"@[0]);
                assert("w"@[0] != "i"@[0]);
                assert("w"@[0] != "j"@[0]);
                assert("w"@[0] != "k"@[0]);
                assert("w"@[0] != "l"@[0]);
                assert("w"@[0] != "m"@[0]);
                assert("w"@[0] != "n"@[0]);
                assert("w"@[0] != "o"@[0]);
                assert("w"@[0] != "p"@[0]);
                assert("w"@[0] != "q"@[0]);
                assert("w"@[0] != "r"@[0]);
                assert("w"@[0] != "s"@[0]);
                assert("w"@[0] != "t"@[0]);
                assert("w"@[0] != "u"@[0]);
                assert("w"@[0] != "v"@[0]);
            }
            assert(modifier_of_part("w"@, platform) is None) by {
            }
            assert(is_ascii_chars("W"@) && "W"@ != "Unknown"@) by {
            }
        },
        Code::KeyX => {
            assert(ascii_lower("X"@) =~= "x"@) by {
                reveal_strlit("X");
                reveal_strlit("x");
            }
            assert(code_from_name("x"@) == Some(Code::KeyX)) by {
                assert("x"@[0] != "a"@[0]);
                assert("x"@[0] != "b"@[0]);
                assert("x"@[0] != "c"@[0]);
                assert("x"@[0] != "d"@[0]);
                assert("x"@[0] != "e"@[0]);
                assert("x"@[0] != "f"@[0]);
                assert("x"@[0] != "g"@[0]);
                assert("x"@[0] != "h"@[0]);
                assert("x"@[0] != "i"@[0]);
                assert("x"@[0] != "j"@[0]);
                assert("x"@[0] != "k"@[0]);
                assert("x"@[0] != "l"@[0]);
                assert("x"@[0] != "m"@[0]);
                assert("x"@[0] != "n"@[0]);
                assert("x"@[0] != "o"@[0]);
                assert("x"@[0] != "p"@[0]);
                assert("x"@[0] != "q"@[0]);
                assert("x"@[0] != "r"@[0]);
                assert("x"@[0] != "s"@[0]);
                assert("x"@[0] != "t"@[0]);
                assert("x"@[0] != "u"@[0]);
                assert("x"@[0] != "v"@[0]);
                assert("x"@[0] != "w"@[0]);
            }
            assert(modifier_of_part("x"@, platform) is None) by {
            }
            assert(is_ascii_chars("X"@) && "X"@ != "Unknown"@) by {
            }
        },
        Code::KeyY => {
            assert(ascii_lower("Y"@) =~= "y"@) by {
                reveal_strlit("Y");
                reveal_strlit("y");
            }
            assert(code_from_name("y"@) == Some(Code::KeyY)) by {
                assert("y"@[0] != "a"@[0]);
                assert("y"@[0] != "b"@[0]);
                assert("y"@[0] != "c"@[0]);
                assert("y"@[0] != "d"@[0]);
                assert("y"@[0] != "e"@[0]);
                assert("y"@[0] != "f"@[0]);
                assert("y"@[0] != "g"@[0]);
                assert("y"@[0] != "h"@[0]);
                assert("y"@[0] != "i"@[0]);
                assert("y"@[0] != "j"@[0]);
                assert("y"@[0] != "k"@[0]);
                assert("y"@[0] != "l"@[0]);
                assert("y"@[0] != "m"@[0]);
                assert("y"@[0] != "n"@[0]);
                assert("y"@[0] != "o"@[0]);
                assert("y"@[0] != "p"@[0]);
                assert("y"@[0] != "q"@[0]);
                assert("y"@[0] != "r"@[0]);
                assert("y"@[0] != "s"@[0]);
                assert("y"@[0] != "t"@[0]);
                assert("y"@[0] != "u"@[0]);
                assert("y"@[0] != "v"@[0]);
                assert("y"@[0] != "w"@[0]);
                assert("y"@[0] != "x"@[0]);
            }
            assert(modifier_of_part("y"@, platform) is None) by {
            }
            assert(is_ascii_chars("Y"@) && "Y"@ != "Unknown"@) by {
            }
        },
        Code::KeyZ => {
            assert(ascii_lower("Z"@) =~= "z"@) by {
                reveal_strlit("Z");
                reveal_strlit("z");
            }
            assert(code_from_name("z"@) == Some(Code::KeyZ)) by {
                assert("z"@[0] != "a"@[0]);
                assert("z"@[0] != "b"@[0]);
                assert("z"@[0] != "c"@[0]);
                assert("z"@[0] != "d"@[0]);
                assert("z"@[0] != "e"@[0]);
                assert("z"@[0] != "f"@[0]);
                assert("z"@[0] != "g"@[0]);
                assert("z"@[0] != "h"@[0]);
                assert("z"@[0] != "i"@[0]);
                assert("z"@[0] != "j"@[0]);
                assert("z"@[0] != "k"@[0]);
                assert("z"@[0] != "l"@[0]);
                assert("z"@[0] != "m"@[0]);
                assert("z"@[0] != "n"@[0]);
                assert("z"@[0] != "o"@[0]);
                assert("z"@[0] != "p"@[0]);
                assert("z"@[0] != "q"@[0]);
                assert("z"@[0] != "r"@[0]);
                assert("z"@[0] != "s"@[0]);
                assert("z"@[0] != "t"@[0]);
                assert("z"@[0] != "u"@[0]);
                assert("z"@[0] != "v"@[0]);
                assert("z"@[0] != "w"@[0]);
                assert("z"@[0] != "x"@[0]);
                assert("z"@[0] != "y"@[0]);
            }
            assert(modifier_of_part("z"@, platform) is None) by {
            }
            assert(is_ascii_chars("Z"@) && "Z"@ != "Unknown"@) by {
            }
        },
        Code::Digit0 => {
            assert(ascii_lower("0"@) =~= "0"@) by {
                reveal_strlit("0");
                reveal_strlit("0");
            }
            assert(code_from_name("0"@) == Some(Code::Digit0)) by {
                assert("0"@[0] != "a"@[0]);
                assert("0"@[0] != "b"@[0]);
                assert("0"@[0] != "c"@[0]);
                assert("0"@[0] != "d"@[0]);
                assert("0"@[0] != "e"@[0]);
                assert("0"@[0] != "f"@[0]);
                assert("0"@[0] != "g"@[0]);
                assert("0"@[0] != "h"@[0]);
                assert("0"@[0] != "i"@[0]);
                assert("0"@[0] != "j"@[0]);
                assert("0"@[0] != "k"@[0]);
                assert("0"@[0] != "l"@[0]);
                assert("0"@[0] != "m"@[0]);
                assert("0"@[0] != "n"@[0]);
                assert("0"@[0] != "o"@[0]);
                assert("0"@[0] != "p"@[0]);
                assert("0"@[0] != "q"@[0]);
                assert("0"@[0] != "r"@[0]);
                assert("0"@[0] != "s"@[0]);
                assert("0"@[0] != "t"@[0]);
                assert("0"@[0] != "u"@[0]);
                assert("0"@[0] != "v"@[0]);
                assert("0"@[0] != "w"@[0]);
                assert("0"@[0] != "x"@[0]);
                assert("0"@[0] != "y"@[0]);
                assert("0"@[0] != "z"@[0]);
            }
            assert(modifier_of_part("0"@, platform) is None) by {
            }
            assert(is_ascii_chars("0"@) && "0"@ != "Unknown"@) by {
            }
        },
        Code::Digit1 => {
            assert(ascii_lower("1"@) =~= "1"@) by {
                reveal_strlit("1");
                reveal_strlit("1");
            }
            assert(code_from_name("1"@) == Some(Code::Digit1)) by {
                assert("1"@[0] != "a"@[0]);
                assert("1"@[0] != "b"@[0]);
                assert("1"@[0] != "c"@[0]);
                assert("1"@[0] != "d"@[0]);
                assert("1"@[0] != "e"@[0]);
                assert("1"@[0] != "f"@[0]);
                assert("1"@[0] != "g"@[0]);
                assert("1"@[0] != "h"@[0]);
                assert("1"@[0] != "i"@[0]);
                assert("1"@[0] != "j"@[0]);
                assert("1"@[0] != "k"@[0]);
                assert("1"@[0] != "l"@[0]);
                assert("1"@[0] != "m"@[0]);
                assert("1"@[0] != "n"@[0]);
                assert("1"@[0] != "o"@[0]);
                assert("1"@[0] != "p"@[0]);
                assert("1"@[0] != "q"@[0]);
                assert("1"@[0] != "r"@[0]);
                assert("1"@[0] != "s"@[0]);
                assert("1"@[0] != "t"@[0]);
                assert("1"@[0] != "u"@[0]);
                assert("1"@[0] != "v"@[0]);
                assert("1"@[0] != "w"@[0]);
                assert("1"@[0] != "x"@[0]);
                assert("1"@[0] != "y"@[0]);
                assert("1"@[0] != "z"@[0]);
                assert("1"@[0] != "0"@[0]);
            }
            assert(modifier_of_part("1"@, platform) is None) by {
            }
            assert(is_ascii_chars("1"@) && "1"@ != "Unknown"@) by {
            }
        },
        Code::Digit2 => {
            assert(ascii_lower("2"@) =~= "2"@) by {
                reveal_strlit("2");
                reveal_strlit("2");
            }
            assert(code_from_name("2"@) == Some(Code::Digit2)) by {
                assert("2"@[0] != "a"@[0]);
                assert("2"@[0] != "b"@[0]);
                assert("2"@[0] != "c"@[0]);
                assert("2"@[0] != "d"@[0]);
                assert("2"@[0] != "e"@[0]);
                assert("2"@[0] != "f"@[0]);
                assert("2"@[0] != "g"@[0]);
                assert("2"@[0] != "h"@[0]);
                assert("2"@[0] != "i"@[0]);
                assert("2"@[0] != "j"@[0]);
                assert("2"@[0] != "k"@[0]);
                assert("2"@[0] != "l"@[0]);
                assert("2"@[0] != "m"@[0]);
                assert("2"@[0] != "n"@[0]);
                assert("2"@[0] != "o"@[0]);
                assert("2"@[0] != "p"@[0]);
                assert("2"@[0] != "q"@[0]);
                assert("2"@[0] != "r"@[0]);
                assert("2"@[0] != "s"@[0]);
                assert("2"@[0] != "t"@[0]);
                assert("2"@[0] != "u"@[0]);
                assert("2"@[0] != "v"@[0]);
                assert("2"@[0] != "w"@[0]);
                assert("2"@[0] != "x"@[0]);
                assert("2"@[0] != "y"@[0]);
                assert("2"@[0] != "z"@[0]);
                assert("2"@[0] != "0"@[0]);
                assert("2"@[0] != "1"@[0]);
            }
            assert(modifier_of_part("2"@, platform) is None) by {
            }
            assert(is_ascii_chars("2"@) && "2"@ != "Unknown"@) by {
            }
        },
        Code::Digit3 => {
            assert(ascii_lower("3"@) =~= "3"@) by {
                reveal_strlit("3");
                reveal_strlit("3");
            }
            assert(code_from_name("3"@) == Some(Code::Digit3)) by {
                assert("3"@[0] != "a"@[0]);
                assert("3"@[0] != "b"@[0]);
                assert("3"@[0] != "c"@[0]);
                assert("3"@[0] != "d"@[0]);
                assert("3"@[0] != "e"@[0]);
                assert("3"@[0] != "f"@[0]);
                assert("3"@[0] != "g"@[0]);
                assert("3"@[0] != "h"@[0]);
                assert("3"@[0] != "i"@[0]);
                assert("3"@[0] != "j"@[0]);
                assert("3"@[0] != "k"@[0]);
                assert("3"@[0] != "l"@[0]);
                assert("3"@[0] != "m"@[0]);
                assert("3"@[0] != "n"@[0]);
                assert("3"@[0] != "o"@[0]);
                assert("3"@[0] != "p"@[0]);
                assert("3"@[0] != "q"@[0]);
                assert("3"@[0] != "r"@[0]);
                assert("3"@[0] != "s"@[0]);
                assert("3"@[0] != "t"@[0]);
                assert("3"@[0] != "u"@[0]);
                assert("3"@[0] != "v"@[0]);
                assert("3"@[0] != "w"@[0]);
                assert("3"@[0] != "x"@[0]);
                assert("3"@[0] != "y"@[0]);
                assert("3"@[0] != "z"@[0]);
                assert("3"@[0] != "0"@[0]);
                assert("3"@[0] != "1"@[0]);
                assert("3"@[0] != "2"@[0]);
            }
            assert(modifier_of_part("3"@, platform) is None) by {
            }
            assert(is_ascii_chars("3"@) && "3"@ != "Unknown"@) by {
            }
        },
        _ => {},
    }
}

/// The table rows from `Digit4` to `F4`: each key's written name reads back
/// as the key exactly when it is not "Unknown".
proof fn lemma_key_names_4(k: Code, platform: Platform)
    requires
        k == Code::Digit4 || k == Code::Digit5 || k == Code::Digit6 || k == Code::Digit7 || k == Code::Digit8 || k == Code::Digit9 || k == Code::F1 || k == Code::F2 || k == Code::F3 || k == Code::F4,
    ensures
        key_name_reads_back(k, platform) == (code_display(k) != "Unknown"@),
{
    reveal_strlit(" ");
    reveal_strlit("'");
    reveal_strlit(",");
    reveal_strlit("-");
    reveal_strlit(".");
    reveal_strlit("/");
    reveal_strlit("0");
    reveal_strlit("1");
    reveal_strlit("2");
    reveal_strlit("3");
    reveal_strlit("4");
    reveal_strlit("5");
    reveal_strlit("6");
    reveal_strlit("7");
    reveal_strlit("8");
    reveal_strlit("9");
    reveal_strlit(";");
    reveal_strlit("=");
    reveal_strlit("A");
    reveal_strlit("B");
    reveal_strlit("C");
    reveal_strlit("D");
    reveal_strlit("E");
    reveal_strlit("F");
    reveal_strlit("G");
    reveal_strlit("H");
    reveal_strlit("I");
    reveal_strlit("J");
    reveal_strlit("K");
    reveal_strlit("L");
    reveal_strlit("M");
    reveal_strlit("N");
    reveal_strlit("O");
    reveal_strlit("P");
    reveal_strlit("Q");
    reveal_strlit("R");
    reveal_strlit("S");
    reveal_strlit("T");
    reveal_strlit("U");
    reveal_strlit("V");
    reveal_strlit("W");
    reveal_strlit("X");
    reveal_strlit("Y");
    reveal_strlit("Z");
    reveal_strlit("[");
    reveal_strlit("\\");
    reveal_strlit("]");
    reveal_strlit("`");
    reveal_strlit("a");
    reveal_strlit("b");
    reveal_strlit("c");
    reveal_strlit("d");
    reveal_strlit("e");
    reveal_strlit("f");
    reveal_strlit("g");
    reveal_strlit("h");
    reveal_strlit("i");
    reveal_strlit("j");
    reveal_strlit("k");
    reveal_strlit("l");
    reveal_strlit("m");
    reveal_strlit("n");
    reveal_strlit("o");
    reveal_strlit("p");
    reveal_strlit("q");
    reveal_strlit("r");
    reveal_strlit("s");
    reveal_strlit("t");
    reveal_strlit("u");
    reveal_strlit("v");
    reveal_strlit("w");
    reveal_strlit("x");
    reveal_strlit("y");
    reveal_strlit("z");
    reveal_strlit("F1");
    reveal_strlit("F2");
    reveal_strlit("F3");
    reveal_strlit("F4");
    reveal_strlit("F5");
    reveal_strlit("F6");
    reveal_strlit("F7");
    reveal_strlit("F8");
    reveal_strlit("F9");
    reveal_strlit("Up");
    reveal_strlit("f1");
    reveal_strlit("f2");
    reveal_strlit("f3");
    reveal_strlit("f4");
    reveal_strlit("f5");
    reveal_strlit("f6");
    reveal_strlit("f7");
    reveal_strlit("f8");
    reveal_strlit("f9");
    reveal_strlit("up");
    reveal_strlit("End");
    reveal_strlit("F10");
    reveal_strlit("F11");
    reveal_strlit("F12");
    reveal_strlit("Tab");
    reveal_strlit("alt");
    reveal_strlit("cmd");
    reveal_strlit("del");
    reveal_strlit("end");
    reveal_strlit("esc");
    reveal_strlit("f10");
    reveal_strlit("f11");
    reveal_strlit("f12");
    reveal_strlit("ins");
    reveal_strlit("tab");
    reveal_strlit("win");
    reveal_strlit("Down");
    reveal_strlit("Home");
    reveal_strlit("Left");
    reveal_strlit("ctrl");
    reveal_strlit("down");
    reveal_strlit("home");
    reveal_strlit("lalt");
    reveal_strlit("left");
    reveal_strlit("meta");
    reveal_strlit("num0");
    reveal_strlit("num1");
    reveal_strlit("num2");
    reveal_strlit("num3");
    reveal_strlit("num4");
    reveal_strlit("num5");
    reveal_strlit("num6");
    reveal_strlit("num7");
    reveal_strlit("num8");
    reveal_strlit("num9");
    reveal_strlit("pgdn");
    reveal_strlit("pgup");
    reveal_strlit("ralt");
    reveal_strlit("Enter");
    reveal_strlit("Right");
    reveal_strlit("Space");
    reveal_strlit("altgr");
    reveal_strlit("comma");
    reveal_strlit("enter");
    reveal_strlit("equal");
    reveal_strlit("lctrl");
    reveal_strlit("lmeta");
    reveal_strlit("minus");
    reveal_strlit("quote");
    reveal_strlit("rctrl");
    reveal_strlit("right");
    reveal_strlit("rmeta");
    reveal_strlit("shift");
    reveal_strlit("slash");
    reveal_strlit("space");
    reveal_strlit("super");
    reveal_strlit("Delete");
    reveal_strlit("Escape");
    reveal_strlit("Insert");
    reveal_strlit("PageUp");
    reveal_strlit("delete");
    reveal_strlit("digit0");
    reveal_strlit("digit1");
    reveal_strlit("digit2");
    reveal_strlit("digit3");
    reveal_strlit("digit4");
    reveal_strlit("digit5");
    reveal_strlit("digit6");
    reveal_strlit("digit7");
    reveal_strlit("digit8");
    reveal_strlit("digit9");
    reveal_strlit("equals");
    reveal_strlit("escape");
    reveal_strlit("insert");
    reveal_strlit("lshift");
    reveal_strlit("lsuper");
    reveal_strlit("option");
    reveal_strlit("pageup");
    reveal_strlit("period");
    reveal_strlit("return");
    reveal_strlit("rshift");
    reveal_strlit("rsuper");
    reveal_strlit("LeftAlt");
    reveal_strlit("Unknown");
    reveal_strlit("altleft");
    reveal_strlit("arrowup");
    reveal_strlit("command");
    reveal_strlit("control");
    reveal_strlit("leftalt");
    reveal_strlit("numpad0");
    reveal_strlit("numpad1");
    reveal_strlit("numpad2");
    reveal_strlit("numpad3");
    reveal_strlit("numpad4");
    reveal_strlit("numpad5");
    reveal_strlit("numpad6");
    reveal_strlit("numpad7");
    reveal_strlit("numpad8");
    reveal_strlit("numpad9");
    reveal_strlit("unknown");
    reveal_strlit("LeftCtrl");
    reveal_strlit("PageDown");
    reveal_strlit("RightAlt");
    reveal_strlit("altright");
    reveal_strlit("leftctrl");
    reveal_strlit("leftmeta");
    reveal_strlit("metaleft");
    reveal_strlit("pagedown");
    reveal_strlit("rightalt");
    reveal_strlit("Backspace");
    reveal_strlit("LeftShift");
    reveal_strlit("LeftSuper");
    reveal_strlit("RightCtrl");
    reveal_strlit("arrowdown");
    reveal_strlit("arrowleft");
    reveal_strlit("backquote");
    reveal_strlit("backslash");
    reveal_strlit("backspace");
    reveal_strlit("cmdorctrl");
    reveal_strlit("leftshift");
    reveal_strlit("leftsuper");
    reveal_strlit("metaright");
    reveal_strlit("numpadadd");
    reveal_strlit("numpaddot");
    reveal_strlit("rightctrl");
    reveal_strlit("rightmeta");
    reveal_strlit("semicolon");
    reveal_strlit("shiftleft");
    reveal_strlit("RightShift");
    reveal_strlit("RightSuper");
    reveal_strlit("arrowright");
    reveal_strlit("numpadplus");
    reveal_strlit("numpadstar");
    reveal_strlit("rightshift");
    reveal_strlit("rightsuper");
    reveal_strlit("shiftright");
    reveal_strlit("bracketleft");
    reveal_strlit("controlleft");
    reveal_strlit("numpadenter");
    reveal_strlit("numpadminus");
    reveal_strlit("numpadslash");
    reveal_strlit("bracketright");
    reveal_strlit("controlright");
    reveal_strlit("numpaddivide");
    reveal_strlit("numpaddecimal");
    reveal_strlit("numpadmultiply");
    reveal_strlit("numpadsubtract");
    reveal_strlit("commandorcontrol");
    match k {
        Code::Digit4 => {
            assert(ascii_lower("4"@) =~= "4"@) by {
                reveal_strlit("4");
                reveal_strlit("4");
            }
            assert(code_from_name("4"@) == Some(Code::Digit4)) by {
                assert("4"@[0] != "a"@[0]);
                assert("4"@[0] != "b"@[0]);
                assert("4"@[0] != "c"@[0]);
                assert("4"@[0] != "d"@[0]);
                assert("4"@[0] != "e"@[0]);
                assert("4"@[0] != "f"@[0]);
                assert("4"@[0] != "g"@[0]);
                assert("4"@[0] != "h"@[0]);
                assert("4"@[0] != "i"@[0]);
                assert("4"@[0] != "j"@[0]);
                assert("4"@[0] != "k"@[0]);
                assert("4"@[0] != "l"@[0]);
                assert("4"@[0] != "m"@[0]);
                assert("4"@[0] != "n"@[0]);
                assert("4"@[0] != "o"@[0]);
                assert("4"@[0] != "p"@[0]);
                assert("4"@[0] != "q"@[0]);
                assert("4"@[0] != "r"@[0]);
                assert("4"@[0] != "s"@[0]);
                assert("4"@[0] != "t"@[0]);
                assert("4"@[0] != "u"@[0]);
                assert("4"@[0] != "v"@[0]);
                assert("4"@[0] != "w"@[0]);
                assert("4"@[0] != "x"@[0]);
                assert("4"@[0] != "y"@[0]);
                assert("4"@[0] != "z"@[0]);
                assert("4"@[0] != "0"@[0]);
                assert("4"@[0] != "1"@[0]);
                assert("4"@[0] != "2"@[0]);
                assert("4"@[0] != "3"@[0]);
            }
            assert(modifier_of_part("4"@, platform) is None) by {
            }
            assert(is_ascii_chars("4"@) && "4"@ != "Unknown"@) by {
            }
        },
        Code::Digit5 => {
            assert(ascii_lower("5"@) =~= "5"@) by {
                reveal_strlit("5");
                reveal_strlit("5");
            }
            assert(code_from_name("5"@) == Some(Code::Digit5)) by {
                assert("5"@[0] != "a"@[0]);
                assert("5"@[0] != "b"@[0]);
                assert("5"@[0] != "c"@[0]);
                assert("5"@[0] != "d"@[0]);
                assert("5"@[0] != "e"@[0]);
                assert("5"@[0] != "f"@[0]);
                assert("5"@[0] != "g"@[0]);
                assert("5"@[0] != "h"@[0]);
                assert("5"@[0] != "i"@[0]);
                assert("5"@[0] != "j"@[0]);
                assert("5"@[0] != "k"@[0]);
                assert("5"@[0] != "l"@[0]);
                assert("5"@[0] != "m"@[0]);
                assert("5"@[0] != "n"@[0]);
                assert("5"@[0] != "o"@[0]);
                assert("5"@[0] != "p"@[0]);
                assert("5"@[0] != "q"@[0]);
                assert("5"@[0] != "r"@[0]);
                assert("5"@[0] != "s"@[0]);
                assert("5"@[0] != "t"@[0]);
                assert("5"@[0] != "u"@[0]);
                assert("5"@[0] != "v"@[0]);
                assert("5"@[0] != "w"@[0]);
                assert("5"@[0] != "x"@[0]);
                assert("5"@[0] != "y"@[0]);
                assert("5"@[0] != "z"@[0]);
                assert("5"@[0] != "0"@[0]);
                assert("5"@[0] != "1"@[0]);
                assert("5"@[0] != "2"@[0]);
                assert("5"@[0] != "3"@[0]);
                assert("5"@[0] != "4"@[0]);
            }
            assert(modifier_of_part("5"@, platform) is None) by {
            }
            assert(is_ascii_chars("5"@) && "5"@ != "Unknown"@) by {
            }
        },
        Code::Digit6 => {
            assert(ascii_lower("6"@) =~= "6"@) by {
                reveal_strlit("6");
                reveal_strlit("6");
            }
            assert(code_from_name("6"@) == Some(Code::Digit6)) by {
                assert("6"@[0] != "a"@[0]);
                assert("6"@[0] != "b"@[0]);
                assert("6"@[0] != "c"@[0]);
                assert("6"@[0] != "d"@[0]);
                assert("6"@[0] != "e"@[0]);
                assert("6"@[0] != "f"@[0]);
                assert("6"@[0] != "g"@[0]);
                assert("6"@[0] != "h"@[0]);
                assert("6"@[0] != "i"@[0]);
                assert("6"@[0] != "j"@[0]);
                assert("6"@[0] != "k"@[0]);
                assert("6"@[0] != "l"@[0]);
                assert("6"@[0] != "m"@[0]);
                assert("6"@[0] != "n"@[0]);
                assert("6"@[0] != "o"@[0]);
                assert("6"@[0] != "p"@[0]);
                assert("6"@[0] != "q"@[0]);
                assert("6"@[0] != "r"@[0]);
                assert("6"@[0] != "s"@[0]);
                assert("6"@[0] != "t"@[0]);
                assert("6"@[0] != "u"@[0]);
                assert("6"@[0] != "v"@[0]);
                assert("6"@[0] != "w"@[0]);
                assert("6"@[0] != "x"@[0]);
                assert("6"@[0] != "y"@[0]);
                assert("6"@[0] != "z"@[0]);
                assert("6"@[0] != "0"@[0]);
                assert("6"@[0] != "1"@[0]);
                assert("6"@[0] != "2"@[0]);
                assert("6"@[0] != "3"@[0]);
                assert("6"@[0] != "4"@[0]);
                assert("6"@[0] != "5"@[0]);
            }
            assert(modifier_of_part("6"@, platform) is None) by {
            }
            assert(is_ascii_chars("6"@) && "6"@ != "Unknown"@) by {
            }
        },
        Code::Digit7 => {
            assert(ascii_lower("7"@) =~= "7"@) by {
                reveal_strlit("7");
                reveal_strlit("7");
            }
            assert(code_from_name("7"@) == Some(Code::Digit7)) by {
                assert("7"@[0] != "a"@[0]);
                assert("7"@[0] != "b"@[0]);
                assert("7"@[0] != "c"@[0]);
                assert("7"@[0] != "d"@[0]);
                assert("7"@[0] != "e"@[0]);
                assert("7"@[0] != "f"@[0]);
                assert("7"@[0] != "g"@[0]);
                assert("7"@[0] != "h"@[0]);
                assert("7"@[0] != "i"@[0]);
                assert("7"@[0] != "j"@[0]);
                assert("7"@[0] != "k"@[0]);
                assert("7"@[0] != "l"@[0]);
                assert("7"@[0] != "m"@[0]);
                assert("7"@[0] != "n"@[0]);
                assert("7"@[0] != "o"@[0]);
                assert("7"@[0] != "p"@[0]);
                assert("7"@[0] != "q"@[0]);
                assert("7"@[0] != "r"@[0]);
                assert("7"@[0] != "s"@[0]);
                assert("7"@[0] != "t"@[0]);
                assert("7"@[0] != "u"@[0]);
                assert("7"@[0] != "v"@[0]);
                assert("7"@[0] != "w"@[0]);
                assert("7"@[0] != "x"@[0]);
                assert("7"@[0] != "y"@[0]);
                assert("7"@[0] != "z"@[0]);
                assert("7"@[0] != "0"@[0]);
                assert("7"@[0] != "1"@[0]);
                assert("7"@[0] != "2"@[0]);
                assert("7"@[0] != "3"@[0]);
                assert("7"@[0] != "4"@[0]);
                assert("7"@[0] != "5"@[0]);
                assert("7"@[0] != "6"@[0]);
            }
            assert(modifier_of_part("7"@, platform) is None) by {
            }
            assert(is_ascii_chars("7"@) && "7"@ != "Unknown"@) by {
            }
        },
        Code::Digit8 => {
            assert(ascii_lower("8"@) =~= "8"@) by {
                reveal_strlit("8");
                reveal_strlit("8");
            }
            assert(code_from_name("8"@) == Some(Code::Digit8)) by {
                assert("8"@[0] != "a"@[0]);
                assert("8"@[0] != "b"@[0]);
                assert("8"@[0] != "c"@[0]);
                assert("8"@[0] != "d"@[0]);
                assert("8"@[0] != "e"@[0]);
                assert("8"@[0] != "f"@[0]);
                assert("8"@[0] != "g"@[0]);
                assert("8"@[0] != "h"@[0]);
                assert("8"@[0] != "i"@[0]);
                assert("8"@[0] != "j"@[0]);
                assert("8"@[0] != "k"@[0]);
                assert("8"@[0] != "l"@[0]);
                assert("8"@[0] != "m"@[0]);
                assert("8"@[0] != "n"@[0]);
                assert("8"@[0] != "o"@[0]);
                assert("8"@[0] != "p"@[0]);
                assert("8"@[0] != "q"@[0]);
                assert("8"@[0] != "r"@[0]);
                assert("8"@[0] != "s"@[0]);
                assert("8"@[0] != "t"@[0]);
                assert("8"@[0] != "u"@[0]);
                assert("8"@[0] != "v"@[0]);
                assert("8"@[0] != "w"@[0]);
                assert("8"@[0] != "x"@[0]);
                assert("8"@[0] != "y"@[0]);
                assert("8"@[0] != "z"@[0]);
                assert("8"@[0] != "0"@[0]);
                assert("8"@[0] != "1"@[0]);
                assert("8"@[0] != "2"@[0]);
                assert("8"@[0] != "3"@[0]);
                assert("8"@[0] != "4"@[0]);
                assert("8"@[0] != "5"@[0]);
                assert("8"@[0] != "6"@[0]);
                assert("8"@[0] != "7"@[0]);
            }
            assert(modifier_of_part("8"@, platform) is None) by {
            }
            assert(is_ascii_chars("8"@) && "8"@ != "Unknown"@) by {
            }
        },
        Code::Digit9 => {
            assert(ascii_lower("9"@) =~= "9"@) by {
                reveal_strlit("9");
                reveal_strlit("9");
            }
            assert(code_from_name("9"@) == Some(Code::Digit9)) by {
                assert("9"@[0] != "a"@[0]);
                assert("9"@[0] != "b"@[0]);
                assert("9"@[0] != "c"@[0]);
                assert("9"@[0] != "d"@[0]);
                assert("9"@[0] != "e"@[0]);
                assert("9"@[0] != "f"@[0]);
                assert("9"@[0] != "g"@[0]);
                assert("9"@[0] != "h"@[0]);
                assert("9"@[0] != "i"@[0]);
                assert("9"@[0] != "j"@[0]);
                assert("9"@[0] != "k"@[0]);
                assert("9"@[0] != "l"@[0]);
                assert("9"@[0] != "m"@[0]);
                assert("9"@[0] != "n"@[0]);
                assert("9"@[0] != "o"@[0]);
                assert("9"@[0] != "p"@[0]);
                assert("9"@[0] != "q"@[0]);
                assert("9"@[0] != "r"@[0]);
                assert("9"@[0] != "s"@[0]);
                assert("9"@[0] != "t"@[0]);
                assert("9"@[0] != "u"@[0]);
                assert("9"@[0] != "v"@[0]);
                assert("9"@[0] != "w"@[0]);
                assert("9"@[0] != "x"@[0]);
                assert("9"@[0] != "y"@[0]);
                assert("9"@[0] != "z"@[0]);
                assert("9"@[0] != "0"@[0]);
                assert("9"@[0] != "1"@[0]);
                assert("9"@[0] != "2"@[0]);
                assert("9"@[0] != "3"@[0]);
                assert("9"@[0] != "4"@[0]);
                assert("9"@[0] != "5"@[0]);
                assert("9"@[0] != "6"@[0]);
                assert("9"@[0] != "7"@[0]);
                assert("9"@[0] != "8"@[0]);
            }
            assert(modifier_of_part("9"@, platform) is None) by {
            }
            assert(is_ascii_chars("9"@) && "9"@ != "Unknown"@) by {
            }
        },
        Code::F1 => {
            assert(ascii_lower("F1"@) =~= "f1"@) by {
                reveal_strlit("F1");
                reveal_strlit("f1");
            }
            assert(code_from_name("f1"@) == Some(Code::F1)) by {
            }
            assert(modifier_of_part("f1"@, platform) is None) by {
            }
            assert(is_ascii_chars("F1"@) && "F1"@ != "Unknown"@) by {
            }
        },
        Code::F2 => {
            assert(ascii_lower("F2"@) =~= "f2"@) by {
                reveal_strlit("F2");
                reveal_strlit("f2");
            }
            assert(code_from_name("f2"@) == Some(Code::F2)) by {
                assert("f2"@[1] != "f1"@[1]);
            }
            assert(modifier_of_part("f2"@, platform) is None) by {
            }
            assert(is_ascii_chars("F2"@) && "F2"@ != "Unknown"@) by {
            }
        },
        Code::F3 => {
            assert(ascii_lower("F3"@) =~= "f3"@) by {
                reveal_strlit("F3");
                reveal_strlit("f3");
            }
            assert(code_from_name("f3"@) == Some(Code::F3)) by {
                assert("f3"@[1] != "f1"@[1]);
                assert("f3"@[1] != "f2"@[1]);
            }
            assert(modifier_of_part("f3"@, platform) is None) by {
            }
            assert(is_ascii_chars("F3"@) && "F3"@ != "Unknown"@) by {
            }
        },
        Code::F4 => {
            assert(ascii_lower("F4"@) =~= "f4"@) by {
                reveal_strlit("F4");
                reveal_strlit("f4");
            }
            assert(code_from_name("f4"@) == Some(Code::F4)) by {
                assert("f4"@[1] != "f1"@[1]);
                assert("f4"@[1] != "f2"@[1]);
                assert("f4"@[1] != "f3"@[1]);
            }
            assert(modifier_of_part("f4"@, platform) is None) by {
            }
            assert(is_ascii_chars("F4"@) && "F4"@ != "Unknown"@) by {
            }
        },
        _ => {},
    }
}

/// The table rows from `F5` to `Enter`: each key's written name reads back
/// as the key exactly when it is not "Unknown".
proof fn lemma_key_names_5(k: Code, platform: Platform)
    requires
        k == Code::F5 || k == Code::F6 || k == Code::F7 || k == Code::F8 || k == Code::F9 || k == Code::F10 || k == Code::F11 || k == Code::F12 || k == Code::Space || k == Code::Enter,
    ensures
        key_name_reads_back(k, platform) == (code_display(k) != "Unknown"@),
{
    reveal_strlit(" ");
    reveal_strlit("'");
    reveal_strlit(",");
    reveal_strlit("-");
    reveal_strlit(".");
    reveal_strlit("/");
    reveal_strlit("0");
    reveal_strlit("1");
    reveal_strlit("2");
    reveal_strlit("3");
    reveal_strlit("4");
    reveal_strlit("5");
    reveal_strlit("6");
    reveal_strlit("7");
    reveal_strlit("8");
    reveal_strlit("9");
    reveal_strlit(";");
    reveal_strlit("=");
    reveal_strlit("A");
    reveal_strlit("B");
    reveal_strlit("C");
    reveal_strlit("D");
    reveal_strlit("E");
    reveal_strlit("F");
    reveal_strlit("G");
    reveal_strlit("H");
    reveal_strlit("I");
    reveal_strlit("J");
    reveal_strlit("K");
    reveal_strlit("L");
    reveal_strlit("M");
    reveal_strlit("N");
    reveal_strlit("O");
    reveal_strlit("P");
    reveal_strlit("Q");
    reveal_strlit("R");
    reveal_strlit("S");
    reveal_strlit("T");
    reveal_strlit("U");
    reveal_strlit("V");
    reveal_strlit("W");
    reveal_strlit("X");
    reveal_strlit("Y");
    reveal_strlit("Z");
    reveal_strlit("[");
    reveal_strlit("\\");
    reveal_strlit("]");
    reveal_strlit("`");
    reveal_strlit("a");
    reveal_strlit("b");
    reveal_strlit("c");
    reveal_strlit("d");
    reveal_strlit("e");
    reveal_strlit("f");
    reveal_strlit("g");
    reveal_strlit("h");
    reveal_strlit("i");
    reveal_strlit("j");
    reveal_strlit("k");
    reveal_strlit("l");
    reveal_strlit("m");
    reveal_strlit("n");
    reveal_strlit("o");
    reveal_strlit("p");
    reveal_strlit("q");
    reveal_strlit("r");
    reveal_strlit("s");
    reveal_strlit("t");
    reveal_strlit("u");
    reveal_strlit("v");
    reveal_strlit("w");
    reveal_strlit("x");
    reveal_strlit("y");
    reveal_strlit("z");
    reveal_strlit("F1");
    reveal_strlit("F2");
    reveal_strlit("F3");
    reveal_strlit("F4");
    reveal_strlit("F5");
    reveal_strlit("F6");
    reveal_strlit("F7");
    reveal_strlit("F8");
    reveal_strlit("F9");
    reveal_strlit("Up");
    reveal_strlit("f1");
    reveal_strlit("f2");
    reveal_strlit("f3");
    reveal_strlit("f4");
    reveal_strlit("f5");
    reveal_strlit("f6");
    reveal_strlit("f7");
    reveal_strlit("f8");
    reveal_strlit("f9");
    reveal_strlit("up");
    reveal_strlit("End");
    reveal_strlit("F10");
    reveal_strlit("F11");
    reveal_strlit("F12");
    reveal_strlit("Tab");
    reveal_strlit("alt");
    reveal_strlit("cmd");
    reveal_strlit("del");
    reveal_strlit("end");
    reveal_strlit("esc");
    reveal_strlit("f10");
    reveal_strlit("f11");
    reveal_strlit("f12");
    reveal_strlit("ins");
    reveal_strlit("tab");
    reveal_strlit("win");
    reveal_strlit("Down");
    reveal_strlit("Home");
    reveal_strlit("Left");
    reveal_strlit("ctrl");
    reveal_strlit("down");
    reveal_strlit("home");
    reveal_strlit("lalt");
    reveal_strlit("left");
    reveal_strlit("meta");
    reveal_strlit("num0");
    reveal_strlit("num1");
    reveal_strlit("num2");
    reveal_strlit("num3");
    reveal_strlit("num4");
    reveal_strlit("num5");
    reveal_strlit("num6");
    reveal_strlit("num7");
    reveal_strlit("num8");
    reveal_strlit("num9");
    reveal_strlit("pgdn");
    reveal_strlit("pgup");
    reveal_strlit("ralt");
    reveal_strlit("Enter");
    reveal_strlit("Right");
    reveal_strlit("Space");
    reveal_strlit("altgr");
    reveal_strlit("comma");
    reveal_strlit("enter");
    reveal_strlit("equal");
    reveal_strlit("lctrl");
    reveal_strlit("lmeta");
    reveal_strlit("minus");
    reveal_strlit("quote");
    reveal_strlit("rctrl");
    reveal_strlit("right");
    reveal_strlit("rmeta");
    reveal_strlit("shift");
    reveal_strlit("slash");
    reveal_strlit("space");
    reveal_strlit("super");
    reveal_strlit("Delete");
    reveal_strlit("Escape");
    reveal_strlit("Insert");
    reveal_strlit("PageUp");
    reveal_strlit("delete");
    reveal_strlit("digit0");
    reveal_strlit("digit1");
    reveal_strlit("digit2");
    reveal_strlit("digit3");
    reveal_strlit("digit4");
    reveal_strlit("digit5");
    reveal_strlit("digit6");
    reveal_strlit("digit7");
    reveal_strlit("digit8");
    reveal_strlit("digit9");
    reveal_strlit("equals");
    reveal_strlit("escape");
    reveal_strlit("insert");
    reveal_strlit("lshift");
    reveal_strlit("lsuper");
    reveal_strlit("option");
    reveal_strlit("pageup");
    reveal_strlit("period");
    reveal_strlit("return");
    reveal_strlit("rshift");
    reveal_strlit("rsuper");
    reveal_strlit("LeftAlt");
    reveal_strlit("Unknown");
    reveal_strlit("altleft");
    reveal_strlit("arrowup");
    reveal_strlit("command");
    reveal_strlit("control");
    reveal_strlit("leftalt");
    reveal_strlit("numpad0");
    reveal_strlit("numpad1");
    reveal_strlit("numpad2");
    reveal_strlit("numpad3");
    reveal_strlit("numpad4");
    reveal_strlit("numpad5");
    reveal_strlit("numpad6");
    reveal_strlit("numpad7");
    reveal_strlit("numpad8");
    reveal_strlit("numpad9");
    reveal_strlit("unknown");
    reveal_strlit("LeftCtrl");
    reveal_strlit("PageDown");
    reveal_strlit("RightAlt");
    reveal_strlit("altright");
    reveal_strlit("leftctrl");
    reveal_strlit("leftmeta");
    reveal_strlit("metaleft");
    reveal_strlit("pagedown");
    reveal_strlit("rightalt");
    reveal_strlit("Backspace");
    reveal_strlit("LeftShift");
    reveal_strlit("LeftSuper");
    reveal_strlit("RightCtrl");
    reveal_strlit("arrowdown");
    reveal_strlit("arrowleft");
    reveal_strlit("backquote");
    reveal_strlit("backslash");
    reveal_strlit("backspace");
    reveal_strlit("cmdorctrl");
    reveal_strlit("leftshift");
    reveal_strlit("leftsuper");
    reveal_strlit("metaright");
    reveal_strlit("numpadadd");
    reveal_strlit("numpaddot");
    reveal_strlit("rightctrl");
    reveal_strlit("rightmeta");
    reveal_strlit("semicolon");
    reveal_strlit("shiftleft");
    reveal_strlit("RightShift");
    reveal_strlit("RightSuper");
    reveal_strlit("arrowright");
    reveal_strlit("numpadplus");
    reveal_strlit("numpadstar");
    reveal_strlit("rightshift");
    reveal_strlit("rightsuper");
    reveal_strlit("shiftright");
    reveal_strlit("bracketleft");
    reveal_strlit("controlleft");
    reveal_strlit("numpadenter");
    reveal_strlit("numpadminus");
    reveal_strlit("numpadslash");
    reveal_strlit("bracketright");
    reveal_strlit("controlright");
    reveal_strlit("numpaddivide");
    reveal_strlit("numpaddecimal");
    reveal_strlit("numpadmultiply");
    reveal_strlit("numpadsubtract");
    reveal_strlit("commandorcontrol");
    match k {
        Code::F5 => {
            assert(ascii_lower("F5"@) =~= "f5"@) by {
                reveal_strlit("F5");
                reveal_strlit("f5");
            }
            assert(code_from_name("f5"@) == Some(Code::F5)) by {
                assert("f5"@[1] != "f1"@[1]);
                assert("f5"@[1] != "f2"@[1]);
                assert("f5"@[1] != "f3"@[1]);
                assert("f5"@[1] != "f4"@[1]);
            }
            assert(modifier_of_part("f5"@, platform) is None) by {
            }
            assert(is_ascii_chars("F5"@) && "F5"@ != "Unknown"@) by {
            }
        },
        Code::F6 => {
            assert(ascii_lower("F6"@) =~= "f6"@) by {
                reveal_strlit("F6");
                reveal_strlit("f6");
            }
            assert(code_from_name("f6"@) == Some(Code::F6)) by {
                assert("f6"@[1] != "f1"@[1]);
                assert("f6"@[1] != "f2"@[1]);
                assert("f6"@[1] != "f3"@[1]);
                assert("f6"@[1] != "f4"@[1]);
                assert("f6"@[1] != "f5"@[1]);
            }
            assert(modifier_of_part("f6"@, platform) is None) by {
            }
            assert(is_ascii_chars("F6"@) && "F6"@ != "Unknown"@) by {
            }
        },
        Code::F7 => {
            assert(ascii_lower("F7"@) =~= "f7"@) by {
                reveal_strlit("F7");
                reveal_strlit("f7");
            }
            assert(code_from_name("f7"@) == Some(Code::F7)) by {
                assert("f7"@[1] != "f1"@[1]);
                assert("f7"@[1] != "f2"@[1]);
                assert("f7"@[1] != "f3"@[1]);
                assert("f7"@[1] != "f4"@[1]);
                assert("f7"@[1] != "f5"@[1]);
                assert("f7"@[1] != "f6"@[1]);
            }
            assert(modifier_of_part("f7"@, platform) is None) by {
            }
            assert(is_ascii_chars("F7"@) && "F7"@ != "Unknown"@) by {
            }
        },
        Code::F8 => {
            assert(ascii_lower("F8"@) =~= "f8"@) by {
                reveal_strlit("F8");
                reveal_strlit("f8");
            }
            assert(code_from_name("f8"@) == Some(Code::F8)) by {
                assert("f8"@[1] != "f1"@[1]);
                assert("f8"@[1] != "f2"@[1]);
                assert("f8"@[1] != "f3"@[1]);
                assert("f8"@[1] != "f4"@[1]);
                assert("f8"@[1] != "f5"@[1]);
                assert("f8"@[1] != "f6"@[1]);
                assert("f8"@[1] != "f7"@[1]);
            }
            assert(modifier_of_part("f8"@, platform) is None) by {
            }
            assert(is_ascii_chars("F8"@) && "F8"@ != "Unknown"@) by {
            }
        },
        Code::F9 => {
            assert(ascii_lower("F9"@) =~= "f9"@) by {
                reveal_strlit("F9");
                reveal_strlit("f9");
            }
            assert(code_from_name("f9"@) == Some(Code::F9)) by {
                assert("f9"@[1] != "f1"@[1]);
                assert("f9"@[1] != "f2"@[1]);
                assert("f9"@[1] != "f3"@[1]);
                assert("f9"@[1] != "f4"@[1]);
                assert("f9"@[1] != "f5"@[1]);
                assert("f9"@[1] != "f6"@[1]);
                assert("f9"@[1] != "f7"@[1]);
                assert("f9"@[1] != "f8"@[1]);
            }
            assert(modifier_of_part("f9"@, platform) is None) by {
            }
            assert(is_ascii_chars("F9"@) && "F9"@ != "Unknown"@) by {
            }
        },
        Code::F10 => {
            assert(ascii_lower("F10"@) =~= "f10"@) by {
                reveal_strlit("F10");
                reveal_strlit("f10");
            }
            assert(code_from_name("f10"@) == Some(Code::F10)) by {
            }
            assert(modifier_of_part("f10"@, platform) is None) by {
                assert("f10"@[0] != "alt"@[0]);
                assert("f10"@[0] != "win"@[0]);
                assert("f10"@[0] != "cmd"@[0]);
            }
            assert(is_ascii_chars("F10"@) && "F10"@ != "Unknown"@) by {
            }
        },
        Code::F11 => {
            assert(ascii_lower("F11"@) =~= "f11"@) by {
                reveal_strlit("F11");
                reveal_strlit("f11");
            }
            assert(code_from_name("f11"@) == Some(Code::F11)) by {
                assert("f11"@[2] != "f10"@[2]);
            }
            assert(modifier_of_part("f11"@, platform) is None) by {
                assert("f11"@[0] != "alt"@[0]);
                assert("f11"@[0] != "win"@[0]);
                assert("f11"@[0] != "cmd"@[0]);
            }
            assert(is_ascii_chars("F11"@) && "F11"@ != "Unknown"@) by {
            }
        },
        Code::F12 => {
            assert(ascii_lower("F12"@) =~= "f12"@) by {
                reveal_strlit("F12");
                reveal_strlit("f12");
            }
            assert(code_from_name("f12"@) == Some(Code::F12)) by {
                assert("f12"@[2] != "f10"@[2]);
                assert("f12"@[2] != "f11"@[2]);
            }
            assert(modifier_of_part("f12"@, platform) is None) by {
                assert("f12"@[0] != "alt"@[0]);
                assert("f12"@[0] != "win"@[0]);
                assert("f12"@[0] != "cmd"@[0]);
            }
            assert(is_ascii_chars("F12"@) && "F12"@ != "Unknown"@) by {
            }
        },
        Code::Space => {
            assert(ascii_lower("Space"@) =~= "space"@) by {
                reveal_strlit("Space");
                reveal_strlit("space");
            }
            assert(code_from_name("space"@) == Some(Code::Space)) by {
            }
            assert(modifier_of_part("space"@, platform) is None) by {
                assert("space"@[1] != "shift"@[1]);
                assert("space"@[1] != "super"@[1]);
            }
            assert(is_ascii_chars("Space"@) && "Space"@ != "Unknown"@) by {
            }
        },
        Code::Enter => {
            assert(ascii_lower("Enter"@) =~= "enter"@) by {
                reveal_strlit("Enter");
                reveal_strlit("enter");
            }
            assert(code_from_name("enter"@) == Some(Code::Enter)) by {
                assert("enter"@[0] != "space"@[0]);
            }
            assert(modifier_of_part("enter"@, platform) is None) by {
                assert("enter"@[0] != "shift"@[0]);
                assert("enter"@[0] != "super"@[0]);
            }
            assert(is_ascii_chars("Enter"@) && "Enter"@ != "Unknown"@) by {
            }
        },
        _ => {},
    }
}

/// The table rows from `Tab` to `ArrowUp`: each key's written name reads back
/// as the key exactly when it is not "Unknown".
proof fn lemma_key_names_6(k: Code, platform: Platform)
    requires
        k == Code::Tab || k == Code::Escape || k == Code::Backspace || k == Code::Delete || k == Code::Insert || k == Code::Home || k == Code::End || k == Code::PageUp || k == Code::PageDown || k == Code::ArrowUp,
    ensures
        key_name_reads_back(k, platform) == (code_display(k) != "Unknown"@),
{
    reveal_strlit(" ");
    reveal_strlit("'");
    reveal_strlit(",");
    reveal_strlit("-");
    reveal_strlit(".");
    reveal_strlit("/");
    reveal_strlit("0");
    reveal_strlit("1");
    reveal_strlit("2");
    reveal_strlit("3");
    reveal_strlit("4");
    reveal_strlit("5");
    reveal_strlit("6");
    reveal_strlit("7");
    reveal_strlit("8");
    reveal_strlit("9");
    reveal_strlit(";");
    reveal_strlit("=");
    reveal_strlit("A");
    reveal_strlit("B");
    reveal_strlit("C");
    reveal_strlit("D");
    reveal_strlit("E");
    reveal_strlit("F");
    reveal_strlit("G");
    reveal_strlit("H");
    reveal_strlit("I");
    reveal_strlit("J");
    reveal_strlit("K");
    reveal_strlit("L");
    reveal_strlit("M");
    reveal_strlit("N");
    reveal_strlit("O");
    reveal_strlit("P");
    reveal_strlit("Q");
    reveal_strlit("R");
    reveal_strlit("S");
    reveal_strlit("T");
    reveal_strlit("U");
    reveal_strlit("V");
    reveal_strlit("W");
    reveal_strlit("X");
    reveal_strlit("Y");
    reveal_strlit("Z");
    reveal_strlit("[");
    reveal_strlit("\\");
    reveal_strlit("]");
    reveal_strlit("`");
    reveal_strlit("a");
    reveal_strlit("b");
    reveal_strlit("c");
    reveal_strlit("d");
    reveal_strlit("e");
    reveal_strlit("f");
    reveal_strlit("g");
    reveal_strlit("h");
    reveal_strlit("i");
    reveal_strlit("j");
    reveal_strlit("k");
    reveal_strlit("l");
    reveal_strlit("m");
    reveal_strlit("n");
    reveal_strlit("o");
    reveal_strlit("p");
    reveal_strlit("q");
    reveal_strlit("r");
    reveal_strlit("s");
    reveal_strlit("t");
    reveal_strlit("u");
    reveal_strlit("v");
    reveal_strlit("w");
    reveal_strlit("x");
    reveal_strlit("y");
    reveal_strlit("z");
    reveal_strlit("F1");
    reveal_strlit("F2");
    reveal_strlit("F3");
    reveal_strlit("F4");
    reveal_strlit("F5");
    reveal_strlit("F6");
    reveal_strlit("F7");
    reveal_strlit("F8");
    reveal_strlit("F9");
    reveal_strlit("Up");
    reveal_strlit("f1");
    reveal_strlit("f2");
    reveal_strlit("f3");
    reveal_strlit("f4");
    reveal_strlit("f5");
    reveal_strlit("f6");
    reveal_strlit("f7");
    reveal_strlit("f8");
    reveal_strlit("f9");
    reveal_strlit("up");
    reveal_strlit("End");
    reveal_strlit("F10");
    reveal_strlit("F11");
    reveal_strlit("F12");
    reveal_strlit("Tab");
    reveal_strlit("alt");
    reveal_strlit("cmd");
    reveal_strlit("del");
    reveal_strlit("end");
    reveal_strlit("esc");
    reveal_strlit("f10");
    reveal_strlit("f11");
    reveal_strlit("f12");
    reveal_strlit("ins");
    reveal_strlit("tab");
    reveal_strlit("win");
    reveal_strlit("Down");
    reveal_strlit("Home");
    reveal_strlit("Left");
    reveal_strlit("ctrl");
    reveal_strlit("down");
    reveal_strlit("home");
    reveal_strlit("lalt");
    reveal_strlit("left");
    reveal_strlit("meta");
    reveal_strlit("num0");
    reveal_strlit("num1");
    reveal_strlit("num2");
    reveal_strlit("num3");
    reveal_strlit("num4");
    reveal_strlit("num5");
    reveal_strlit("num6");
    reveal_strlit("num7");
    reveal_strlit("num8");
    reveal_strlit("num9");
    reveal_strlit("pgdn");
    reveal_strlit("pgup");
    reveal_strlit("ralt");
    reveal_strlit("Enter");
    reveal_strlit("Right");
    reveal_strlit("Space");
    reveal_strlit("altgr");
    reveal_strlit("comma");
    reveal_strlit("enter");
    reveal_strlit("equal");
    reveal_strlit("lctrl");
    reveal_strlit("lmeta");
    reveal_strlit("minus");
    reveal_strlit("quote");
    reveal_strlit("rctrl");
    reveal_strlit("right");
    reveal_strlit("rmeta");
    reveal_strlit("shift");
    reveal_strlit("slash");
    reveal_strlit("space");
    reveal_strlit("super");
    reveal_strlit("Delete");
    reveal_strlit("Escape");
    reveal_strlit("Insert");
    reveal_strlit("PageUp");
    reveal_strlit("delete");
    reveal_strlit("digit0");
    reveal_strlit("digit1");
    reveal_strlit("digit2");
    reveal_strlit("digit3");
    reveal_strlit("digit4");
    reveal_strlit("digit5");
    reveal_strlit("digit6");
    reveal_strlit("digit7");
    reveal_strlit("digit8");
    reveal_strlit("digit9");
    reveal_strlit("equals");
    reveal_strlit("escape");
    reveal_strlit("insert");
    reveal_strlit("lshift");
    reveal_strlit("lsuper");
    reveal_strlit("option");
    reveal_strlit("pageup");
    reveal_strlit("period");
    reveal_strlit("return");
    reveal_strlit("rshift");
    reveal_strlit("rsuper");
    reveal_strlit("LeftAlt");
    reveal_strlit("Unknown");
    reveal_strlit("altleft");
    reveal_strlit("arrowup");
    reveal_strlit("command");
    reveal_strlit("control");
    reveal_strlit("leftalt");
    reveal_strlit("numpad0");
    reveal_strlit("numpad1");
    reveal_strlit("numpad2");
    reveal_strlit("numpad3");
    reveal_strlit("numpad4");
    reveal_strlit("numpad5");
    reveal_strlit("numpad6");
    reveal_strlit("numpad7");
    reveal_strlit("numpad8");
    reveal_strlit("numpad9");
    reveal_strlit("unknown");
    reveal_strlit("LeftCtrl");
    reveal_strlit("PageDown");
    reveal_strlit("RightAlt");
    reveal_strlit("altright");
    reveal_strlit("leftctrl");
    reveal_strlit("leftmeta");
    reveal_strlit("metaleft");
    reveal_strlit("pagedown");
    reveal_strlit("rightalt");
    reveal_strlit("Backspace");
    reveal_strlit("LeftShift");
    reveal_strlit("LeftSuper");
    reveal_strlit("RightCtrl");
    reveal_strlit("arrowdown");
    reveal_strlit("arrowleft");
    reveal_strlit("backquote");
    reveal_strlit("backslash");
    reveal_strlit("backspace");
    reveal_strlit("cmdorctrl");
    reveal_strlit("leftshift");
    reveal_strlit("leftsuper");
    reveal_strlit("metaright");
    reveal_strlit("numpadadd");
    reveal_strlit("numpaddot");
    reveal_strlit("rightctrl");
    reveal_strlit("rightmeta");
    reveal_strlit("semicolon");
    reveal_strlit("shiftleft");
    reveal_strlit("RightShift");
    reveal_strlit("RightSuper");
    reveal_strlit("arrowright");
    reveal_strlit("numpadplus");
    reveal_strlit("numpadstar");
    reveal_strlit("rightshift");
    reveal_strlit("rightsuper");
    reveal_strlit("shiftright");
    reveal_strlit("bracketleft");
    reveal_strlit("controlleft");
    reveal_strlit("numpadenter");
    reveal_strlit("numpadminus");
    reveal_strlit("numpadslash");
    reveal_strlit("bracketright");
    reveal_strlit("controlright");
    reveal_strlit("numpaddivide");
    reveal_strlit("numpaddecimal");
    reveal_strlit("numpadmultiply");
    reveal_strlit("numpadsubtract");
    reveal_strlit("commandorcontrol");
    match k {
        Code::Tab => {
            assert(ascii_lower("Tab"@) =~= "tab"@) by {
                reveal_strlit("Tab");
                reveal_strlit("tab");
            }
            assert(code_from_name("tab"@) == Some(Code::Tab)) by {
                assert("tab"@[0] != "f10"@[0]);
                assert("tab"@[0] != "f11"@[0]);
                assert("tab"@[0] != "f12"@[0]);
            }
            assert(modifier_of_part("tab"@, platform) is None) by {
                assert("tab"@[0] != "alt"@[0]);
                assert("tab"@[0] != "win"@[0]);
                assert("tab"@[0] != "cmd"@[0]);
            }
            assert(is_ascii_chars("Tab"@) && "Tab"@ != "Unknown"@) by {
            }
        },
        Code::Escape => {
            assert(ascii_lower("Escape"@) =~= "escape"@) by {
                reveal_strlit("Escape");
                reveal_strlit("escape");
            }
            assert(code_from_name("escape"@) == Some(Code::Escape)) by {
                assert("escape"@[0] != "digit0"@[0]);
                assert("escape"@[0] != "digit1"@[0]);
                assert("escape"@[0] != "digit2"@[0]);
                assert("escape"@[0] != "digit3"@[0]);
                assert("escape"@[0] != "digit4"@[0]);
                assert("escape"@[0] != "digit5"@[0]);
                assert("escape"@[0] != "digit6"@[0]);
                assert("escape"@[0] != "digit7"@[0]);
                assert("escape"@[0] != "digit8"@[0]);
                assert("escape"@[0] != "digit9"@[0]);
                assert("escape"@[0] != "return"@[0]);
            }
            assert(modifier_of_part("escape"@, platform) is None) by {
                assert("escape"@[0] != "option"@[0]);
            }
            assert(is_ascii_chars("Escape"@) && "Escape"@ != "Unknown"@) by {
            }
        },
        Code::Backspace => {
            assert(ascii_lower("Backspace"@) =~= "backspace"@) by {
                reveal_strlit("Backspace");
                reveal_strlit("backspace");
            }
            assert(code_from_name("backspace"@) == Some(Code::Backspace)) by {
            }
            assert(modifier_of_part("backspace"@, platform) is None) by {
                assert("backspace"@[0] != "cmdorctrl"@[0]);
            }
            assert(is_ascii_chars("Backspace"@) && "Backspace"@ != "Unknown"@) by {
            }
        },
        Code::Delete => {
            assert(ascii_lower("Delete"@) =~= "delete"@) by {
                reveal_strlit("Delete");
                reveal_strlit("delete");
            }
            assert(code_from_name("delete"@) == Some(Code::Delete)) by {
                assert("delete"@[1] != "digit0"@[1]);
                assert("delete"@[1] != "digit1"@[1]);
                assert("delete"@[1] != "digit2"@[1]);
                assert("delete"@[1] != "digit3"@[1]);
                assert("delete"@[1] != "digit4"@[1]);
                assert("delete"@[1] != "digit5"@[1]);
                assert("delete"@[1] != "digit6"@[1]);
                assert("delete"@[1] != "digit7"@[1]);
                assert("delete"@[1] != "digit8"@[1]);
                assert("delete"@[1] != "digit9"@[1]);
                assert("delete"@[0] != "return"@[0]);
                assert("delete"@[0] != "escape"@[0]);
            }
            assert(modifier_of_part("delete"@, platform) is None) by {
                assert("delete"@[0] != "option"@[0]);
            }
            assert(is_ascii_chars("Delete"@) && "Delete"@ != "Unknown"@) by {
            }
        },
        Code::Insert => {
            assert(ascii_lower("Insert"@) =~= "insert"@) by {
                reveal_strlit("Insert");
                reveal_strlit("insert");
            }
            assert(code_from_name("insert"@) == Some(Code::Insert)) by {
                assert("insert"@[0] != "digit0"@[0]);
                assert("insert"@[0] != "digit1"@[0]);
                assert("insert"@[0] != "digit2"@[0]);
                assert("insert"@[0] != "digit3"@[0]);
                assert("insert"@[0] != "digit4"@[0]);
                assert("insert"@[0] != "digit5"@[0]);
                assert("insert"@[0] != "digit6"@[0]);
                assert("insert"@[0] != "digit7"@[0]);
                assert("insert"@[0] != "digit8"@[0]);
                assert("insert"@[0] != "digit9"@[0]);
                assert("insert"@[0] != "return"@[0]);
                assert("insert"@[0] != "escape"@[0]);
                assert("insert"@[0] != "delete"@[0]);
            }
            assert(modifier_of_part("insert"@, platform) is None) by {
                assert("insert"@[0] != "option"@[0]);
            }
            assert(is_ascii_chars("Insert"@) && "Insert"@ != "Unknown"@) by {
            }
        },
        Code::Home => {
            assert(ascii_lower("Home"@) =~= "home"@) by {
                reveal_strlit("Home");
                reveal_strlit("home");
            }
            assert(code_from_name("home"@) == Some(Code::Home)) by {
            }
            assert(modifier_of_part("home"@, platform) is None) by {
                assert("home"@[0] != "ctrl"@[0]);
                assert("home"@[0] != "meta"@[0]);
            }
            assert(is_ascii_chars("Home"@) && "Home"@ != "Unknown"@) by {
            }
        },
        Code::End => {
            assert(ascii_lower("End"@) =~= "end"@) by {
                reveal_strlit("End");
                reveal_strlit("end");
            }
            assert(code_from_name("end"@) == Some(Code::End)) by {
                assert("end"@[0] != "f10"@[0]);
                assert("end"@[0] != "f11"@[0]);
                assert("end"@[0] != "f12"@[0]);
                assert("end"@[0] != "tab"@[0]);
                assert("end"@[1] != "esc"@[1]);
                assert("end"@[0] != "del"@[0]);
                assert("end"@[0] != "ins"@[0]);
            }
            assert(modifier_of_part("end"@, platform) is None) by {
                assert("end"@[0] != "alt"@[0]);
                assert("end"@[0] != "win"@[0]);
                assert("end"@[0] != "cmd"@[0]);
            }
            assert(is_ascii_chars("End"@) && "End"@ != "Unknown"@) by {
            }
        },
        Code::PageUp => {
            assert(ascii_lower("PageUp"@) =~= "pageup"@) by {
                reveal_strlit("PageUp");
                reveal_strlit("pageup");
            }
            assert(code_from_name("pageup"@) == Some(Code::PageUp)) by {
                assert("pageup"@[0] != "digit0"@[0]);
                assert("pageup"@[0] != "digit1"@[0]);
                assert("pageup"@[0] != "digit2"@[0]);
                assert("pageup"@[0] != "digit3"@[0]);
                assert("pageup"@[0] != "digit4"@[0]);
                assert("pageup"@[0] != "digit5"@[0]);
                assert("pageup"@[0] != "digit6"@[0]);
                assert("pageup"@[0] != "digit7"@[0]);
                assert("pageup"@[0] != "digit8"@[0]);
                assert("pageup"@[0] != "digit9"@[0]);
                assert("pageup"@[0] != "return"@[0]);
                assert("pageup"@[0] != "escape"@[0]);
                assert("pageup"@[0] != "delete"@[0]);
                assert("pageup"@[0] != "insert"@[0]);
            }
            assert(modifier_of_part("pageup"@, platform) is None) by {
                assert("pageup"@[0] != "option"@[0]);
            }
            assert(is_ascii_chars("PageUp"@) && "PageUp"@ != "Unknown"@) by {
            }
        },
        Code::PageDown => {
            assert(ascii_lower("PageDown"@) =~= "pagedown"@) by {
                reveal_strlit("PageDown");
                reveal_strlit("pagedown");
            }
            assert(code_from_name("pagedown"@) == Some(Code::PageDown)) by {
            }
            assert(modifier_of_part("pagedown"@, platform) is None) by {
            }
            assert(is_ascii_chars("PageDown"@) && "PageDown"@ != "Unknown"@) by {
            }
        },
        Code::ArrowUp => {
            assert(ascii_lower("Up"@) =~= "up"@) by {
                reveal_strlit("Up");
                reveal_strlit("up");
            }
            assert(code_from_name("up"@) == Some(Code::ArrowUp)) by {
                assert("up"@[0] != "f1"@[0]);
                assert("up"@[0] != "f2"@[0]);
                assert("up"@[0] != "f3"@[0]);
                assert("up"@[0] != "f4"@[0]);
                assert("up"@[0] != "f5"@[0]);
                assert("up"@[0] != "f6"@[0]);
                assert("up"@[0] != "f7"@[0]);
                assert("up"@[0] != "f8"@[0]);
                assert("up"@[0] != "f9"@[0]);
            }
            assert(modifier_of_part("up"@, platform) is None) by {
            }
            assert(is_ascii_chars("Up"@) && "Up"@ != "Unknown"@) by {
            }
        },
        _ => {},
    }
}

/// The table rows from `ArrowDown` to `Quote`: each key's written name reads back
/// as the key exactly when it is not "Unknown".
proof fn lemma_key_names_7(k: Code, platform: Platform)
    requires
        k == Code::ArrowDown || k == Code::ArrowLeft || k == Code::ArrowRight || k == Code::Minus || k == Code::Equal || k == Code::BracketLeft || k == Code::BracketRight || k == Code::Backslash || k == Code::Semicolon || k == Code::Quote,
    ensures
        key_name_reads_back(k, platform) == (code_display(k) != "Unknown"@),
{
    reveal_strlit(" ");
    reveal_strlit("'");
    reveal_strlit(",");
    reveal_strlit("-");
    reveal_strlit(".");
    reveal_strlit("/");
    reveal_strlit("0");
    reveal_strlit("1");
    reveal_strlit("2");
    reveal_strlit("3");
    reveal_strlit("4");
    reveal_strlit("5");
    reveal_strlit("6");
    reveal_strlit("7");
    reveal_strlit("8");
    reveal_strlit("9");
    reveal_strlit(";");
    reveal_strlit("=");
    reveal_strlit("A");
    reveal_strlit("B");
    reveal_strlit("C");
    reveal_strlit("D");
    reveal_strlit("E");
    reveal_strlit("F");
    reveal_strlit("G");
    reveal_strlit("H");
    reveal_strlit("I");
    reveal_strlit("J");
    reveal_strlit("K");
    reveal_strlit("L");
    reveal_strlit("M");
    reveal_strlit("N");
    reveal_strlit("O");
    reveal_strlit("P");
    reveal_strlit("Q");
    reveal_strlit("R");
    reveal_strlit("S");
    reveal_strlit("T");
    reveal_strlit("U");
    reveal_strlit("V");
    reveal_strlit("W");
    reveal_strlit("X");
    reveal_strlit("Y");
    reveal_strlit("Z");
    reveal_strlit("[");
    reveal_strlit("\\");
    reveal_strlit("]");
    reveal_strlit("`");
    reveal_strlit("a");
    reveal_strlit("b");
    reveal_strlit("c");
    reveal_strlit("d");
    reveal_strlit("e");
    reveal_strlit("f");
    reveal_strlit("g");
    reveal_strlit("h");
    reveal_strlit("i");
    reveal_strlit("j");
    reveal_strlit("k");
    reveal_strlit("l");
    reveal_strlit("m");
    reveal_strlit("n");
    reveal_strlit("o");
    reveal_strlit("p");
    reveal_strlit("q");
    reveal_strlit("r");
    reveal_strlit("s");
    reveal_strlit("t");
    reveal_strlit("u");
    reveal_strlit("v");
    reveal_strlit("w");
    reveal_strlit("x");
    reveal_strlit("y");
    reveal_strlit("z");
    reveal_strlit("F1");
    reveal_strlit("F2");
    reveal_strlit("F3");
    reveal_strlit("F4");
    reveal_strlit("F5");
    reveal_strlit("F6");
    reveal_strlit("F7");
    reveal_strlit("F8");
    reveal_strlit("F9");
    reveal_strlit("Up");
    reveal_strlit("f1");
    reveal_strlit("f2");
    reveal_strlit("f3");
    reveal_strlit("f4");
    reveal_strlit("f5");
    reveal_strlit("f6");
    reveal_strlit("f7");
    reveal_strlit("f8");
    reveal_strlit("f9");
    reveal_strlit("up");
    reveal_strlit("End");
    reveal_strlit("F10");
    reveal_strlit("F11");
    reveal_strlit("F12");
    reveal_strlit("Tab");
    reveal_strlit("alt");
    reveal_strlit("cmd");
    reveal_strlit("del");
    reveal_strlit("end");
    reveal_strlit("esc");
    reveal_strlit("f10");
    reveal_strlit("f11");
    reveal_strlit("f12");
    reveal_strlit("ins");
    reveal_strlit("tab");
    reveal_strlit("win");
    reveal_strlit("Down");
    reveal_strlit("Home");
    reveal_strlit("Left");
    reveal_strlit("ctrl");
    reveal_strlit("down");
    reveal_strlit("home");
    reveal_strlit("lalt");
    reveal_strlit("left");
    reveal_strlit("meta");
    reveal_strlit("num0");
    reveal_strlit("num1");
    reveal_strlit("num2");
    reveal_strlit("num3");
    reveal_strlit("num4");
    reveal_strlit("num5");
    reveal_strlit("num6");
    reveal_strlit("num7");
    reveal_strlit("num8");
    reveal_strlit("num9");
    reveal_strlit("pgdn");
    reveal_strlit("pgup");
    reveal_strlit("ralt");
    reveal_strlit("Enter");
    reveal_strlit("Right");
    reveal_strlit("Space");
    reveal_strlit("altgr");
    reveal_strlit("comma");
    reveal_strlit("enter");
    reveal_strlit("equal");
    reveal_strlit("lctrl");
    reveal_strlit("lmeta");
    reveal_strlit("minus");
    reveal_strlit("quote");
    reveal_strlit("rctrl");
    reveal_strlit("right");
    reveal_strlit("rmeta");
    reveal_strlit("shift");
    reveal_strlit("slash");
    reveal_strlit("space");
    reveal_strlit("super");
    reveal_strlit("Delete");
    reveal_strlit("Escape");
    reveal_strlit("Insert");
    reveal_strlit("PageUp");
    reveal_strlit("delete");
    reveal_strlit("digit0");
    reveal_strlit("digit1");
    reveal_strlit("digit2");
    reveal_strlit("digit3");
    reveal_strlit("digit4");
    reveal_strlit("digit5");
    reveal_strlit("digit6");
    reveal_strlit("digit7");
    reveal_strlit("digit8");
    reveal_strlit("digit9");
    reveal_strlit("equals");
    reveal_strlit("escape");
    reveal_strlit("insert");
    reveal_strlit("lshift");
    reveal_strlit("lsuper");
    reveal_strlit("option");
    reveal_strlit("pageup");
    reveal_strlit("period");
    reveal_strlit("return");
    reveal_strlit("rshift");
    reveal_strlit("rsuper");
    reveal_strlit("LeftAlt");
    reveal_strlit("Unknown");
    reveal_strlit("altleft");
    reveal_strlit("arrowup");
    reveal_strlit("command");
    reveal_strlit("control");
    reveal_strlit("leftalt");
    reveal_strlit("numpad0");
    reveal_strlit("numpad1");
    reveal_strlit("numpad2");
    reveal_strlit("numpad3");
    reveal_strlit("numpad4");
    reveal_strlit("numpad5");
    reveal_strlit("numpad6");
    reveal_strlit("numpad7");
    reveal_strlit("numpad8");
    reveal_strlit("numpad9");
    reveal_strlit("unknown");
    reveal_strlit("LeftCtrl");
    reveal_strlit("PageDown");
    reveal_strlit("RightAlt");
    reveal_strlit("altright");
    reveal_strlit("leftctrl");
    reveal_strlit("leftmeta");
    reveal_strlit("metaleft");
    reveal_strlit("pagedown");
    reveal_strlit("rightalt");
    reveal_strlit("Backspace");
    reveal_strlit("LeftShift");
    reveal_strlit("LeftSuper");
    reveal_strlit("RightCtrl");
    reveal_strlit("arrowdown");
    reveal_strlit("arrowleft");
    reveal_strlit("backquote");
    reveal_strlit("backslash");
    reveal_strlit("backspace");
    reveal_strlit("cmdorctrl");
    reveal_strlit("leftshift");
    reveal_strlit("leftsuper");
    reveal_strlit("metaright");
    reveal_strlit("numpadadd");
    reveal_strlit("numpaddot");
    reveal_strlit("rightctrl");
    reveal_strlit("rightmeta");
    reveal_strlit("semicolon");
    reveal_strlit("shiftleft");
    reveal_strlit("RightShift");
    reveal_strlit("RightSuper");
    reveal_strlit("arrowright");
    reveal_strlit("numpadplus");
    reveal_strlit("numpadstar");
    reveal_strlit("rightshift");
    reveal_strlit("rightsuper");
    reveal_strlit("shiftright");
    reveal_strlit("bracketleft");
    reveal_strlit("controlleft");
    reveal_strlit("numpadenter");
    reveal_strlit("numpadminus");
    reveal_strlit("numpadslash");
    reveal_strlit("bracketright");
    reveal_strlit("controlright");
    reveal_strlit("numpaddivide");
    reveal_strlit("numpaddecimal");
    reveal_strlit("numpadmultiply");
    reveal_strlit("numpadsubtract");
    reveal_strlit("commandorcontrol");
    match k {
        Code::ArrowDown => {
            assert(ascii_lower("Down"@) =~= "down"@) by {
                reveal_strlit("Down");
                reveal_strlit("down");
            }
            assert(code_from_name("down"@) == Some(Code::ArrowDown)) by {
                assert("down"@[0] != "home"@[0]);
                assert("down"@[0] != "pgup"@[0]);
                assert("down"@[0] != "pgdn"@[0]);
            }
            assert(modifier_of_part("down"@, platform) is None) by {
                assert("down"@[0] != "ctrl"@[0]);
                assert("down"@[0] != "meta"@[0]);
            }
            assert(is_ascii_chars("Down"@) && "Down"@ != "Unknown"@) by {
            }
        },
        Code::ArrowLeft => {
            assert(ascii_lower("Left"@) =~= "left"@) by {
                reveal_strlit("Left");
                reveal_strlit("left");
            }
            assert(code_from_name("left"@) == Some(Code::ArrowLeft)) by {
                assert("left"@[0] != "home"@[0]);
                assert("left"@[0] != "pgup"@[0]);
                assert("left"@[0] != "pgdn"@[0]);
                assert("left"@[0] != "down"@[0]);
            }
            assert(modifier_of_part("left"@, platform) is None) by {
                assert("left"@[0] != "ctrl"@[0]);
                assert("left"@[0] != "meta"@[0]);
            }
            assert(is_ascii_chars("Left"@) && "Left"@ != "Unknown"@) by {
            }
        },
        Code::ArrowRight => {
            assert(ascii_lower("Right"@) =~= "right"@) by {
                reveal_strlit("Right");
                reveal_strlit("right");
            }
            assert(code_from_name("right"@) == Some(Code::ArrowRight)) by {
                assert("right"@[0] != "space"@[0]);
                assert("right"@[0] != "enter"@[0]);
            }
            assert(modifier_of_part("right"@, platform) is None) by {
                assert("right"@[0] != "shift"@[0]);
                assert("right"@[0] != "super"@[0]);
            }
            assert(is_ascii_chars("Right"@) && "Right"@ != "Unknown"@) by {
            }
        },
        Code::Minus => {
            lemma_unknown_names_no_key();
        },
        Code::Equal => {
            lemma_unknown_names_no_key();
        },
        Code::BracketLeft => {
            lemma_unknown_names_no_key();
        },
        Code::BracketRight => {
            lemma_unknown_names_no_key();
        },
        Code::Backslash => {
            lemma_unknown_names_no_key();
        },
        Code::Semicolon => {
            lemma_unknown_names_no_key();
        },
        Code::Quote => {
            lemma_unknown_names_no_key();
        },
        _ => {},
    }
}

/// The table rows from `Backquote` to `Numpad5`: each key's written name reads back
/// as the key exactly when it is not "Unknown".
proof fn lemma_key_names_8(k: Code, platform: Platform)
    requires
        k == Code::Backquote || k == Code::Comma || k == Code::Period || k == Code::Slash || k == Code::Numpad0 || k == Code::Numpad1 || k == Code::Numpad2 || k == Code::Numpad3 || k == Code::Numpad4 || k == Code::Numpad5,
    ensures
        key_name_reads_back(k, platform) == (code_display(k) != "Unknown"@),
{
    reveal_strlit(" ");
    reveal_strlit("'");
    reveal_strlit(",");
    reveal_strlit("-");
    reveal_strlit(".");
    reveal_strlit("/");
    reveal_strlit("0");
    reveal_strlit("1");
    reveal_strlit("2");
    reveal_strlit("3");
    reveal_strlit("4");
    reveal_strlit("5");
    reveal_strlit("6");
    reveal_strlit("7");
    reveal_strlit("8");
    reveal_strlit("9");
    reveal_strlit(";");
    reveal_strlit("=");
    reveal_strlit("A");
    reveal_strlit("B");
    reveal_strlit("C");
    reveal_strlit("D");
    reveal_strlit("E");
    reveal_strlit("F");
    reveal_strlit("G");
    reveal_strlit("H");
    reveal_strlit("I");
    reveal_strlit("J");
    reveal_strlit("K");
    reveal_strlit("L");
    reveal_strlit("M");
    reveal_strlit("N");
    reveal_strlit("O");
    reveal_strlit("P");
    reveal_strlit("Q");
    reveal_strlit("R");
    reveal_strlit("S");
    reveal_strlit("T");
    reveal_strlit("U");
    reveal_strlit("V");
    reveal_strlit("W");
    reveal_strlit("X");
    reveal_strlit("Y");
    reveal_strlit("Z");
    reveal_strlit("[");
    reveal_strlit("\\");
    reveal_strlit("]");
    reveal_strlit("`");
    reveal_strlit("a");
    reveal_strlit("b");
    reveal_strlit("c");
    reveal_strlit("d");
    reveal_strlit("e");
    reveal_strlit("f");
    reveal_strlit("g");
    reveal_strlit("h");
    reveal_strlit("i");
    reveal_strlit("j");
    reveal_strlit("k");
    reveal_strlit("l");
    reveal_strlit("m");
    reveal_strlit("n");
    reveal_strlit("o");
    reveal_strlit("p");
    reveal_strlit("q");
    reveal_strlit("r");
    reveal_strlit("s");
    reveal_strlit("t");
    reveal_strlit("u");
    reveal_strlit("v");
    reveal_strlit("w");
    reveal_strlit("x");
    reveal_strlit("y");
    reveal_strlit("z");
    reveal_strlit("F1");
    reveal_strlit("F2");
    reveal_strlit("F3");
    reveal_strlit("F4");
    reveal_strlit("F5");
    reveal_strlit("F6");
    reveal_strlit("F7");
    reveal_strlit("F8");
    reveal_strlit("F9");
    reveal_strlit("Up");
    reveal_strlit("f1");
    reveal_strlit("f2");
    reveal_strlit("f3");
    reveal_strlit("f4");
    reveal_strlit("f5");
    reveal_strlit("f6");
    reveal_strlit("f7");
    reveal_strlit("f8");
    reveal_strlit("f9");
    reveal_strlit("up");
    reveal_strlit("End");
    reveal_strlit("F10");
    reveal_strlit("F11");
    reveal_strlit("F12");
    reveal_strlit("Tab");
    reveal_strlit("alt");
    reveal_strlit("cmd");
    reveal_strlit("del");
    reveal_strlit("end");
    reveal_strlit("esc");
    reveal_strlit("f10");
    reveal_strlit("f11");
    reveal_strlit("f12");
    reveal_strlit("ins");
    reveal_strlit("tab");
    reveal_strlit("win");
    reveal_strlit("Down");
    reveal_strlit("Home");
    reveal_strlit("Left");
    reveal_strlit("ctrl");
    reveal_strlit("down");
    reveal_strlit("home");
    reveal_strlit("lalt");
    reveal_strlit("left");
    reveal_strlit("meta");
    reveal_strlit("num0");
    reveal_strlit("num1");
    reveal_strlit("num2");
    reveal_strlit("num3");
    reveal_strlit("num4");
    reveal_strlit("num5");
    reveal_strlit("num6");
    reveal_strlit("num7");
    reveal_strlit("num8");
    reveal_strlit("num9");
    reveal_strlit("pgdn");
    reveal_strlit("pgup");
    reveal_strlit("ralt");
    reveal_strlit("Enter");
    reveal_strlit("Right");
    reveal_strlit("Space");
    reveal_strlit("altgr");
    reveal_strlit("comma");
    reveal_strlit("enter");
    reveal_strlit("equal");
    reveal_strlit("lctrl");
    reveal_strlit("lmeta");
    reveal_strlit("minus");
    reveal_strlit("quote");
    reveal_strlit("rctrl");
    reveal_strlit("right");
    reveal_strlit("rmeta");
    reveal_strlit("shift");
    reveal_strlit("slash");
    reveal_strlit("space");
    reveal_strlit("super");
    reveal_strlit("Delete");
    reveal_strlit("Escape");
    reveal_strlit("Insert");
    reveal_strlit("PageUp");
    reveal_strlit("delete");
    reveal_strlit("digit0");
    reveal_strlit("digit1");
    reveal_strlit("digit2");
    reveal_strlit("digit3");
    reveal_strlit("digit4");
    reveal_strlit("digit5");
    reveal_strlit("digit6");
    reveal_strlit("digit7");
    reveal_strlit("digit8");
    reveal_strlit("digit9");
    reveal_strlit("equals");
    reveal_strlit("escape");
    reveal_strlit("insert");
    reveal_strlit("lshift");
    reveal_strlit("lsuper");
    reveal_strlit("option");
    reveal_strlit("pageup");
    reveal_strlit("period");
    reveal_strlit("return");
    reveal_strlit("rshift");
    reveal_strlit("rsuper");
    reveal_strlit("LeftAlt");
    reveal_strlit("Unknown");
    reveal_strlit("altleft");
    reveal_strlit("arrowup");
    reveal_strlit("command");
    reveal_strlit("control");
    reveal_strlit("leftalt");
    reveal_strlit("numpad0");
    reveal_strlit("numpad1");
    reveal_strlit("numpad2");
    reveal_strlit("numpad3");
    reveal_strlit("numpad4");
    reveal_strlit("numpad5");
    reveal_strlit("numpad6");
    reveal_strlit("numpad7");
    reveal_strlit("numpad8");
    reveal_strlit("numpad9");
    reveal_strlit("unknown");
    reveal_strlit("LeftCtrl");
    reveal_strlit("PageDown");
    reveal_strlit("RightAlt");
    reveal_strlit("altright");
    reveal_strlit("leftctrl");
    reveal_strlit("leftmeta");
    reveal_strlit("metaleft");
    reveal_strlit("pagedown");
    reveal_strlit("rightalt");
    reveal_strlit("Backspace");
    reveal_strlit("LeftShift");
    reveal_strlit("LeftSuper");
    reveal_strlit("RightCtrl");
    reveal_strlit("arrowdown");
    reveal_strlit("arrowleft");
    reveal_strlit("backquote");
    reveal_strlit("backslash");
    reveal_strlit("backspace");
    reveal_strlit("cmdorctrl");
    reveal_strlit("leftshift");
    reveal_strlit("leftsuper");
    reveal_strlit("metaright");
    reveal_strlit("numpadadd");
    reveal_strlit("numpaddot");
    reveal_strlit("rightctrl");
    reveal_strlit("rightmeta");
    reveal_strlit("semicolon");
    reveal_strlit("shiftleft");
    reveal_strlit("RightShift");
    reveal_strlit("RightSuper");
    reveal_strlit("arrowright");
    reveal_strlit("numpadplus");
    reveal_strlit("numpadstar");
    reveal_strlit("rightshift");
    reveal_strlit("rightsuper");
    reveal_strlit("shiftright");
    reveal_strlit("bracketleft");
    reveal_strlit("controlleft");
    reveal_strlit("numpadenter");
    reveal_strlit("numpadminus");
    reveal_strlit("numpadslash");
    reveal_strlit("bracketright");
    reveal_strlit("controlright");
    reveal_strlit("numpaddivide");
    reveal_strlit("numpaddecimal");
    reveal_strlit("numpadmultiply");
    reveal_strlit("numpadsubtract");
    reveal_strlit("commandorcontrol");
    match k {
        Code::Backquote => {
            lemma_unknown_names_no_key();
        },
        Code::Comma => {
            lemma_unknown_names_no_key();
        },
        Code::Period => {
            lemma_unknown_names_no_key();
        },
        Code::Slash => {
            lemma_unknown_names_no_key();
        },
        Code::Numpad0 => {
            lemma_unknown_names_no_key();
        },
        Code::Numpad1 => {
            lemma_unknown_names_no_key();
        },
        Code::Numpad2 => {
            lemma_unknown_names_no_key();
        },
        Code::Numpad3 => {
            lemma_unknown_names_no_key();
        },
        Code::Numpad4 => {
            lemma_unknown_names_no_key();
        },
        Code::Numpad5 => {
            lemma_unknown_names_no_key();
        },
        _ => {},
    }
}

/// The table rows from `Numpad6` to `NumpadEnter`: each key's written name reads back
/// as the key exactly when it is not "Unknown".
proof fn lemma_key_names_9(k: Code, platform: Platform)
    requires
        k == Code::Numpad6 || k == Code::Numpad7 || k == Code::Numpad8 || k == Code::Numpad9 || k == Code::NumpadAdd || k == Code::NumpadSubtract || k == Code::NumpadMultiply || k == Code::NumpadDivide || k == Code::NumpadDecimal || k == Code::NumpadEnter,
    ensures
        key_name_reads_back(k, platform) == (code_display(k) != "Unknown"@),
{
    reveal_strlit(" ");
    reveal_strlit("'");
    reveal_strlit(",");
    reveal_strlit("-");
    reveal_strlit(".");
    reveal_strlit("/");
    reveal_strlit("0");
    reveal_strlit("1");
    reveal_strlit("2");
    reveal_strlit("3");
    reveal_strlit("4");
    reveal_strlit("5");
    reveal_strlit("6");
    reveal_strlit("7");
    reveal_strlit("8");
    reveal_strlit("9");
    reveal_strlit(";");
    reveal_strlit("=");
    reveal_strlit("A");
    reveal_strlit("B");
    reveal_strlit("C");
    reveal_strlit("D");
    reveal_strlit("E");
    reveal_strlit("F");
    reveal_strlit("G");
    reveal_strlit("H");
    reveal_strlit("I");
    reveal_strlit("J");
    reveal_strlit("K");
    reveal_strlit("L");
    reveal_strlit("M");
    reveal_strlit("N");
    reveal_strlit("O");
    reveal_strlit("P");
    reveal_strlit("Q");
    reveal_strlit("R");
    reveal_strlit("S");
    reveal_strlit("T");
    reveal_strlit("U");
    reveal_strlit("V");
    reveal_strlit("W");
    reveal_strlit("X");
    reveal_strlit("Y");
    reveal_strlit("Z");
    reveal_strlit("[");
    reveal_strlit("\\");
    reveal_strlit("]");
    reveal_strlit("`");
    reveal_strlit("a");
    reveal_strlit("b");
    reveal_strlit("c");
    reveal_strlit("d");
    reveal_strlit("e");
    reveal_strlit("f");
    reveal_strlit("g");
    reveal_strlit("h");
    reveal_strlit("i");
    reveal_strlit("j");
    reveal_strlit("k");
    reveal_strlit("l");
    reveal_strlit("m");
    reveal_strlit("n");
    reveal_strlit("o");
    reveal_strlit("p");
    reveal_strlit("q");
    reveal_strlit("r");
    reveal_strlit("s");
    reveal_strlit("t");
    reveal_strlit("u");
    reveal_strlit("v");
    reveal_strlit("w");
    reveal_strlit("x");
    reveal_strlit("y");
    reveal_strlit("z");
    reveal_strlit("F1");
    reveal_strlit("F2");
    reveal_strlit("F3");
    reveal_strlit("F4");
    reveal_strlit("F5");
    reveal_strlit("F6");
    reveal_strlit("F7");
    reveal_strlit("F8");
    reveal_strlit("F9");
    reveal_strlit("Up");
    reveal_strlit("f1");
    reveal_strlit("f2");
    reveal_strlit("f3");
    reveal_strlit("f4");
    reveal_strlit("f5");
    reveal_strlit("f6");
    reveal_strlit("f7");
    reveal_strlit("f8");
    reveal_strlit("f9");
    reveal_strlit("up");
    reveal_strlit("End");
    reveal_strlit("F10");
    reveal_strlit("F11");
    reveal_strlit("F12");
    reveal_strlit("Tab");
    reveal_strlit("alt");
    reveal_strlit("cmd");
    reveal_strlit("del");
    reveal_strlit("end");
    reveal_strlit("esc");
    reveal_strlit("f10");
    reveal_strlit("f11");
    reveal_strlit("f12");
    reveal_strlit("ins");
    reveal_strlit("tab");
    reveal_strlit("win");
    reveal_strlit("Down");
    reveal_strlit("Home");
    reveal_strlit("Left");
    reveal_strlit("ctrl");
    reveal_strlit("down");
    reveal_strlit("home");
    reveal_strlit("lalt");
    reveal_strlit("left");
    reveal_strlit("meta");
    reveal_strlit("num0");
    reveal_strlit("num1");
    reveal_strlit("num2");
    reveal_strlit("num3");
    reveal_strlit("num4");
    reveal_strlit("num5");
    reveal_strlit("num6");
    reveal_strlit("num7");
    reveal_strlit("num8");
    reveal_strlit("num9");
    reveal_strlit("pgdn");
    reveal_strlit("pgup");
    reveal_strlit("ralt");
    reveal_strlit("Enter");
    reveal_strlit("Right");
    reveal_strlit("Space");
    reveal_strlit("altgr");
    reveal_strlit("comma");
    reveal_strlit("enter");
    reveal_strlit("equal");
    reveal_strlit("lctrl");
    reveal_strlit("lmeta");
    reveal_strlit("minus");
    reveal_strlit("quote");
    reveal_strlit("rctrl");
    reveal_strlit("right");
    reveal_strlit("rmeta");
    reveal_strlit("shift");
    reveal_strlit("slash");
    reveal_strlit("space");
    reveal_strlit("super");
    reveal_strlit("Delete");
    reveal_strlit("Escape");
    reveal_strlit("Insert");
    reveal_strlit("PageUp");
    reveal_strlit("delete");
    reveal_strlit("digit0");
    reveal_strlit("digit1");
    reveal_strlit("digit2");
    reveal_strlit("digit3");
    reveal_strlit("digit4");
    reveal_strlit("digit5");
    reveal_strlit("digit6");
    reveal_strlit("digit7");
    reveal_strlit("digit8");
    reveal_strlit("digit9");
    reveal_strlit("equals");
    reveal_strlit("escape");
    reveal_strlit("insert");
    reveal_strlit("lshift");
    reveal_strlit("lsuper");
    reveal_strlit("option");
    reveal_strlit("pageup");
    reveal_strlit("period");
    reveal_strlit("return");
    reveal_strlit("rshift");
    reveal_strlit("rsuper");
    reveal_strlit("LeftAlt");
    reveal_strlit("Unknown");
    reveal_strlit("altleft");
    reveal_strlit("arrowup");
    reveal_strlit("command");
    reveal_strlit("control");
    reveal_strlit("leftalt");
    reveal_strlit("numpad0");
    reveal_strlit("numpad1");
    reveal_strlit("numpad2");
    reveal_strlit("numpad3");
    reveal_strlit("numpad4");
    reveal_strlit("numpad5");
    reveal_strlit("numpad6");
    reveal_strlit("numpad7");
    reveal_strlit("numpad8");
    reveal_strlit("numpad9");
    reveal_strlit("unknown");
    reveal_strlit("LeftCtrl");
    reveal_strlit("PageDown");
    reveal_strlit("RightAlt");
    reveal_strlit("altright");
    reveal_strlit("leftctrl");
    reveal_strlit("leftmeta");
    reveal_strlit("metaleft");
    reveal_strlit("pagedown");
    reveal_strlit("rightalt");
    reveal_strlit("Backspace");
    reveal_strlit("LeftShift");
    reveal_strlit("LeftSuper");
    reveal_strlit("RightCtrl");
    reveal_strlit("arrowdown");
    reveal_strlit("arrowleft");
    reveal_strlit("backquote");
    reveal_strlit("backslash");
    reveal_strlit("backspace");
    reveal_strlit("cmdorctrl");
    reveal_strlit("leftshift");
    reveal_strlit("leftsuper");
    reveal_strlit("metaright");
    reveal_strlit("numpadadd");
    reveal_strlit("numpaddot");
    reveal_strlit("rightctrl");
    reveal_strlit("rightmeta");
    reveal_strlit("semicolon");
    reveal_strlit("shiftleft");
    reveal_strlit("RightShift");
    reveal_strlit("RightSuper");
    reveal_strlit("arrowright");
    reveal_strlit("numpadplus");
    reveal_strlit("numpadstar");
    reveal_strlit("rightshift");
    reveal_strlit("rightsuper");
    reveal_strlit("shiftright");
    reveal_strlit("bracketleft");
    reveal_strlit("controlleft");
    reveal_strlit("numpadenter");
    reveal_strlit("numpadminus");
    reveal_strlit("numpadslash");
    reveal_strlit("bracketright");
    reveal_strlit("controlright");
    reveal_strlit("numpaddivide");
    reveal_strlit("numpaddecimal");
    reveal_strlit("numpadmultiply");
    reveal_strlit("numpadsubtract");
    reveal_strlit("commandorcontrol");
    match k {
        Code::Numpad6 => {
            lemma_unknown_names_no_key();
        },
        Code::Numpad7 => {
            lemma_unknown_names_no_key();
        },
        Code::Numpad8 => {
            lemma_unknown_names_no_key();
        },
        Code::Numpad9 => {
            lemma_unknown_names_no_key();
        },
        Code::NumpadAdd => {
            lemma_unknown_names_no_key();
        },
        Code::NumpadSubtract => {
            lemma_unknown_names_no_key();
        },
        Code::NumpadMultiply => {
            lemma_unknown_names_no_key();
        },
        Code::NumpadDivide => {
            lemma_unknown_names_no_key();
        },
        Code::NumpadDecimal => {
            lemma_unknown_names_no_key();
        },
        Code::NumpadEnter => {
            lemma_unknown_names_no_key();
        },
        _ => {},
    }
}

/// The table rows from `AltLeft` to `MetaRight`: each key's written name reads back
/// as the key exactly when it is not "Unknown".
proof fn lemma_key_names_10(k: Code, platform: Platform)
    requires
        k == Code::AltLeft || k == Code::AltRight || k == Code::ControlLeft || k == Code::ControlRight || k == Code::ShiftLeft || k == Code::ShiftRight || k == Code::MetaLeft || k == Code::MetaRight,
    ensures
        key_name_reads_back(k, platform) == (code_display(k) != "Unknown"@),
{
    reveal_strlit(" ");
    reveal_strlit("'");
    reveal_strlit(",");
    reveal_strlit("-");
    reveal_strlit(".");
    reveal_strlit("/");
    reveal_strlit("0");
    reveal_strlit("1");
    reveal_strlit("2");
    reveal_strlit("3");
    reveal_strlit("4");
    reveal_strlit("5");
    reveal_strlit("6");
    reveal_strlit("7");
    reveal_strlit("8");
    reveal_strlit("9");
    reveal_strlit(";");
    reveal_strlit("=");
    reveal_strlit("A");
    reveal_strlit("B");
    reveal_strlit("C");
    reveal_strlit("D");
    reveal_strlit("E");
    reveal_strlit("F");
    reveal_strlit("G");
    reveal_strlit("H");
    reveal_strlit("I");
    reveal_strlit("J");
    reveal_strlit("K");
    reveal_strlit("L");
    reveal_strlit("M");
    reveal_strlit("N");
    reveal_strlit("O");
    reveal_strlit("P");
    reveal_strlit("Q");
    reveal_strlit("R");
    reveal_strlit("S");
    reveal_strlit("T");
    reveal_strlit("U");
    reveal_strlit("V");
    reveal_strlit("W");
    reveal_strlit("X");
    reveal_strlit("Y");
    reveal_strlit("Z");
    reveal_strlit("[");
    reveal_strlit("\\");
    reveal_strlit("]");
    reveal_strlit("`");
    reveal_strlit("a");
    reveal_strlit("b");
    reveal_strlit("c");
    reveal_strlit("d");
    reveal_strlit("e");
    reveal_strlit("f");
    reveal_strlit("g");
    reveal_strlit("h");
    reveal_strlit("i");
    reveal_strlit("j");
    reveal_strlit("k");
    reveal_strlit("l");
    reveal_strlit("m");
    reveal_strlit("n");
    reveal_strlit("o");
    reveal_strlit("p");
    reveal_strlit("q");
    reveal_strlit("r");
    reveal_strlit("s");
    reveal_strlit("t");
    reveal_strlit("u");
    reveal_strlit("v");
    reveal_strlit("w");
    reveal_strlit("x");
    reveal_strlit("y");
    reveal_strlit("z");
    reveal_strlit("F1");
    reveal_strlit("F2");
    reveal_strlit("F3");
    reveal_strlit("F4");
    reveal_strlit("F5");
    reveal_strlit("F6");
    reveal_strlit("F7");
    reveal_strlit("F8");
    reveal_strlit("F9");
    reveal_strlit("Up");
    reveal_strlit("f1");
    reveal_strlit("f2");
    reveal_strlit("f3");
    reveal_strlit("f4");
    reveal_strlit("f5");
    reveal_strlit("f6");
    reveal_strlit("f7");
    reveal_strlit("f8");
    reveal_strlit("f9");
    reveal_strlit("up");
    reveal_strlit("End");
    reveal_strlit("F10");
    reveal_strlit("F11");
    reveal_strlit("F12");
    reveal_strlit("Tab");
    reveal_strlit("alt");
    reveal_strlit("cmd");
    reveal_strlit("del");
    reveal_strlit("end");
    reveal_strlit("esc");
    reveal_strlit("f10");
    reveal_strlit("f11");
    reveal_strlit("f12");
    reveal_strlit("ins");
    reveal_strlit("tab");
    reveal_strlit("win");
    reveal_strlit("Down");
    reveal_strlit("Home");
    reveal_strlit("Left");
    reveal_strlit("ctrl");
    reveal_strlit("down");
    reveal_strlit("home");
    reveal_strlit("lalt");
    reveal_strlit("left");
    reveal_strlit("meta");
    reveal_strlit("num0");
    reveal_strlit("num1");
    reveal_strlit("num2");
    reveal_strlit("num3");
    reveal_strlit("num4");
    reveal_strlit("num5");
    reveal_strlit("num6");
    reveal_strlit("num7");
    reveal_strlit("num8");
    reveal_strlit("num9");
    reveal_strlit("pgdn");
    reveal_strlit("pgup");
    reveal_strlit("ralt");
    reveal_strlit("Enter");
    reveal_strlit("Right");
    reveal_strlit("Space");
    reveal_strlit("altgr");
    reveal_strlit("comma");
    reveal_strlit("enter");
    reveal_strlit("equal");
    reveal_strlit("lctrl");
    reveal_strlit("lmeta");
    reveal_strlit("minus");
    reveal_strlit("quote");
    reveal_strlit("rctrl");
    reveal_strlit("right");
    reveal_strlit("rmeta");
    reveal_strlit("shift");
    reveal_strlit("slash");
    reveal_strlit("space");
    reveal_strlit("super");
    reveal_strlit("Delete");
    reveal_strlit("Escape");
    reveal_strlit("Insert");
    reveal_strlit("PageUp");
    reveal_strlit("delete");
    reveal_strlit("digit0");
    reveal_strlit("digit1");
    reveal_strlit("digit2");
    reveal_strlit("digit3");
    reveal_strlit("digit4");
    reveal_strlit("digit5");
    reveal_strlit("digit6");
    reveal_strlit("digit7");
    reveal_strlit("digit8");
    reveal_strlit("digit9");
    reveal_strlit("equals");
    reveal_strlit("escape");
    reveal_strlit("insert");
    reveal_strlit("lshift");
    reveal_strlit("lsuper");
    reveal_strlit("option");
    reveal_strlit("pageup");
    reveal_strlit("period");
    reveal_strlit("return");
    reveal_strlit("rshift");
    reveal_strlit("rsuper");
    reveal_strlit("LeftAlt");
    reveal_strlit("Unknown");
    reveal_strlit("altleft");
    reveal_strlit("arrowup");
    reveal_strlit("command");
    reveal_strlit("control");
    reveal_strlit("leftalt");
    reveal_strlit("numpad0");
    reveal_strlit("numpad1");
    reveal_strlit("numpad2");
    reveal_strlit("numpad3");
    reveal_strlit("numpad4");
    reveal_strlit("numpad5");
    reveal_strlit("numpad6");
    reveal_strlit("numpad7");
    reveal_strlit("numpad8");
    reveal_strlit("numpad9");
    reveal_strlit("unknown");
    reveal_strlit("LeftCtrl");
    reveal_strlit("PageDown");
    reveal_strlit("RightAlt");
    reveal_strlit("altright");
    reveal_strlit("leftctrl");
    reveal_strlit("leftmeta");
    reveal_strlit("metaleft");
    reveal_strlit("pagedown");
    reveal_strlit("rightalt");
    reveal_strlit("Backspace");
    reveal_strlit("LeftShift");
    reveal_strlit("LeftSuper");
    reveal_strlit("RightCtrl");
    reveal_strlit("arrowdown");
    reveal_strlit("arrowleft");
    reveal_strlit("backquote");
    reveal_strlit("backslash");
    reveal_strlit("backspace");
    reveal_strlit("cmdorctrl");
    reveal_strlit("leftshift");
    reveal_strlit("leftsuper");
    reveal_strlit("metaright");
    reveal_strlit("numpadadd");
    reveal_strlit("numpaddot");
    reveal_strlit("rightctrl");
    reveal_strlit("rightmeta");
    reveal_strlit("semicolon");
    reveal_strlit("shiftleft");
    reveal_strlit("RightShift");
    reveal_strlit("RightSuper");
    reveal_strlit("arrowright");
    reveal_strlit("numpadplus");
    reveal_strlit("numpadstar");
    reveal_strlit("rightshift");
    reveal_strlit("rightsuper");
    reveal_strlit("shiftright");
    reveal_strlit("bracketleft");
    reveal_strlit("controlleft");
    reveal_strlit("numpadenter");
    reveal_strlit("numpadminus");
    reveal_strlit("numpadslash");
    reveal_strlit("bracketright");
    reveal_strlit("controlright");
    reveal_strlit("numpaddivide");
    reveal_strlit("numpaddecimal");
    reveal_strlit("numpadmultiply");
    reveal_strlit("numpadsubtract");
    reveal_strlit("commandorcontrol");
    match k {
        Code::AltLeft => {
            assert(ascii_lower("LeftAlt"@) =~= "leftalt"@) by {
                reveal_strlit("LeftAlt");
                reveal_strlit("leftalt");
            }
            assert(code_from_name("leftalt"@) == Some(Code::AltLeft)) by {
                assert("leftalt"@[0] != "arrowup"@[0]);
                assert("leftalt"@[0] != "numpad0"@[0]);
                assert("leftalt"@[0] != "numpad1"@[0]);
                assert("leftalt"@[0] != "numpad2"@[0]);
                assert("leftalt"@[0] != "numpad3"@[0]);
                assert("leftalt"@[0] != "numpad4"@[0]);
                assert("leftalt"@[0] != "numpad5"@[0]);
                assert("leftalt"@[0] != "numpad6"@[0]);
                assert("leftalt"@[0] != "numpad7"@[0]);
                assert("leftalt"@[0] != "numpad8"@[0]);
                assert("leftalt"@[0] != "numpad9"@[0]);
                assert("leftalt"@[0] != "altleft"@[0]);
            }
            assert(modifier_of_part("leftalt"@, platform) is None) by {
                assert("leftalt"@[0] != "control"@[0]);
                assert("leftalt"@[0] != "command"@[0]);
            }
            assert(is_ascii_chars("LeftAlt"@) && "LeftAlt"@ != "Unknown"@) by {
                assert("LeftAlt"@[0] != "Unknown"@[0]);
            }
        },
        Code::AltRight => {
            assert(ascii_lower("RightAlt"@) =~= "rightalt"@) by {
                reveal_strlit("RightAlt");
                reveal_strlit("rightalt");
            }
            assert(code_from_name("rightalt"@) == Some(Code::AltRight)) by {
                assert("rightalt"@[0] != "pagedown"@[0]);
                assert("rightalt"@[0] != "altright"@[0]);
            }
            assert(modifier_of_part("rightalt"@, platform) is None) by {
            }
            assert(is_ascii_chars("RightAlt"@) && "RightAlt"@ != "Unknown"@) by {
            }
        },
        Code::ControlLeft => {
            assert(ascii_lower("LeftCtrl"@) =~= "leftctrl"@) by {
                reveal_strlit("LeftCtrl");
                reveal_strlit("leftctrl");
            }
            assert(code_from_name("leftctrl"@) == Some(Code::ControlLeft)) by {
                assert("leftctrl"@[0] != "pagedown"@[0]);
                assert("leftctrl"@[0] != "altright"@[0]);
                assert("leftctrl"@[0] != "rightalt"@[0]);
            }
            assert(modifier_of_part("leftctrl"@, platform) is None) by {
            }
            assert(is_ascii_chars("LeftCtrl"@) && "LeftCtrl"@ != "Unknown"@) by {
            }
        },
        Code::ControlRight => {
            assert(ascii_lower("RightCtrl"@) =~= "rightctrl"@) by {
                reveal_strlit("RightCtrl");
                reveal_strlit("rightctrl");
            }
            assert(code_from_name("rightctrl"@) == Some(Code::ControlRight)) by {
                assert("rightctrl"@[0] != "backspace"@[0]);
                assert("rightctrl"@[0] != "arrowdown"@[0]);
                assert("rightctrl"@[0] != "arrowleft"@[0]);
                assert("rightctrl"@[0] != "backslash"@[0]);
                assert("rightctrl"@[0] != "semicolon"@[0]);
                assert("rightctrl"@[0] != "backquote"@[0]);
                assert("rightctrl"@[0] != "numpadadd"@[0]);
                assert("rightctrl"@[0] != "numpaddot"@[0]);
            }
            assert(modifier_of_part("rightctrl"@, platform) is None) by {
                assert("rightctrl"@[0] != "cmdorctrl"@[0]);
            }
            assert(is_ascii_chars("RightCtrl"@) && "RightCtrl"@ != "Unknown"@) by {
            }
        },
        Code::ShiftLeft => {
            assert(ascii_lower("LeftShift"@) =~= "leftshift"@) by {
                reveal_strlit("LeftShift");
                reveal_strlit("leftshift");
            }
            assert(code_from_name("leftshift"@) == Some(Code::ShiftLeft)) by {
                assert("leftshift"@[0] != "backspace"@[0]);
                assert("leftshift"@[0] != "arrowdown"@[0]);
                assert("leftshift"@[0] != "arrowleft"@[0]);
                assert("leftshift"@[0] != "backslash"@[0]);
                assert("leftshift"@[0] != "semicolon"@[0]);
                assert("leftshift"@[0] != "backquote"@[0]);
                assert("leftshift"@[0] != "numpadadd"@[0]);
                assert("leftshift"@[0] != "numpaddot"@[0]);
                assert("leftshift"@[0] != "rightctrl"@[0]);
                assert("leftshift"@[0] != "shiftleft"@[0]);
            }
            assert(modifier_of_part("leftshift"@, platform) is None) by {
                assert("leftshift"@[0] != "cmdorctrl"@[0]);
            }
            assert(is_ascii_chars("LeftShift"@) && "LeftShift"@ != "Unknown"@) by {
            }
        },
        Code::ShiftRight => {
            assert(ascii_lower("RightShift"@) =~= "rightshift"@) by {
                reveal_strlit("RightShift");
                reveal_strlit("rightshift");
            }
            assert(code_from_name("rightshift"@) == Some(Code::ShiftRight)) by {
                assert("rightshift"@[0] != "arrowright"@[0]);
                assert("rightshift"@[0] != "numpadplus"@[0]);
                assert("rightshift"@[0] != "numpadstar"@[0]);
                assert("rightshift"@[0] != "shiftright"@[0]);
            }
            assert(modifier_of_part("rightshift"@, platform) is None) by {
            }
            assert(is_ascii_chars("RightShift"@) && "RightShift"@ != "Unknown"@) by {
            }
        },
        Code::MetaLeft => {
            assert(ascii_lower("LeftSuper"@) =~= "leftsuper"@) by {
                reveal_strlit("LeftSuper");
                reveal_strlit("leftsuper");
            }
            assert(code_from_name("leftsuper"@) == Some(Code::MetaLeft)) by {
                assert("leftsuper"@[0] != "backspace"@[0]);
                assert("leftsuper"@[0] != "arrowdown"@[0]);
                assert("leftsuper"@[0] != "arrowleft"@[0]);
                assert("leftsuper"@[0] != "backslash"@[0]);
                assert("leftsuper"@[0] != "semicolon"@[0]);
                assert("leftsuper"@[0] != "backquote"@[0]);
                assert("leftsuper"@[0] != "numpadadd"@[0]);
                assert("leftsuper"@[0] != "numpaddot"@[0]);
                assert("leftsuper"@[0] != "rightctrl"@[0]);
                assert("leftsuper"@[0] != "shiftleft"@[0]);
                assert("leftsuper"@[5] != "leftshift"@[5]);
            }
            assert(modifier_of_part("leftsuper"@, platform) is None) by {
                assert("leftsuper"@[0] != "cmdorctrl"@[0]);
            }
            assert(is_ascii_chars("LeftSuper"@) && "LeftSuper"@ != "Unknown"@) by {
            }
        },
        Code::MetaRight => {
            assert(ascii_lower("RightSuper"@) =~= "rightsuper"@) by {
                reveal_strlit("RightSuper");
                reveal_strlit("rightsuper");
            }
            assert(code_from_name("rightsuper"@) == Some(Code::MetaRight)) by {
                assert("rightsuper"@[0] != "arrowright"@[0]);
                assert("rightsuper"@[0] != "numpadplus"@[0]);
                assert("rightsuper"@[0] != "numpadstar"@[0]);
                assert("rightsuper"@[0] != "shiftright"@[0]);
                assert("rightsuper"@[6] != "rightshift"@[6]);
            }
            assert(modifier_of_part("rightsuper"@, platform) is None) by {
            }
            assert(is_ascii_chars("RightSuper"@) && "RightSuper"@ != "Unknown"@) by {
            }
        },
        _ => {},
    }
}

/// A key's written name reads back as the key exactly when it is not written "Unknown".
pub proof fn law_key_names_read_back(k: Code, platform: Platform)
    ensures
        key_name_reads_back(k, platform) == (code_display(k) != "Unknown"@),
{
    if k == Code::KeyA || k == Code::KeyB || k == Code::KeyC || k == Code::KeyD || k == Code::KeyE || k == Code::KeyF || k == Code::KeyG || k == Code::KeyH || k == Code::KeyI || k == Code::KeyJ {
        lemma_key_names_1(k, platform);
    }
    if k == Code::KeyK || k == Code::KeyL || k == Code::KeyM || k == Code::KeyN || k == Code::KeyO || k == Code::KeyP || k == Code::KeyQ || k == Code::KeyR || k == Code::KeyS || k == Code::KeyT {
        lemma_key_names_2(k, platform);
    }
    if k == Code::KeyU || k == Code::KeyV || k == Code::KeyW || k == Code::KeyX || k == Code::KeyY || k == Code::KeyZ || k == Code::Digit0 || k == Code::Digit1 || k == Code::Digit2 || k == Code::Digit3 {
        lemma_key_names_3(k, platform);
    }
    if k == Code::Digit4 || k == Code::Digit5 || k == Code::Digit6 || k == Code::Digit7 || k == Code::Digit8 || k == Code::Digit9 || k == Code::F1 || k == Code::F2 || k == Code::F3 || k == Code::F4 {
        lemma_key_names_4(k, platform);
    }
    if k == Code::F5 || k == Code::F6 || k == Code::F7 || k == Code::F8 || k == Code::F9 || k == Code::F10 || k == Code::F11 || k == Code::F12 || k == Code::Space || k == Code::Enter {
        lemma_key_names_5(k, platform);
    }
    if k == Code::Tab || k == Code::Escape || k == Code::Backspace || k == Code::Delete || k == Code::Insert || k == Code::Home || k == Code::End || k == Code::PageUp || k == Code::PageDown || k == Code::ArrowUp {
        lemma_key_names_6(k, platform);
    }
    if k == Code::ArrowDown || k == Code::ArrowLeft || k == Code::ArrowRight || k == Code::Minus || k == Code::Equal || k == Code::BracketLeft || k == Code::BracketRight || k == Code::Backslash || k == Code::Semicolon || k == Code::Quote {
        lemma_key_names_7(k, platform);
    }
    if k == Code::Backquote || k == Code::Comma || k == Code::Period || k == Code::Slash || k == Code::Numpad0 || k == Code::Numpad1 || k == Code::Numpad2 || k == Code::Numpad3 || k == Code::Numpad4 || k == Code::Numpad5 {
        lemma_key_names_8(k, platform);
    }
    if k == Code::Numpad6 || k == Code::Numpad7 || k == Code::Numpad8 || k == Code::Numpad9 || k == Code::NumpadAdd || k == Code::NumpadSubtract || k == Code::NumpadMultiply || k == Code::NumpadDivide || k == Code::NumpadDecimal || k == Code::NumpadEnter {
        lemma_key_names_9(k, platform);
    }
    if k == Code::AltLeft || k == Code::AltRight || k == Code::ControlLeft || k == Code::ControlRight || k == Code::ShiftLeft || k == Code::ShiftRight || k == Code::MetaLeft || k == Code::MetaRight {
        lemma_key_names_10(k, platform);
    }
}

/// A shortcut whose key has a name, written out and parsed again, gives back the same
/// modifiers and the same key.
pub proof fn law_named_shortcut_round_trip(sc: Shortcut, platform: Platform)
    requires
        code_display(sc.key) != "Unknown"@,
    ensures
        is_ascii_chars(spec_shortcut_string(sc, platform)),
        ascii_parse_shortcut(spec_shortcut_string(sc, platform), platform) == ShortcutParse::Parsed(
            sc.mods,
            sc.key,
        ),
{
    law_key_names_read_back(sc.key, platform);
    law_shortcut_text_round_trip(sc, platform);
}

} // verus!
