//! Properties of hotkey handling that span several events.
use vstd::prelude::*;
use crate::hotkeys::keyboard::{
    keyboard_step, modifier_display, modifier_from_name, raw_key_name, spec_from_raw_key, KeyEventType,
    KeyboardView, ModifierKey, RawKey,
};
use crate::hotkeys::keys::{code_display, code_from_name, Code};
use crate::hotkeys::manager::{
    ascii_parse_shortcut, ascii_shortcut_parts, modifier_of_part, parse_ascii_parts,
    spec_shortcut_string, Modifiers, Shortcut, ShortcutParse,
};
use crate::platform::Platform;
use crate::text::{
    ascii_lower, ascii_trim, ascii_trim_end, ascii_trim_start, ascii_whitespace, is_ascii_chars,
    lemma_ascii_lower_char, lemma_ascii_lower_concat, lemma_ascii_lower_idempotent,
    lemma_ascii_lower_ascii, lemma_ascii_trim_lower, lemma_ascii_upper_lower, lemma_split_append,
    lemma_split_push_sep, split_seq, ascii_upper,
};
use crate::hotkeys::manager::{
    action_language, shortcut_step, start_event, stop_event, EventView, HotkeyAction, HotkeyMode,
    ManagerView, ShortcutState,
};

verus! {

/// In Hold mode, pressing an enabled recording hotkey while idle starts a recording in the
/// hotkey's language, and releasing it stops that recording again.
pub proof fn law_hold_press_release_round_trip(m: ManagerView, key: Seq<char>)
    requires
        m.configs.dom().contains(key),
        m.configs[key].enabled,
        m.configs[key].mode == HotkeyMode::Hold,
        m.configs[key].action != HotkeyAction::OpenSettings,
        !m.recording,
    ensures
        shortcut_step(m, key, ShortcutState::Pressed) == (
            true,
            Some(EventView::RecordingStart { language: action_language(m.configs[key].action) }),
        ),
        shortcut_step(
            ManagerView { configs: m.configs, recording: true },
            key,
            ShortcutState::Released,
        ) == (false, Some(EventView::RecordingStop)),
{
}

/// In Toggle mode, a press of an enabled recording hotkey flips the recording flag, so two
/// presses restore it; the first press from idle starts and the second stops.
pub proof fn law_toggle_two_presses_restore(m: ManagerView, key: Seq<char>)
    requires
        m.configs.dom().contains(key),
        m.configs[key].enabled,
        m.configs[key].mode == HotkeyMode::Toggle,
        m.configs[key].action != HotkeyAction::OpenSettings,
    ensures
        shortcut_step(m, key, ShortcutState::Pressed).0 == !m.recording,
        shortcut_step(
            ManagerView {
                configs: m.configs,
                recording: shortcut_step(m, key, ShortcutState::Pressed).0,
            },
            key,
            ShortcutState::Pressed,
        ).0 == m.recording,
        !m.recording ==> shortcut_step(m, key, ShortcutState::Pressed).1 == Some(
            EventView::RecordingStart { language: action_language(m.configs[key].action) },
        ),
        m.recording ==> shortcut_step(m, key, ShortcutState::Pressed).1 == Some(
            EventView::RecordingStop,
        ),
{
}

/// In Toggle mode, releasing a hotkey neither changes the recording flag nor emits anything.
pub proof fn law_toggle_release_is_ignored(m: ManagerView, key: Seq<char>)
    requires
        m.configs.dom().contains(key),
        m.configs[key].mode == HotkeyMode::Toggle,
    ensures
        shortcut_step(m, key, ShortcutState::Released) == (m.recording, None::<EventView>),
{
}

/// Unknown and disabled hotkeys never emit an event and never change the recording flag.
pub proof fn law_unknown_or_disabled_is_inert(m: ManagerView, key: Seq<char>, state: ShortcutState)
    requires
        !m.configs.dom().contains(key) || !m.configs[key].enabled,
    ensures
        shortcut_step(m, key, state) == (m.recording, None::<EventView>),
{
}

/// A registered modifier hotkey that is not held fires once with `true` when pressed and
/// once with `false` when released, after which its hotkey state is as before.
pub proof fn law_modifier_press_release_round_trip(s: KeyboardView, key: RawKey)
    requires
        spec_from_raw_key(key) is Some,
        s.registered.contains(spec_from_raw_key(key)->0),
        !s.active.contains(spec_from_raw_key(key)->0),
    ensures
        keyboard_step(s, KeyEventType::KeyPress(key)).1 == Some((spec_from_raw_key(key)->0, true)),
        keyboard_step(keyboard_step(s, KeyEventType::KeyPress(key)).0, KeyEventType::KeyRelease(key)).1
            == Some((spec_from_raw_key(key)->0, false)),
        keyboard_step(keyboard_step(s, KeyEventType::KeyPress(key)).0, KeyEventType::KeyRelease(key)).0.active
            == s.active,
        keyboard_step(keyboard_step(s, KeyEventType::KeyPress(key)).0, KeyEventType::KeyRelease(key)).0.registered
            == s.registered,
{
    let m = spec_from_raw_key(key)->0;
    let s1 = keyboard_step(s, KeyEventType::KeyPress(key)).0;
    assert(s1.active == s.active.insert(m));
    assert(s1.active.insert(m).remove(m) =~= s.active) by {
        assert(s.active.insert(m).remove(m) =~= s.active);
    }
}

/// While a modifier hotkey is held, further presses (key repeat) fire nothing.
pub proof fn law_modifier_repeat_fires_once(s: KeyboardView, key: RawKey)
    requires
        spec_from_raw_key(key) is Some,
        s.active.contains(spec_from_raw_key(key)->0),
    ensures
        keyboard_step(s, KeyEventType::KeyPress(key)).1 is None,
        keyboard_step(s, KeyEventType::KeyPress(key)).0.active == s.active,
{
}

/// The hook's names of the modifier keys, lower-cased, name the modifier hotkeys of the
/// same kind and side.
proof fn lemma_raw_key_names()
    ensures
        ascii_lower("AltGr"@) == "altgr"@,
        modifier_from_name("altgr"@) == Some(ModifierKey::AltRight),
        ascii_lower("ControlLeft"@) == "controlleft"@,
        modifier_from_name("controlleft"@) == Some(ModifierKey::ControlLeft),
        ascii_lower("ControlRight"@) == "controlright"@,
        modifier_from_name("controlright"@) == Some(ModifierKey::ControlRight),
        ascii_lower("ShiftLeft"@) == "shiftleft"@,
        modifier_from_name("shiftleft"@) == Some(ModifierKey::ShiftLeft),
        ascii_lower("ShiftRight"@) == "shiftright"@,
        modifier_from_name("shiftright"@) == Some(ModifierKey::ShiftRight),
        ascii_lower("MetaLeft"@) == "metaleft"@,
        modifier_from_name("metaleft"@) == Some(ModifierKey::MetaLeft),
        ascii_lower("MetaRight"@) == "metaright"@,
        modifier_from_name("metaright"@) == Some(ModifierKey::MetaRight),
{
    reveal_strlit("altleft");
    reveal_strlit("leftalt");
    reveal_strlit("lalt");
    reveal_strlit("altright");
    reveal_strlit("rightalt");
    reveal_strlit("ralt");
    reveal_strlit("altgr");
    reveal_strlit("controlleft");
    reveal_strlit("leftctrl");
    reveal_strlit("lctrl");
    reveal_strlit("ctrlleft");
    reveal_strlit("controlright");
    reveal_strlit("rightctrl");
    reveal_strlit("rctrl");
    reveal_strlit("ctrlright");
    reveal_strlit("shiftleft");
    reveal_strlit("leftshift");
    reveal_strlit("lshift");
    reveal_strlit("shiftright");
    reveal_strlit("rightshift");
    reveal_strlit("rshift");
    reveal_strlit("metaleft");
    reveal_strlit("leftmeta");
    reveal_strlit("lmeta");
    reveal_strlit("superleft");
    reveal_strlit("leftsuper");
    reveal_strlit("metaright");
    reveal_strlit("rightmeta");
    reveal_strlit("rmeta");
    reveal_strlit("superright");
    reveal_strlit("rightsuper");
    reveal_strlit("AltGr");
    assert(ascii_lower("AltGr"@) =~= "altgr"@);
    reveal_strlit("ControlLeft");
    assert(ascii_lower("ControlLeft"@) =~= "controlleft"@);
    reveal_strlit("ControlRight");
    assert(ascii_lower("ControlRight"@) =~= "controlright"@);
    reveal_strlit("ShiftLeft");
    assert(ascii_lower("ShiftLeft"@) =~= "shiftleft"@);
    reveal_strlit("ShiftRight");
    assert(ascii_lower("ShiftRight"@) =~= "shiftright"@);
    reveal_strlit("MetaLeft");
    assert(ascii_lower("MetaLeft"@) =~= "metaleft"@);
    reveal_strlit("MetaRight");
    assert(ascii_lower("MetaRight"@) =~= "metaright"@);
    assert("shiftleft"@[0] != "rightctrl"@[0] && "shiftleft"@[0] != "ctrlright"@[0]);
    assert("metaleft"@[0] != "altright"@[0] && "metaleft"@[0] != "rightalt"@[0]);
    assert("metaleft"@[0] != "leftctrl"@[0] && "metaleft"@[0] != "ctrlleft"@[0]);
    assert("metaright"@[0] != "rightctrl"@[0] && "metaright"@[0] != "ctrlright"@[0]);
    assert("metaright"@[0] != "shiftleft"@[0] && "metaright"@[0] != "leftshift"@[0]);
    assert("metaright"@[0] != "superleft"@[0] && "metaright"@[0] != "leftsuper"@[0]);
}

/// Each modifier key that the keyboard hook reports counts as the modifier hotkey of the
/// same kind and side, the one that the key's own name (`ControlRight`, `ShiftLeft`,
/// `AltGr`, ...) names, except that the hook's plain `Alt` counts as the left Alt. Other
/// keys count as none, and no two keys count as the same hotkey.
pub proof fn law_raw_keys_keep_kind_and_side(k: RawKey, k2: RawKey)
    ensures
        k != RawKey::Alt && k != RawKey::Other ==> spec_from_raw_key(k) == modifier_from_name(
            ascii_lower(raw_key_name(k)),
        ),
        spec_from_raw_key(RawKey::Alt) == Some(ModifierKey::AltLeft),
        spec_from_raw_key(k) is None <==> k == RawKey::Other,
        spec_from_raw_key(k) is Some && spec_from_raw_key(k) == spec_from_raw_key(k2) ==> k == k2,
{
    lemma_raw_key_names();
}

/// Keyboard events never register or unregister hotkeys, and a modifier that is not
/// registered never fires.
pub proof fn law_unregistered_modifier_never_fires(s: KeyboardView, event: KeyEventType)
    ensures
        keyboard_step(s, event).0.registered == s.registered,
        keyboard_step(s, event).1 matches Some((m, down)) ==> s.registered.contains(m),
{
}

/// A modifier key's name reads back as that key: the name that `to_string` gives is ASCII,
/// and `from_str`, which lower-cases ASCII names letter by letter, maps it back to the key.
pub proof fn law_modifier_name_round_trip(m: ModifierKey)
    ensures
        is_ascii_chars(modifier_display(m)),
        modifier_from_name(ascii_lower(modifier_display(m))) == Some(m),
{
    match m {
        ModifierKey::AltLeft => {
            assert(is_ascii_chars("AltLeft"@) && ascii_lower("AltLeft"@) =~= "altleft"@) by {
                reveal_strlit("AltLeft");
                reveal_strlit("altleft");
            }
            assert(modifier_from_name("altleft"@) == Some(ModifierKey::AltLeft)) by {
                reveal_strlit("altleft");
                reveal_strlit("leftalt");
                reveal_strlit("lalt");
                reveal_strlit("altright");
                reveal_strlit("rightalt");
                reveal_strlit("ralt");
                reveal_strlit("altgr");
                reveal_strlit("controlleft");
                reveal_strlit("leftctrl");
                reveal_strlit("lctrl");
                reveal_strlit("ctrlleft");
                reveal_strlit("controlright");
                reveal_strlit("rightctrl");
                reveal_strlit("rctrl");
                reveal_strlit("ctrlright");
                reveal_strlit("shiftleft");
                reveal_strlit("leftshift");
                reveal_strlit("lshift");
                reveal_strlit("shiftright");
                reveal_strlit("rightshift");
                reveal_strlit("rshift");
                reveal_strlit("metaleft");
                reveal_strlit("leftmeta");
                reveal_strlit("lmeta");
                reveal_strlit("superleft");
                reveal_strlit("leftsuper");
                reveal_strlit("metaright");
                reveal_strlit("rightmeta");
                reveal_strlit("rmeta");
                reveal_strlit("superright");
                reveal_strlit("rightsuper");
            }
        },
        ModifierKey::AltRight => {
            assert(is_ascii_chars("AltRight"@) && ascii_lower("AltRight"@) =~= "altright"@) by {
                reveal_strlit("AltRight");
                reveal_strlit("altright");
            }
            assert(modifier_from_name("altright"@) == Some(ModifierKey::AltRight)) by {
                reveal_strlit("altleft");
                reveal_strlit("leftalt");
                reveal_strlit("lalt");
                reveal_strlit("altright");
                reveal_strlit("rightalt");
                reveal_strlit("ralt");
                reveal_strlit("altgr");
                reveal_strlit("controlleft");
                reveal_strlit("leftctrl");
                reveal_strlit("lctrl");
                reveal_strlit("ctrlleft");
                reveal_strlit("controlright");
                reveal_strlit("rightctrl");
                reveal_strlit("rctrl");
                reveal_strlit("ctrlright");
                reveal_strlit("shiftleft");
                reveal_strlit("leftshift");
                reveal_strlit("lshift");
                reveal_strlit("shiftright");
                reveal_strlit("rightshift");
                reveal_strlit("rshift");
                reveal_strlit("metaleft");
                reveal_strlit("leftmeta");
                reveal_strlit("lmeta");
                reveal_strlit("superleft");
                reveal_strlit("leftsuper");
                reveal_strlit("metaright");
                reveal_strlit("rightmeta");
                reveal_strlit("rmeta");
                reveal_strlit("superright");
                reveal_strlit("rightsuper");
            }
        },
        ModifierKey::ControlLeft => {
            assert(is_ascii_chars("CtrlLeft"@) && ascii_lower("CtrlLeft"@) =~= "ctrlleft"@) by {
                reveal_strlit("CtrlLeft");
                reveal_strlit("ctrlleft");
            }
            assert(modifier_from_name("ctrlleft"@) == Some(ModifierKey::ControlLeft)) by {
                reveal_strlit("altleft");
                reveal_strlit("leftalt");
                reveal_strlit("lalt");
                reveal_strlit("altright");
                reveal_strlit("rightalt");
                reveal_strlit("ralt");
                reveal_strlit("altgr");
                reveal_strlit("controlleft");
                reveal_strlit("leftctrl");
                reveal_strlit("lctrl");
                reveal_strlit("ctrlleft");
                reveal_strlit("controlright");
                reveal_strlit("rightctrl");
                reveal_strlit("rctrl");
                reveal_strlit("ctrlright");
                reveal_strlit("shiftleft");
                reveal_strlit("leftshift");
                reveal_strlit("lshift");
                reveal_strlit("shiftright");
                reveal_strlit("rightshift");
                reveal_strlit("rshift");
                reveal_strlit("metaleft");
                reveal_strlit("leftmeta");
                reveal_strlit("lmeta");
                reveal_strlit("superleft");
                reveal_strlit("leftsuper");
                reveal_strlit("metaright");
                reveal_strlit("rightmeta");
                reveal_strlit("rmeta");
                reveal_strlit("superright");
                reveal_strlit("rightsuper");
                assert("ctrlleft"@[0] != "altright"@[0]);
                assert("ctrlleft"@[0] != "rightalt"@[0]);
                assert("ctrlleft"@[0] != "leftctrl"@[0]);
            }
        },
        ModifierKey::ControlRight => {
            assert(is_ascii_chars("CtrlRight"@) && ascii_lower("CtrlRight"@) =~= "ctrlright"@) by {
                reveal_strlit("CtrlRight");
                reveal_strlit("ctrlright");
            }
            assert(modifier_from_name("ctrlright"@) == Some(ModifierKey::ControlRight)) by {
                reveal_strlit("altleft");
                reveal_strlit("leftalt");
                reveal_strlit("lalt");
                reveal_strlit("altright");
                reveal_strlit("rightalt");
                reveal_strlit("ralt");
                reveal_strlit("altgr");
                reveal_strlit("controlleft");
                reveal_strlit("leftctrl");
                reveal_strlit("lctrl");
                reveal_strlit("ctrlleft");
                reveal_strlit("controlright");
                reveal_strlit("rightctrl");
                reveal_strlit("rctrl");
                reveal_strlit("ctrlright");
                reveal_strlit("shiftleft");
                reveal_strlit("leftshift");
                reveal_strlit("lshift");
                reveal_strlit("shiftright");
                reveal_strlit("rightshift");
                reveal_strlit("rshift");
                reveal_strlit("metaleft");
                reveal_strlit("leftmeta");
                reveal_strlit("lmeta");
                reveal_strlit("superleft");
                reveal_strlit("leftsuper");
                reveal_strlit("metaright");
                reveal_strlit("rightmeta");
                reveal_strlit("rmeta");
                reveal_strlit("superright");
                reveal_strlit("rightsuper");
                assert("ctrlright"@[0] != "rightctrl"@[0]);
            }
        },
        ModifierKey::ShiftLeft => {
            assert(is_ascii_chars("ShiftLeft"@) && ascii_lower("ShiftLeft"@) =~= "shiftleft"@) by {
                reveal_strlit("ShiftLeft");
                reveal_strlit("shiftleft");
            }
            assert(modifier_from_name("shiftleft"@) == Some(ModifierKey::ShiftLeft)) by {
                reveal_strlit("altleft");
                reveal_strlit("leftalt");
                reveal_strlit("lalt");
                reveal_strlit("altright");
                reveal_strlit("rightalt");
                reveal_strlit("ralt");
                reveal_strlit("altgr");
                reveal_strlit("controlleft");
                reveal_strlit("leftctrl");
                reveal_strlit("lctrl");
                reveal_strlit("ctrlleft");
                reveal_strlit("controlright");
                reveal_strlit("rightctrl");
                reveal_strlit("rctrl");
                reveal_strlit("ctrlright");
                reveal_strlit("shiftleft");
                reveal_strlit("leftshift");
                reveal_strlit("lshift");
                reveal_strlit("shiftright");
                reveal_strlit("rightshift");
                reveal_strlit("rshift");
                reveal_strlit("metaleft");
                reveal_strlit("leftmeta");
                reveal_strlit("lmeta");
                reveal_strlit("superleft");
                reveal_strlit("leftsuper");
                reveal_strlit("metaright");
                reveal_strlit("rightmeta");
                reveal_strlit("rmeta");
                reveal_strlit("superright");
                reveal_strlit("rightsuper");
                assert("shiftleft"@[0] != "rightctrl"@[0]);
                assert("shiftleft"@[0] != "ctrlright"@[0]);
            }
        },
        ModifierKey::ShiftRight => {
            assert(is_ascii_chars("ShiftRight"@) && ascii_lower("ShiftRight"@) =~= "shiftright"@) by {
                reveal_strlit("ShiftRight");
                reveal_strlit("shiftright");
            }
            assert(modifier_from_name("shiftright"@) == Some(ModifierKey::ShiftRight)) by {
                reveal_strlit("altleft");
                reveal_strlit("leftalt");
                reveal_strlit("lalt");
                reveal_strlit("altright");
                reveal_strlit("rightalt");
                reveal_strlit("ralt");
                reveal_strlit("altgr");
                reveal_strlit("controlleft");
                reveal_strlit("leftctrl");
                reveal_strlit("lctrl");
                reveal_strlit("ctrlleft");
                reveal_strlit("controlright");
                reveal_strlit("rightctrl");
                reveal_strlit("rctrl");
                reveal_strlit("ctrlright");
                reveal_strlit("shiftleft");
                reveal_strlit("leftshift");
                reveal_strlit("lshift");
                reveal_strlit("shiftright");
                reveal_strlit("rightshift");
                reveal_strlit("rshift");
                reveal_strlit("metaleft");
                reveal_strlit("leftmeta");
                reveal_strlit("lmeta");
                reveal_strlit("superleft");
                reveal_strlit("leftsuper");
                reveal_strlit("metaright");
                reveal_strlit("rightmeta");
                reveal_strlit("rmeta");
                reveal_strlit("superright");
                reveal_strlit("rightsuper");
            }
        },
        ModifierKey::MetaLeft => {
            assert(is_ascii_chars("SuperLeft"@) && ascii_lower("SuperLeft"@) =~= "superleft"@) by {
                reveal_strlit("SuperLeft");
                reveal_strlit("superleft");
            }
            assert(modifier_from_name("superleft"@) == Some(ModifierKey::MetaLeft)) by {
                reveal_strlit("altleft");
                reveal_strlit("leftalt");
                reveal_strlit("lalt");
                reveal_strlit("altright");
                reveal_strlit("rightalt");
                reveal_strlit("ralt");
                reveal_strlit("altgr");
                reveal_strlit("controlleft");
                reveal_strlit("leftctrl");
                reveal_strlit("lctrl");
                reveal_strlit("ctrlleft");
                reveal_strlit("controlright");
                reveal_strlit("rightctrl");
                reveal_strlit("rctrl");
                reveal_strlit("ctrlright");
                reveal_strlit("shiftleft");
                reveal_strlit("leftshift");
                reveal_strlit("lshift");
                reveal_strlit("shiftright");
                reveal_strlit("rightshift");
                reveal_strlit("rshift");
                reveal_strlit("metaleft");
                reveal_strlit("leftmeta");
                reveal_strlit("lmeta");
                reveal_strlit("superleft");
                reveal_strlit("leftsuper");
                reveal_strlit("metaright");
                reveal_strlit("rightmeta");
                reveal_strlit("rmeta");
                reveal_strlit("superright");
                reveal_strlit("rightsuper");
                assert("superleft"@[0] != "rightctrl"@[0]);
                assert("superleft"@[0] != "ctrlright"@[0]);
                assert("superleft"@[1] != "shiftleft"@[1]);
                assert("superleft"@[0] != "leftshift"@[0]);
            }
        },
        ModifierKey::MetaRight => {
            assert(is_ascii_chars("SuperRight"@) && ascii_lower("SuperRight"@) =~= "superright"@) by {
                reveal_strlit("SuperRight");
                reveal_strlit("superright");
            }
            assert(modifier_from_name("superright"@) == Some(ModifierKey::MetaRight)) by {
                reveal_strlit("altleft");
                reveal_strlit("leftalt");
                reveal_strlit("lalt");
                reveal_strlit("altright");
                reveal_strlit("rightalt");
                reveal_strlit("ralt");
                reveal_strlit("altgr");
                reveal_strlit("controlleft");
                reveal_strlit("leftctrl");
                reveal_strlit("lctrl");
                reveal_strlit("ctrlleft");
                reveal_strlit("controlright");
                reveal_strlit("rightctrl");
                reveal_strlit("rctrl");
                reveal_strlit("ctrlright");
                reveal_strlit("shiftleft");
                reveal_strlit("leftshift");
                reveal_strlit("lshift");
                reveal_strlit("shiftright");
                reveal_strlit("rightshift");
                reveal_strlit("rshift");
                reveal_strlit("metaleft");
                reveal_strlit("leftmeta");
                reveal_strlit("lmeta");
                reveal_strlit("superleft");
                reveal_strlit("leftsuper");
                reveal_strlit("metaright");
                reveal_strlit("rightmeta");
                reveal_strlit("rmeta");
                reveal_strlit("superright");
                reveal_strlit("rightsuper");
                assert("superright"@[1] != "shiftright"@[1]);
                assert("superright"@[0] != "rightshift"@[0]);
            }
        },
    }
}

/// Whether key `k`'s name, as `shortcut_to_string` writes it, reads back as `k` on
/// `platform`: it is ASCII, neither begins nor ends with whitespace, holds no `+`, and its
/// lower case names no modifier but names `k`. (`law_key_names_read_back` shows that the
/// keys written "Unknown" are exactly the ones that fail.)
pub open spec fn key_name_reads_back(k: Code, platform: Platform) -> bool {
    let n = code_display(k);
    &&& n.len() > 0
    &&& is_ascii_chars(n)
    &&& !ascii_whitespace(n[0])
    &&& !ascii_whitespace(n.last())
    &&& forall|i: int| 0 <= i < n.len() ==> n[i] != '+'
    &&& modifier_of_part(ascii_lower(n), platform) is None
    &&& code_from_name(ascii_lower(n)) == Some(k)
}

/// The modifiers that the modifier words `ws`, read from the front, add to `mods`.
pub open spec fn words_mods(ws: Seq<Seq<char>>, platform: Platform, mods: Modifiers) -> Modifiers
    decreases ws.len(),
{
    if ws.len() == 0 {
        mods
    } else {
        match modifier_of_part(ws[0], platform) {
            Some(m) => words_mods(ws.drop_first(), platform, mods.spec_union(m)),
            None => mods,
        }
    }
}

proof fn lemma_parse_words(ws: Seq<Seq<char>>, y: Seq<char>, platform: Platform, mods: Modifiers)
    requires
        forall|i: int| 0 <= i < ws.len() ==> modifier_of_part(#[trigger] ws[i], platform) is Some,
    ensures
        parse_ascii_parts(ws.push(y), platform, mods, None) == parse_ascii_parts(
            seq![y],
            platform,
            words_mods(ws, platform, mods),
            None,
        ),
    decreases ws.len(),
{
    if ws.len() == 0 {
        assert(ws.push(y) =~= seq![y]);
    } else {
        let m = modifier_of_part(ws[0], platform)->0;
        assert(ws.push(y)[0] == ws[0]);
        assert(ws.push(y).drop_first() =~= ws.drop_first().push(y));
        assert forall|i: int| 0 <= i < ws.drop_first().len() implies modifier_of_part(
            #[trigger] ws.drop_first()[i],
            platform,
        ) is Some by {
            assert(ws.drop_first()[i] == ws[i + 1]);
        }
        lemma_parse_words(ws.drop_first(), y, platform, mods.spec_union(m));
    }
}

proof fn lemma_words_mods_push(ws: Seq<Seq<char>>, w: Seq<char>, platform: Platform, mods: Modifiers)
    requires
        forall|i: int| 0 <= i < ws.len() ==> modifier_of_part(#[trigger] ws[i], platform) is Some,
        modifier_of_part(w, platform) is Some,
    ensures
        words_mods(ws.push(w), platform, mods) == words_mods(ws, platform, mods).spec_union(
            modifier_of_part(w, platform)->0,
        ),
    decreases ws.len(),
{
    reveal_with_fuel(words_mods, 2);
    if ws.len() == 0 {
        assert(ws.push(w)[0] == w);
        assert(ws.push(w).drop_first() =~= Seq::<Seq<char>>::empty());
    } else {
        let m0 = modifier_of_part(ws[0], platform)->0;
        assert(ws.push(w)[0] == ws[0]);
        assert(ws.push(w).drop_first() =~= ws.drop_first().push(w));
        assert forall|i: int| 0 <= i < ws.drop_first().len() implies modifier_of_part(
            #[trigger] ws.drop_first()[i],
            platform,
        ) is Some by {
            assert(ws.drop_first()[i] == ws[i + 1]);
        }
        lemma_words_mods_push(ws.drop_first(), w, platform, mods.spec_union(m0));
    }
}

/// What is known of the written modifier prefix `pre` of a shortcut string: it is ASCII,
/// does not begin with whitespace, and its lower case cuts into the modifier `words` and an
/// empty piece; those words add up to `mods`.
spec fn prefix_state(pre: Seq<char>, words: Seq<Seq<char>>, mods: Modifiers, platform: Platform) -> bool {
    &&& is_ascii_chars(pre)
    &&& pre.len() > 0 ==> !ascii_whitespace(pre[0])
    &&& split_seq(ascii_lower(pre), '+') == words.push(Seq::<char>::empty())
    &&& forall|i: int|
        0 <= i < words.len() ==> modifier_of_part(#[trigger] words[i], platform) is Some
            && ascii_trim(words[i]) == words[i]
    &&& words_mods(words, platform, Modifiers::spec_empty()) == mods
}

proof fn lemma_prefix_step(
    pre: Seq<char>,
    words: Seq<Seq<char>>,
    mods: Modifiers,
    seg: Seq<char>,
    w: Seq<char>,
    platform: Platform,
)
    requires
        prefix_state(pre, words, mods, platform),
        is_ascii_chars(seg),
        seg.len() > 0,
        !ascii_whitespace(seg[0]),
        ascii_lower(seg) == w.push('+'),
        forall|i: int| 0 <= i < w.len() ==> w[i] != '+',
        ascii_trim(w) == w,
        modifier_of_part(w, platform) is Some,
    ensures
        prefix_state(
            pre + seg,
            words.push(w),
            mods.spec_union(modifier_of_part(w, platform)->0),
            platform,
        ),
{
    let low = ascii_lower(pre);
    assert(is_ascii_chars(pre + seg)) by {
        assert forall|i: int| 0 <= i < (pre + seg).len() implies (#[trigger] (pre + seg)[i] as u32)
            < 128 by {
            if i < pre.len() {
                assert((pre[i] as u32) < 128);
            } else {
                assert((seg[i - pre.len()] as u32) < 128);
            }
        }
    }
    if pre.len() > 0 {
        assert((pre + seg)[0] == pre[0]);
    } else {
        assert((pre + seg)[0] == seg[0]);
    }
    lemma_ascii_lower_concat(pre, seg);
    assert(low + w.push('+') =~= (low + w).push('+'));
    lemma_split_push_sep(low + w, '+');
    lemma_split_append(low, w, '+');
    let sw = words.push(Seq::<char>::empty());
    assert(sw.last() + w =~= w);
    assert(sw.update(sw.len() - 1, w) =~= words.push(w));
    assert forall|i: int| 0 <= i < words.push(w).len() implies modifier_of_part(
        #[trigger] words.push(w)[i],
        platform,
    ) is Some && ascii_trim(words.push(w)[i]) == words.push(w)[i] by {
        if i < words.len() {
            assert(words.push(w)[i] == words[i]);
        }
    }
    lemma_words_mods_push(words, w, platform, Modifiers::spec_empty());
}

proof fn lemma_prefix_finish(pre: Seq<char>, words: Seq<Seq<char>>, mods: Modifiers, k: Code, platform: Platform)
    requires
        prefix_state(pre, words, mods, platform),
        key_name_reads_back(k, platform),
    ensures
        is_ascii_chars(pre + code_display(k)),
        ascii_parse_shortcut(pre + code_display(k), platform) == ShortcutParse::Parsed(mods, k),
{
    let n = code_display(k);
    let ln = ascii_lower(n);
    let s = pre + n;
    assert(is_ascii_chars(s)) by {
        assert forall|i: int| 0 <= i < s.len() implies (#[trigger] s[i] as u32) < 128 by {
            if i < pre.len() {
                assert(s[i] == pre[i]);
            } else {
                assert(s[i] == n[i - pre.len()]);
            }
        }
    }
    if pre.len() > 0 {
        assert(s[0] == pre[0]);
    } else {
        assert(s[0] == n[0]);
    }
    assert(s.last() == n.last());
    assert(ascii_trim_start(s) == s);
    assert(ascii_trim_end(s) == s);
    assert(ascii_trim(s) == s);
    lemma_ascii_lower_concat(pre, n);
    assert forall|i: int| 0 <= i < ln.len() implies ln[i] != '+' by {
        lemma_ascii_lower_char(n[i], '+');
    }
    lemma_ascii_lower_char(n[0], '+');
    lemma_ascii_lower_char(n[n.len() - 1], '+');
    assert(ln[0] == crate::text::ascii_lower_char(n[0]));
    assert(ln.last() == crate::text::ascii_lower_char(n.last()));
    assert(ascii_trim_start(ln) == ln);
    assert(ascii_trim_end(ln) == ln);
    lemma_split_append(ascii_lower(pre), ln, '+');
    let sw = words.push(Seq::<char>::empty());
    assert(sw.last() + ln =~= ln);
    assert(sw.update(sw.len() - 1, ln) =~= words.push(ln));
    let parts = ascii_shortcut_parts(s);
    assert(parts =~= words.push(ln)) by {
        assert forall|i: int| 0 <= i < parts.len() implies parts[i] == words.push(ln)[i] by {
            if i < words.len() {
                assert(words.push(ln)[i] == words[i]);
            }
        }
    }
    lemma_parse_words(words, ln, platform, Modifiers::spec_empty());
    lemma_ascii_lower_idempotent(n);
    reveal_with_fuel(parse_ascii_parts, 2);
    assert(seq![ln][0] == ln);
    assert(seq![ln].drop_first() =~= Seq::<Seq<char>>::empty());
}

/// A shortcut written as text reads back as the same shortcut: for every modifier set and
/// every key whose name reads back, the string that `shortcut_to_string` writes is ASCII,
/// and parsing it (as `parse_shortcut` does for ASCII text) gives the shortcut's modifiers
/// and key.
pub proof fn law_shortcut_text_round_trip(sc: Shortcut, platform: Platform)
    requires
        key_name_reads_back(sc.key, platform),
    ensures
        is_ascii_chars(spec_shortcut_string(sc, platform)),
        ascii_parse_shortcut(spec_shortcut_string(sc, platform), platform) == ShortcutParse::Parsed(
            sc.mods,
            sc.key,
        ),
{
    let empty = Seq::<char>::empty();
    let p0 = if sc.mods.control { "Ctrl+"@ } else { empty };
    let p1 = if sc.mods.shift { "Shift+"@ } else { empty };
    let p2 = if sc.mods.alt { "Alt+"@ } else { empty };
    let p3 = if sc.mods.meta {
        if platform == Platform::MacOS { "Cmd+"@ } else { "Super+"@ }
    } else {
        empty
    };
    let ctrl = Modifiers { control: true, shift: false, alt: false, meta: false };
    let shift = Modifiers { control: false, shift: true, alt: false, meta: false };
    let alt = Modifiers { control: false, shift: false, alt: true, meta: false };
    let meta = Modifiers { control: false, shift: false, alt: false, meta: true };
    assert(split_seq(ascii_lower(empty), '+') =~= Seq::<Seq<char>>::empty().push(empty));
    assert(prefix_state(empty, Seq::<Seq<char>>::empty(), Modifiers::spec_empty(), platform));
    let mut pre = empty;
    let mut words = Seq::<Seq<char>>::empty();
    let mut mods = Modifiers::spec_empty();
    if sc.mods.control {
        assert(is_ascii_chars("Ctrl+"@) && "Ctrl+"@.len() > 0 && !ascii_whitespace("Ctrl+"@[0])
            && ascii_lower("Ctrl+"@) =~= "ctrl"@.push('+') && ascii_trim("ctrl"@) == "ctrl"@
            && (forall|i: int| 0 <= i < "ctrl"@.len() ==> "ctrl"@[i] != '+')
            && modifier_of_part("ctrl"@, platform) == Some(ctrl)) by {
            reveal_strlit("Ctrl+");
            reveal_strlit("ctrl");
        }
        lemma_prefix_step(pre, words, mods, "Ctrl+"@, "ctrl"@, platform);
        pre = pre + "Ctrl+"@;
        words = words.push("ctrl"@);
        mods = mods.spec_union(ctrl);
    }
    assert(pre =~= empty + p0);
    if sc.mods.shift {
        assert(is_ascii_chars("Shift+"@) && "Shift+"@.len() > 0 && !ascii_whitespace("Shift+"@[0])
            && ascii_lower("Shift+"@) =~= "shift"@.push('+') && ascii_trim("shift"@) == "shift"@
            && (forall|i: int| 0 <= i < "shift"@.len() ==> "shift"@[i] != '+')
            && modifier_of_part("shift"@, platform) == Some(shift)) by {
            reveal_strlit("Shift+");
            reveal_strlit("shift");
            reveal_strlit("ctrl");
            reveal_strlit("control");
        }
        lemma_prefix_step(pre, words, mods, "Shift+"@, "shift"@, platform);
        pre = pre + "Shift+"@;
        words = words.push("shift"@);
        mods = mods.spec_union(shift);
    }
    assert(pre =~= empty + p0 + p1);
    if sc.mods.alt {
        assert(is_ascii_chars("Alt+"@) && "Alt+"@.len() > 0 && !ascii_whitespace("Alt+"@[0])
            && ascii_lower("Alt+"@) =~= "alt"@.push('+') && ascii_trim("alt"@) == "alt"@
            && (forall|i: int| 0 <= i < "alt"@.len() ==> "alt"@[i] != '+')
            && modifier_of_part("alt"@, platform) == Some(alt)) by {
            reveal_strlit("Alt+");
            reveal_strlit("alt");
            reveal_strlit("ctrl");
            reveal_strlit("control");
            reveal_strlit("shift");
        }
        lemma_prefix_step(pre, words, mods, "Alt+"@, "alt"@, platform);
        pre = pre + "Alt+"@;
        words = words.push("alt"@);
        mods = mods.spec_union(alt);
    }
    assert(pre =~= empty + p0 + p1 + p2);
    if sc.mods.meta {
        if platform == Platform::MacOS {
            assert(is_ascii_chars("Cmd+"@) && "Cmd+"@.len() > 0 && !ascii_whitespace("Cmd+"@[0])
                && ascii_lower("Cmd+"@) =~= "cmd"@.push('+') && ascii_trim("cmd"@) == "cmd"@
                && (forall|i: int| 0 <= i < "cmd"@.len() ==> "cmd"@[i] != '+')
                && modifier_of_part("cmd"@, platform) == Some(meta)) by {
                reveal_strlit("Cmd+");
                reveal_strlit("cmd");
                reveal_strlit("ctrl");
                reveal_strlit("control");
                reveal_strlit("shift");
                reveal_strlit("alt");
                reveal_strlit("option");
                assert("cmd"@[0] != "alt"@[0]);
            }
            lemma_prefix_step(pre, words, mods, "Cmd+"@, "cmd"@, platform);
            pre = pre + "Cmd+"@;
            words = words.push("cmd"@);
        } else {
            assert(is_ascii_chars("Super+"@) && "Super+"@.len() > 0 && !ascii_whitespace("Super+"@[0])
                && ascii_lower("Super+"@) =~= "super"@.push('+') && ascii_trim("super"@) == "super"@
                && (forall|i: int| 0 <= i < "super"@.len() ==> "super"@[i] != '+')
                && modifier_of_part("super"@, platform) == Some(meta)) by {
                reveal_strlit("Super+");
                reveal_strlit("super");
                reveal_strlit("ctrl");
                reveal_strlit("control");
                reveal_strlit("shift");
                reveal_strlit("alt");
                reveal_strlit("option");
                assert("super"@[1] != "shift"@[1]);
            }
            lemma_prefix_step(pre, words, mods, "Super+"@, "super"@, platform);
            pre = pre + "Super+"@;
            words = words.push("super"@);
        }
        mods = mods.spec_union(meta);
    }
    assert(pre =~= empty + p0 + p1 + p2 + p3);
    assert(mods == sc.mods);
    lemma_prefix_finish(pre, words, mods, sc.key, platform);
    assert(spec_shortcut_string(sc, platform) =~= pre + code_display(sc.key));
}

/// Parsing ignores letter case: an ASCII shortcut string and its lower case parse alike
/// (both are ASCII, so `parse_shortcut` reads both as `ascii_parse_shortcut` does).
pub proof fn law_shortcut_parse_ignores_case(s: Seq<char>, platform: Platform)
    requires
        is_ascii_chars(s),
    ensures
        is_ascii_chars(ascii_lower(s)),
        ascii_parse_shortcut(ascii_lower(s), platform) == ascii_parse_shortcut(s, platform),
{
    lemma_ascii_lower_ascii(s);
    lemma_ascii_trim_lower(s);
    lemma_ascii_lower_idempotent(ascii_trim(s));
    assert(ascii_shortcut_parts(ascii_lower(s)) =~= ascii_shortcut_parts(s));
}

/// Hold mode, every case: for an enabled Hold-mode hotkey, a press while not recording
/// starts a recording and emits the action's start event, a release while recording stops
/// it and emits the action's stop event, and any other press or release changes nothing and
/// emits nothing.
pub proof fn law_hold_mode_cases(m: ManagerView, key: Seq<char>, state: ShortcutState)
    requires
        m.configs.dom().contains(key),
        m.configs[key].enabled,
        m.configs[key].mode == HotkeyMode::Hold,
    ensures
        state == ShortcutState::Pressed && !m.recording ==> shortcut_step(m, key, state) == (
            true,
            Some(start_event(m.configs[key].action)),
        ),
        state == ShortcutState::Released && m.recording ==> shortcut_step(m, key, state) == (
            false,
            Some(stop_event(m.configs[key].action)),
        ),
        (state == ShortcutState::Pressed && m.recording) || (state == ShortcutState::Released
            && !m.recording) ==> shortcut_step(m, key, state) == (m.recording, None::<EventView>),
{
}

/// Toggle mode, every case: for an enabled Toggle-mode hotkey, releases change nothing and
/// emit nothing; a press of the settings hotkey emits `SettingsOpen` and keeps the recording
/// flag; a press of a recording hotkey flips the flag and emits a stop when it was
/// recording, else a start in the hotkey's language.
pub proof fn law_toggle_mode_cases(m: ManagerView, key: Seq<char>, state: ShortcutState)
    requires
        m.configs.dom().contains(key),
        m.configs[key].enabled,
        m.configs[key].mode == HotkeyMode::Toggle,
    ensures
        state == ShortcutState::Released ==> shortcut_step(m, key, state) == (
            m.recording,
            None::<EventView>,
        ),
        state == ShortcutState::Pressed && m.configs[key].action == HotkeyAction::OpenSettings
            ==> shortcut_step(m, key, state) == (m.recording, Some(EventView::SettingsOpen)),
        state == ShortcutState::Pressed && m.configs[key].action != HotkeyAction::OpenSettings
            ==> shortcut_step(m, key, state) == (
            !m.recording,
            Some(
                if m.recording {
                    EventView::RecordingStop
                } else {
                    EventView::RecordingStart { language: action_language(m.configs[key].action) }
                },
            ),
        ),
{
}

/// Parsing a modifier key's name ignores letter case: an ASCII name and its upper case
/// (both ASCII, so `from_str` lower-cases them letter by letter) name the same key.
pub proof fn law_modifier_name_ignores_case(s: Seq<char>)
    requires
        is_ascii_chars(s),
    ensures
        is_ascii_chars(ascii_upper(s)),
        modifier_from_name(ascii_lower(ascii_upper(s))) == modifier_from_name(ascii_lower(s)),
{
    lemma_ascii_upper_lower(s);
}

} // verus!
