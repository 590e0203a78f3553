use airtype_lib::hotkeys::keyboard::{KeyEventType, RawKey};
use airtype_lib::hotkeys::plan::{hotkey_registration_plan, shortcuts_to_register, startup_hotkey_configs};
use airtype_lib::hotkeys::{
    default_hotkey_configs, is_modifier_only_hotkey, parse_shortcut, shortcut_to_string, Code,
    HotkeyAction, HotkeyConfig, HotkeyError, HotkeyEvent, HotkeyManager, HotkeyMode,
    KeyboardState, ModifierKey, Modifiers, Shortcut, ShortcutState,
};
use airtype_lib::platform::Platform;
use airtype_lib::settings::Settings;

#[test]
fn test_modifier_key_from_str() {
    assert_eq!(ModifierKey::from_str("AltLeft"), Some(ModifierKey::AltLeft));
    assert_eq!(ModifierKey::from_str("altright"), Some(ModifierKey::AltRight));
    assert_eq!(ModifierKey::from_str("LALT"), Some(ModifierKey::AltLeft));
    assert_eq!(ModifierKey::from_str("CtrlLeft"), Some(ModifierKey::ControlLeft));
    assert_eq!(ModifierKey::from_str("invalid"), None);
}

#[test]
fn test_is_modifier_only_hotkey() {
    assert!(is_modifier_only_hotkey("AltLeft"));
    assert!(is_modifier_only_hotkey("AltRight"));
    assert!(is_modifier_only_hotkey("CtrlLeft"));
    assert!(!is_modifier_only_hotkey("Ctrl+A"));
    assert!(!is_modifier_only_hotkey("Space"));
}

#[test]
fn test_parse_shortcut_simple() {
    let shortcut = parse_shortcut("Ctrl+Shift+Space", Platform::Other).unwrap();
    assert!(shortcut.mods.contains(Modifiers::control()));
    assert!(shortcut.mods.contains(Modifiers::shift()));
    assert_eq!(shortcut.key, Code::Space);
}

#[test]
fn test_parse_shortcut_case_insensitive() {
    let shortcut = parse_shortcut("ctrl+SHIFT+a", Platform::Other).unwrap();
    assert!(shortcut.mods.contains(Modifiers::control()));
    assert!(shortcut.mods.contains(Modifiers::shift()));
    assert_eq!(shortcut.key, Code::KeyA);
}

#[test]
fn test_parse_shortcut_single_key() {
    let shortcut = parse_shortcut("F1", Platform::Other).unwrap();
    assert_eq!(shortcut.key, Code::F1);
}

#[test]
fn test_parse_shortcut_cmdorctrl() {
    let shortcut = parse_shortcut("CmdOrCtrl+R", Platform::Other).unwrap();
    assert!(shortcut.mods.contains(Modifiers::control()));
    assert_eq!(shortcut.key, Code::KeyR);
    let mac = parse_shortcut("CmdOrCtrl+R", Platform::MacOS).unwrap();
    assert!(mac.mods.contains(Modifiers::meta()));
    assert!(!mac.mods.contains(Modifiers::control()));
}

#[test]
fn test_parse_shortcut_invalid() {
    let result = parse_shortcut("Ctrl+InvalidKey", Platform::Other);
    assert!(result.is_err());
}

#[test]
fn parse_shortcut_reports_the_unknown_part() {
    match parse_shortcut("Ctrl+InvalidKey", Platform::Other) {
        Err(HotkeyError::UnknownKeyCode(part)) => assert_eq!(part, "invalidkey"),
        other => panic!("unexpected {:?}", other),
    }
}

#[test]
fn parse_shortcut_without_key_is_a_parse_error() {
    match parse_shortcut("Ctrl+Shift", Platform::Other) {
        Err(e @ HotkeyError::ParseError(_)) => {
            assert_eq!(e.message(), "Failed to parse hotkey string: No key code found in shortcut string")
        }
        other => panic!("unexpected {:?}", other),
    }
}

#[test]
fn parse_shortcut_trims_parts_and_keeps_last_key() {
    let s = parse_shortcut("  Alt + Super + a + F12 ", Platform::Other).unwrap();
    assert!(s.mods.alt && s.mods.meta && !s.mods.control && !s.mods.shift);
    assert_eq!(s.key, Code::F12);
}

#[test]
fn parse_shortcut_empty_part_is_unknown() {
    assert!(matches!(parse_shortcut("Ctrl+", Platform::Other), Err(HotkeyError::UnknownKeyCode(_))));
}

#[test]
fn test_shortcut_roundtrip() {
    let text = "Ctrl+Shift+Space";
    let shortcut = parse_shortcut(text, Platform::Other).unwrap();
    let result = shortcut_to_string(&shortcut, Platform::Other);
    assert_eq!(result, "Ctrl+Shift+Space");
}

#[test]
fn written_shortcuts_read_back() {
    for platform in [Platform::Other, Platform::MacOS] {
        for text in ["Ctrl+Alt+Super+F12", "Shift+PageDown", "Cmd+LeftCtrl", "Alt+Up", "9"] {
            let s = parse_shortcut(text, platform).unwrap();
            let written = shortcut_to_string(&s, platform);
            assert_eq!(parse_shortcut(&written, platform).unwrap(), s);
        }
    }
}

#[test]
fn parsing_ignores_letter_case() {
    for text in ["Ctrl+Shift+E", "ALT+f4", "CmdOrCtrl+Space"] {
        assert_eq!(
            parse_shortcut(text, Platform::Other).unwrap(),
            parse_shortcut(&text.to_ascii_lowercase(), Platform::Other).unwrap()
        );
    }
}

#[test]
fn shortcut_to_string_names_meta_per_platform() {
    let s = parse_shortcut("Cmd+Alt+Up", Platform::Other).unwrap();
    assert_eq!(shortcut_to_string(&s, Platform::Other), "Alt+Super+Up");
    assert_eq!(shortcut_to_string(&s, Platform::MacOS), "Alt+Cmd+Up");
    let numpad = parse_shortcut("numpad1", Platform::Other).unwrap();
    assert_eq!(shortcut_to_string(&numpad, Platform::Other), "Unknown");
}

#[test]
fn test_hotkey_manager_hold_mode() {
    let mut manager = HotkeyManager::new();
    manager.add_config(HotkeyConfig::new("Ctrl+Shift+E", HotkeyAction::RecordEnglish, HotkeyMode::Hold));

    let event = manager.handle_shortcut_event("Ctrl+Shift+E", ShortcutState::Pressed);
    assert!(matches!(event, Some(HotkeyEvent::RecordingStart { .. })));
    assert!(manager.is_recording());

    let event = manager.handle_shortcut_event("Ctrl+Shift+E", ShortcutState::Released);
    assert!(matches!(event, Some(HotkeyEvent::RecordingStop)));
    assert!(!manager.is_recording());
}

#[test]
fn test_hotkey_manager_toggle_mode() {
    let mut manager = HotkeyManager::new();
    manager.add_config(HotkeyConfig::new("Ctrl+Shift+H", HotkeyAction::RecordHebrew, HotkeyMode::Toggle));

    let event = manager.handle_shortcut_event("Ctrl+Shift+H", ShortcutState::Pressed);
    assert!(matches!(event, Some(HotkeyEvent::RecordingStart { .. })));
    assert!(manager.is_recording());

    let event = manager.handle_shortcut_event("Ctrl+Shift+H", ShortcutState::Released);
    assert!(event.is_none());
    assert!(manager.is_recording());

    let event = manager.handle_shortcut_event("Ctrl+Shift+H", ShortcutState::Pressed);
    assert!(matches!(event, Some(HotkeyEvent::RecordingStop)));
    assert!(!manager.is_recording());
}

#[test]
fn test_hotkey_config_disabled() {
    let mut manager = HotkeyManager::new();
    let mut config = HotkeyConfig::new("Ctrl+Shift+E", HotkeyAction::RecordEnglish, HotkeyMode::Hold);
    config.enabled = false;
    manager.add_config(config);

    let event = manager.handle_shortcut_event("Ctrl+Shift+E", ShortcutState::Pressed);
    assert!(event.is_none());
}

#[test]
fn hold_mode_start_event_carries_language() {
    let mut manager = HotkeyManager::new();
    manager.add_config(HotkeyConfig::new("Ctrl+Shift+H", HotkeyAction::RecordHebrew, HotkeyMode::Hold));
    match manager.handle_shortcut_event("Ctrl+Shift+H", ShortcutState::Pressed) {
        Some(HotkeyEvent::RecordingStart { language }) => assert_eq!(language, "he"),
        other => panic!("unexpected {:?}", other),
    }
    assert!(manager.handle_shortcut_event("Ctrl+Shift+H", ShortcutState::Pressed).is_none());
}

#[test]
fn unknown_shortcut_is_inert() {
    let mut manager = HotkeyManager::new();
    assert!(manager.handle_shortcut_event("Ctrl+Q", ShortcutState::Pressed).is_none());
    assert!(!manager.is_recording());
}

#[test]
fn manager_add_replace_get_remove() {
    let mut manager = HotkeyManager::new();
    manager.add_config(HotkeyConfig::new("A", HotkeyAction::RecordEnglish, HotkeyMode::Hold));
    manager.add_config(HotkeyConfig::new("B", HotkeyAction::RecordHebrew, HotkeyMode::Hold));
    manager.add_config(HotkeyConfig::new("A", HotkeyAction::OpenSettings, HotkeyMode::Toggle));
    assert_eq!(manager.get_all_configs().len(), 2);
    let a = manager.get_config("A").unwrap();
    assert_eq!(a.action, HotkeyAction::OpenSettings);
    assert_eq!(a.mode, HotkeyMode::Toggle);
    let removed = manager.remove_config("A").unwrap();
    assert_eq!(removed.shortcut, "A");
    assert!(manager.get_config("A").is_none());
    assert!(manager.remove_config("A").is_none());
    assert_eq!(manager.get_all_configs().len(), 1);
}

#[test]
fn toggle_open_settings_does_not_touch_recording() {
    let mut manager = HotkeyManager::new();
    manager.add_config(HotkeyConfig::new("S", HotkeyAction::OpenSettings, HotkeyMode::Toggle));
    assert!(matches!(manager.handle_shortcut_event("S", ShortcutState::Pressed), Some(HotkeyEvent::SettingsOpen)));
    assert!(!manager.is_recording());
}

#[test]
fn default_configs_record_both_languages_in_hold_mode() {
    let configs = default_hotkey_configs();
    assert_eq!(configs.len(), 2);
    assert_eq!(configs[0].shortcut, "Ctrl+Shift+E");
    assert_eq!(configs[0].action, HotkeyAction::RecordEnglish);
    assert_eq!(configs[1].shortcut, "Ctrl+Shift+H");
    assert_eq!(configs[1].action, HotkeyAction::RecordHebrew);
    assert!(configs.iter().all(|c| c.mode == HotkeyMode::Hold && c.enabled));
}

#[test]
fn modifier_key_names_round_trip() {
    let all = [
        ModifierKey::AltLeft,
        ModifierKey::AltRight,
        ModifierKey::ControlLeft,
        ModifierKey::ControlRight,
        ModifierKey::ShiftLeft,
        ModifierKey::ShiftRight,
        ModifierKey::MetaLeft,
        ModifierKey::MetaRight,
    ];
    for m in all {
        assert_eq!(ModifierKey::from_str(m.to_string()), Some(m));
    }
    assert_eq!(ModifierKey::from_rdev_key(&RawKey::Alt), Some(ModifierKey::AltLeft));
    assert_eq!(ModifierKey::from_rdev_key(&RawKey::AltGr), Some(ModifierKey::AltRight));
    assert_eq!(ModifierKey::from_rdev_key(&RawKey::Other), None);
}

#[test]
fn modifier_names_ignore_case() {
    for name in ["LeftAlt", "rctrl", "Option", "cmd", "WIN", "altgr", "nothing", ""] {
        assert_eq!(ModifierKey::from_str(&name.to_ascii_uppercase()), ModifierKey::from_str(name));
    }
}

#[test]
fn named_shortcuts_read_back() {
    let mods = Modifiers::control().union(Modifiers::shift());
    for platform in [Platform::Other, Platform::MacOS] {
        for key in [Code::PageDown, Code::Backspace, Code::ArrowLeft, Code::MetaRight, Code::F12] {
            let sc = Shortcut { mods, key };
            let text = shortcut_to_string(&sc, platform);
            let back = parse_shortcut(&text, platform).unwrap();
            assert_eq!(back.mods, mods);
            assert_eq!(back.key, key);
        }
        let unnamed = Shortcut { mods, key: Code::Numpad7 };
        assert!(parse_shortcut(&shortcut_to_string(&unnamed, platform), platform).is_err());
    }
}

#[test]
fn keyboard_state_fires_once_per_press_and_release() {
    let mut state = KeyboardState::new();
    state.register(ModifierKey::AltLeft);
    assert!(!state.is_hotkey_active(ModifierKey::AltLeft));
    assert_eq!(state.handle_event(KeyEventType::KeyPress(RawKey::Alt)), Some((ModifierKey::AltLeft, true)));
    assert!(state.is_hotkey_active(ModifierKey::AltLeft));
    assert_eq!(state.handle_event(KeyEventType::KeyPress(RawKey::Alt)), None);
    assert_eq!(state.handle_event(KeyEventType::KeyRelease(RawKey::Alt)), Some((ModifierKey::AltLeft, false)));
    assert!(!state.is_hotkey_active(ModifierKey::AltLeft));
    assert_eq!(state.handle_event(KeyEventType::KeyPress(RawKey::ShiftLeft)), None);
    assert_eq!(state.handle_event(KeyEventType::Other), None);
    state.unregister(ModifierKey::AltLeft);
    assert_eq!(state.handle_event(KeyEventType::KeyPress(RawKey::Alt)), None);
    state.register(ModifierKey::AltRight);
    state.clear_all();
    assert!(!state.is_registered(ModifierKey::AltRight));
}

#[test]
fn registration_plan_splits_modifier_hotkeys() {
    let mut settings = Settings::default();
    settings.hotkey_hebrew = "RightAlt".to_string();
    let plan = hotkey_registration_plan(&settings);
    assert_eq!(plan.global.len(), 1);
    assert_eq!(plan.global[0].shortcut, "Ctrl+Shift+E");
    assert_eq!(plan.modifiers.len(), 1);
    assert_eq!(plan.modifiers[0].0, ModifierKey::AltRight);
    assert_eq!(plan.modifiers[0].1, "he");
    assert!(plan.start_listener);

    settings.hotkey_english = String::new();
    let plan = hotkey_registration_plan(&settings);
    assert!(plan.global.is_empty());
    let startup = startup_hotkey_configs(&settings);
    assert_eq!(startup.len(), 1);
    assert_eq!(startup[0].shortcut, "");
    assert!(shortcuts_to_register(&startup, Platform::Other).is_empty());
}

#[test]
fn shortcuts_to_register_skips_disabled_and_unparsable() {
    let mut configs = default_hotkey_configs();
    configs[1].enabled = false;
    configs.push(HotkeyConfig::new("Ctrl+Nope", HotkeyAction::RecordEnglish, HotkeyMode::Hold));
    let shortcuts = shortcuts_to_register(&configs, Platform::Other);
    assert_eq!(shortcuts.len(), 1);
    assert_eq!(shortcuts[0].key, Code::KeyE);
}

#[test]
fn hotkey_mode_from_settings() {
    assert_eq!(HotkeyMode::from(airtype_lib::settings::HotkeyMode::Toggle), HotkeyMode::Toggle);
    assert_eq!(HotkeyMode::from(airtype_lib::settings::HotkeyMode::Hold), HotkeyMode::Hold);
}
