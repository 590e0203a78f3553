//! Global hotkey handling: shortcut parsing, hold/toggle hotkey state, and modifier-only hotkeys.

pub mod key_names;
pub mod keyboard;
pub mod keys;
pub mod laws;
pub mod manager;
pub mod plan;

pub use keyboard::{is_modifier_only_hotkey, KeyEventType, KeyboardState, ModifierKey, RawKey};
pub use keys::{code_to_string, Code};
pub use manager::{
    default_hotkey_configs, parse_shortcut, shortcut_to_string, HotkeyAction, HotkeyConfig,
    HotkeyError, HotkeyEvent, HotkeyManager, HotkeyMode, Modifiers, Shortcut, ShortcutState,
};
