//! Modifier-only hotkeys (e.g. Left Alt alone): key names, and the press/release state that
//! decides when a registered modifier hotkey fires.
use vstd::prelude::*;
use crate::text::{ascii_lower, chars_eq_str, chars_of, is_ascii_chars, to_lowercase, unicode_lowercase};

verus! {

/// A modifier key that can be used as a standalone hotkey.
#[derive(Debug, Clone, Copy, PartialEq, Eq, Hash, Structural)]
pub enum ModifierKey {
    AltLeft,
    AltRight,
    ControlLeft,
    ControlRight,
    ShiftLeft,
    ShiftRight,
    MetaLeft,
    MetaRight,
}

/// The modifier key that a lower-case name denotes, if any.
pub open spec fn modifier_from_name(s: Seq<char>) -> Option<ModifierKey> {
    if s == "altleft"@ || s == "leftalt"@ || s == "lalt"@ {
        Some(ModifierKey::AltLeft)
    } else if s == "altright"@ || s == "rightalt"@ || s == "ralt"@ || s == "altgr"@ {
        Some(ModifierKey::AltRight)
    } else if s == "controlleft"@ || s == "leftctrl"@ || s == "lctrl"@ || s == "ctrlleft"@ {
        Some(ModifierKey::ControlLeft)
    } else if s == "controlright"@ || s == "rightctrl"@ || s == "rctrl"@ || s == "ctrlright"@ {
        Some(ModifierKey::ControlRight)
    } else if s == "shiftleft"@ || s == "leftshift"@ || s == "lshift"@ {
        Some(ModifierKey::ShiftLeft)
    } else if s == "shiftright"@ || s == "rightshift"@ || s == "rshift"@ {
        Some(ModifierKey::ShiftRight)
    } else if s == "metaleft"@ || s == "leftmeta"@ || s == "lmeta"@ || s == "superleft"@ || s
        == "leftsuper"@ {
        Some(ModifierKey::MetaLeft)
    } else if s == "metaright"@ || s == "rightmeta"@ || s == "rmeta"@ || s == "superright"@ || s
        == "rightsuper"@ {
        Some(ModifierKey::MetaRight)
    } else {
        None
    }
}

/// The display name of a modifier key.
pub open spec fn modifier_display(m: ModifierKey) -> Seq<char> {
    match m {
        ModifierKey::AltLeft => "AltLeft"@,
        ModifierKey::AltRight => "AltRight"@,
        ModifierKey::ControlLeft => "CtrlLeft"@,
        ModifierKey::ControlRight => "CtrlRight"@,
        ModifierKey::ShiftLeft => "ShiftLeft"@,
        ModifierKey::ShiftRight => "ShiftRight"@,
        ModifierKey::MetaLeft => "SuperLeft"@,
        ModifierKey::MetaRight => "SuperRight"@,
    }
}

/// The keys that the system keyboard hook reports, as far as modifier hotkeys tell them
/// apart. Both Alt keys are reported as `Alt` on Linux; `AltGr` is usually the right Alt.
#[derive(Debug, Clone, Copy, PartialEq, Eq, Structural)]
pub enum RawKey {
    Alt,
    AltGr,
    ControlLeft,
    ControlRight,
    ShiftLeft,
    ShiftRight,
    MetaLeft,
    MetaRight,
    /// Any key that is not a modifier.
    Other,
}

/// The name that the keyboard hook's own key type gives a modifier key; nothing for other
/// keys.
pub open spec fn raw_key_name(k: RawKey) -> Seq<char> {
    match k {
        RawKey::Alt => "Alt"@,
        RawKey::AltGr => "AltGr"@,
        RawKey::ControlLeft => "ControlLeft"@,
        RawKey::ControlRight => "ControlRight"@,
        RawKey::ShiftLeft => "ShiftLeft"@,
        RawKey::ShiftRight => "ShiftRight"@,
        RawKey::MetaLeft => "MetaLeft"@,
        RawKey::MetaRight => "MetaRight"@,
        RawKey::Other => Seq::<char>::empty(),
    }
}

/// The modifier hotkey that a raw key counts as, if any.
pub open spec fn spec_from_raw_key(key: RawKey) -> Option<ModifierKey> {
    match key {
        RawKey::Alt => Some(ModifierKey::AltLeft),
        RawKey::AltGr => Some(ModifierKey::AltRight),
        RawKey::ControlLeft => Some(ModifierKey::ControlLeft),
        RawKey::ControlRight => Some(ModifierKey::ControlRight),
        RawKey::ShiftLeft => Some(ModifierKey::ShiftLeft),
        RawKey::ShiftRight => Some(ModifierKey::ShiftRight),
        RawKey::MetaLeft => Some(ModifierKey::MetaLeft),
        RawKey::MetaRight => Some(ModifierKey::MetaRight),
        RawKey::Other => None,
    }
}

impl ModifierKey {
    /// Parses a modifier key name, ignoring case.
    pub fn from_str(s: &str) -> (r: Option<Self>)
        ensures
            r == modifier_from_name(unicode_lowercase(s@)),
            is_ascii_chars(s@) ==> r == modifier_from_name(ascii_lower(s@)),
    {
        let lowered = to_lowercase(s);
        let k = chars_of(lowered.as_str());
        if chars_eq_str(&k, "altleft") || chars_eq_str(&k, "leftalt") || chars_eq_str(&k, "lalt") {
            Some(ModifierKey::AltLeft)
        } else if chars_eq_str(&k, "altright") || chars_eq_str(&k, "rightalt") || chars_eq_str(
            &k,
            "ralt",
        ) || chars_eq_str(&k, "altgr") {
            Some(ModifierKey::AltRight)
        } else if chars_eq_str(&k, "controlleft") || chars_eq_str(&k, "leftctrl") || chars_eq_str(
            &k,
            "lctrl",
        ) || chars_eq_str(&k, "ctrlleft") {
            Some(ModifierKey::ControlLeft)
        } else if chars_eq_str(&k, "controlright") || chars_eq_str(&k, "rightctrl")
            || chars_eq_str(&k, "rctrl") || chars_eq_str(&k, "ctrlright") {
            Some(ModifierKey::ControlRight)
        } else if chars_eq_str(&k, "shiftleft") || chars_eq_str(&k, "leftshift") || chars_eq_str(
            &k,
            "lshift",
        ) {
            Some(ModifierKey::ShiftLeft)
        } else if chars_eq_str(&k, "shiftright") || chars_eq_str(&k, "rightshift") || chars_eq_str(
            &k,
            "rshift",
        ) {
            Some(ModifierKey::ShiftRight)
        } else if chars_eq_str(&k, "metaleft") || chars_eq_str(&k, "leftmeta") || chars_eq_str(
            &k,
            "lmeta",
        ) || chars_eq_str(&k, "superleft") || chars_eq_str(&k, "leftsuper") {
            Some(ModifierKey::MetaLeft)
        } else if chars_eq_str(&k, "metaright") || chars_eq_str(&k, "rightmeta") || chars_eq_str(
            &k,
            "rmeta",
        ) || chars_eq_str(&k, "superright") || chars_eq_str(&k, "rightsuper") {
            Some(ModifierKey::MetaRight)
        } else {
            None
        }
    }

    /// The display name of the key.
    pub fn to_string(&self) -> (r: &'static str)
        ensures
            r@ == modifier_display(*self),
    {
        match self {
            ModifierKey::AltLeft => "AltLeft",
            ModifierKey::AltRight => "AltRight",
            ModifierKey::ControlLeft => "CtrlLeft",
            ModifierKey::ControlRight => "CtrlRight",
            ModifierKey::ShiftLeft => "ShiftLeft",
            ModifierKey::ShiftRight => "ShiftRight",
            ModifierKey::MetaLeft => "SuperLeft",
            ModifierKey::MetaRight => "SuperRight",
        }
    }

    /// The modifier hotkey that a key reported by the keyboard hook counts as. Any Alt
    /// counts as the left Alt, and AltGr as the right one.
    pub fn from_rdev_key(key: &RawKey) -> (r: Option<Self>)
        ensures
            r == spec_from_raw_key(*key),
    {
        match key {
            RawKey::Alt => Some(ModifierKey::AltLeft),
            RawKey::AltGr => Some(ModifierKey::AltRight),
            RawKey::ControlLeft => Some(ModifierKey::ControlLeft),
            RawKey::ControlRight => Some(ModifierKey::ControlRight),
            RawKey::ShiftLeft => Some(ModifierKey::ShiftLeft),
            RawKey::ShiftRight => Some(ModifierKey::ShiftRight),
            RawKey::MetaLeft => Some(ModifierKey::MetaLeft),
            RawKey::MetaRight => Some(ModifierKey::MetaRight),
            RawKey::Other => None,
        }
    }

    /// The position of the key in the tables of `KeyboardState`.
    pub open spec fn spec_index(self) -> int {
        match self {
            ModifierKey::AltLeft => 0,
            ModifierKey::AltRight => 1,
            ModifierKey::ControlLeft => 2,
            ModifierKey::ControlRight => 3,
            ModifierKey::ShiftLeft => 4,
            ModifierKey::ShiftRight => 5,
            ModifierKey::MetaLeft => 6,
            ModifierKey::MetaRight => 7,
        }
    }

    fn index(&self) -> (i: usize)
        ensures
            i == self.spec_index(),
            i < 8,
    {
        match self {
            ModifierKey::AltLeft => 0,
            ModifierKey::AltRight => 1,
            ModifierKey::ControlLeft => 2,
            ModifierKey::ControlRight => 3,
            ModifierKey::ShiftLeft => 4,
            ModifierKey::ShiftRight => 5,
            ModifierKey::MetaLeft => 6,
            ModifierKey::MetaRight => 7,
        }
    }
}

/// Whether a hotkey string names a single modifier key (a modifier-only hotkey).
pub fn is_modifier_only_hotkey(hotkey: &str) -> (b: bool)
    ensures
        b == modifier_from_name(unicode_lowercase(hotkey@)) is Some,
{
    ModifierKey::from_str(hotkey).is_some()
}

/// A keyboard event from the system keyboard hook.
#[derive(Debug, Clone, Copy, PartialEq, Eq, Structural)]
pub enum KeyEventType {
    KeyPress(RawKey),
    KeyRelease(RawKey),
    /// Mouse and other events.
    Other,
}

/// The mathematical content of a `KeyboardState`: the last known up/down state of each
/// modifier seen, the registered modifier hotkeys, and those currently held down.
pub struct KeyboardView {
    pub pressed: Map<ModifierKey, bool>,
    pub registered: Set<ModifierKey>,
    pub active: Set<ModifierKey>,
}

/// The state after `event`, and the hotkey callback it fires: the modifier and whether it
/// went down. A registered hotkey fires once when pressed while inactive (repeats are
/// ignored) and once when released while active.
pub open spec fn keyboard_step(s: KeyboardView, event: KeyEventType) -> (KeyboardView, Option<
    (ModifierKey, bool),
>) {
    match event {
        KeyEventType::KeyPress(key) => match spec_from_raw_key(key) {
            Some(m) => {
                let pressed = s.pressed.insert(m, true);
                if s.registered.contains(m) && !s.active.contains(m) {
                    (
                        KeyboardView { pressed, registered: s.registered, active: s.active.insert(m) },
                        Some((m, true)),
                    )
                } else {
                    (KeyboardView { pressed, registered: s.registered, active: s.active }, None)
                }
            },
            None => (s, None),
        },
        KeyEventType::KeyRelease(key) => match spec_from_raw_key(key) {
            Some(m) => {
                let pressed = s.pressed.insert(m, false);
                if s.registered.contains(m) && s.active.contains(m) {
                    (
                        KeyboardView { pressed, registered: s.registered, active: s.active.remove(m) },
                        Some((m, false)),
                    )
                } else {
                    (KeyboardView { pressed, registered: s.registered, active: s.active }, None)
                }
            },
            None => (s, None),
        },
        KeyEventType::Other => (s, None),
    }
}

/// Eight `false` flags, one per modifier key.
fn blank_flags() -> (v: Vec<bool>)
    ensures
        v@.len() == 8,
        forall|j: int| 0 <= j < 8 ==> !#[trigger] v@[j],
{
    let mut v: Vec<bool> = Vec::new();
    let mut i: usize = 0;
    while i < 8
        invariant
            i <= 8,
            v@.len() == i,
            forall|j: int| 0 <= j < i ==> !#[trigger] v@[j],
        decreases 8 - i,
    {
        v.push(false);
        i = i + 1;
    }
    v
}

/// Eight unknown key states, one per modifier key.
fn blank_pressed() -> (v: Vec<Option<bool>>)
    ensures
        v@.len() == 8,
        forall|j: int| 0 <= j < 8 ==> #[trigger] v@[j] == None::<bool>,
{
    let mut v: Vec<Option<bool>> = Vec::new();
    let mut i: usize = 0;
    while i < 8
        invariant
            i <= 8,
            v@.len() == i,
            forall|j: int| 0 <= j < i ==> #[trigger] v@[j] == None::<bool>,
        decreases 8 - i,
    {
        v.push(None);
        i = i + 1;
    }
    v
}

/// Which modifier-only hotkeys are registered and held down.
pub struct KeyboardState {
    pressed_modifiers: Vec<Option<bool>>,
    hotkeys: Vec<bool>,
    active_hotkeys: Vec<bool>,
}

impl View for KeyboardState {
    type V = KeyboardView;

    closed spec fn view(&self) -> KeyboardView {
        KeyboardView {
            pressed: Map::new(
                |m: ModifierKey| self.pressed_modifiers@[m.spec_index()] is Some,
                |m: ModifierKey| self.pressed_modifiers@[m.spec_index()]->0,
            ),
            registered: Set::new(|m: ModifierKey| self.hotkeys@[m.spec_index()]),
            active: Set::new(|m: ModifierKey| self.active_hotkeys@[m.spec_index()]),
        }
    }
}

impl KeyboardState {
    #[verifier::type_invariant]
    spec fn inv(self) -> bool {
        &&& self.pressed_modifiers@.len() == 8
        &&& self.hotkeys@.len() == 8
        &&& self.active_hotkeys@.len() == 8
        &&& forall|i: int| 0 <= i < 8 ==> #[trigger] self.active_hotkeys@[i] ==> self.hotkeys@[i]
    }

    /// No modifier seen, none registered, none active.
    pub fn new() -> (s: Self)
        ensures
            s@.pressed == Map::<ModifierKey, bool>::empty(),
            s@.registered == Set::<ModifierKey>::empty(),
            s@.active == Set::<ModifierKey>::empty(),
    {
        let s = KeyboardState {
            pressed_modifiers: blank_pressed(),
            hotkeys: blank_flags(),
            active_hotkeys: blank_flags(),
        };
        assert(s@.pressed =~= Map::<ModifierKey, bool>::empty());
        assert(s@.registered =~= Set::<ModifierKey>::empty());
        assert(s@.active =~= Set::<ModifierKey>::empty());
        s
    }

    /// Registers `modifier` as a hotkey, not held down.
    pub fn register(&mut self, modifier: ModifierKey)
        ensures
            final(self)@.registered == old(self)@.registered.insert(modifier),
            final(self)@.active == old(self)@.active.remove(modifier),
            final(self)@.pressed == old(self)@.pressed,
    {
        proof {
            use_type_invariant(&*self);
        }
        let i = modifier.index();
        let mut active = blank_flags();
        std::mem::swap(&mut active, &mut self.active_hotkeys);
        let mut hotkeys = blank_flags();
        std::mem::swap(&mut hotkeys, &mut self.hotkeys);
        hotkeys.set(i, true);
        active.set(i, false);
        self.hotkeys = hotkeys;
        self.active_hotkeys = active;
        proof {
            assert(self@.registered =~= old(self)@.registered.insert(modifier));
            assert(self@.active =~= old(self)@.active.remove(modifier));
            assert(self@.pressed =~= old(self)@.pressed);
        }
    }

    /// Unregisters `modifier`.
    pub fn unregister(&mut self, modifier: ModifierKey)
        ensures
            final(self)@.registered == old(self)@.registered.remove(modifier),
            final(self)@.active == old(self)@.active.remove(modifier),
            final(self)@.pressed == old(self)@.pressed,
    {
        proof {
            use_type_invariant(&*self);
        }
        let i = modifier.index();
        let mut active = blank_flags();
        std::mem::swap(&mut active, &mut self.active_hotkeys);
        let mut hotkeys = blank_flags();
        std::mem::swap(&mut hotkeys, &mut self.hotkeys);
        hotkeys.set(i, false);
        active.set(i, false);
        self.hotkeys = hotkeys;
        self.active_hotkeys = active;
        proof {
            assert(self@.registered =~= old(self)@.registered.remove(modifier));
            assert(self@.active =~= old(self)@.active.remove(modifier));
            assert(self@.pressed =~= old(self)@.pressed);
        }
    }

    /// Unregisters every modifier hotkey.
    pub fn clear_all(&mut self)
        ensures
            final(self)@.registered == Set::<ModifierKey>::empty(),
            final(self)@.active == Set::<ModifierKey>::empty(),
            final(self)@.pressed == old(self)@.pressed,
    {
        proof {
            use_type_invariant(&*self);
        }
        self.active_hotkeys = blank_flags();
        self.hotkeys = blank_flags();
        proof {
            assert(self@.registered =~= Set::<ModifierKey>::empty());
            assert(self@.active =~= Set::<ModifierKey>::empty());
            assert(self@.pressed =~= old(self)@.pressed);
        }
    }

    /// Whether the hotkey `modifier` is registered and currently held down.
    pub fn is_hotkey_active(&self, modifier: ModifierKey) -> (b: bool)
        ensures
            b == self@.active.contains(modifier),
    {
        proof {
            use_type_invariant(self);
        }
        self.active_hotkeys[modifier.index()]
    }

    /// Whether `modifier` is registered as a hotkey.
    pub fn is_registered(&self, modifier: ModifierKey) -> (b: bool)
        ensures
            b == self@.registered.contains(modifier),
    {
        proof {
            use_type_invariant(self);
        }
        self.hotkeys[modifier.index()]
    }

    /// Records a keyboard event and returns the hotkey callback it fires, if any: the
    /// modifier and whether it went down.
    pub fn handle_event(&mut self, event: KeyEventType) -> (r: Option<(ModifierKey, bool)>)
        ensures
            (final(self)@, r) == keyboard_step(old(self)@, event),
    {
        proof {
            use_type_invariant(&*self);
        }
        let (key, down) = match event {
            KeyEventType::KeyPress(k) => (k, true),
            KeyEventType::KeyRelease(k) => (k, false),
            KeyEventType::Other => {
                return None;
            },
        };
        let modifier = match ModifierKey::from_rdev_key(&key) {
            Some(m) => m,
            None => {
                return None;
            },
        };
        let i = modifier.index();
        let mut pressed = blank_pressed();
        std::mem::swap(&mut pressed, &mut self.pressed_modifiers);
        pressed.set(i, Some(down));
        self.pressed_modifiers = pressed;
        let registered = self.hotkeys[i];
        let active = self.active_hotkeys[i];
        let fire = registered && (if down { !active } else { active });
        if fire {
            let mut act = blank_flags();
            std::mem::swap(&mut act, &mut self.active_hotkeys);
            act.set(i, down);
            self.active_hotkeys = act;
        }
        proof {
            let (post, ev) = keyboard_step(old(self)@, event);
            assert(self@.pressed =~= post.pressed);
            assert(self@.registered =~= post.registered);
            assert(self@.active =~= post.active);
        }
        if fire {
            Some((modifier, down))
        } else {
            None
        }
    }
}

} // verus!
