//! Shortcut strings, hotkey configurations, and the hold/toggle recording state they drive.
use vstd::prelude::*;
use crate::hotkeys::keys::{code_display, code_from_name, code_to_string, lookup_code, Code};
use crate::platform::Platform;
use crate::text::{
    ascii_lower, ascii_trim, chars_eq_str, chars_of, is_ascii_chars, lemma_ascii_lower_ascii,
    lemma_ascii_trim_ascii, lemma_split_ascii, split_chars, split_seq, string_of, to_lowercase,
    trim_chars, trim_seq, unicode_lowercase, views_of,
};

verus! {

/// Errors that can occur in hotkey management.
#[derive(Debug)]
pub enum HotkeyError {
    /// The shortcut string could not be parsed.
    ParseError(String),
    /// Registering the shortcut with the system failed.
    RegistrationError(String),
    /// Unregistering the shortcut from the system failed.
    UnregistrationError(String),
    /// A key name in the shortcut string is not known.
    UnknownKeyCode(String),
    /// No hotkey is registered under that name.
    NotFound(String),
}

impl HotkeyError {
    /// The human-readable description of the error.
    pub fn message(&self) -> (s: String)
        ensures
            s@ == self.spec_message(),
    {
        let (prefix, detail) = match self {
            HotkeyError::ParseError(d) => ("Failed to parse hotkey string: ", d),
            HotkeyError::RegistrationError(d) => ("Failed to register hotkey: ", d),
            HotkeyError::UnregistrationError(d) => ("Failed to unregister hotkey: ", d),
            HotkeyError::UnknownKeyCode(d) => ("Unknown key code: ", d),
            HotkeyError::NotFound(d) => ("Hotkey not found: ", d),
        };
        let mut s = prefix.to_owned();
        s.append(detail.as_str());
        s
    }

    /// The description that `message` returns.
    pub open spec fn spec_message(&self) -> Seq<char> {
        match self {
            HotkeyError::ParseError(d) => "Failed to parse hotkey string: "@ + d@,
            HotkeyError::RegistrationError(d) => "Failed to register hotkey: "@ + d@,
            HotkeyError::UnregistrationError(d) => "Failed to unregister hotkey: "@ + d@,
            HotkeyError::UnknownKeyCode(d) => "Unknown key code: "@ + d@,
            HotkeyError::NotFound(d) => "Hotkey not found: "@ + d@,
        }
    }
}

/// Actions that can be triggered by hotkeys.
#[derive(Debug, Clone, Copy, PartialEq, Eq, Hash, Structural)]
pub enum HotkeyAction {
    /// Start/stop recording in English.
    RecordEnglish,
    /// Start/stop recording in Hebrew.
    RecordHebrew,
    /// Open the settings window.
    OpenSettings,
}

/// How a hotkey operates.
#[derive(Debug, Clone, Copy, PartialEq, Eq, Structural)]
pub enum HotkeyMode {
    /// Recording is active while the key is held down.
    Hold,
    /// Press to start, press again to stop.
    Toggle,
}

impl Default for HotkeyMode {
    fn default() -> (m: Self)
        ensures
            m == HotkeyMode::Hold,
    {
        HotkeyMode::Hold
    }
}

/// Whether a global shortcut was pressed or released.
#[derive(Debug, Clone, Copy, PartialEq, Eq, Structural)]
pub enum ShortcutState {
    /// The key combination went down.
    Pressed,
    /// The key combination went up.
    Released,
}

/// The set of modifier keys held together with a shortcut's key.
#[derive(Debug, Clone, Copy, PartialEq, Eq, Hash, Structural)]
pub struct Modifiers {
    pub control: bool,
    pub shift: bool,
    pub alt: bool,
    pub meta: bool,
}

impl Modifiers {
    /// No modifier.
    pub fn empty() -> (m: Modifiers)
        ensures
            m == Self::spec_empty(),
    {
        Modifiers { control: false, shift: false, alt: false, meta: false }
    }

    pub open spec fn spec_empty() -> Modifiers {
        Modifiers { control: false, shift: false, alt: false, meta: false }
    }

    /// The Control modifier alone.
    pub fn control() -> (m: Modifiers)
        ensures
            m == (Modifiers { control: true, shift: false, alt: false, meta: false }),
    {
        Modifiers { control: true, shift: false, alt: false, meta: false }
    }

    /// The Shift modifier alone.
    pub fn shift() -> (m: Modifiers)
        ensures
            m == (Modifiers { control: false, shift: true, alt: false, meta: false }),
    {
        Modifiers { control: false, shift: true, alt: false, meta: false }
    }

    /// The Alt (Option) modifier alone.
    pub fn alt() -> (m: Modifiers)
        ensures
            m == (Modifiers { control: false, shift: false, alt: true, meta: false }),
    {
        Modifiers { control: false, shift: false, alt: true, meta: false }
    }

    /// The Meta (Super, Windows, Command) modifier alone.
    pub fn meta() -> (m: Modifiers)
        ensures
            m == (Modifiers { control: false, shift: false, alt: false, meta: true }),
    {
        Modifiers { control: false, shift: false, alt: false, meta: true }
    }

    /// Whether every modifier of `other` is also in `self`.
    pub fn contains(&self, other: Modifiers) -> (b: bool)
        ensures
            b == self.spec_contains(other),
    {
        (!other.control || self.control) && (!other.shift || self.shift) && (!other.alt
            || self.alt) && (!other.meta || self.meta)
    }

    pub open spec fn spec_contains(self, other: Modifiers) -> bool {
        (other.control ==> self.control) && (other.shift ==> self.shift) && (other.alt
            ==> self.alt) && (other.meta ==> self.meta)
    }

    /// The modifiers of both `self` and `other`.
    pub fn union(self, other: Modifiers) -> (m: Modifiers)
        ensures
            m == self.spec_union(other),
    {
        Modifiers {
            control: self.control || other.control,
            shift: self.shift || other.shift,
            alt: self.alt || other.alt,
            meta: self.meta || other.meta,
        }
    }

    pub open spec fn spec_union(self, other: Modifiers) -> Modifiers {
        Modifiers {
            control: self.control || other.control,
            shift: self.shift || other.shift,
            alt: self.alt || other.alt,
            meta: self.meta || other.meta,
        }
    }
}

/// A key combination: a set of modifiers and one key.
#[derive(Debug, Clone, Copy, PartialEq, Eq, Hash, Structural)]
pub struct Shortcut {
    pub mods: Modifiers,
    pub key: Code,
}

impl Shortcut {
    /// The shortcut of `key` with the modifiers `mods`, none when `mods` is `None`.
    pub fn new(mods: Option<Modifiers>, key: Code) -> (s: Shortcut)
        ensures
            s.key == key,
            s.mods == match mods {
                Some(m) => m,
                None => Modifiers::spec_empty(),
            },
    {
        let m = match mods {
            Some(m) => m,
            None => Modifiers::empty(),
        };
        Shortcut { mods: m, key }
    }
}

/// The modifier that a lower-case, trimmed shortcut part names, if it names one.
pub open spec fn modifier_of_part(p: Seq<char>, platform: Platform) -> Option<Modifiers> {
    if p == "ctrl"@ || p == "control"@ {
        Some(Modifiers { control: true, shift: false, alt: false, meta: false })
    } else if p == "shift"@ {
        Some(Modifiers { control: false, shift: true, alt: false, meta: false })
    } else if p == "alt"@ || p == "option"@ {
        Some(Modifiers { control: false, shift: false, alt: true, meta: false })
    } else if p == "super"@ || p == "meta"@ || p == "win"@ || p == "cmd"@ || p == "command"@ {
        Some(Modifiers { control: false, shift: false, alt: false, meta: true })
    } else if p == "cmdorctrl"@ || p == "commandorcontrol"@ {
        if platform == Platform::MacOS {
            Some(Modifiers { control: false, shift: false, alt: false, meta: true })
        } else {
            Some(Modifiers { control: true, shift: false, alt: false, meta: false })
        }
    } else {
        None
    }
}

/// How parsing a shortcut string ends.
pub enum ShortcutParse {
    /// The modifiers collected and the key given last.
    Parsed(Modifiers, Code),
    /// A part that is neither a modifier nor a key name.
    UnknownKey(Seq<char>),
    /// No part named a key.
    NoKey,
}

/// Parsing the remaining `parts`, with the modifiers and key collected so far.
pub open spec fn parse_parts(
    parts: Seq<Seq<char>>,
    platform: Platform,
    mods: Modifiers,
    key: Option<Code>,
) -> ShortcutParse
    decreases parts.len(),
{
    if parts.len() == 0 {
        match key {
            Some(k) => ShortcutParse::Parsed(mods, k),
            None => ShortcutParse::NoKey,
        }
    } else {
        let p = parts[0];
        match modifier_of_part(p, platform) {
            Some(m) => parse_parts(parts.drop_first(), platform, mods.spec_union(m), key),
            None => match code_from_name(unicode_lowercase(p)) {
                Some(c) => parse_parts(parts.drop_first(), platform, mods, Some(c)),
                None => ShortcutParse::UnknownKey(p),
            },
        }
    }
}

/// The trimmed, lower-cased parts of a shortcut string.
pub open spec fn shortcut_parts(s: Seq<char>) -> Seq<Seq<char>> {
    split_seq(unicode_lowercase(trim_seq(s)), '+').map_values(|p: Seq<char>| trim_seq(p))
}

/// What parsing the shortcut string `s` gives.
pub open spec fn spec_parse_shortcut(s: Seq<char>, platform: Platform) -> ShortcutParse {
    parse_parts(shortcut_parts(s), platform, Modifiers::spec_empty(), None)
}

/// The modifier that the trimmed, lower-case part `p` names, if any.
fn part_modifier(p: &Vec<char>, platform: Platform) -> (r: Option<Modifiers>)
    ensures
        r == modifier_of_part(p@, platform),
{
    if chars_eq_str(p, "ctrl") || chars_eq_str(p, "control") {
        Some(Modifiers::control())
    } else if chars_eq_str(p, "shift") {
        Some(Modifiers::shift())
    } else if chars_eq_str(p, "alt") || chars_eq_str(p, "option") {
        Some(Modifiers::alt())
    } else if chars_eq_str(p, "super") || chars_eq_str(p, "meta") || chars_eq_str(p, "win")
        || chars_eq_str(p, "cmd") || chars_eq_str(p, "command") {
        Some(Modifiers::meta())
    } else if chars_eq_str(p, "cmdorctrl") || chars_eq_str(p, "commandorcontrol") {
        match platform {
            Platform::MacOS => Some(Modifiers::meta()),
            Platform::Other => Some(Modifiers::control()),
        }
    } else {
        None
    }
}

/// Parsing the remaining `parts` of ASCII text, whose key names are lower-cased letter by
/// letter.
pub open spec fn parse_ascii_parts(
    parts: Seq<Seq<char>>,
    platform: Platform,
    mods: Modifiers,
    key: Option<Code>,
) -> ShortcutParse
    decreases parts.len(),
{
    if parts.len() == 0 {
        match key {
            Some(k) => ShortcutParse::Parsed(mods, k),
            None => ShortcutParse::NoKey,
        }
    } else {
        let p = parts[0];
        match modifier_of_part(p, platform) {
            Some(m) => parse_ascii_parts(parts.drop_first(), platform, mods.spec_union(m), key),
            None => match code_from_name(ascii_lower(p)) {
                Some(c) => parse_ascii_parts(parts.drop_first(), platform, mods, Some(c)),
                None => ShortcutParse::UnknownKey(p),
            },
        }
    }
}

/// The trimmed, lower-cased parts of an ASCII shortcut string.
pub open spec fn ascii_shortcut_parts(s: Seq<char>) -> Seq<Seq<char>> {
    split_seq(ascii_lower(ascii_trim(s)), '+').map_values(|p: Seq<char>| ascii_trim(p))
}

/// What parsing the ASCII shortcut string `s` gives: as `spec_parse_shortcut`, with
/// ASCII trimming and lower-casing.
pub open spec fn ascii_parse_shortcut(s: Seq<char>, platform: Platform) -> ShortcutParse {
    parse_ascii_parts(ascii_shortcut_parts(s), platform, Modifiers::spec_empty(), None)
}

/// Parses one key name into a key code; the name is lower-cased first.
fn parse_key_code(key: &Vec<char>) -> (r: Result<Code, HotkeyError>)
    ensures
        match code_from_name(unicode_lowercase(key@)) {
            Some(c) => r == Ok::<Code, HotkeyError>(c),
            None => r matches Err(HotkeyError::UnknownKeyCode(m)) && m@ == key@,
        },
        is_ascii_chars(key@) ==> code_from_name(unicode_lowercase(key@)) == code_from_name(
            ascii_lower(key@),
        ),
{
    let key_text = string_of(key);
    let lowered = to_lowercase(key_text.as_str());
    let lowered_chars = chars_of(lowered.as_str());
    match lookup_code(&lowered_chars) {
        Some(c) => Ok(c),
        None => Err(HotkeyError::UnknownKeyCode(key_text)),
    }
}

/// Parses a hotkey string such as "Ctrl+Shift+Space", "CmdOrCtrl+R" or "Alt+F1".
///
/// The string is trimmed and lower-cased, cut at every `+`, and each part trimmed. Parts
/// that name a modifier add it; any other part must name a key, and the last one given is
/// the shortcut's key. `CmdOrCtrl` means Cmd on macOS and Ctrl elsewhere.
pub fn parse_shortcut(shortcut_str: &str, platform: Platform) -> (r: Result<Shortcut, HotkeyError>)
    ensures
        match spec_parse_shortcut(shortcut_str@, platform) {
            ShortcutParse::Parsed(m, c) => r == Ok::<Shortcut, HotkeyError>(
                Shortcut { mods: m, key: c },
            ),
            ShortcutParse::UnknownKey(p) => r matches Err(HotkeyError::UnknownKeyCode(msg))
                && msg@ == p,
            ShortcutParse::NoKey => r matches Err(HotkeyError::ParseError(msg)) && msg@
                == "No key code found in shortcut string"@,
        },
        is_ascii_chars(shortcut_str@) ==> ascii_parse_shortcut(shortcut_str@, platform)
            == spec_parse_shortcut(shortcut_str@, platform),
{
    let all = chars_of(shortcut_str);
    let trimmed = trim_chars(&all);
    let trimmed_str = string_of(&trimmed);
    let normalized = to_lowercase(trimmed_str.as_str());
    let normalized_chars = chars_of(normalized.as_str());
    let raw_parts = split_chars(&normalized_chars, '+');
    let ghost parts = shortcut_parts(shortcut_str@);
    let ghost aparts = ascii_shortcut_parts(shortcut_str@);
    let ghost ascii = is_ascii_chars(shortcut_str@);
    proof {
        if ascii {
            lemma_ascii_trim_ascii(shortcut_str@);
            assert(trimmed@ == ascii_trim(shortcut_str@));
            lemma_ascii_lower_ascii(trimmed@);
            assert(normalized@ == ascii_lower(trimmed@));
            lemma_split_ascii(normalized@, '+');
            assert forall|k: int| 0 <= k < raw_parts@.len() implies is_ascii_chars(
                #[trigger] raw_parts@[k]@,
            ) by {
                assert(views_of(raw_parts@)[k] == raw_parts@[k]@);
                assert(split_seq(normalized@, '+')[k] == raw_parts@[k]@);
            }
        }
    }
    assert(views_of(raw_parts@).len() == raw_parts@.len());
    assert(parts.len() == raw_parts@.len());
    let mut modifiers = Modifiers::empty();
    let mut key_code: Option<Code> = None;
    let mut i: usize = 0;
    assert(parts.skip(0) =~= parts);
    assert(aparts.skip(0) =~= aparts);
    while i < raw_parts.len()
        invariant
            i <= raw_parts@.len() == parts.len(),
            parts == shortcut_parts(shortcut_str@),
            views_of(raw_parts@) == split_seq(unicode_lowercase(trim_seq(shortcut_str@)), '+'),
            spec_parse_shortcut(shortcut_str@, platform) == parse_parts(
                parts.skip(i as int),
                platform,
                modifiers,
                key_code,
            ),
            aparts == ascii_shortcut_parts(shortcut_str@),
            ascii == is_ascii_chars(shortcut_str@),
            ascii ==> views_of(raw_parts@) == split_seq(ascii_lower(ascii_trim(shortcut_str@)), '+'),
            ascii ==> forall|k: int|
                0 <= k < raw_parts@.len() ==> is_ascii_chars(#[trigger] raw_parts@[k]@),
            ascii ==> aparts.len() == raw_parts@.len(),
            ascii ==> ascii_parse_shortcut(shortcut_str@, platform) == parse_ascii_parts(
                aparts.skip(i as int),
                platform,
                modifiers,
                key_code,
            ),
        decreases raw_parts@.len() - i,
    {
        let part = trim_chars(&raw_parts[i]);
        assert(part@ == parts[i as int]);
        proof {
            if ascii {
                assert(is_ascii_chars(raw_parts@[i as int]@));
                assert(part@ == aparts[i as int]);
                assert(aparts.skip(i as int).drop_first() =~= aparts.skip(i + 1));
                assert(aparts.skip(i as int)[0] == aparts[i as int]);
                lemma_ascii_trim_ascii(raw_parts@[i as int]@);
            }
        }
        assert(parts.skip(i as int).drop_first() =~= parts.skip(i + 1));
        assert(parts.skip(i as int)[0] == parts[i as int]);
        match part_modifier(&part, platform) {
            Some(m) => {
                modifiers = modifiers.union(m);
            },
            None => {
                let code = parse_key_code(&part)?;
                key_code = Some(code);
            },
        }
        i = i + 1;
    }
    match key_code {
        Some(code) => Ok(Shortcut::new(Some(modifiers), code)),
        None => Err(HotkeyError::ParseError("No key code found in shortcut string".to_owned())),
    }
}

/// The text of a shortcut, as `shortcut_to_string` writes it.
pub open spec fn spec_shortcut_string(s: Shortcut, platform: Platform) -> Seq<char> {
    let p0 = if s.mods.control { "Ctrl+"@ } else { Seq::<char>::empty() };
    let p1 = if s.mods.shift { "Shift+"@ } else { Seq::<char>::empty() };
    let p2 = if s.mods.alt { "Alt+"@ } else { Seq::<char>::empty() };
    let p3 = if s.mods.meta {
        if platform == Platform::MacOS { "Cmd+"@ } else { "Super+"@ }
    } else {
        Seq::<char>::empty()
    };
    p0 + p1 + p2 + p3 + code_display(s.key)
}

/// Writes a shortcut back as text: its modifiers in the order Ctrl, Shift, Alt, and
/// Cmd (macOS) or Super (elsewhere), then the key's name, joined by `+`.
pub fn shortcut_to_string(shortcut: &Shortcut, platform: Platform) -> (r: String)
    ensures
        r@ == spec_shortcut_string(*shortcut, platform),
{
    let mut r = String::new();
    let mods = shortcut.mods;
    if mods.contains(Modifiers::control()) {
        r.append("Ctrl+");
    }
    let ghost a0 = r@;
    if mods.contains(Modifiers::shift()) {
        r.append("Shift+");
    }
    let ghost a1 = r@;
    if mods.contains(Modifiers::alt()) {
        r.append("Alt+");
    }
    let ghost a2 = r@;
    if mods.contains(Modifiers::meta()) {
        match platform {
            Platform::MacOS => r.append("Cmd+"),
            Platform::Other => r.append("Super+"),
        }
    }
    let ghost a3 = r@;
    r.append(code_to_string(shortcut.key));
    proof {
        let s = *shortcut;
        let p0 = if s.mods.control { "Ctrl+"@ } else { Seq::<char>::empty() };
        let p1 = if s.mods.shift { "Shift+"@ } else { Seq::<char>::empty() };
        let p2 = if s.mods.alt { "Alt+"@ } else { Seq::<char>::empty() };
        let p3 = if s.mods.meta {
            if platform == Platform::MacOS { "Cmd+"@ } else { "Super+"@ }
        } else {
            Seq::<char>::empty()
        };
        assert(a0 =~= p0);
        assert(a1 =~= p0 + p1);
        assert(a2 =~= p0 + p1 + p2);
        assert(a3 =~= p0 + p1 + p2 + p3);
    }
    r
}

} // verus!

verus! {

/// Configuration for a single hotkey.
#[derive(Debug)]
pub struct HotkeyConfig {
    /// The hotkey string (e.g., "Ctrl+Shift+Space").
    pub shortcut: String,
    /// What action this hotkey triggers.
    pub action: HotkeyAction,
    /// How the hotkey behaves.
    pub mode: HotkeyMode,
    /// Whether this hotkey is currently enabled.
    pub enabled: bool,
}

/// The mathematical content of a `HotkeyConfig`.
pub struct ConfigView {
    pub shortcut: Seq<char>,
    pub action: HotkeyAction,
    pub mode: HotkeyMode,
    pub enabled: bool,
}

impl View for HotkeyConfig {
    type V = ConfigView;

    open spec fn view(&self) -> ConfigView {
        ConfigView {
            shortcut: self.shortcut@,
            action: self.action,
            mode: self.mode,
            enabled: self.enabled,
        }
    }
}

impl Clone for HotkeyConfig {
    fn clone(&self) -> (c: Self)
        ensures
            c@ == self@,
    {
        HotkeyConfig {
            shortcut: self.shortcut.clone(),
            action: self.action,
            mode: self.mode,
            enabled: self.enabled,
        }
    }
}

impl HotkeyConfig {
    /// An enabled hotkey configuration.
    pub fn new(shortcut: &str, action: HotkeyAction, mode: HotkeyMode) -> (c: Self)
        ensures
            c@ == (ConfigView { shortcut: shortcut@, action, mode, enabled: true }),
    {
        HotkeyConfig { shortcut: shortcut.to_owned(), action, mode, enabled: true }
    }
}

/// Events emitted by the hotkey system.
#[derive(Debug)]
pub enum HotkeyEvent {
    /// A hotkey was pressed.
    Pressed { action: HotkeyAction, shortcut: String },
    /// A hotkey was released (only relevant for Hold mode).
    Released { action: HotkeyAction, shortcut: String },
    /// Recording should start with the given language.
    RecordingStart { language: String },
    /// Recording should stop.
    RecordingStop,
    /// The settings window should open.
    SettingsOpen,
}

/// The mathematical content of a `HotkeyEvent`.
pub enum EventView {
    Pressed { action: HotkeyAction, shortcut: Seq<char> },
    Released { action: HotkeyAction, shortcut: Seq<char> },
    RecordingStart { language: Seq<char> },
    RecordingStop,
    SettingsOpen,
}

impl View for HotkeyEvent {
    type V = EventView;

    open spec fn view(&self) -> EventView {
        match self {
            HotkeyEvent::Pressed { action, shortcut } => EventView::Pressed {
                action: *action,
                shortcut: shortcut@,
            },
            HotkeyEvent::Released { action, shortcut } => EventView::Released {
                action: *action,
                shortcut: shortcut@,
            },
            HotkeyEvent::RecordingStart { language } => EventView::RecordingStart {
                language: language@,
            },
            HotkeyEvent::RecordingStop => EventView::RecordingStop,
            HotkeyEvent::SettingsOpen => EventView::SettingsOpen,
        }
    }
}

impl Clone for HotkeyEvent {
    fn clone(&self) -> (e: Self)
        ensures
            e@ == self@,
    {
        match self {
            HotkeyEvent::Pressed { action, shortcut } => HotkeyEvent::Pressed {
                action: *action,
                shortcut: shortcut.clone(),
            },
            HotkeyEvent::Released { action, shortcut } => HotkeyEvent::Released {
                action: *action,
                shortcut: shortcut.clone(),
            },
            HotkeyEvent::RecordingStart { language } => HotkeyEvent::RecordingStart {
                language: language.clone(),
            },
            HotkeyEvent::RecordingStop => HotkeyEvent::RecordingStop,
            HotkeyEvent::SettingsOpen => HotkeyEvent::SettingsOpen,
        }
    }
}

/// The language code that a recording action records in: "he" for Hebrew, "en" otherwise.
pub open spec fn action_language(action: HotkeyAction) -> Seq<char> {
    if action == HotkeyAction::RecordHebrew {
        "he"@
    } else {
        "en"@
    }
}

/// The event that starting `action` emits.
pub open spec fn start_event(action: HotkeyAction) -> EventView {
    match action {
        HotkeyAction::RecordEnglish => EventView::RecordingStart { language: "en"@ },
        HotkeyAction::RecordHebrew => EventView::RecordingStart { language: "he"@ },
        HotkeyAction::OpenSettings => EventView::SettingsOpen,
    }
}

/// The event that stopping `action` emits.
pub open spec fn stop_event(action: HotkeyAction) -> EventView {
    match action {
        HotkeyAction::RecordEnglish | HotkeyAction::RecordHebrew => EventView::RecordingStop,
        HotkeyAction::OpenSettings => EventView::SettingsOpen,
    }
}

/// The mathematical content of a `HotkeyManager`: its configurations by shortcut string,
/// and whether a recording is active.
pub struct ManagerView {
    pub configs: Map<Seq<char>, ConfigView>,
    pub recording: bool,
}

/// The recording flag and the event that a shortcut event gives, from the manager's state `m`.
pub open spec fn shortcut_step(m: ManagerView, key: Seq<char>, state: ShortcutState) -> (
    bool,
    Option<EventView>,
) {
    if !m.configs.dom().contains(key) {
        (m.recording, None)
    } else {
        let c = m.configs[key];
        if !c.enabled {
            (m.recording, None)
        } else {
            match c.mode {
                HotkeyMode::Hold => match state {
                    ShortcutState::Pressed => if !m.recording {
                        (true, Some(start_event(c.action)))
                    } else {
                        (m.recording, None)
                    },
                    ShortcutState::Released => if m.recording {
                        (false, Some(stop_event(c.action)))
                    } else {
                        (m.recording, None)
                    },
                },
                HotkeyMode::Toggle => if state != ShortcutState::Pressed {
                    (m.recording, None)
                } else {
                    match c.action {
                        HotkeyAction::OpenSettings => (m.recording, Some(EventView::SettingsOpen)),
                        _ => if m.recording {
                            (false, Some(EventView::RecordingStop))
                        } else {
                            (
                                true,
                                Some(
                                    EventView::RecordingStart { language: action_language(c.action) },
                                ),
                            )
                        },
                    }
                },
            }
        }
    }
}

/// The configuration views of `s`.
pub open spec fn config_views(s: Seq<HotkeyConfig>) -> Seq<ConfigView> {
    s.map_values(|c: HotkeyConfig| c@)
}

/// No two configurations of `vs` share a shortcut string.
pub open spec fn unique_shortcuts(vs: Seq<ConfigView>) -> bool {
    forall|i: int, j: int|
        0 <= i < vs.len() && 0 <= j < vs.len() && i != j ==> #[trigger] vs[i].shortcut
            != #[trigger] vs[j].shortcut
}

/// The configurations of `vs` keyed by their shortcut strings.
pub open spec fn config_map(vs: Seq<ConfigView>) -> Map<Seq<char>, ConfigView> {
    Map::new(
        |k: Seq<char>| exists|i: int| 0 <= i < vs.len() && #[trigger] vs[i].shortcut == k,
        |k: Seq<char>| vs[choose|i: int| 0 <= i < vs.len() && #[trigger] vs[i].shortcut == k],
    )
}

proof fn lemma_config_map_at(vs: Seq<ConfigView>, i: int)
    requires
        unique_shortcuts(vs),
        0 <= i < vs.len(),
    ensures
        config_map(vs).dom().contains(vs[i].shortcut),
        config_map(vs)[vs[i].shortcut] == vs[i],
{
    let k = vs[i].shortcut;
    assert(config_map(vs).dom().contains(k));
    let j = choose|j: int| 0 <= j < vs.len() && #[trigger] vs[j].shortcut == k;
    assert(vs[j].shortcut == vs[i].shortcut);
}

/// Manager for global hotkeys: the configured hotkeys, and whether a recording is active.
pub struct HotkeyManager {
    configs: Vec<HotkeyConfig>,
    recording: bool,
}

impl View for HotkeyManager {
    type V = ManagerView;

    closed spec fn view(&self) -> ManagerView {
        ManagerView { configs: config_map(config_views(self.configs@)), recording: self.recording }
    }
}

impl Default for HotkeyManager {
    fn default() -> (m: Self)
        ensures
            m@.configs == Map::<Seq<char>, ConfigView>::empty(),
            !m@.recording,
    {
        Self::new()
    }
}

impl HotkeyManager {
    #[verifier::type_invariant]
    spec fn inv(self) -> bool {
        unique_shortcuts(config_views(self.configs@))
    }

    /// A manager with no hotkeys, not recording.
    pub fn new() -> (m: Self)
        ensures
            m@.configs == Map::<Seq<char>, ConfigView>::empty(),
            !m@.recording,
    {
        let m = HotkeyManager { configs: Vec::new(), recording: false };
        assert(m@.configs =~= Map::<Seq<char>, ConfigView>::empty());
        m
    }

    /// The position of the configuration for `shortcut`, if there is one.
    fn find(&self, shortcut: &str) -> (r: Option<usize>)
        ensures
            match r {
                Some(i) => i < self.configs@.len() && self.configs@[i as int]@.shortcut
                    == shortcut@,
                None => forall|i: int|
                    0 <= i < self.configs@.len() ==> self.configs@[i]@.shortcut != shortcut@,
            },
    {
        let mut i: usize = 0;
        while i < self.configs.len()
            invariant
                i <= self.configs@.len(),
                forall|j: int| 0 <= j < i ==> self.configs@[j]@.shortcut != shortcut@,
            decreases self.configs@.len() - i,
        {
            if crate::text::str_eq(self.configs[i].shortcut.as_str(), shortcut) {
                return Some(i);
            }
            i = i + 1;
        }
        None
    }

    proof fn lemma_lookup(&self, shortcut: Seq<char>, r: Option<usize>)
        requires
            unique_shortcuts(config_views(self.configs@)),
            match r {
                Some(i) => i < self.configs@.len() && self.configs@[i as int]@.shortcut
                    == shortcut,
                None => forall|i: int|
                    0 <= i < self.configs@.len() ==> self.configs@[i]@.shortcut != shortcut,
            },
        ensures
            match r {
                Some(i) => self@.configs.dom().contains(shortcut) && self@.configs[shortcut]
                    == self.configs@[i as int]@,
                None => !self@.configs.dom().contains(shortcut),
            },
    {
        let vs = config_views(self.configs@);
        match r {
            Some(i) => {
                lemma_config_map_at(vs, i as int);
            },
            None => {
                if config_map(vs).dom().contains(shortcut) {
                    let j = choose|j: int| 0 <= j < vs.len() && #[trigger] vs[j].shortcut == shortcut;
                    assert(self.configs@[j]@.shortcut == shortcut);
                }
            },
        }
    }

    /// Adds a hotkey configuration, replacing any with the same shortcut string.
    pub fn add_config(&mut self, config: HotkeyConfig)
        ensures
            final(self)@.configs == old(self)@.configs.insert(config@.shortcut, config@),
            final(self)@.recording == old(self)@.recording,
    {
        proof {
            use_type_invariant(&*self);
        }
        let ghost cv = config@;
        let ghost old_configs = self.configs@;
        let ghost old_vs = config_views(self.configs@);
        let found = self.find(config.shortcut.as_str());
        let mut configs: Vec<HotkeyConfig> = Vec::new();
        std::mem::swap(&mut configs, &mut self.configs);
        match found {
            Some(i) => {
                configs.set(i, config);
            },
            None => {
                configs.push(config);
            },
        }
        let ghost new_vs = config_views(configs@);
        proof {
            match found {
                Some(i) => {
                    assert(new_vs =~= old_vs.update(i as int, cv));
                    assert forall|a: int| 0 <= a < new_vs.len() implies #[trigger] new_vs[a].shortcut
                        == old_vs[a].shortcut by {
                        if a == i as int {
                            assert(old_vs[a] == old_configs[a]@);
                        }
                    }
                },
                None => {
                    assert(new_vs =~= old_vs.push(cv));
                    assert forall|a: int| 0 <= a < old_vs.len() implies #[trigger] old_vs[a].shortcut
                        != cv.shortcut by {
                        assert(old_vs[a] == old_configs[a]@);
                    }
                },
            }
            assert forall|a: int, b: int|
                0 <= a < new_vs.len() && 0 <= b < new_vs.len() && a != b implies #[trigger] new_vs[a].shortcut
                    != #[trigger] new_vs[b].shortcut by {
                match found {
                    Some(i) => {
                        assert(new_vs[a].shortcut == old_vs[a].shortcut);
                        assert(new_vs[b].shortcut == old_vs[b].shortcut);
                    },
                    None => {
                        if a < old_vs.len() && b < old_vs.len() {
                            assert(new_vs[a] == old_vs[a]);
                            assert(new_vs[b] == old_vs[b]);
                        } else if a < old_vs.len() {
                            assert(new_vs[a] == old_vs[a]);
                            assert(old_vs[a].shortcut != cv.shortcut);
                        } else {
                            assert(new_vs[b] == old_vs[b]);
                            assert(old_vs[b].shortcut != cv.shortcut);
                        }
                    },
                }
            }
            assert(unique_shortcuts(new_vs));
            let lhs = config_map(new_vs);
            let rhs = config_map(old_vs).insert(cv.shortcut, cv);
            assert forall|k: Seq<char>| lhs.dom().contains(k) implies #[trigger] rhs.dom().contains(k) by {
                let j = choose|j: int| 0 <= j < new_vs.len() && #[trigger] new_vs[j].shortcut == k;
                if k != cv.shortcut {
                    match found {
                        Some(i) => {
                            assert(old_vs[j].shortcut == k);
                        },
                        None => {
                            assert(j < old_vs.len());
                            assert(old_vs[j].shortcut == k);
                        },
                    }
                }
            }
            assert forall|k: Seq<char>| rhs.dom().contains(k) implies #[trigger] lhs.dom().contains(k) by {
                if k == cv.shortcut {
                    match found {
                        Some(i) => {
                            assert(new_vs[i as int].shortcut == k);
                        },
                        None => {
                            assert(new_vs[old_vs.len() as int].shortcut == k);
                        },
                    }
                } else {
                    let j = choose|j: int| 0 <= j < old_vs.len() && #[trigger] old_vs[j].shortcut == k;
                    assert(new_vs[j].shortcut == k);
                }
            }
            assert forall|k: Seq<char>| #[trigger] lhs.dom().contains(k) implies lhs[k] == rhs[k] by {
                let j = choose|j: int| 0 <= j < new_vs.len() && #[trigger] new_vs[j].shortcut == k;
                lemma_config_map_at(new_vs, j);
                if k != cv.shortcut {
                    assert(old_vs[j] == new_vs[j]);
                    assert(old_vs[j] == old_configs[j]@);
                    if !unique_shortcuts(old_vs) {
                        assert(false);
                    }
                    lemma_config_map_at(old_vs, j);
                } else {
                    let w: int = match found {
                        Some(i) => i as int,
                        None => old_vs.len() as int,
                    };
                    assert(new_vs[w] == cv);
                    if j != w {
                        assert(new_vs[j].shortcut != new_vs[w].shortcut);
                    }
                }
            }
            assert(lhs =~= rhs);
        }
        self.configs = configs;
    }

    /// Removes and returns the configuration for `shortcut`, if there is one.
    pub fn remove_config(&mut self, shortcut: &str) -> (r: Option<HotkeyConfig>)
        ensures
            final(self)@.configs == old(self)@.configs.remove(shortcut@),
            final(self)@.recording == old(self)@.recording,
            match r {
                Some(c) => old(self)@.configs.dom().contains(shortcut@) && c@ == old(
                    self,
                )@.configs[shortcut@],
                None => !old(self)@.configs.dom().contains(shortcut@),
            },
    {
        proof {
            use_type_invariant(&*self);
        }
        let found = self.find(shortcut);
        proof {
            self.lemma_lookup(shortcut@, found);
        }
        match found {
            None => {
                assert(self@.configs =~= self@.configs.remove(shortcut@));
                None
            },
            Some(i) => {
                let ghost old_vs = config_views(self.configs@);
                let mut configs: Vec<HotkeyConfig> = Vec::new();
                std::mem::swap(&mut configs, &mut self.configs);
                let removed = configs.remove(i);
                let ghost new_vs = config_views(configs@);
                proof {
                    assert(new_vs =~= old_vs.remove(i as int));
                    assert forall|a: int, b: int|
                        0 <= a < new_vs.len() && 0 <= b < new_vs.len() && a != b implies #[trigger] new_vs[a].shortcut
                            != #[trigger] new_vs[b].shortcut by {
                        let a2 = if a < i { a } else { a + 1 };
                        let b2 = if b < i { b } else { b + 1 };
                        assert(new_vs[a] == old_vs[a2]);
                        assert(new_vs[b] == old_vs[b2]);
                    }
                    let lhs = config_map(new_vs);
                    let rhs = config_map(old_vs).remove(shortcut@);
                    assert forall|k: Seq<char>| lhs.dom().contains(k) implies #[trigger] rhs.dom().contains(k) by {
                        let j = choose|j: int| 0 <= j < new_vs.len() && #[trigger] new_vs[j].shortcut == k;
                        let j2 = if j < i { j } else { j + 1 };
                        assert(new_vs[j] == old_vs[j2]);
                        assert(old_vs[j2].shortcut == k);
                        assert(old_vs[i as int].shortcut == shortcut@);
                        assert(j2 != i);
                        assert(k != shortcut@);
                    }
                    assert forall|k: Seq<char>| rhs.dom().contains(k) implies #[trigger] lhs.dom().contains(k) by {
                        let j = choose|j: int| 0 <= j < old_vs.len() && #[trigger] old_vs[j].shortcut == k;
                        assert(old_vs[i as int].shortcut == shortcut@);
                        assert(j != i);
                        let j2 = if j < i { j } else { j - 1 };
                        assert(new_vs[j2] == old_vs[j]);
                        assert(new_vs[j2].shortcut == k);
                    }
                    assert forall|k: Seq<char>| #[trigger] lhs.dom().contains(k) implies lhs[k] == rhs[k] by {
                        let j = choose|j: int| 0 <= j < new_vs.len() && #[trigger] new_vs[j].shortcut == k;
                        let j2 = if j < i { j } else { j + 1 };
                        lemma_config_map_at(new_vs, j);
                        assert(old_vs[j2] == new_vs[j]);
                        lemma_config_map_at(old_vs, j2);
                    }
                    assert(lhs =~= rhs);
                }
                self.configs = configs;
                Some(removed)
            },
        }
    }

    /// A copy of the configuration for `shortcut`, if there is one.
    pub fn get_config(&self, shortcut: &str) -> (r: Option<HotkeyConfig>)
        ensures
            match r {
                Some(c) => self@.configs.dom().contains(shortcut@) && c@ == self@.configs[shortcut@],
                None => !self@.configs.dom().contains(shortcut@),
            },
    {
        proof {
            use_type_invariant(self);
        }
        let found = self.find(shortcut);
        proof {
            self.lemma_lookup(shortcut@, found);
        }
        match found {
            Some(i) => Some(self.configs[i].clone()),
            None => None,
        }
    }

    /// Copies of all hotkey configurations, each once.
    pub fn get_all_configs(&self) -> (r: Vec<HotkeyConfig>)
        ensures
            unique_shortcuts(config_views(r@)),
            config_map(config_views(r@)) == self@.configs,
    {
        proof {
            use_type_invariant(self);
        }
        let mut r: Vec<HotkeyConfig> = Vec::new();
        let mut i: usize = 0;
        while i < self.configs.len()
            invariant
                i <= self.configs@.len(),
                r@.len() == i,
                forall|j: int| 0 <= j < i ==> #[trigger] r@[j]@ == self.configs@[j]@,
            decreases self.configs@.len() - i,
        {
            let c = self.configs[i].clone();
            r.push(c);
            i = i + 1;
        }
        assert(config_views(r@) =~= config_views(self.configs@));
        r
    }

    /// Whether a recording is active.
    pub fn is_recording(&self) -> (b: bool)
        ensures
            b == self@.recording,
    {
        self.recording
    }

    /// Sets whether a recording is active.
    pub fn set_recording(&mut self, recording: bool)
        ensures
            final(self)@.recording == recording,
            final(self)@.configs == old(self)@.configs,
    {
        proof {
            use_type_invariant(&*self);
        }
        self.recording = recording;
    }

    /// Forgets every hotkey configuration, as when all global shortcuts are unregistered;
    /// whether a recording is active is kept.
    pub fn clear_configs(&mut self)
        ensures
            final(self)@.configs == Map::<Seq<char>, ConfigView>::empty(),
            final(self)@.recording == old(self)@.recording,
    {
        self.configs = Vec::new();
        assert(self@.configs =~= Map::<Seq<char>, ConfigView>::empty());
    }

    /// Handles a press or release of the shortcut `shortcut_str` and returns the event it
    /// triggers, if any. Unknown and disabled hotkeys trigger nothing. In Hold mode a press
    /// starts a recording and a release stops it; in Toggle mode only presses count, each
    /// flipping between starting and stopping.
    pub fn handle_shortcut_event(&mut self, shortcut_str: &str, state: ShortcutState) -> (r: Option<
        HotkeyEvent,
    >)
        ensures
            final(self)@.configs == old(self)@.configs,
            final(self)@.recording == shortcut_step(old(self)@, shortcut_str@, state).0,
            match r {
                Some(e) => shortcut_step(old(self)@, shortcut_str@, state).1 == Some(e@),
                None => shortcut_step(old(self)@, shortcut_str@, state).1 == None::<EventView>,
            },
    {
        let config = match self.get_config(shortcut_str) {
            Some(c) => c,
            None => return None,
        };
        if !config.enabled {
            return None;
        }
        match config.mode {
            HotkeyMode::Hold => self.handle_hold_mode(&config, state),
            HotkeyMode::Toggle => self.handle_toggle_mode(&config, state),
        }
    }

    fn handle_hold_mode(&mut self, config: &HotkeyConfig, state: ShortcutState) -> (r: Option<
        HotkeyEvent,
    >)
        ensures
            final(self)@.configs == old(self)@.configs,
            match state {
                ShortcutState::Pressed => if !old(self)@.recording {
                    final(self)@.recording && (r matches Some(e) && e@ == start_event(config.action))
                } else {
                    final(self)@.recording && r is None
                },
                ShortcutState::Released => if old(self)@.recording {
                    !final(self)@.recording && (r matches Some(e) && e@ == stop_event(config.action))
                } else {
                    !final(self)@.recording && r is None
                },
            },
    {
        match state {
            ShortcutState::Pressed => {
                if !self.is_recording() {
                    self.set_recording(true);
                    Some(self.action_to_start_event(config.action))
                } else {
                    None
                }
            },
            ShortcutState::Released => {
                if self.is_recording() {
                    self.set_recording(false);
                    Some(self.action_to_stop_event(config.action))
                } else {
                    None
                }
            },
        }
    }

    fn handle_toggle_mode(&mut self, config: &HotkeyConfig, state: ShortcutState) -> (r: Option<
        HotkeyEvent,
    >)
        ensures
            final(self)@.configs == old(self)@.configs,
            state != ShortcutState::Pressed ==> final(self)@.recording == old(self)@.recording
                && r is None,
            state == ShortcutState::Pressed ==> match config.action {
                HotkeyAction::OpenSettings => final(self)@.recording == old(self)@.recording
                    && (r matches Some(e) && e@ == EventView::SettingsOpen),
                _ => final(self)@.recording == !old(self)@.recording && if old(self)@.recording {
                    (r matches Some(e) && e@ == EventView::RecordingStop)
                } else {
                    (r matches Some(e) && e@ == (EventView::RecordingStart {
                        language: action_language(config.action),
                    }))
                },
            },
    {
        if state != ShortcutState::Pressed {
            return None;
        }
        match config.action {
            HotkeyAction::RecordEnglish | HotkeyAction::RecordHebrew => {
                let currently_recording = self.is_recording();
                self.set_recording(!currently_recording);
                if currently_recording {
                    Some(HotkeyEvent::RecordingStop)
                } else {
                    let language = match config.action {
                        HotkeyAction::RecordHebrew => "he".to_owned(),
                        _ => "en".to_owned(),
                    };
                    Some(HotkeyEvent::RecordingStart { language })
                }
            },
            HotkeyAction::OpenSettings => Some(HotkeyEvent::SettingsOpen),
        }
    }

    fn action_to_start_event(&self, action: HotkeyAction) -> (e: HotkeyEvent)
        ensures
            e@ == start_event(action),
    {
        match action {
            HotkeyAction::RecordEnglish => HotkeyEvent::RecordingStart { language: "en".to_owned() },
            HotkeyAction::RecordHebrew => HotkeyEvent::RecordingStart { language: "he".to_owned() },
            HotkeyAction::OpenSettings => HotkeyEvent::SettingsOpen,
        }
    }

    fn action_to_stop_event(&self, action: HotkeyAction) -> (e: HotkeyEvent)
        ensures
            e@ == stop_event(action),
    {
        match action {
            HotkeyAction::RecordEnglish | HotkeyAction::RecordHebrew => HotkeyEvent::RecordingStop,
            HotkeyAction::OpenSettings => HotkeyEvent::SettingsOpen,
        }
    }
}

/// The default hotkeys: Ctrl+Shift+E records English and Ctrl+Shift+H records Hebrew,
/// both in Hold mode.
pub fn default_hotkey_configs() -> (r: Vec<HotkeyConfig>)
    ensures
        r@.len() == 2,
        r@[0]@ == (ConfigView {
            shortcut: "Ctrl+Shift+E"@,
            action: HotkeyAction::RecordEnglish,
            mode: HotkeyMode::Hold,
            enabled: true,
        }),
        r@[1]@ == (ConfigView {
            shortcut: "Ctrl+Shift+H"@,
            action: HotkeyAction::RecordHebrew,
            mode: HotkeyMode::Hold,
            enabled: true,
        }),
{
    let mut r: Vec<HotkeyConfig> = Vec::new();
    r.push(HotkeyConfig::new("Ctrl+Shift+E", HotkeyAction::RecordEnglish, HotkeyMode::Hold));
    r.push(HotkeyConfig::new("Ctrl+Shift+H", HotkeyAction::RecordHebrew, HotkeyMode::Hold));
    r
}

} // verus!
