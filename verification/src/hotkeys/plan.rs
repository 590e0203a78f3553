//! Which of the configured hotkeys go to the global-shortcut system and which to the
//! low-level listener for modifier-only hotkeys.
use vstd::prelude::*;
use crate::hotkeys::keyboard::{is_modifier_only_hotkey, modifier_from_name, ModifierKey};
use crate::hotkeys::manager::{
    config_views, parse_shortcut, spec_parse_shortcut, ConfigView, HotkeyAction, HotkeyConfig,
    HotkeyMode, Shortcut, ShortcutParse,
};
use crate::platform::Platform;
use crate::settings::{self, Settings};
use crate::text::unicode_lowercase;

verus! {

/// The hotkey mode of the settings, as hotkey configurations name it.
pub open spec fn spec_mode_from_settings(mode: settings::HotkeyMode) -> HotkeyMode {
    match mode {
        settings::HotkeyMode::Hold => HotkeyMode::Hold,
        settings::HotkeyMode::Toggle => HotkeyMode::Toggle,
    }
}

impl From<settings::HotkeyMode> for HotkeyMode {
    fn from(mode: settings::HotkeyMode) -> (m: Self) {
        match mode {
            settings::HotkeyMode::Hold => HotkeyMode::Hold,
            settings::HotkeyMode::Toggle => HotkeyMode::Toggle,
        }
    }
}

impl vstd::std_specs::convert::FromSpecImpl<settings::HotkeyMode> for HotkeyMode {
    open spec fn obeys_from_spec() -> bool {
        true
    }

    open spec fn from_spec(mode: settings::HotkeyMode) -> Self {
        spec_mode_from_settings(mode)
    }
}

/// Whether a hotkey string names a single modifier key.
pub open spec fn spec_is_modifier(s: Seq<char>) -> bool {
    modifier_from_name(unicode_lowercase(s)) is Some
}

/// The configuration that records in `action`'s language on `shortcut`, enabled.
pub open spec fn record_config(
    shortcut: Seq<char>,
    action: HotkeyAction,
    mode: settings::HotkeyMode,
) -> ConfigView {
    ConfigView { shortcut, action, mode: spec_mode_from_settings(mode), enabled: true }
}

/// The configurations of the settings' hotkeys that are not modifier-only: English, then
/// Hebrew.
pub open spec fn spec_startup_configs(s: &Settings) -> Seq<ConfigView> {
    let en = if !spec_is_modifier(s.hotkey_english@) {
        seq![record_config(s.hotkey_english@, HotkeyAction::RecordEnglish, s.hotkey_mode)]
    } else {
        Seq::<ConfigView>::empty()
    };
    let he = if !spec_is_modifier(s.hotkey_hebrew@) {
        seq![record_config(s.hotkey_hebrew@, HotkeyAction::RecordHebrew, s.hotkey_mode)]
    } else {
        Seq::<ConfigView>::empty()
    };
    en + he
}

/// The hotkey configurations that the global-shortcut system is built with at startup:
/// the settings' English and Hebrew hotkeys, each unless it is modifier-only.
pub fn startup_hotkey_configs(settings: &Settings) -> (r: Vec<HotkeyConfig>)
    ensures
        config_views(r@) == spec_startup_configs(settings),
{
    let mut r: Vec<HotkeyConfig> = Vec::new();
    let mode = HotkeyMode::from(settings.hotkey_mode);
    assert(mode == spec_mode_from_settings(settings.hotkey_mode));
    if !is_modifier_only_hotkey(settings.hotkey_english.as_str()) {
        r.push(HotkeyConfig::new(settings.hotkey_english.as_str(), HotkeyAction::RecordEnglish, mode));
    }
    let ghost en = config_views(r@);
    if !is_modifier_only_hotkey(settings.hotkey_hebrew.as_str()) {
        r.push(HotkeyConfig::new(settings.hotkey_hebrew.as_str(), HotkeyAction::RecordHebrew, mode));
    }
    assert(config_views(r@) =~= spec_startup_configs(settings));
    r
}

/// Whether the configurations `c` record each language on the settings' hotkey for it:
/// every configuration is enabled, holds exactly where the settings say hold, and records English on the
/// English hotkey or Hebrew on the Hebrew hotkey; English has one exactly when `en` holds,
/// Hebrew exactly when `he` holds, and no language has two.
pub open spec fn records_each_language(c: Seq<ConfigView>, s: &Settings, en: bool, he: bool) -> bool {
    &&& forall|i: int|
        0 <= i < c.len() ==> #[trigger] c[i].enabled && (c[i].mode == HotkeyMode::Hold) == (
            s.hotkey_mode == settings::HotkeyMode::Hold)
    &&& forall|i: int|
        0 <= i < c.len() ==> (en && #[trigger] c[i].action == HotkeyAction::RecordEnglish
            && c[i].shortcut == s.hotkey_english@) || (he && c[i].action
            == HotkeyAction::RecordHebrew && c[i].shortcut == s.hotkey_hebrew@)
    &&& en ==> exists|i: int| 0 <= i < c.len() && #[trigger] c[i].action == HotkeyAction::RecordEnglish
    &&& he ==> exists|i: int| 0 <= i < c.len() && #[trigger] c[i].action == HotkeyAction::RecordHebrew
    &&& forall|i: int, j: int| 0 <= i < j < c.len() ==> #[trigger] c[i].action != #[trigger] c[j].action
}

proof fn lemma_two_records(c: Seq<ConfigView>, s: &Settings, en: bool, he: bool)
    requires
        c == (if en {
            seq![record_config(s.hotkey_english@, HotkeyAction::RecordEnglish, s.hotkey_mode)]
        } else {
            Seq::<ConfigView>::empty()
        }) + (if he {
            seq![record_config(s.hotkey_hebrew@, HotkeyAction::RecordHebrew, s.hotkey_mode)]
        } else {
            Seq::<ConfigView>::empty()
        }),
    ensures
        records_each_language(c, s, en, he),
{
    if en {
        assert(c[0].action == HotkeyAction::RecordEnglish);
    }
    if he {
        let k = if en { 1int } else { 0int };
        assert(c[k].action == HotkeyAction::RecordHebrew);
    }
}

/// At startup the global-shortcut system gets, for English and for Hebrew whose hotkey is
/// not modifier-only, one enabled configuration in the settings' mode that records in
/// that language on that language's hotkey, and nothing else.
pub proof fn law_startup_configs_record_their_language(s: &Settings)
    ensures
        records_each_language(
            spec_startup_configs(s),
            s,
            !spec_is_modifier(s.hotkey_english@),
            !spec_is_modifier(s.hotkey_hebrew@),
        ),
{
    lemma_two_records(
        spec_startup_configs(s),
        s,
        !spec_is_modifier(s.hotkey_english@),
        !spec_is_modifier(s.hotkey_hebrew@),
    );
}

/// How the settings' hotkeys are registered.
#[derive(Debug)]
pub struct HotkeyPlan {
    /// Hotkeys for the global-shortcut system, English first.
    pub global: Vec<HotkeyConfig>,
    /// Modifier-only hotkeys for the low-level listener, with the language each records in.
    pub modifiers: Vec<(ModifierKey, String)>,
    /// Whether the low-level listener must run.
    pub start_listener: bool,
}

/// The global hotkeys of a re-registration: each of English and Hebrew whose hotkey is
/// neither modifier-only nor empty.
pub open spec fn spec_plan_global(s: &Settings) -> Seq<ConfigView> {
    let en = if !spec_is_modifier(s.hotkey_english@) && s.hotkey_english@.len() > 0 {
        seq![record_config(s.hotkey_english@, HotkeyAction::RecordEnglish, s.hotkey_mode)]
    } else {
        Seq::<ConfigView>::empty()
    };
    let he = if !spec_is_modifier(s.hotkey_hebrew@) && s.hotkey_hebrew@.len() > 0 {
        seq![record_config(s.hotkey_hebrew@, HotkeyAction::RecordHebrew, s.hotkey_mode)]
    } else {
        Seq::<ConfigView>::empty()
    };
    en + he
}

/// The modifier-only hotkeys of the settings with their languages: English, then Hebrew.
pub open spec fn spec_plan_modifiers(s: &Settings) -> Seq<(ModifierKey, Seq<char>)> {
    let en = match modifier_from_name(unicode_lowercase(s.hotkey_english@)) {
        Some(m) => seq![(m, "en"@)],
        None => Seq::<(ModifierKey, Seq<char>)>::empty(),
    };
    let he = match modifier_from_name(unicode_lowercase(s.hotkey_hebrew@)) {
        Some(m) => seq![(m, "he"@)],
        None => Seq::<(ModifierKey, Seq<char>)>::empty(),
    };
    en + he
}

/// The views of a list of modifier hotkeys with their languages.
pub open spec fn modifier_views(v: Seq<(ModifierKey, String)>) -> Seq<(ModifierKey, Seq<char>)> {
    v.map_values(|p: (ModifierKey, String)| (p.0, p.1@))
}

/// Plans the re-registration of the settings' hotkeys: combinations go to the
/// global-shortcut system, modifier-only hotkeys to the low-level listener, which must run
/// when there is any.
pub fn hotkey_registration_plan(settings: &Settings) -> (p: HotkeyPlan)
    ensures
        config_views(p.global@) == spec_plan_global(settings),
        modifier_views(p.modifiers@) == spec_plan_modifiers(settings),
        p.start_listener == (spec_is_modifier(settings.hotkey_english@) || spec_is_modifier(
            settings.hotkey_hebrew@,
        )),
{
    let english = settings.hotkey_english.as_str();
    let hebrew = settings.hotkey_hebrew.as_str();
    let mode = HotkeyMode::from(settings.hotkey_mode);
    assert(mode == spec_mode_from_settings(settings.hotkey_mode));
    let english_is_modifier = is_modifier_only_hotkey(english);
    let hebrew_is_modifier = is_modifier_only_hotkey(hebrew);
    let mut global: Vec<HotkeyConfig> = Vec::new();
    if !english_is_modifier && !english.is_empty() {
        global.push(HotkeyConfig::new(english, HotkeyAction::RecordEnglish, mode));
    }
    if !hebrew_is_modifier && !hebrew.is_empty() {
        global.push(HotkeyConfig::new(hebrew, HotkeyAction::RecordHebrew, mode));
    }
    assert(config_views(global@) =~= spec_plan_global(settings));
    let mut modifiers: Vec<(ModifierKey, String)> = Vec::new();
    if let Some(m) = ModifierKey::from_str(english) {
        modifiers.push((m, "en".to_owned()));
    }
    if let Some(m) = ModifierKey::from_str(hebrew) {
        modifiers.push((m, "he".to_owned()));
    }
    assert(modifier_views(modifiers@) =~= spec_plan_modifiers(settings));
    HotkeyPlan { global, modifiers, start_listener: english_is_modifier || hebrew_is_modifier }
}

/// A re-registration gives the global-shortcut system, for English and for Hebrew whose
/// hotkey is neither modifier-only nor empty, one enabled configuration in the settings'
/// mode that records in that language on that language's hotkey, and nothing else; the
/// low-level listener gets each modifier-only hotkey with the code of its own language.
pub proof fn law_plan_records_their_language(s: &Settings)
    ensures
        records_each_language(
            spec_plan_global(s),
            s,
            !spec_is_modifier(s.hotkey_english@) && s.hotkey_english@.len() > 0,
            !spec_is_modifier(s.hotkey_hebrew@) && s.hotkey_hebrew@.len() > 0,
        ),
        forall|i: int|
            0 <= i < spec_plan_modifiers(s).len() ==> {
                let (m, l) = #[trigger] spec_plan_modifiers(s)[i];
                (l == "en"@ && Some(m) == modifier_from_name(unicode_lowercase(s.hotkey_english@)))
                    || (l == "he"@ && Some(m) == modifier_from_name(
                    unicode_lowercase(s.hotkey_hebrew@),
                ))
            },
        spec_is_modifier(s.hotkey_english@) ==> exists|i: int|
            0 <= i < spec_plan_modifiers(s).len() && (#[trigger] spec_plan_modifiers(s)[i]).1 == "en"@,
        spec_is_modifier(s.hotkey_hebrew@) ==> exists|i: int|
            0 <= i < spec_plan_modifiers(s).len() && (#[trigger] spec_plan_modifiers(s)[i]).1 == "he"@,
{
    lemma_two_records(
        spec_plan_global(s),
        s,
        !spec_is_modifier(s.hotkey_english@) && s.hotkey_english@.len() > 0,
        !spec_is_modifier(s.hotkey_hebrew@) && s.hotkey_hebrew@.len() > 0,
    );
    let ms = spec_plan_modifiers(s);
    if spec_is_modifier(s.hotkey_english@) {
        assert(ms[0].1 == "en"@);
    }
    if spec_is_modifier(s.hotkey_hebrew@) {
        let k = if spec_is_modifier(s.hotkey_english@) { 1int } else { 0int };
        assert(ms[k].1 == "he"@);
    }
}

/// Whether either hotkey of the settings is modifier-only (and so needs the low-level
/// listener and, on macOS, Input Monitoring access).
pub fn uses_modifier_hotkey(settings: &Settings) -> (b: bool)
    ensures
        b == (spec_is_modifier(settings.hotkey_english@) || spec_is_modifier(
            settings.hotkey_hebrew@,
        )),
{
    is_modifier_only_hotkey(settings.hotkey_english.as_str()) || is_modifier_only_hotkey(
        settings.hotkey_hebrew.as_str(),
    )
}

/// The shortcuts of the enabled configurations of `configs` that parse, in order.
pub open spec fn spec_shortcuts_to_register(configs: Seq<ConfigView>, platform: Platform) -> Seq<
    Shortcut,
>
    decreases configs.len(),
{
    if configs.len() == 0 {
        Seq::<Shortcut>::empty()
    } else {
        let rest = spec_shortcuts_to_register(configs.drop_last(), platform);
        let c = configs.last();
        if c.enabled {
            match spec_parse_shortcut(c.shortcut, platform) {
                ShortcutParse::Parsed(m, k) => rest.push(Shortcut { mods: m, key: k }),
                _ => rest,
            }
        } else {
            rest
        }
    }
}

/// The shortcuts that the global-shortcut system registers for `configs`: those of the
/// enabled configurations whose shortcut strings parse.
pub fn shortcuts_to_register(configs: &Vec<HotkeyConfig>, platform: Platform) -> (r: Vec<Shortcut>)
    ensures
        r@ == spec_shortcuts_to_register(config_views(configs@), platform),
{
    let mut r: Vec<Shortcut> = Vec::new();
    let ghost views = config_views(configs@);
    let mut i: usize = 0;
    assert(views.take(0) =~= Seq::<ConfigView>::empty());
    while i < configs.len()
        invariant
            i <= configs@.len(),
            views == config_views(configs@),
            r@ == spec_shortcuts_to_register(views.take(i as int), platform),
        decreases configs@.len() - i,
    {
        assert(views.take(i + 1).drop_last() =~= views.take(i as int));
        assert(views.take(i + 1).last() == configs@[i as int]@);
        let c = &configs[i];
        if c.enabled {
            match parse_shortcut(c.shortcut.as_str(), platform) {
                Ok(s) => {
                    r.push(s);
                },
                Err(_) => {},
            }
        }
        i = i + 1;
    }
    assert(views.take(views.len() as int) =~= views);
    r
}

} // verus!
