//! Application settings and where they are kept on disk.
use vstd::prelude::*;

verus! {

/// How the hotkey triggers recording.
#[derive(Debug, Clone, Copy, PartialEq, Eq, Structural)]
pub enum HotkeyMode {
    /// Hold the key to record, release to stop.
    Hold,
    /// Press to start recording, press again to stop.
    Toggle,
}

impl Default for HotkeyMode {
    fn default() -> (m: Self)
        ensures
            m == HotkeyMode::Hold,
    {
        HotkeyMode::Hold
    }
}

/// Language for transcription.
#[derive(Debug, Clone, Copy, PartialEq, Eq, Structural)]
pub enum Language {
    English,
    Hebrew,
}

impl Default for Language {
    fn default() -> (l: Self)
        ensures
            l == Language::English,
    {
        Language::English
    }
}

/// Horizontal alignment of the floating indicator on screen.
#[derive(Debug, Clone, Copy, PartialEq, Eq, Structural)]
pub enum IndicatorAlign {
    Left,
    Center,
    Right,
}

impl Default for IndicatorAlign {
    fn default() -> (a: Self)
        ensures
            a == IndicatorAlign::Center,
    {
        IndicatorAlign::Center
    }
}

/// Which endpoint type to use for English transcription.
#[derive(Debug, Clone, Copy, PartialEq, Eq, Structural)]
pub enum EnglishEndpointType {
    /// Use the same RunPod endpoint as Hebrew (default).
    SharedRunPod,
    /// Use a different, specific RunPod endpoint for English.
    CustomRunPod,
    /// Use the OpenAI batch API for English.
    OpenAI,
}

impl Default for EnglishEndpointType {
    fn default() -> (t: Self)
        ensures
            t == EnglishEndpointType::SharedRunPod,
    {
        EnglishEndpointType::SharedRunPod
    }
}

/// Sizes of the downloadable Whisper models.
#[derive(Debug, Clone, Copy, PartialEq, Eq, Structural)]
pub enum ModelSize {
    Tiny,
    Base,
    Small,
    Medium,
    Large,
}

/// Application settings.
///
/// The two indicator offsets are lengths in logical pixels that the user may give with a
/// fraction; they are kept as the IEEE-754 bit patterns of the `f64` values (as
/// `f64::to_bits` gives them), which this crate stores and copies but never computes with.
#[derive(Debug)]
pub struct Settings {
    /// Hotkey combination for English recording (e.g., "Ctrl+Shift+E").
    pub hotkey_english: String,
    /// Hotkey combination for Hebrew recording (e.g., "Ctrl+Shift+H").
    pub hotkey_hebrew: String,
    /// How the hotkey triggers recording.
    pub hotkey_mode: HotkeyMode,
    /// Default RunPod endpoint id for Hebrew (and English by default).
    pub runpod_endpoint_id: Option<String>,
    /// Default RunPod API key.
    pub runpod_api_key: Option<String>,
    /// English transcription endpoint mode.
    pub english_endpoint_type: EnglishEndpointType,
    /// Separate RunPod endpoint id for English (when the type is `CustomRunPod`).
    pub english_custom_runpod_endpoint_id: Option<String>,
    /// Separate RunPod API key for English.
    pub english_custom_runpod_api_key: Option<String>,
    /// OpenAI API key (required when the English endpoint type is `OpenAI`).
    pub english_openai_api_key: Option<String>,
    /// Whether to start the app minimized to the tray.
    pub start_minimized: bool,
    /// Whether to start the app on system login.
    pub start_on_login: bool,
    /// Delay in milliseconds between injected characters.
    pub inject_delay_ms: u64,
    /// Distance of the indicator from the bottom of the screen (bits of an `f64`).
    pub indicator_bottom_offset_bits: u64,
    /// Horizontal alignment of the indicator on screen.
    pub indicator_align: IndicatorAlign,
    /// Horizontal offset of the indicator from the aligned edge (bits of an `f64`).
    pub indicator_x_offset_bits: u64,
    /// Indicator window width in logical pixels.
    pub indicator_width: u32,
    /// Indicator window height in logical pixels.
    pub indicator_height: u32,
    /// Automatically check for updates on startup.
    pub auto_check_updates: bool,
}

/// The views of an optional string.
pub open spec fn opt_view(o: Option<String>) -> Option<Seq<char>> {
    match o {
        Some(s) => Some(s@),
        None => None,
    }
}

/// A copy of an optional string.
pub fn clone_opt(o: &Option<String>) -> (r: Option<String>)
    ensures
        opt_view(r) == opt_view(*o),
{
    match o {
        Some(s) => Some(s.clone()),
        None => None,
    }
}

/// The bit pattern of the `f64` value 80.0.
pub const DEFAULT_INDICATOR_BOTTOM_OFFSET_BITS: u64 = 0x4054_0000_0000_0000u64;

/// The default distance of the indicator from the bottom of the screen: 80.0, as `f64` bits.
pub fn default_indicator_bottom_offset_bits() -> (b: u64)
    ensures
        b == DEFAULT_INDICATOR_BOTTOM_OFFSET_BITS,
{
    DEFAULT_INDICATOR_BOTTOM_OFFSET_BITS
}

/// The default indicator width: 160 logical pixels.
pub fn default_indicator_width() -> (w: u32)
    ensures
        w == 160,
{
    160
}

/// The default indicator height: 48 logical pixels.
pub fn default_indicator_height() -> (h: u32)
    ensures
        h == 48,
{
    48
}

/// Updates are checked on startup unless the user turns it off.
pub fn default_auto_check_updates() -> (b: bool)
    ensures
        b,
{
    true
}

impl Settings {
    /// Whether these are the default settings.
    pub open spec fn is_default(&self) -> bool {
        &&& self.hotkey_english@ == "Ctrl+Shift+E"@
        &&& self.hotkey_hebrew@ == "Ctrl+Shift+H"@
        &&& self.hotkey_mode == HotkeyMode::Hold
        &&& self.runpod_endpoint_id is None
        &&& self.runpod_api_key is None
        &&& self.english_endpoint_type == EnglishEndpointType::SharedRunPod
        &&& self.english_custom_runpod_endpoint_id is None
        &&& self.english_custom_runpod_api_key is None
        &&& self.english_openai_api_key is None
        &&& !self.start_minimized
        &&& !self.start_on_login
        &&& self.inject_delay_ms == 10
        &&& self.indicator_bottom_offset_bits == DEFAULT_INDICATOR_BOTTOM_OFFSET_BITS
        &&& self.indicator_align == IndicatorAlign::Center
        &&& self.indicator_x_offset_bits == 0
        &&& self.indicator_width == 160
        &&& self.indicator_height == 48
        &&& self.auto_check_updates
    }

    /// Whether `self` and `other` hold the same settings.
    pub open spec fn same_as(&self, other: &Settings) -> bool {
        &&& self.hotkey_english@ == other.hotkey_english@
        &&& self.hotkey_hebrew@ == other.hotkey_hebrew@
        &&& self.hotkey_mode == other.hotkey_mode
        &&& opt_view(self.runpod_endpoint_id) == opt_view(other.runpod_endpoint_id)
        &&& opt_view(self.runpod_api_key) == opt_view(other.runpod_api_key)
        &&& self.english_endpoint_type == other.english_endpoint_type
        &&& opt_view(self.english_custom_runpod_endpoint_id) == opt_view(
            other.english_custom_runpod_endpoint_id,
        )
        &&& opt_view(self.english_custom_runpod_api_key) == opt_view(
            other.english_custom_runpod_api_key,
        )
        &&& opt_view(self.english_openai_api_key) == opt_view(other.english_openai_api_key)
        &&& self.start_minimized == other.start_minimized
        &&& self.start_on_login == other.start_on_login
        &&& self.inject_delay_ms == other.inject_delay_ms
        &&& self.indicator_bottom_offset_bits == other.indicator_bottom_offset_bits
        &&& self.indicator_align == other.indicator_align
        &&& self.indicator_x_offset_bits == other.indicator_x_offset_bits
        &&& self.indicator_width == other.indicator_width
        &&& self.indicator_height == other.indicator_height
        &&& self.auto_check_updates == other.auto_check_updates
    }
}

impl Clone for Settings {
    fn clone(&self) -> (s: Self)
        ensures
            s.same_as(self),
    {
        Settings {
            hotkey_english: self.hotkey_english.clone(),
            hotkey_hebrew: self.hotkey_hebrew.clone(),
            hotkey_mode: self.hotkey_mode,
            runpod_endpoint_id: clone_opt(&self.runpod_endpoint_id),
            runpod_api_key: clone_opt(&self.runpod_api_key),
            english_endpoint_type: self.english_endpoint_type,
            english_custom_runpod_endpoint_id: clone_opt(&self.english_custom_runpod_endpoint_id),
            english_custom_runpod_api_key: clone_opt(&self.english_custom_runpod_api_key),
            english_openai_api_key: clone_opt(&self.english_openai_api_key),
            start_minimized: self.start_minimized,
            start_on_login: self.start_on_login,
            inject_delay_ms: self.inject_delay_ms,
            indicator_bottom_offset_bits: self.indicator_bottom_offset_bits,
            indicator_align: self.indicator_align,
            indicator_x_offset_bits: self.indicator_x_offset_bits,
            indicator_width: self.indicator_width,
            indicator_height: self.indicator_height,
            auto_check_updates: self.auto_check_updates,
        }
    }
}

impl Default for Settings {
    /// English on Ctrl+Shift+E and Hebrew on Ctrl+Shift+H in Hold mode, both through the
    /// shared RunPod endpoint (not yet configured), a 10 ms injection delay, the indicator
    /// centered 80 px above the bottom at 160×48, and update checks on.
    fn default() -> (s: Self)
        ensures
            s.is_default(),
    {
        Settings {
            hotkey_english: "Ctrl+Shift+E".to_owned(),
            hotkey_hebrew: "Ctrl+Shift+H".to_owned(),
            hotkey_mode: HotkeyMode::default(),
            runpod_endpoint_id: None,
            runpod_api_key: None,
            english_endpoint_type: EnglishEndpointType::default(),
            english_custom_runpod_endpoint_id: None,
            english_custom_runpod_api_key: None,
            english_openai_api_key: None,
            start_minimized: false,
            start_on_login: false,
            inject_delay_ms: 10,
            indicator_bottom_offset_bits: default_indicator_bottom_offset_bits(),
            indicator_align: IndicatorAlign::Center,
            indicator_x_offset_bits: 0,
            indicator_width: default_indicator_width(),
            indicator_height: default_indicator_height(),
            auto_check_updates: default_auto_check_updates(),
        }
    }
}

} // verus!
