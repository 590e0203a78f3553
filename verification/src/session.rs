//! The recording session: the single phase (idle, recording, processing) that drives the
//! indicator and the main window and gates hotkey actions, and the decisions taken on it.
use vstd::prelude::*;
use crate::hotkeys::manager::{EventView, HotkeyEvent};
use crate::settings::{EnglishEndpointType, HotkeyMode, Settings};
use crate::text::str_eq;

verus! {

/// High-level recording phase.
#[derive(Debug, Clone, Copy, PartialEq, Eq, Structural)]
pub enum RecordingPhase {
    /// Not recording and nothing in flight.
    Idle,
    /// The microphone is capturing audio.
    Recording,
    /// Recording stopped; transcription and injection are in flight.
    Processing,
}

/// The session counter after one more session has started; it wraps around at the top,
/// as an atomic `fetch_add` does.
pub open spec fn next_generation(g: u64) -> u64 {
    if g == u64::MAX {
        0
    } else {
        (g + 1) as u64
    }
}

/// The mathematical content of a `SessionState`.
pub struct SessionView {
    pub phase: RecordingPhase,
    pub generation: u64,
    pub language: Seq<char>,
    pub last_transcription: Seq<char>,
}

/// The session after a new recording began.
pub open spec fn after_begin_recording(v: SessionView) -> SessionView {
    SessionView { phase: RecordingPhase::Recording, generation: next_generation(v.generation), ..v }
}

/// The session after the microphone stopped and transcription began.
pub open spec fn after_begin_processing(v: SessionView) -> SessionView {
    SessionView { phase: RecordingPhase::Processing, ..v }
}

/// The session after it finished.
pub open spec fn after_finish(v: SessionView) -> SessionView {
    SessionView { phase: RecordingPhase::Idle, ..v }
}

/// The session after a critical error aborted it.
pub open spec fn after_abort(v: SessionView) -> SessionView {
    SessionView { phase: RecordingPhase::Idle, generation: next_generation(v.generation), ..v }
}

/// The state shared by the commands of a recording session.
pub struct SessionState {
    phase: RecordingPhase,
    generation: u64,
    recording_language: String,
    last_transcription: String,
}

impl View for SessionState {
    type V = SessionView;

    closed spec fn view(&self) -> SessionView {
        SessionView {
            phase: self.phase,
            generation: self.generation,
            language: self.recording_language@,
            last_transcription: self.last_transcription@,
        }
    }
}

impl SessionState {
    /// An idle session, English selected, nothing transcribed, at generation 0.
    pub fn new() -> (s: Self)
        ensures
            s@ == (SessionView {
                phase: RecordingPhase::Idle,
                generation: 0,
                language: "en"@,
                last_transcription: Seq::<char>::empty(),
            }),
    {
        SessionState {
            phase: RecordingPhase::Idle,
            generation: 0,
            recording_language: "en".to_owned(),
            last_transcription: String::new(),
        }
    }

    /// The current phase.
    pub fn current_phase(&self) -> (p: RecordingPhase)
        ensures
            p == self@.phase,
    {
        self.phase
    }

    /// The current session counter.
    pub fn current_generation(&self) -> (g: u64)
        ensures
            g == self@.generation,
    {
        self.generation
    }

    /// Whether the microphone is recording, which is exactly the `Recording` phase.
    pub fn is_recording(&self) -> (b: bool)
        ensures
            b == (self@.phase == RecordingPhase::Recording),
    {
        self.phase == RecordingPhase::Recording
    }

    /// The language of the current or next recording.
    pub fn recording_language(&self) -> (l: String)
        ensures
            l@ == self@.language,
    {
        self.recording_language.clone()
    }

    /// Selects the language of the next recording.
    pub fn set_recording_language(&mut self, language: &str)
        ensures
            final(self)@ == (SessionView { language: language@, ..old(self)@ }),
    {
        self.recording_language = language.to_owned();
    }

    /// The text of the last transcription.
    pub fn last_transcription(&self) -> (t: String)
        ensures
            t@ == self@.last_transcription,
    {
        self.last_transcription.clone()
    }

    /// Records the text of the last transcription.
    pub fn set_last_transcription(&mut self, text: &str)
        ensures
            final(self)@ == (SessionView { last_transcription: text@, ..old(self)@ }),
    {
        self.last_transcription = text.to_owned();
    }

    /// Forgets the last transcription (the user dismissed it).
    pub fn clear_last_transcription(&mut self)
        ensures
            final(self)@ == (SessionView { last_transcription: Seq::<char>::empty(), ..old(self)@ }),
    {
        self.last_transcription = String::new();
    }

    /// Enters `Recording` as a new session and returns the session's number.
    pub fn begin_recording(&mut self) -> (g: u64)
        ensures
            g == next_generation(old(self)@.generation),
            final(self)@ == after_begin_recording(old(self)@),
    {
        let g = if self.generation == u64::MAX {
            0
        } else {
            self.generation + 1
        };
        self.phase = RecordingPhase::Recording;
        self.generation = g;
        g
    }

    /// Enters `Processing`: the microphone stopped and transcription is in flight.
    pub fn begin_processing(&mut self)
        ensures
            final(self)@ == after_begin_processing(old(self)@),
    {
        self.phase = RecordingPhase::Processing;
    }

    /// Returns to `Idle`.
    pub fn finish(&mut self)
        ensures
            final(self)@ == after_finish(old(self)@),
    {
        self.phase = RecordingPhase::Idle;
    }

    /// Aborts any session after a critical error: returns to `Idle` and starts a new
    /// session number, so that work still pending for the aborted session is discarded.
    pub fn abort(&mut self) -> (g: u64)
        ensures
            g == next_generation(old(self)@.generation),
            final(self)@ == after_abort(old(self)@),
    {
        self.finish();
        let g = if self.generation == u64::MAX {
            0
        } else {
            self.generation + 1
        };
        self.generation = g;
        g
    }

    /// Whether `gen` is the number of the current session; work for older sessions (such
    /// as hiding the indicator after a delay) is skipped.
    pub fn is_current(&self, gen: u64) -> (b: bool)
        ensures
            b == (gen == self@.generation),
    {
        self.generation == gen
    }

    /// Admits a start request unless a transcription is in flight; an admitted request
    /// selects `language` when one is given. Returns whether the request was admitted.
    pub fn request_start(&mut self, language: Option<&str>) -> (admitted: bool)
        ensures
            admitted == (old(self)@.phase != RecordingPhase::Processing),
            !admitted ==> final(self)@ == old(self)@,
            admitted ==> final(self)@ == (SessionView {
                language: match language {
                    Some(l) => l@,
                    None => old(self)@.language,
                },
                ..old(self)@
            }),
    {
        if self.phase == RecordingPhase::Processing {
            return false;
        }
        if let Some(l) = language {
            self.set_recording_language(l);
        }
        true
    }

    /// Admits a stop request only while recording.
    pub fn request_stop(&self) -> (r: Result<(), String>)
        ensures
            r is Ok <==> self@.phase == RecordingPhase::Recording,
            r matches Err(m) ==> m@ == "Not recording"@,
    {
        if self.phase != RecordingPhase::Recording {
            return Err("Not recording".to_owned());
        }
        Ok(())
    }

    /// Admits starting the microphone ahead of the session (on the hotkey's own thread)
    /// only when idle; an admitted request selects `language`.
    pub fn request_prewarm(&mut self, language: &str) -> (admitted: bool)
        ensures
            admitted == (old(self)@.phase == RecordingPhase::Idle),
            !admitted ==> final(self)@ == old(self)@,
            admitted ==> final(self)@ == (SessionView { language: language@, ..old(self)@ }),
    {
        if self.phase != RecordingPhase::Idle {
            return false;
        }
        self.set_recording_language(language);
        true
    }
}

/// What a modifier-only hotkey callback does.
#[derive(Debug, Clone, Copy, PartialEq, Eq, Structural)]
pub enum ModifierHotkeyAction {
    /// Nothing.
    Ignore,
    /// Start the microphone at once and ask for a recording to start.
    Start,
    /// Ask for the recording to stop.
    Stop,
}

/// The action of a modifier-only hotkey callback.
pub open spec fn spec_modifier_hotkey_action(
    mode: HotkeyMode,
    phase: RecordingPhase,
    pressed: bool,
) -> ModifierHotkeyAction {
    if pressed {
        if phase == RecordingPhase::Processing {
            ModifierHotkeyAction::Ignore
        } else if mode == HotkeyMode::Toggle && phase == RecordingPhase::Recording {
            ModifierHotkeyAction::Stop
        } else {
            ModifierHotkeyAction::Start
        }
    } else if mode == HotkeyMode::Hold && phase == RecordingPhase::Recording {
        ModifierHotkeyAction::Stop
    } else {
        ModifierHotkeyAction::Ignore
    }
}

/// Decides what a modifier-only hotkey does when its key goes down (`pressed`) or up:
/// nothing while processing; a press stops a Toggle recording and otherwise starts one;
/// a release stops a Hold recording.
pub fn modifier_hotkey_action(mode: HotkeyMode, phase: RecordingPhase, pressed: bool) -> (r:
    ModifierHotkeyAction)
    ensures
        r == spec_modifier_hotkey_action(mode, phase, pressed),
{
    if pressed {
        match (mode, phase) {
            (_, RecordingPhase::Processing) => ModifierHotkeyAction::Ignore,
            (HotkeyMode::Toggle, RecordingPhase::Recording) => ModifierHotkeyAction::Stop,
            _ => ModifierHotkeyAction::Start,
        }
    } else if mode == HotkeyMode::Hold && phase == RecordingPhase::Recording {
        ModifierHotkeyAction::Stop
    } else {
        ModifierHotkeyAction::Ignore
    }
}

/// What the application does with a hotkey event.
#[derive(Debug, Clone, Copy, PartialEq, Eq, Structural)]
pub enum HotkeyEventAction {
    /// Nothing.
    Ignore,
    /// Select the event's language and begin the session; the microphone is started first
    /// when `start_mic` (it was not started ahead of the event).
    StartRecording { start_mic: bool },
    /// Stop the recording and transcribe it.
    StopRecording,
    /// Bring up the settings.
    OpenSettings,
}

/// The action for a hotkey event in `phase`.
pub open spec fn spec_hotkey_event_action(phase: RecordingPhase, event: EventView) -> HotkeyEventAction {
    match event {
        EventView::RecordingStart { .. } => if phase == RecordingPhase::Processing {
            HotkeyEventAction::Ignore
        } else {
            HotkeyEventAction::StartRecording { start_mic: phase == RecordingPhase::Idle }
        },
        EventView::RecordingStop => if phase == RecordingPhase::Recording {
            HotkeyEventAction::StopRecording
        } else {
            HotkeyEventAction::Ignore
        },
        EventView::SettingsOpen => HotkeyEventAction::OpenSettings,
        _ => HotkeyEventAction::Ignore,
    }
}

/// Decides what a hotkey event does: starts are refused while processing, stops are only
/// taken while recording, and settings always open.
pub fn hotkey_event_action(phase: RecordingPhase, event: &HotkeyEvent) -> (r: HotkeyEventAction)
    ensures
        r == spec_hotkey_event_action(phase, event@),
{
    match event {
        HotkeyEvent::RecordingStart { .. } => {
            if phase == RecordingPhase::Processing {
                HotkeyEventAction::Ignore
            } else {
                HotkeyEventAction::StartRecording { start_mic: phase == RecordingPhase::Idle }
            }
        },
        HotkeyEvent::RecordingStop => {
            if phase == RecordingPhase::Recording {
                HotkeyEventAction::StopRecording
            } else {
                HotkeyEventAction::Ignore
            }
        },
        HotkeyEvent::SettingsOpen => HotkeyEventAction::OpenSettings,
        _ => HotkeyEventAction::Ignore,
    }
}

/// Whether transcribing in `language` goes through a RunPod endpoint (which may need to
/// warm up) rather than OpenAI.
pub open spec fn spec_uses_runpod(settings: &Settings, language: Seq<char>) -> bool {
    language == "he"@ || settings.english_endpoint_type == EnglishEndpointType::SharedRunPod
        || settings.english_endpoint_type == EnglishEndpointType::CustomRunPod
}

/// Whether transcribing in `language` goes through a RunPod endpoint.
pub fn uses_runpod(settings: &Settings, language: &str) -> (b: bool)
    ensures
        b == spec_uses_runpod(settings, language@),
{
    str_eq(language, "he") || match settings.english_endpoint_type {
        EnglishEndpointType::SharedRunPod | EnglishEndpointType::CustomRunPod => true,
        EnglishEndpointType::OpenAI => false,
    }
}

/// The phase shown once recording stops: "warming" for RunPod, which may cold-start,
/// and "processing" otherwise.
pub fn stopped_visual_phase(uses_runpod: bool) -> (p: &'static str)
    ensures
        p@ == if uses_runpod { "warming"@ } else { "processing"@ },
{
    if uses_runpod {
        "warming"
    } else {
        "processing"
    }
}

/// The phase shown for a RunPod job status report: "warming" while the worker warms up,
/// "processing" while it transcribes, and no change for anything else.
pub fn status_visual_phase(status: &str) -> (p: Option<&'static str>)
    ensures
        status@ == "warming_up"@ ==> (p matches Some(v) && v@ == "warming"@),
        status@ == "processing"@ ==> (p matches Some(v) && v@ == "processing"@),
        status@ != "warming_up"@ && status@ != "processing"@ ==> p is None,
{
    proof {
        reveal_strlit("warming_up");
        reveal_strlit("processing");
        assert("warming_up"@[0] != "processing"@[0]);
    }
    if str_eq(status, "warming_up") {
        Some("warming")
    } else if str_eq(status, "processing") {
        Some("processing")
    } else {
        None
    }
}

/// A full session (start recording, stop and transcribe, finish) returns to idle with the
/// language and transcript fields untouched, one session number further on.
pub proof fn law_session_cycle_returns_to_idle(v: SessionView)
    ensures
        after_finish(after_begin_processing(after_begin_recording(v))) == (SessionView {
            phase: RecordingPhase::Idle,
            generation: next_generation(v.generation),
            ..v
        }),
{
}

/// Every new session (and every abort) changes the session number, so delayed work for
/// the previous session, such as hiding the indicator, recognises itself as stale.
pub proof fn law_new_session_makes_old_stale(v: SessionView)
    ensures
        after_begin_recording(v).generation != v.generation,
        after_abort(v).generation != v.generation,
{
}

/// An aborted session is idle whatever phase it was in.
pub proof fn law_abort_goes_idle(v: SessionView)
    ensures
        after_abort(v).phase == RecordingPhase::Idle,
{
}

/// Nothing starts a recording while a transcription is in flight: neither a hotkey event
/// nor a modifier-only hotkey.
pub proof fn law_no_start_while_processing(event: EventView, mode: HotkeyMode, pressed: bool)
    ensures
        !(spec_hotkey_event_action(RecordingPhase::Processing, event) is StartRecording),
        spec_modifier_hotkey_action(mode, RecordingPhase::Processing, pressed)
            != ModifierHotkeyAction::Start,
{
}

/// A Hold-mode modifier hotkey pressed while idle starts a recording, and its release
/// while that recording runs stops it.
pub proof fn law_modifier_hold_round_trip()
    ensures
        spec_modifier_hotkey_action(HotkeyMode::Hold, RecordingPhase::Idle, true)
            == ModifierHotkeyAction::Start,
        spec_modifier_hotkey_action(HotkeyMode::Hold, RecordingPhase::Recording, false)
            == ModifierHotkeyAction::Stop,
{
}

/// A Toggle-mode modifier hotkey starts a recording with one press and stops it with the
/// next, and its releases do nothing.
pub proof fn law_modifier_toggle_round_trip(phase: RecordingPhase)
    ensures
        spec_modifier_hotkey_action(HotkeyMode::Toggle, RecordingPhase::Idle, true)
            == ModifierHotkeyAction::Start,
        spec_modifier_hotkey_action(HotkeyMode::Toggle, RecordingPhase::Recording, true)
            == ModifierHotkeyAction::Stop,
        spec_modifier_hotkey_action(HotkeyMode::Toggle, phase, false) == ModifierHotkeyAction::Ignore,
{
}

} // verus!
