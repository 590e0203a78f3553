use airtype_lib::history::{History, TranscriptionEntry, MAX_ENTRIES};
use airtype_lib::hotkeys::{HotkeyAction, HotkeyEvent};
use airtype_lib::injection::{pause_after, InjectionError, DEFAULT_CHAR_DELAY_MS};
use airtype_lib::logs::{
    clear, format_log_entries, get_entries, log_export_filename, push_decimal, LogBuffer,
    LogEntry, MAX_LOG_ENTRIES,
};
use airtype_lib::session::{
    hotkey_event_action, modifier_hotkey_action, status_visual_phase, stopped_visual_phase,
    uses_runpod, HotkeyEventAction, ModifierHotkeyAction, RecordingPhase, SessionState,
};
use airtype_lib::settings::{EnglishEndpointType, HotkeyMode, Settings};
use airtype_lib::updates::UpdateInfo;

#[test]
fn session_cycle() {
    let mut s = SessionState::new();
    assert_eq!(s.current_phase(), RecordingPhase::Idle);
    assert_eq!(s.current_generation(), 0);
    assert_eq!(s.recording_language(), "en");
    assert!(s.request_stop().is_err());
    assert_eq!(s.request_stop().unwrap_err(), "Not recording");
    assert!(s.request_start(Some("he")));
    assert_eq!(s.recording_language(), "he");
    let g = s.begin_recording();
    assert_eq!(g, 1);
    assert!(s.is_recording());
    assert!(s.request_stop().is_ok());
    s.begin_processing();
    assert!(!s.request_start(Some("en")));
    assert_eq!(s.recording_language(), "he");
    assert!(!s.request_prewarm("en"));
    s.set_last_transcription("שלום");
    s.finish();
    assert_eq!(s.current_phase(), RecordingPhase::Idle);
    assert!(s.is_current(1));
    assert_eq!(s.last_transcription(), "שלום");
    s.clear_last_transcription();
    assert_eq!(s.last_transcription(), "");
    assert!(s.request_prewarm("en"));
    assert_eq!(s.recording_language(), "en");
    let g2 = s.abort();
    assert_eq!(g2, 2);
    assert!(!s.is_current(1));
}

#[test]
fn modifier_hotkey_actions() {
    let (idle, recording, processing) =
        (RecordingPhase::Idle, RecordingPhase::Recording, RecordingPhase::Processing);
    let (start, stop, ignore) =
        (ModifierHotkeyAction::Start, ModifierHotkeyAction::Stop, ModifierHotkeyAction::Ignore);
    assert_eq!(modifier_hotkey_action(HotkeyMode::Hold, idle, true), start);
    assert_eq!(modifier_hotkey_action(HotkeyMode::Hold, recording, false), stop);
    assert_eq!(modifier_hotkey_action(HotkeyMode::Hold, idle, false), ignore);
    assert_eq!(modifier_hotkey_action(HotkeyMode::Toggle, recording, true), stop);
    assert_eq!(modifier_hotkey_action(HotkeyMode::Toggle, recording, false), ignore);
    assert_eq!(modifier_hotkey_action(HotkeyMode::Toggle, processing, true), ignore);
}

#[test]
fn hotkey_event_actions() {
    let start = HotkeyEvent::RecordingStart { language: "he".to_string() };
    assert_eq!(
        hotkey_event_action(RecordingPhase::Idle, &start),
        HotkeyEventAction::StartRecording { start_mic: true }
    );
    assert_eq!(
        hotkey_event_action(RecordingPhase::Recording, &start),
        HotkeyEventAction::StartRecording { start_mic: false }
    );
    assert_eq!(hotkey_event_action(RecordingPhase::Processing, &start), HotkeyEventAction::Ignore);
    assert_eq!(
        hotkey_event_action(RecordingPhase::Recording, &HotkeyEvent::RecordingStop),
        HotkeyEventAction::StopRecording
    );
    assert_eq!(
        hotkey_event_action(RecordingPhase::Idle, &HotkeyEvent::RecordingStop),
        HotkeyEventAction::Ignore
    );
    assert_eq!(
        hotkey_event_action(RecordingPhase::Idle, &HotkeyEvent::SettingsOpen),
        HotkeyEventAction::OpenSettings
    );
    let _ = HotkeyAction::OpenSettings;
}

#[test]
fn indicator_phases() {
    let mut st = Settings::default();
    assert!(uses_runpod(&st, "en"));
    st.english_endpoint_type = EnglishEndpointType::OpenAI;
    assert!(!uses_runpod(&st, "en"));
    assert!(uses_runpod(&st, "he"));
    assert_eq!(stopped_visual_phase(true), "warming");
    assert_eq!(stopped_visual_phase(false), "processing");
    assert_eq!(status_visual_phase("warming_up"), Some("warming"));
    assert_eq!(status_visual_phase("processing"), Some("processing"));
    assert_eq!(status_visual_phase("other"), None);
}

#[test]
fn history_add_delete_clear() {
    let mut h = History::new();
    let e1 = h.add_at("first", "en", 1_700_000_000_123, 1_700_000_000);
    assert_eq!(e1.id, 1_700_000_000_123);
    assert_eq!(e1.timestamp, 1_700_000_000);
    h.add_at("second", "he", 1_700_000_001_000, 1_700_000_001);
    let all = h.all();
    assert_eq!(all.len(), 2);
    assert_eq!(all[0].text, "second");
    assert_eq!(all[1].text, "first");
    h.delete(1_700_000_000_123);
    assert_eq!(h.all().len(), 1);
    h.delete(42);
    assert_eq!(h.all().len(), 1);
    h.clear();
    assert!(h.all().is_empty());
}

#[test]
fn history_is_bounded() {
    let mut h = History::new();
    for i in 0..(MAX_ENTRIES as u128 + 5) {
        h.add_at("t", "en", i * 1000, i as u64);
    }
    let all = h.all();
    assert_eq!(all.len(), MAX_ENTRIES);
    assert_eq!(all[0].id, (MAX_ENTRIES as u64 + 4) * 1000);
}

#[test]
fn history_add_stamps_with_the_clock() {
    let mut h = History::new();
    let e = h.add("now", "en");
    assert_eq!(e.id / 1000, e.timestamp as u64);
    let loaded = History::from_entries(vec![TranscriptionEntry {
        id: 5,
        text: "x".to_string(),
        language: "he".to_string(),
        timestamp: 0,
    }]);
    assert_eq!(loaded.all()[0].id, 5);
}

fn entry(ts: u64, msg: &str) -> LogEntry {
    LogEntry { timestamp: ts, level: "INFO".to_string(), target: "airtype".to_string(), message: msg.to_string() }
}

#[test]
fn log_buffer_is_bounded_and_formats() {
    let mut b = LogBuffer::new();
    for i in 0..(MAX_LOG_ENTRIES as u64 + 3) {
        b.push(entry(i, "m"));
    }
    let all = get_entries(&b);
    assert_eq!(all.len(), MAX_LOG_ENTRIES);
    assert_eq!(all[0].timestamp, 3);
    clear(&mut b);
    assert!(get_entries(&b).is_empty());
    b.capture("WARN", "x", "captured");
    assert_eq!(get_entries(&b)[0].message, "captured");
    let text = format_log_entries(&vec![entry(1_700_000_000_005, "hello"), entry(12_345, "b")]);
    assert_eq!(text, "[1700000000.005] INFO airtype — hello\n[12.345] INFO airtype — b\n");
    assert_eq!(log_export_filename(1_700_000_000), "airtype-logs-1700000000.txt");
    let mut s = String::from("n=");
    push_decimal(&mut s, 907);
    assert_eq!(s, "n=907");
}

#[test]
fn test_empty_text() {
    let result = "".is_empty();
    assert!(result);
}

#[test]
fn test_unicode_string_handling() {
    let hebrew = "שלום עולם";
    assert!(!hebrew.is_empty());
    assert_eq!(hebrew.chars().count(), 9);
    let mixed = "Hello שלום World";
    assert!(mixed.contains("שלום"));
}

#[test]
fn test_special_characters() {
    let special = "Hello\nWorld\tTab";
    assert!(special.contains('\n'));
    assert!(special.contains('\t'));
}

#[test]
fn typing_pauses_between_characters_only() {
    assert_eq!(DEFAULT_CHAR_DELAY_MS, 5);
    assert!(pause_after(0, 3, 10));
    assert!(pause_after(1, 3, 10));
    assert!(!pause_after(2, 3, 10));
    assert!(!pause_after(0, 3, 0));
    assert!(!pause_after(0, 0, 10));
}

#[test]
fn injection_error_messages() {
    assert_eq!(
        InjectionError::TypeError("x".to_string()).message(),
        "Failed to inject text: x"
    );
    assert_eq!(InjectionError::InvalidInput("y".to_string()).message(), "Invalid input: y");
}

#[test]
fn update_info_holds_versions() {
    let u = UpdateInfo {
        version: "1.2.0".to_string(),
        current_version: "1.1.0".to_string(),
        notes: None,
        date: None,
    };
    assert_ne!(u.version, u.current_version);
}
