use airtype_lib::json::JsonValue;
use airtype_lib::text::is_whitespace;
use airtype_lib::settings::{EnglishEndpointType, Settings};
use airtype_lib::transcription::filler::{is_hebrew_filler, normalize_filler};
use airtype_lib::transcription::openai::{openai_batch_result, ws_host, OpenAIRealtimeTranscriber};
use airtype_lib::transcription::realtime::{
    audio_append_payload, realtime_event_action, RealtimeAction, ServerError, ServerEvent,
};
use airtype_lib::transcription::routing::{select_endpoint, select_test_endpoint, Endpoint};
use airtype_lib::transcription::runpod::{
    credentials_present, extract_text_from_output, health_url, poll_timed_out, run_url,
    runpod_poll_step, runpod_request, status_url, timeout_message, ExtractError, PollStep,
    RunPodStatus,
};
use airtype_lib::transcription::wav::encode_wav;
use airtype_lib::transcription::whisper::{Language, TranscriptionError};

fn s(x: &str) -> JsonValue {
    JsonValue::String(x.to_string())
}

fn n(x: &str) -> JsonValue {
    JsonValue::Number(x.to_string())
}

fn obj(fields: Vec<(&str, JsonValue)>) -> JsonValue {
    JsonValue::Object(fields.into_iter().map(|(k, v)| (k.to_string(), v)).collect())
}

fn segment(text: &str, start: &str, end: &str) -> JsonValue {
    obj(vec![("text", s(text)), ("start", n(start)), ("end", n(end))])
}

#[test]
fn discards_bare_and_punctuated_fillers() {
    for s in ["תודה", "תודה.", "תודה רבה", "תודה רבה.", "  תודה רבה!  ", "תודה  רבה"] {
        assert!(is_hebrew_filler(s), "should discard: {s:?}");
    }
}

#[test]
fn keeps_real_transcripts() {
    for s in ["", "תודה על העזרה", "שלום", "תודה רבה על הכל", "hello"] {
        assert!(!is_hebrew_filler(s), "should keep: {s:?}");
    }
}

#[test]
fn normalize_filler_drops_punctuation_and_extra_spaces() {
    assert_eq!(normalize_filler("  תודה,  רבה!! "), "תודה רבה");
    assert_eq!(normalize_filler("a.b  c"), "ab c");
    assert_eq!(normalize_filler("..."), "");
}

#[test]
fn normalizing_filler_twice_changes_nothing() {
    for t in ["  תודה  רבה!  ", "שלום, עולם…", "a  b\tc", "", "!!", "תודה״ רבה׳"] {
        let once = normalize_filler(t);
        assert_eq!(normalize_filler(&once), once);
    }
    assert_eq!(normalize_filler("  תודה  רבה!  "), "תודה רבה");
}

#[test]
fn whitespace_is_the_unicode_set() {
    assert!(is_whitespace(' '));
    assert!(is_whitespace('\u{3000}'));
    assert!(is_whitespace('\u{2028}'));
    assert!(is_whitespace('\u{85}'));
    assert!(!is_whitespace('ש'));
    assert!(!is_whitespace('\u{200B}'));
    assert!(!is_whitespace('a'));
}

#[test]
fn test_language_from_code() {
    assert_eq!(Language::from_code("en").unwrap(), Language::English);
    assert_eq!(Language::from_code("EN").unwrap(), Language::English);
    assert_eq!(Language::from_code("english").unwrap(), Language::English);
    assert_eq!(Language::from_code("he").unwrap(), Language::Hebrew);
    assert_eq!(Language::from_code("hebrew").unwrap(), Language::Hebrew);
    assert_eq!(Language::from_code("auto").unwrap(), Language::Auto);
    assert!(Language::from_code("invalid").is_err());
}

#[test]
fn invalid_language_keeps_the_code() {
    match Language::from_code("Klingon") {
        Err(TranscriptionError::InvalidLanguage(c)) => assert_eq!(c, "Klingon"),
        other => panic!("unexpected {:?}", other),
    }
}

#[test]
fn test_language_whisper_code() {
    assert_eq!(Language::English.as_whisper_code(), Some("en"));
    assert_eq!(Language::Hebrew.as_whisper_code(), Some("he"));
    assert_eq!(Language::Auto.as_whisper_code(), None);
}

fn check_wav_header(wav: &[u8]) {
    assert_eq!(&wav[0..4], b"RIFF");
    assert_eq!(&wav[8..12], b"WAVE");
    assert_eq!(&wav[12..16], b"fmt ");
    assert_eq!(&wav[36..40], b"data");
    let data_size = u32::from_le_bytes([wav[40], wav[41], wav[42], wav[43]]);
    assert_eq!(data_size, 32000);
}

#[test]
fn huggingface_test_encode_wav_header() {
    let samples = vec![0i16; 16000]; // 1 second of silence
    let wav = encode_wav(&samples, 16000);
    check_wav_header(&wav);
}

#[test]
fn runpod_test_encode_wav_header() {
    let samples = vec![0i16; 16000]; // 1 second of silence
    let wav = encode_wav(&samples, 16000);
    check_wav_header(&wav);
}

#[test]
fn encode_wav_exact_bytes() {
    let wav = encode_wav(&[1, -2], 8000);
    assert_eq!(wav.len(), 48);
    assert_eq!(u32::from_le_bytes([wav[4], wav[5], wav[6], wav[7]]), 40);
    assert_eq!(u32::from_le_bytes([wav[24], wav[25], wav[26], wav[27]]), 8000);
    assert_eq!(u32::from_le_bytes([wav[28], wav[29], wav[30], wav[31]]), 16000);
    assert_eq!(&wav[44..], &[1, 0, 0xfe, 0xff]);
}

#[test]
fn test_extract_text_basic() {
    // RunPod wraps output in an array
    let output = JsonValue::Array(vec![obj(vec![(
        "result",
        JsonValue::Array(vec![JsonValue::Array(vec![
            segment(" שלום עולם ", "0.0", "1.0"),
            segment(" מה שלומך ", "1.0", "2.0"),
        ])]),
    )])]);
    let text = extract_text_from_output(&Some(output)).unwrap();
    assert_eq!(text, "שלום עולם מה שלומך");
}

#[test]
fn test_extract_text_unwrapped() {
    // Also handle non-array format
    let output = obj(vec![(
        "result",
        JsonValue::Array(vec![JsonValue::Array(vec![segment(" טסט ", "0.0", "1.0")])]),
    )]);
    let text = extract_text_from_output(&Some(output)).unwrap();
    assert_eq!(text, "טסט");
}

#[test]
fn test_extract_text_empty() {
    let output = obj(vec![("result", JsonValue::Array(vec![JsonValue::Array(vec![])]))]);
    assert!(extract_text_from_output(&Some(output)).is_err());
}

#[test]
fn test_extract_text_none() {
    assert!(extract_text_from_output(&None).is_err());
}

#[test]
fn extract_text_errors_and_fallback() {
    assert_eq!(extract_text_from_output(&None), Err(ExtractError::NoOutput));
    let empty = obj(vec![("result", JsonValue::Array(vec![JsonValue::Array(vec![])]))]);
    assert_eq!(extract_text_from_output(&Some(empty)), Err(ExtractError::EmptyTranscription));
    let plain = obj(vec![("text", s("  hello  "))]);
    assert_eq!(extract_text_from_output(&Some(plain)).unwrap(), "hello");
    let other = obj(vec![("foo", n("1"))]);
    assert_eq!(extract_text_from_output(&Some(other)), Err(ExtractError::UnexpectedFormat));
    assert_eq!(ExtractError::NoOutput.message(""), "RunPod returned no output");
    assert_eq!(
        ExtractError::UnexpectedFormat.message("{\"foo\":1}"),
        "Unexpected RunPod output format: {\"foo\":1}"
    );
}

#[test]
fn runpod_request_encodes_the_wav_and_language() {
    let en = runpod_request(&[1, 2, 3], "en");
    assert_eq!(en.input.transcribe_args.blob, "AQID");
    assert_eq!(en.input.transcribe_args.task.as_deref(), Some("translate"));
    assert!(en.input.transcribe_args.initial_prompt.is_some());
    assert_eq!(en.input.model, "ivrit-ai/whisper-large-v3-turbo-ct2");
    let he = runpod_request(&[], "he");
    assert_eq!(he.input.transcribe_args.blob, "");
    assert_eq!(he.input.transcribe_args.language, "he");
    assert_eq!(he.input.transcribe_args.task.as_deref(), Some("transcribe"));
    assert!(he.input.transcribe_args.initial_prompt.is_none());
}

#[test]
fn runpod_urls() {
    assert_eq!(run_url("abc"), "https://api.runpod.ai/v2/abc/run");
    assert_eq!(status_url("abc", "j1"), "https://api.runpod.ai/v2/abc/status/j1");
    assert_eq!(health_url("abc"), "https://api.runpod.ai/v2/abc/health");
    assert!(credentials_present("k", "e"));
    assert!(!credentials_present("", "e"));
}

fn status(st: &str, output: Option<JsonValue>, error: Option<&str>) -> RunPodStatus {
    RunPodStatus { status: st.to_string(), output, error: error.map(|e| e.to_string()) }
}

#[test]
fn runpod_poll_steps() {
    match runpod_poll_step("", &status("IN_QUEUE", None, None)) {
        PollStep::Wait { status, sleep_ms } => {
            assert_eq!(status.as_deref(), Some("warming_up"));
            assert_eq!(sleep_ms, 1500);
        }
        other => panic!("unexpected {:?}", other),
    }
    match runpod_poll_step("warming_up", &status("IN_QUEUE", None, None)) {
        PollStep::Wait { status, .. } => assert!(status.is_none()),
        other => panic!("unexpected {:?}", other),
    }
    match runpod_poll_step("warming_up", &status("IN_PROGRESS", None, None)) {
        PollStep::Wait { status, sleep_ms } => {
            assert_eq!(status.as_deref(), Some("processing"));
            assert_eq!(sleep_ms, 800);
        }
        other => panic!("unexpected {:?}", other),
    }
    let done = obj(vec![("text", s(" hi "))]);
    match runpod_poll_step("processing", &status("COMPLETED", Some(done), None)) {
        PollStep::Done(t) => assert_eq!(t, "hi"),
        other => panic!("unexpected {:?}", other),
    }
    match runpod_poll_step("processing", &status("COMPLETED", None, Some("boom"))) {
        PollStep::Failed(m) => assert_eq!(m, "RunPod job error: boom"),
        other => panic!("unexpected {:?}", other),
    }
    match runpod_poll_step("processing", &status("FAILED", None, None)) {
        PollStep::Failed(m) => assert_eq!(m, "RunPod job unknown error (status: FAILED)"),
        other => panic!("unexpected {:?}", other),
    }
    match runpod_poll_step("", &status("WHATEVER", None, None)) {
        PollStep::Wait { status, sleep_ms } => {
            assert!(status.is_none());
            assert_eq!(sleep_ms, 1000);
        }
        other => panic!("unexpected {:?}", other),
    }
    assert!(!poll_timed_out(120));
    assert!(poll_timed_out(121));
    assert_eq!(timeout_message(), "RunPod job timed out after 120 seconds");
}

#[test]
fn openai_batch_results() {
    let ok = obj(vec![("text", s("  hello "))]);
    assert_eq!(openai_batch_result(200, "200 OK", "", &Some(ok)), Ok("hello".to_string()));
    assert_eq!(openai_batch_result(200, "200 OK", " raw ", &None), Ok("raw".to_string()));
    assert_eq!(
        openai_batch_result(200, "200 OK", "  ", &None),
        Err("OpenAI returned empty transcription".to_string())
    );
    let quota = obj(vec![("error", obj(vec![("message", s("out of credit"))]))]);
    assert_eq!(
        openai_batch_result(429, "429 Too Many Requests", "{}", &Some(quota)),
        Err("OpenAI test needs billing or credits: out of credit".to_string())
    );
    let bad = obj(vec![("error", obj(vec![("message", s("bad key")), ("code", s("invalid"))]))]);
    assert_eq!(
        openai_batch_result(401, "401 Unauthorized", "{}", &Some(bad)),
        Err("OpenAI API error (401 Unauthorized): bad key".to_string())
    );
    assert_eq!(
        openai_batch_result(500, "500 Internal Server Error", "oops", &None),
        Err("OpenAI API error (500 Internal Server Error): oops".to_string())
    );
}

#[test]
fn realtime_urls() {
    let t = OpenAIRealtimeTranscriber::new("sk").with_base_url("wss://example.com/v1/rt//");
    assert_eq!(t.ws_url(), "wss://example.com/v1/rt?model=gpt-4o-transcribe");
    let d = OpenAIRealtimeTranscriber::new("sk").with_model("gpt-4o-mini-transcribe");
    assert_eq!(d.ws_url(), "wss://api.openai.com/v1/realtime?model=gpt-4o-mini-transcribe");
    assert_eq!(ws_host(&d.ws_url()), "api.openai.com");
    assert_eq!(ws_host("ws://localhost:8080?model=x"), "localhost:8080");
    let mut l = OpenAIRealtimeTranscriber::new("sk");
    assert_eq!(l.language(), "en");
    l.set_language("he");
    assert_eq!(l.language(), "he");
    assert_eq!(l.set_model("other").model(), "gpt-4o-transcribe");
}

fn event(t: &str) -> ServerEvent {
    ServerEvent { event_type: t.to_string(), delta: None, transcript: None, item_id: None, error: None }
}

#[test]
fn realtime_events() {
    let mut d = event("conversation.item.input_audio_transcription.delta");
    d.delta = Some("hel".to_string());
    assert!(matches!(realtime_event_action(&d), RealtimeAction::Partial(t) if t == "hel"));
    d.delta = Some(String::new());
    assert!(matches!(realtime_event_action(&d), RealtimeAction::Ignore));
    let mut c = event("conversation.item.input_audio_transcription.completed");
    c.transcript = Some("hello".to_string());
    assert!(matches!(realtime_event_action(&c), RealtimeAction::Final(t) if t == "hello"));
    let f = event("conversation.item.input_audio_transcription.failed");
    assert!(matches!(realtime_event_action(&f), RealtimeAction::ReportError(m) if m == "Transcription failed"));
    let mut e = event("error");
    e.error = Some(ServerError {
        message: "bad".to_string(),
        error_type: None,
        code: Some("x1".to_string()),
    });
    assert!(matches!(
        realtime_event_action(&e),
        RealtimeAction::ReportError(m) if m == "OpenAI error: bad (code=Some(\"x1\"))"
    ));
    e.error.as_mut().unwrap().code = None;
    assert!(matches!(
        realtime_event_action(&e),
        RealtimeAction::ReportError(m) if m == "OpenAI error: bad (code=None)"
    ));
    assert!(matches!(realtime_event_action(&event("session.created")), RealtimeAction::Ignore));
}

#[test]
fn realtime_audio_payload_is_base64_pcm16() {
    assert_eq!(audio_append_payload(&[0, 0, 0]), "AAAAAAAA");
    assert_eq!(audio_append_payload(&[1]), "AQA=");
}

fn with_keys() -> Settings {
    let mut st = Settings::default();
    st.runpod_api_key = Some("rk".to_string());
    st.runpod_endpoint_id = Some("re".to_string());
    st
}

#[test]
fn endpoint_selection() {
    let st = Settings::default();
    assert_eq!(
        select_endpoint(&st, "he").unwrap_err(),
        "Hebrew default RunPod API key not set. Go to Settings to add it."
    );
    assert_eq!(
        select_endpoint(&st, "en").unwrap_err(),
        "Default RunPod API key not set. Go to Settings to add it."
    );
    let mut st = with_keys();
    st.runpod_endpoint_id = Some(String::new());
    assert_eq!(
        select_endpoint(&st, "he").unwrap_err(),
        "Hebrew default RunPod Endpoint ID not set. Go to Settings to add it."
    );
    let st = with_keys();
    match select_endpoint(&st, "he").unwrap() {
        Endpoint::RunPod { api_key, endpoint_id } => {
            assert_eq!(api_key, "rk");
            assert_eq!(endpoint_id, "re");
        }
        other => panic!("unexpected {:?}", other),
    }
    let mut st = with_keys();
    st.english_endpoint_type = EnglishEndpointType::OpenAI;
    assert_eq!(
        select_endpoint(&st, "en").unwrap_err(),
        "OpenAI API key not set. Go to Settings to add it."
    );
    st.english_openai_api_key = Some("sk".to_string());
    assert!(matches!(select_endpoint(&st, "en").unwrap(), Endpoint::OpenAI { api_key } if api_key == "sk"));
    st.english_endpoint_type = EnglishEndpointType::CustomRunPod;
    assert_eq!(
        select_endpoint(&st, "en").unwrap_err(),
        "Custom RunPod API key for English not set. Go to Settings to add it."
    );
}

#[test]
fn test_endpoint_selection() {
    let st = with_keys();
    match select_test_endpoint(&st, "HE") {
        Ok((Endpoint::RunPod { .. }, lang)) => assert_eq!(lang, "he"),
        other => panic!("unexpected {:?}", other),
    }
    assert!(select_test_endpoint(&st, "fr").is_err());
}
