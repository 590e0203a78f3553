//! A live transcription session with OpenAI's Realtime API: the audio messages sent, and
//! what each event that the server sends back calls for.
use vstd::prelude::*;
use crate::settings::opt_view;
use crate::text::str_eq;
use crate::transcription::runpod::{base64_encode, base64_standard};
use crate::transcription::wav::{pcm16_bytes, push_pcm16};

verus! {

/// What `format!("{:?}", o)` gives for an optional string: `None`, or `Some(` and the
/// string quoted and escaped as `Debug` writes it, then `)`.
pub uninterp spec fn option_debug(o: Option<Seq<char>>) -> Seq<char>;

/// Formats `o` with `{:?}` (its `Debug` impl); the result is named by `option_debug`.
#[verifier::external_body]
fn debug_option(o: &Option<String>) -> (s: String)
    ensures
        s@ == option_debug(opt_view(*o)),
{
    format!("{:?}", o)
}

/// The `audio` member of an `input_audio_buffer.append` message carrying `samples`: their
/// 16-bit little-endian bytes, Base64-encoded.
pub fn audio_append_payload(samples: &[i16]) -> (s: String)
    ensures
        s@ == base64_standard(pcm16_bytes(samples@)),
{
    let mut bytes: Vec<u8> = Vec::new();
    push_pcm16(&mut bytes, samples);
    assert(bytes@ =~= pcm16_bytes(samples@));
    base64_encode(bytes.as_slice())
}

/// The error that a server event reports.
#[derive(Debug)]
pub struct ServerError {
    pub message: String,
    pub error_type: Option<String>,
    pub code: Option<String>,
}

/// An event from the Realtime API server, as far as a transcription session reads it.
#[derive(Debug)]
pub struct ServerEvent {
    /// The `type` member.
    pub event_type: String,
    pub delta: Option<String>,
    pub transcript: Option<String>,
    pub item_id: Option<String>,
    pub error: Option<ServerError>,
}

/// What an event calls for.
#[derive(Debug)]
pub enum RealtimeAction {
    /// Hand on a piece of the transcript that is still growing.
    Partial(String),
    /// Hand on the finished transcript of a stretch of speech.
    Final(String),
    /// Report an error to the user.
    ReportError(String),
    /// Nothing to do.
    Ignore,
}

/// The mathematical content of a `RealtimeAction`.
pub enum ActionView {
    Partial(Seq<char>),
    Final(Seq<char>),
    ReportError(Seq<char>),
    Ignore,
}

impl View for RealtimeAction {
    type V = ActionView;

    open spec fn view(&self) -> ActionView {
        match self {
            RealtimeAction::Partial(s) => ActionView::Partial(s@),
            RealtimeAction::Final(s) => ActionView::Final(s@),
            RealtimeAction::ReportError(s) => ActionView::ReportError(s@),
            RealtimeAction::Ignore => ActionView::Ignore,
        }
    }
}

/// The event type of a piece of a growing transcript.
pub open spec fn delta_type() -> Seq<char> {
    "conversation.item.input_audio_transcription.delta"@
}

/// The event type of a finished transcript.
pub open spec fn completed_type() -> Seq<char> {
    "conversation.item.input_audio_transcription.completed"@
}

/// The event type of a failed transcription.
pub open spec fn failed_type() -> Seq<char> {
    "conversation.item.input_audio_transcription.failed"@
}

/// What `ev` calls for: a non-empty delta is handed on as partial text, a completed
/// transcript as final text (even when empty); a failed transcription is reported with
/// the server's message when it gives one; an `error` event that carries an error is
/// reported with its message and code; every other event is passed over.
pub open spec fn spec_realtime_action(ev: ServerEvent) -> ActionView {
    let t = ev.event_type@;
    if t == delta_type() {
        match ev.delta {
            Some(d) if d@.len() > 0 => ActionView::Partial(d@),
            _ => ActionView::Ignore,
        }
    } else if t == completed_type() {
        match ev.transcript {
            Some(tr) => ActionView::Final(tr@),
            None => ActionView::Ignore,
        }
    } else if t == failed_type() {
        match ev.error {
            Some(e) => ActionView::ReportError("Transcription failed: "@ + e.message@),
            None => ActionView::ReportError("Transcription failed"@),
        }
    } else if t == "error"@ {
        match ev.error {
            Some(e) => ActionView::ReportError(
                "OpenAI error: "@ + e.message@ + " (code="@ + option_debug(opt_view(e.code))
                    + ")"@,
            ),
            None => ActionView::Ignore,
        }
    } else {
        ActionView::Ignore
    }
}

/// Decides what the server event `ev` calls for.
pub fn realtime_event_action(ev: &ServerEvent) -> (r: RealtimeAction)
    ensures
        r@ == spec_realtime_action(*ev),
{
    proof {
        reveal_strlit("conversation.item.input_audio_transcription.delta");
        reveal_strlit("conversation.item.input_audio_transcription.completed");
        reveal_strlit("conversation.item.input_audio_transcription.failed");
        reveal_strlit("error");
    }
    let t = ev.event_type.as_str();
    if str_eq(t, "conversation.item.input_audio_transcription.delta") {
        match &ev.delta {
            Some(d) => {
                if !d.as_str().is_empty() {
                    RealtimeAction::Partial(d.clone())
                } else {
                    RealtimeAction::Ignore
                }
            },
            None => RealtimeAction::Ignore,
        }
    } else if str_eq(t, "conversation.item.input_audio_transcription.completed") {
        match &ev.transcript {
            Some(tr) => RealtimeAction::Final(tr.clone()),
            None => RealtimeAction::Ignore,
        }
    } else if str_eq(t, "conversation.item.input_audio_transcription.failed") {
        match &ev.error {
            Some(e) => {
                let mut m = "Transcription failed: ".to_owned();
                m.append(e.message.as_str());
                RealtimeAction::ReportError(m)
            },
            None => RealtimeAction::ReportError("Transcription failed".to_owned()),
        }
    } else if str_eq(t, "error") {
        match &ev.error {
            Some(e) => {
                let mut m = "OpenAI error: ".to_owned();
                m.append(e.message.as_str());
                m.append(" (code=");
                let code = debug_option(&e.code);
                m.append(code.as_str());
                m.append(")");
                RealtimeAction::ReportError(m)
            },
            None => RealtimeAction::Ignore,
        }
    } else {
        RealtimeAction::Ignore
    }
}

} // verus!
