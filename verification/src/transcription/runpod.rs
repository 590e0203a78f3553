//! The RunPod serverless transcription protocol (ivrit-ai's Whisper deployment): the job
//! request, the endpoints' addresses, polling a job, and reading its output.
use vstd::prelude::*;
use base64::Engine;
use crate::json::{spec_get, JsonValue};
use crate::text::{
    chars_of, lemma_trim_end_split, lemma_trim_ends, lemma_trim_start_concat,
    lemma_trim_start_suffix, push_char, str_eq, string_of, trim_chars, trim_end_seq, trim_seq,
    trim_start_seq, unicode_whitespace,
};

verus! {

/// The base address of the RunPod serverless API.
pub const RUNPOD_API_BASE: &'static str = "https://api.runpod.ai/v2";

/// The character that the standard Base64 alphabet gives the six-bit value `v`.
pub open spec fn base64_digit(v: int) -> char {
    "ABCDEFGHIJKLMNOPQRSTUVWXYZabcdefghijklmnopqrstuvwxyz0123456789+/"@[v]
}

/// The standard (padded) Base64 encoding of `b`: each group of three bytes becomes four
/// digits of six bits each, high bits first; a last group of one or two bytes is filled out
/// with zero bits and padded with `=` to four characters.
pub open spec fn base64_standard(b: Seq<u8>) -> Seq<char>
    decreases b.len(),
{
    if b.len() == 0 {
        Seq::empty()
    } else if b.len() == 1 {
        seq![base64_digit((b[0] as int) / 4), base64_digit(((b[0] as int) % 4) * 16), '=', '=']
    } else if b.len() == 2 {
        seq![
            base64_digit((b[0] as int) / 4),
            base64_digit(((b[0] as int) % 4) * 16 + (b[1] as int) / 16),
            base64_digit(((b[1] as int) % 16) * 4),
            '=',
        ]
    } else {
        seq![
            base64_digit((b[0] as int) / 4),
            base64_digit(((b[0] as int) % 4) * 16 + (b[1] as int) / 16),
            base64_digit(((b[1] as int) % 16) * 4 + (b[2] as int) / 64),
            base64_digit((b[2] as int) % 64),
        ] + base64_standard(b.subrange(3, b.len() as int))
    }
}

/// Calls `Engine::encode` of `base64::engine::general_purpose::STANDARD`, the padded
/// encoding with the standard alphabet, which gives `base64_standard` of the bytes.
#[verifier::external_body]
pub(crate) fn base64_encode(bytes: &[u8]) -> (s: String)
    ensures
        s@ == base64_standard(bytes@),
{
    base64::engine::general_purpose::STANDARD.encode(bytes)
}

/// The output options of a transcription job.
#[derive(Debug, Clone, Copy, PartialEq, Eq, Structural)]
pub struct OutputOptions {
    pub word_timestamps: bool,
    pub extra_data: bool,
}

/// The arguments of a transcription job.
#[derive(Debug)]
pub struct TranscribeArgs {
    /// The WAV file, Base64-encoded.
    pub blob: String,
    pub language: String,
    pub task: Option<String>,
    pub initial_prompt: Option<String>,
    pub output_options: Option<OutputOptions>,
}

/// The input of a transcription job.
#[derive(Debug)]
pub struct RunPodInput {
    pub model: String,
    pub engine: String,
    pub streaming: bool,
    pub transcribe_args: TranscribeArgs,
}

/// The body of a POST to `/run`.
#[derive(Debug)]
pub struct RunPodRequest {
    pub input: RunPodInput,
}

/// The prompt that keeps English dictation in English script.
pub open spec fn english_prompt() -> Seq<char> {
    "This is an English transcription. Please write the output in English script, using proper grammar and spelling."@
}

/// Whether `r` is the job request for the WAV file `wav` in `language`: the ivrit-ai
/// turbo model on faster-whisper, not streaming, without timestamps or extra data; English
/// is requested as a translation (which forces English output) with a prompt asking for
/// English script, every other language as a plain transcription without a prompt.
pub open spec fn is_runpod_request(r: RunPodRequest, wav: Seq<u8>, language: Seq<char>) -> bool {
    let args = r.input.transcribe_args;
    let en = language == "en"@;
    &&& r.input.model@ == "ivrit-ai/whisper-large-v3-turbo-ct2"@
    &&& r.input.engine@ == "faster-whisper"@
    &&& !r.input.streaming
    &&& args.blob@ == base64_standard(wav)
    &&& args.language@ == language
    &&& args.task matches Some(t) && t@ == (if en { "translate"@ } else { "transcribe"@ })
    &&& if en {
        args.initial_prompt matches Some(p) && p@ == english_prompt()
    } else {
        args.initial_prompt is None
    }
    &&& args.output_options == Some(OutputOptions { word_timestamps: false, extra_data: false })
}

/// Builds the job request that transcribes the WAV file `wav_bytes` in `language`.
pub fn runpod_request(wav_bytes: &[u8], language: &str) -> (r: RunPodRequest)
    ensures
        is_runpod_request(r, wav_bytes@, language@),
{
    let blob = base64_encode(wav_bytes);
    let en = str_eq(language, "en");
    let initial_prompt = if en {
        Some(
            "This is an English transcription. Please write the output in English script, using proper grammar and spelling.".to_owned(),
        )
    } else {
        None
    };
    let task = if en {
        "translate"
    } else {
        "transcribe"
    };
    RunPodRequest {
        input: RunPodInput {
            model: "ivrit-ai/whisper-large-v3-turbo-ct2".to_owned(),
            engine: "faster-whisper".to_owned(),
            streaming: false,
            transcribe_args: TranscribeArgs {
                blob,
                language: language.to_owned(),
                task: Some(task.to_owned()),
                initial_prompt,
                output_options: Some(OutputOptions { word_timestamps: false, extra_data: false }),
            },
        },
    }
}

/// The address that jobs for `endpoint_id` are submitted to.
pub fn run_url(endpoint_id: &str) -> (u: String)
    ensures
        u@ == RUNPOD_API_BASE@ + "/"@ + endpoint_id@ + "/run"@,
{
    let mut u = RUNPOD_API_BASE.to_owned();
    u.append("/");
    u.append(endpoint_id);
    u.append("/run");
    u
}

/// The address that reports the status of job `job_id` on `endpoint_id`.
pub fn status_url(endpoint_id: &str, job_id: &str) -> (u: String)
    ensures
        u@ == RUNPOD_API_BASE@ + "/"@ + endpoint_id@ + "/status/"@ + job_id@,
{
    let mut u = RUNPOD_API_BASE.to_owned();
    u.append("/");
    u.append(endpoint_id);
    u.append("/status/");
    u.append(job_id);
    u
}

/// The address that reports the health of `endpoint_id`.
pub fn health_url(endpoint_id: &str) -> (u: String)
    ensures
        u@ == RUNPOD_API_BASE@ + "/"@ + endpoint_id@ + "/health"@,
{
    let mut u = RUNPOD_API_BASE.to_owned();
    u.append("/");
    u.append(endpoint_id);
    u.append("/health");
    u
}

/// A key and an endpoint id are only worth checking against the service when neither is
/// empty.
pub fn credentials_present(api_key: &str, endpoint_id: &str) -> (b: bool)
    ensures
        b == (api_key@.len() > 0 && endpoint_id@.len() > 0),
{
    !api_key.is_empty() && !endpoint_id.is_empty()
}

/// Why the text of a finished job could not be read.
#[derive(Debug, Clone, Copy, PartialEq, Eq, Structural)]
pub enum ExtractError {
    /// The job reported no output.
    NoOutput,
    /// The output held no text.
    EmptyTranscription,
    /// The output has neither a `result` nor a `text` member.
    UnexpectedFormat,
}

impl ExtractError {
    /// The message for this error; `output_text` is the job's output written as JSON,
    /// which the message for an unexpected format quotes.
    pub fn message(&self, output_text: &str) -> (m: String)
        ensures
            m@ == match *self {
                ExtractError::NoOutput => "RunPod returned no output"@,
                ExtractError::EmptyTranscription => "RunPod returned empty transcription"@,
                ExtractError::UnexpectedFormat => "Unexpected RunPod output format: "@
                    + output_text@,
            },
    {
        match self {
            ExtractError::NoOutput => "RunPod returned no output".to_owned(),
            ExtractError::EmptyTranscription => "RunPod returned empty transcription".to_owned(),
            ExtractError::UnexpectedFormat => {
                let mut m = "Unexpected RunPod output format: ".to_owned();
                m.append(output_text);
                m
            },
        }
    }
}

/// The text of one segment: its `text` member trimmed, then a space; nothing when it has
/// no string `text`.
pub open spec fn segment_text(seg: JsonValue) -> Seq<char> {
    match spec_get(seg, "text"@) {
        Some(JsonValue::String(t)) => trim_seq(t@) + " "@,
        _ => Seq::<char>::empty(),
    }
}

/// The texts of the segments `segs`, in order.
pub open spec fn segments_text(segs: Seq<JsonValue>) -> Seq<char>
    decreases segs.len(),
{
    if segs.len() == 0 {
        Seq::<char>::empty()
    } else {
        segments_text(segs.drop_last()) + segment_text(segs.last())
    }
}

/// The texts of the segment lists `lists`, in order; elements that are not lists add
/// nothing.
pub open spec fn lists_text(lists: Seq<JsonValue>) -> Seq<char>
    decreases lists.len(),
{
    if lists.len() == 0 {
        Seq::<char>::empty()
    } else {
        lists_text(lists.drop_last()) + match lists.last() {
            JsonValue::Array(segs) => segments_text(segs@),
            _ => Seq::<char>::empty(),
        }
    }
}

/// The transcript in a job's output. The output may be wrapped in an array, whose first
/// element is then the document. A document with a `result` member gives the texts of all
/// segments of all segment lists of the result, trimmed, and must not be empty; otherwise
/// the output's own `text` member gives the transcript, trimmed.
pub open spec fn spec_extract_text(output: Option<JsonValue>) -> Result<Seq<char>, ExtractError> {
    match output {
        None => Err(ExtractError::NoOutput),
        Some(o) => {
            let doc = match o {
                JsonValue::Array(items) => if items@.len() > 0 {
                    items@[0]
                } else {
                    o
                },
                _ => o,
            };
            match spec_get(doc, "result"@) {
                Some(result) => {
                    let full = match result {
                        JsonValue::Array(lists) => lists_text(lists@),
                        _ => Seq::<char>::empty(),
                    };
                    if trim_seq(full).len() == 0 {
                        Err(ExtractError::EmptyTranscription)
                    } else {
                        Ok(trim_seq(full))
                    }
                },
                None => match spec_get(o, "text"@) {
                    Some(JsonValue::String(t)) => Ok(trim_seq(t@)),
                    _ => Err(ExtractError::UnexpectedFormat),
                },
            }
        },
    }
}

fn append_chars(s: &mut String, v: &Vec<char>)
    ensures
        final(s)@ == old(s)@ + v@,
{
    let mut i: usize = 0;
    while i < v.len()
        invariant
            i <= v@.len(),
            s@ == old(s)@ + v@.take(i as int),
        decreases v@.len() - i,
    {
        push_char(s, v[i]);
        assert(v@.take(i + 1) =~= v@.take(i as int).push(v@[i as int]));
        i = i + 1;
    }
    assert(v@.take(v@.len() as int) =~= v@);
}

fn append_segments(full: &mut String, segs: &Vec<JsonValue>)
    ensures
        final(full)@ == old(full)@ + segments_text(segs@),
{
    let mut j: usize = 0;
    while j < segs.len()
        invariant
            j <= segs@.len(),
            full@ == old(full)@ + segments_text(segs@.take(j as int)),
        decreases segs@.len() - j,
    {
        let seg = &segs[j];
        assert(*seg == segs@[j as int]);
        proof {
            reveal_strlit(" ");
        }
        let ghost before = full@;
        match seg.get("text") {
            Some(t) => {
                match t.as_str() {
                    Some(text) => {
                        let cs = chars_of(text);
                        let trimmed = trim_chars(&cs);
                        append_chars(full, &trimmed);
                        push_char(full, ' ');
                    },
                    None => {},
                }
            },
            None => {},
        }
        assert(segs@.take(j + 1).drop_last() =~= segs@.take(j as int));
        assert(full@ =~= before + segment_text(segs@[j as int]));
        j = j + 1;
    }
    assert(segs@.take(segs@.len() as int) =~= segs@);
}

/// Reads the transcript out of a finished job's output.
pub fn extract_text_from_output(output: &Option<JsonValue>) -> (r: Result<String, ExtractError>)
    ensures
        match r {
            Ok(t) => spec_extract_text(*output) == Ok::<Seq<char>, ExtractError>(t@),
            Err(e) => spec_extract_text(*output) == Err::<Seq<char>, ExtractError>(e),
        },
{
    let o = match output {
        Some(o) => o,
        None => {
            return Err(ExtractError::NoOutput);
        },
    };
    let doc = match o.as_array() {
        Some(items) => {
            if items.len() > 0 {
                &items[0]
            } else {
                o
            }
        },
        None => o,
    };
    match doc.get("result") {
        Some(result) => {
            let mut full = String::new();
            match result.as_array() {
                Some(lists) => {
                    let mut i: usize = 0;
                    while i < lists.len()
                        invariant
                            i <= lists@.len(),
                            full@ == lists_text(lists@.take(i as int)),
                        decreases lists@.len() - i,
                    {
                        let inner = &lists[i];
                        assert(*inner == lists@[i as int]);
                        let ghost before = full@;
                        match inner.as_array() {
                            Some(segs) => {
                                append_segments(&mut full, segs);
                            },
                            None => {},
                        }
                        assert(lists@.take(i + 1).drop_last() =~= lists@.take(i as int));
                        assert(full@ =~= lists_text(lists@.take(i + 1)));
                        i = i + 1;
                    }
                    assert(lists@.take(lists@.len() as int) =~= lists@);
                },
                None => {
                    assert(full@ =~= Seq::<char>::empty());
                },
            }
            let full_chars = chars_of(full.as_str());
            let text = trim_chars(&full_chars);
            if text.len() == 0 {
                return Err(ExtractError::EmptyTranscription);
            }
            Ok(string_of(&text))
        },
        None => {
            match o.get("text") {
                Some(t) => match t.as_str() {
                    Some(text) => {
                        let cs = chars_of(text);
                        let trimmed = trim_chars(&cs);
                        Ok(string_of(&trimmed))
                    },
                    None => Err(ExtractError::UnexpectedFormat),
                },
                None => Err(ExtractError::UnexpectedFormat),
            }
        },
    }
}

/// The reply to a status poll: the job's status word, its output, and its error.
#[derive(Debug)]
pub struct RunPodStatus {
    pub status: String,
    pub output: Option<JsonValue>,
    pub error: Option<String>,
}

/// How a poll of a transcription job ends.
#[derive(Debug)]
pub enum PollStep {
    /// The job is still running: report `status` to the caller when there is one, then
    /// wait `sleep_ms` milliseconds before polling again.
    Wait { status: Option<String>, sleep_ms: u64 },
    /// The job finished with this transcript.
    Done(String),
    /// The job failed with this message.
    Failed(String),
    /// The job finished but its output could not be read.
    Unreadable(ExtractError),
}

/// The outcome of one poll of a job whose status is `s`, when `last_reported` is the status
/// last reported to the caller.
pub open spec fn spec_poll_step(
    last_reported: Seq<char>,
    status: Seq<char>,
    output: Option<JsonValue>,
    error: Option<Seq<char>>,
) -> PollStepView {
    if status == "IN_QUEUE"@ {
        PollStepView::Wait {
            status: if last_reported != "warming_up"@ { Some("warming_up"@) } else { None },
            sleep_ms: 1500,
        }
    } else if status == "IN_PROGRESS"@ {
        PollStepView::Wait {
            status: if last_reported != "processing"@ { Some("processing"@) } else { None },
            sleep_ms: 800,
        }
    } else if status == "COMPLETED"@ {
        match error {
            Some(e) => PollStepView::Failed("RunPod job error: "@ + e),
            None => match spec_extract_text(output) {
                Ok(t) => PollStepView::Done(t),
                Err(x) => PollStepView::Unreadable(x),
            },
        }
    } else if status == "FAILED"@ || status == "CANCELLED"@ {
        PollStepView::Failed(
            "RunPod job "@ + match error {
                Some(e) => e,
                None => "unknown error"@,
            } + " (status: "@ + status + ")"@,
        )
    } else {
        PollStepView::Wait { status: None, sleep_ms: 1000 }
    }
}

/// The mathematical content of a `PollStep`.
pub enum PollStepView {
    Wait { status: Option<Seq<char>>, sleep_ms: u64 },
    Done(Seq<char>),
    Failed(Seq<char>),
    Unreadable(ExtractError),
}

impl View for PollStep {
    type V = PollStepView;

    open spec fn view(&self) -> PollStepView {
        match self {
            PollStep::Wait { status, sleep_ms } => PollStepView::Wait {
                status: match status {
                    Some(s) => Some(s@),
                    None => None,
                },
                sleep_ms: *sleep_ms,
            },
            PollStep::Done(t) => PollStepView::Done(t@),
            PollStep::Failed(m) => PollStepView::Failed(m@),
            PollStep::Unreadable(e) => PollStepView::Unreadable(*e),
        }
    }
}

/// A job is given up on once more than 120 seconds have passed since it was submitted.
pub fn poll_timed_out(elapsed_secs: u64) -> (b: bool)
    ensures
        b == (elapsed_secs > 120),
{
    elapsed_secs > 120
}

/// The message of a job given up on.
pub fn timeout_message() -> (m: String)
    ensures
        m@ == "RunPod job timed out after 120 seconds"@,
{
    "RunPod job timed out after 120 seconds".to_owned()
}

/// Decides what one status report of a job means. A queued job (its worker warming up) is
/// polled again after 1.5 s, a running one after 0.8 s, and an unknown status after 1 s;
/// "warming_up" and "processing" are reported to the caller when they differ from the
/// status last reported. A completed job yields its transcript unless it carries an error;
/// a failed or cancelled job yields its error.
pub fn runpod_poll_step(last_reported: &str, reply: &RunPodStatus) -> (r: PollStep)
    ensures
        r@ == spec_poll_step(
            last_reported@,
            reply.status@,
            reply.output,
            crate::settings::opt_view(reply.error),
        ),
{
    let status = reply.status.as_str();
    if str_eq(status, "IN_QUEUE") {
        let report = if !str_eq(last_reported, "warming_up") {
            Some("warming_up".to_owned())
        } else {
            None
        };
        PollStep::Wait { status: report, sleep_ms: 1500 }
    } else if str_eq(status, "IN_PROGRESS") {
        let report = if !str_eq(last_reported, "processing") {
            Some("processing".to_owned())
        } else {
            None
        };
        PollStep::Wait { status: report, sleep_ms: 800 }
    } else if str_eq(status, "COMPLETED") {
        match &reply.error {
            Some(e) => {
                let mut m = "RunPod job error: ".to_owned();
                m.append(e.as_str());
                PollStep::Failed(m)
            },
            None => match extract_text_from_output(&reply.output) {
                Ok(t) => PollStep::Done(t),
                Err(x) => PollStep::Unreadable(x),
            },
        }
    } else if str_eq(status, "FAILED") || str_eq(status, "CANCELLED") {
        let mut m = "RunPod job ".to_owned();
        match &reply.error {
            Some(e) => m.append(e.as_str()),
            None => m.append("unknown error"),
        }
        m.append(" (status: ");
        m.append(status);
        m.append(")");
        PollStep::Failed(m)
    } else {
        PollStep::Wait { status: None, sleep_ms: 1000 }
    }
}

/// A job that is still queued or running keeps being polled, and the caller hears of
/// "warming_up" or "processing" only when it differs from what was last reported.
pub proof fn law_status_reported_once(output: Option<JsonValue>, error: Option<Seq<char>>)
    ensures
        spec_poll_step("warming_up"@, "IN_QUEUE"@, output, error) == (PollStepView::Wait {
            status: None,
            sleep_ms: 1500,
        }),
        spec_poll_step("processing"@, "IN_PROGRESS"@, output, error) == (PollStepView::Wait {
            status: None,
            sleep_ms: 800,
        }),
{
    reveal_strlit("IN_QUEUE");
    reveal_strlit("IN_PROGRESS");
    assert("IN_QUEUE"@[3] != "IN_PROGRESS"@[3]);
}

/// A completed job without an error yields exactly what its output reads as.
pub proof fn law_completed_job_yields_its_text(last: Seq<char>, output: Option<JsonValue>)
    ensures
        spec_poll_step(last, "COMPLETED"@, output, None) == match spec_extract_text(output) {
            Ok(t) => PollStepView::Done(t),
            Err(x) => PollStepView::Unreadable(x),
        },
{
    reveal_strlit("IN_QUEUE");
    reveal_strlit("IN_PROGRESS");
    reveal_strlit("COMPLETED");
    assert("IN_QUEUE"@[0] != "COMPLETED"@[0]);
    assert("IN_PROGRESS"@[0] != "COMPLETED"@[0]);
}

/// A transcript read from a `result` document is never empty.
pub proof fn law_result_transcript_nonempty(output: JsonValue)
    ensures
        (match output {
            JsonValue::Array(items) => if items@.len() > 0 { spec_get(items@[0], "result"@) is Some } else { spec_get(output, "result"@) is Some },
            _ => spec_get(output, "result"@) is Some,
        }) ==> (spec_extract_text(Some(output)) matches Ok(t) ==> t.len() > 0),
{
}

proof fn lemma_segments_text_ends_in_space(segs: Seq<JsonValue>)
    ensures
        segments_text(segs).len() > 0 ==> segments_text(segs).last() == ' ',
    decreases segs.len(),
{
    reveal_strlit(" ");
    if segs.len() > 0 {
        lemma_segments_text_ends_in_space(segs.drop_last());
    }
}

proof fn lemma_lists_text_ends_in_space(lists: Seq<JsonValue>)
    ensures
        lists_text(lists).len() > 0 ==> lists_text(lists).last() == ' ',
    decreases lists.len(),
{
    if lists.len() > 0 {
        lemma_lists_text_ends_in_space(lists.drop_last());
        if let JsonValue::Array(segs) = lists.last() {
            lemma_segments_text_ends_in_space(segs@);
        }
    }
}

/// What a transcript becomes when the text of a result's lists grows by `t` trimmed and a
/// space.
proof fn lemma_transcript_grows(
    o: JsonValue,
    o2: JsonValue,
    lists: Vec<JsonValue>,
    lists2: Vec<JsonValue>,
    t: String,
)
    requires
        spec_get(o, "result"@) == Some(JsonValue::Array(lists)),
        spec_get(o2, "result"@) == Some(JsonValue::Array(lists2)),
        lists_text(lists2@) == lists_text(lists@) + (trim_seq(t@) + " "@),
        trim_seq(t@).len() > 0,
    ensures
        transcript_grows(spec_extract_text(Some(o)), spec_extract_text(Some(o2)), trim_seq(t@)),
{
    reveal_strlit(" ");
    let full = lists_text(lists@);
    let x = trim_seq(t@);
    lemma_trim_ends(t@);
    lemma_trim_ends(full);
    lemma_lists_text_ends_in_space(lists@);
    let sx = x + " "@;
    let tail = full + sx;
    assert(unicode_whitespace(' '));
    // The end of the new text: its last space goes, and then `x` ends it.
    let st = trim_start_seq(full);
    lemma_trim_start_concat(full, sx);
    assert(trim_start_seq(sx) == sx);
    if st.len() > 0 {
        let y = st + x;
        assert(trim_start_seq(tail) == st + sx);
        assert((st + sx).drop_last() =~= y);
        assert(trim_end_seq(st + sx) == trim_end_seq(y));
        assert(y.last() == x.last());
        assert(trim_end_seq(y) == y);
        // The old transcript, then the whitespace that ended the old text.
        let p = trim_end_seq(st);
        lemma_trim_end_split(st);
        lemma_trim_start_suffix(full);
        let w = st.subrange(p.len() as int, st.len() as int);
        assert(st.last() == full.last());
        assert(p.len() > 0) by {
            assert(!unicode_whitespace(st[0]));
            if p.len() == 0 {
                assert(unicode_whitespace(st[0]));
            }
        }
        assert(p.len() < st.len()) by {
            if p.len() == st.len() {
                assert(p.last() == st.last());
            }
        }
        assert(forall|j: int| 0 <= j < w.len() ==> unicode_whitespace(#[trigger] w[j])) by {
            assert forall|j: int| 0 <= j < w.len() implies unicode_whitespace(#[trigger] w[j]) by {
                assert(w[j] == st[p.len() + j]);
            }
        }
        assert(y =~= p + w + x);
        assert(trim_seq(full) == p);
    } else {
        assert(trim_start_seq(tail) == sx);
        assert(sx.drop_last() =~= x);
        assert(trim_end_seq(sx) == trim_end_seq(x));
        assert(trim_end_seq(x) == x);
    }
}

/// Whether the transcript `after` is the transcript `before` with the text `x` added at
/// its end: `before`, then whitespace, then `x`; or `x` alone where `before` found no text.
pub open spec fn transcript_grows(
    before: Result<Seq<char>, ExtractError>,
    after: Result<Seq<char>, ExtractError>,
    x: Seq<char>,
) -> bool {
    match before {
        Ok(p) => exists|w: Seq<char>|
            w.len() > 0 && (forall|j: int| 0 <= j < w.len() ==> unicode_whitespace(#[trigger] w[j]))
                && after == Ok::<Seq<char>, ExtractError>(p + w + x),
        Err(e) => e == ExtractError::EmptyTranscription && after == Ok::<Seq<char>, ExtractError>(x),
    }
}

/// A segment list added at the end of a job's result adds its text at the end of the
/// transcript: a segment whose trimmed text is not empty, in a list of its own after the
/// result's lists, is read after everything before it. So every segment list of the
/// result is read, in order.
pub proof fn law_transcript_appends_segment_list(
    o: JsonValue,
    o2: JsonValue,
    lists: Vec<JsonValue>,
    lists2: Vec<JsonValue>,
    segs: Vec<JsonValue>,
    seg: JsonValue,
    t: String,
)
    requires
        spec_get(o, "result"@) == Some(JsonValue::Array(lists)),
        spec_get(o2, "result"@) == Some(JsonValue::Array(lists2)),
        lists2@ == lists@.push(JsonValue::Array(segs)),
        segs@ == seq![seg],
        spec_get(seg, "text"@) == Some(JsonValue::String(t)),
        trim_seq(t@).len() > 0,
    ensures
        transcript_grows(spec_extract_text(Some(o)), spec_extract_text(Some(o2)), trim_seq(t@)),
{
    assert(lists2@.drop_last() =~= lists@);
    assert(segs@.drop_last() =~= Seq::<JsonValue>::empty());
    assert(segments_text(segs@) == segments_text(Seq::<JsonValue>::empty()) + segment_text(seg));
    assert(segments_text(segs@) =~= trim_seq(t@) + " "@);
    lemma_transcript_grows(o, o2, lists, lists2, t);
}

/// A segment added at the end of a result's last segment list adds its text at the end of
/// the transcript: every segment of a list is read, in order.
pub proof fn law_transcript_appends_segment(
    o: JsonValue,
    o2: JsonValue,
    lists: Vec<JsonValue>,
    lists2: Vec<JsonValue>,
    segs: Vec<JsonValue>,
    segs2: Vec<JsonValue>,
    seg: JsonValue,
    t: String,
)
    requires
        spec_get(o, "result"@) == Some(JsonValue::Array(lists)),
        spec_get(o2, "result"@) == Some(JsonValue::Array(lists2)),
        lists@.len() > 0,
        lists@.last() == JsonValue::Array(segs),
        lists2@ == lists@.drop_last().push(JsonValue::Array(segs2)),
        segs2@ == segs@.push(seg),
        spec_get(seg, "text"@) == Some(JsonValue::String(t)),
        trim_seq(t@).len() > 0,
    ensures
        transcript_grows(spec_extract_text(Some(o)), spec_extract_text(Some(o2)), trim_seq(t@)),
{
    assert(lists2@.drop_last() =~= lists@.drop_last());
    assert(segs2@.drop_last() =~= segs@);
    assert(lists_text(lists2@) =~= lists_text(lists@) + (trim_seq(t@) + " "@));
    lemma_transcript_grows(o, o2, lists, lists2, t);
}

/// An output wrapped in an array is read as its first element, where that element holds
/// a result.
pub proof fn law_wrapped_output_reads_first(o: JsonValue, items: Vec<JsonValue>)
    requires
        items@.len() > 0,
        items@[0] == o,
        spec_get(o, "result"@) is Some,
    ensures
        spec_extract_text(Some(JsonValue::Array(items))) == spec_extract_text(Some(o)),
{
}

/// A transcript neither begins nor ends with whitespace, and one read from a job's result
/// is never empty. A job without output, and a result without any text, are told apart
/// from an output of no known shape.
pub proof fn law_transcript_is_trimmed(output: Option<JsonValue>)
    ensures
        spec_extract_text(output) matches Ok(x) ==> (x.len() > 0 ==> !unicode_whitespace(x[0])
            && !unicode_whitespace(x.last())),
        output is None <==> spec_extract_text(output) == Err::<Seq<char>, ExtractError>(
            ExtractError::NoOutput,
        ),
        output matches Some(o) && spec_get(o, "result"@) matches Some(JsonValue::Array(lists)) && lists@.len()
            == 0 ==> spec_extract_text(output) == Err::<Seq<char>, ExtractError>(
            ExtractError::EmptyTranscription,
        ),
        output matches Some(o) && !(o is Array) && spec_get(o, "result"@) is Some ==> (
        spec_extract_text(output) matches Ok(x) ==> x.len() > 0),
{
    if let Some(o) = output {
        let doc = match o {
            JsonValue::Array(items) => if items@.len() > 0 {
                items@[0]
            } else {
                o
            },
            _ => o,
        };
        match spec_get(doc, "result"@) {
            Some(result) => {
                let full = match result {
                    JsonValue::Array(lists) => lists_text(lists@),
                    _ => Seq::<char>::empty(),
                };
                lemma_trim_ends(full);
                if let Some(JsonValue::Array(lists)) = spec_get(o, "result"@) {
                    if lists@.len() == 0 {
                        assert(trim_start_seq(Seq::<char>::empty()) == Seq::<char>::empty());
                    }
                }
            },
            None => {
                if let Some(JsonValue::String(t)) = spec_get(o, "text"@) {
                    lemma_trim_ends(t@);
                }
            },
        }
    }
}

} // verus!

