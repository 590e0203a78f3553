//! OpenAI transcription: reading the batch API's reply, and the configuration of a live
//! (Realtime API) transcription session.
use vstd::prelude::*;
use crate::json::{spec_get, JsonValue};
use crate::text::{chars_of, str_eq, string_of, trim_chars, trim_seq};

verus! {

/// The address of OpenAI's batch transcription API.
pub const OPENAI_TRANSCRIPTION_URL: &'static str = "https://api.openai.com/v1/audio/transcriptions";

/// The string member `key` of `v`, if there is one.
pub open spec fn string_member(v: JsonValue, key: Seq<char>) -> Option<Seq<char>> {
    match spec_get(v, key) {
        Some(JsonValue::String(s)) => Some(s@),
        _ => None,
    }
}

/// The outcome of a transcription request whose reply had status `code` (written
/// `status_text`, e.g. "429 Too Many Requests") and body `body`, which parsed as the JSON
/// document `parsed` when it is one. A failed request is reported with the API's error
/// message (or the body); running out of quota (status 429 or code "insufficient_quota")
/// gets its own message. A successful reply gives its `text` member trimmed, or else the
/// whole body trimmed, which must not be empty.
pub open spec fn spec_openai_batch_result(
    code: u16,
    status_text: Seq<char>,
    body: Seq<char>,
    parsed: Option<JsonValue>,
) -> Result<Seq<char>, Seq<char>> {
    if !(200 <= code <= 299) {
        match parsed {
            Some(json) => {
                let error = spec_get(json, "error"@);
                let err_code = match error {
                    Some(e) => match string_member(e, "code"@) {
                        Some(c) => c,
                        None => Seq::<char>::empty(),
                    },
                    None => Seq::<char>::empty(),
                };
                let message = match error {
                    Some(e) => match string_member(e, "message"@) {
                        Some(m) => m,
                        None => trim_seq(body),
                    },
                    None => trim_seq(body),
                };
                if code == 429 || err_code == "insufficient_quota"@ {
                    Err("OpenAI test needs billing or credits: "@ + message)
                } else {
                    Err("OpenAI API error ("@ + status_text + "): "@ + message)
                }
            },
            None => Err("OpenAI API error ("@ + status_text + "): "@ + body),
        }
    } else {
        match parsed {
            Some(json) if string_member(json, "text"@) is Some => Ok(
                trim_seq(string_member(json, "text"@)->0),
            ),
            _ => if trim_seq(body).len() == 0 {
                Err("OpenAI returned empty transcription"@)
            } else {
                Ok(trim_seq(body))
            },
        }
    }
}

fn trimmed(s: &str) -> (r: String)
    ensures
        r@ == trim_seq(s@),
{
    let cs = chars_of(s);
    let t = trim_chars(&cs);
    string_of(&t)
}

fn string_member_of(v: &JsonValue, key: &str) -> (r: Option<String>)
    ensures
        match r {
            Some(s) => string_member(*v, key@) == Some(s@),
            None => string_member(*v, key@) is None,
        },
{
    match v.get(key) {
        Some(m) => match m.as_str() {
            Some(s) => Some(s.to_owned()),
            None => None,
        },
        None => None,
    }
}

/// Reads the reply of OpenAI's batch transcription API into the transcript or an error
/// message for the user.
pub fn openai_batch_result(code: u16, status_text: &str, body: &str, parsed: &Option<JsonValue>) -> (r:
    Result<String, String>)
    ensures
        match r {
            Ok(t) => spec_openai_batch_result(code, status_text@, body@, *parsed) == Ok::<
                Seq<char>,
                Seq<char>,
            >(t@),
            Err(m) => spec_openai_batch_result(code, status_text@, body@, *parsed) == Err::<
                Seq<char>,
                Seq<char>,
            >(m@),
        },
{
    if !(200 <= code && code <= 299) {
        match parsed {
            Some(json) => {
                let error = json.get("error");
                let err_code = match error {
                    Some(e) => match string_member_of(e, "code") {
                        Some(c) => c,
                        None => String::new(),
                    },
                    None => String::new(),
                };
                let message = match error {
                    Some(e) => match string_member_of(e, "message") {
                        Some(m) => m,
                        None => trimmed(body),
                    },
                    None => trimmed(body),
                };
                if code == 429 || str_eq(err_code.as_str(), "insufficient_quota") {
                    let mut m = "OpenAI test needs billing or credits: ".to_owned();
                    m.append(message.as_str());
                    Err(m)
                } else {
                    let mut m = "OpenAI API error (".to_owned();
                    m.append(status_text);
                    m.append("): ");
                    m.append(message.as_str());
                    Err(m)
                }
            },
            None => {
                let mut m = "OpenAI API error (".to_owned();
                m.append(status_text);
                m.append("): ");
                m.append(body);
                Err(m)
            },
        }
    } else {
        if let Some(json) = parsed {
            if let Some(text) = string_member_of(json, "text") {
                return Ok(trimmed(text.as_str()));
            }
        }
        let text = trimmed(body);
        if text.as_str().is_empty() {
            return Err("OpenAI returned empty transcription".to_owned());
        }
        Ok(text)
    }
}

/// `s` without any trailing `c`.
pub open spec fn strip_trailing(s: Seq<char>, c: char) -> Seq<char>
    decreases s.len(),
{
    if s.len() > 0 && s.last() == c {
        strip_trailing(s.drop_last(), c)
    } else {
        s
    }
}

/// `s` without any number of leading copies of the non-empty `p`.
pub open spec fn strip_leading(s: Seq<char>, p: Seq<char>) -> Seq<char>
    decreases s.len(),
{
    if p.len() > 0 && p.len() <= s.len() && s.take(p.len() as int) == p {
        strip_leading(s.skip(p.len() as int), p)
    } else {
        s
    }
}

/// The part of `s` before the first `c` (all of `s` when there is none).
pub open spec fn before_first(s: Seq<char>, c: char) -> Seq<char>
    decreases s.len(),
{
    if s.len() == 0 || s[0] == c {
        Seq::<char>::empty()
    } else {
        seq![s[0]] + before_first(s.drop_first(), c)
    }
}

fn strip_trailing_chars(s: &Vec<char>, c: char) -> (r: Vec<char>)
    ensures
        r@ == strip_trailing(s@, c),
{
    let mut j = s.len();
    assert(s@.take(j as int) =~= s@);
    while j > 0 && s[j - 1] == c
        invariant
            j <= s@.len(),
            strip_trailing(s@, c) == strip_trailing(s@.take(j as int), c),
        decreases j,
    {
        assert(s@.take(j as int).drop_last() =~= s@.take(j - 1));
        j = j - 1;
    }
    crate::text::copy_range(s, 0, j)
}

fn strip_leading_chars(s: &Vec<char>, p: &str) -> (r: Vec<char>)
    requires
        p@.len() > 0,
    ensures
        r@ == strip_leading(s@, p@),
{
    let pc = chars_of(p);
    let mut i: usize = 0;
    assert(s@.skip(0) =~= s@);
    loop
        invariant
            i <= s@.len(),
            pc@ == p@,
            p@.len() > 0,
            strip_leading(s@, p@) == strip_leading(s@.skip(i as int), p@),
        ensures
            i <= s@.len(),
            strip_leading(s@, p@) == s@.skip(i as int),
        decreases s@.len() - i,
    {
        let rest_len = s.len() - i;
        if pc.len() > rest_len {
            assert(strip_leading(s@.skip(i as int), p@) == s@.skip(i as int));
            break;
        }
        let mut k: usize = 0;
        let mut same = true;
        while k < pc.len()
            invariant
                i <= s@.len(),
                s@.len() == s.len(),
                k <= pc@.len() <= s@.len() - i,
                same == (forall|t: int| 0 <= t < k ==> s@[i + t] == pc@[t]),
            decreases pc@.len() - k,
        {
            if s[i + k] != pc[k] {
                same = false;
            }
            k = k + 1;
        }
        let ghost rest = s@.skip(i as int);
        if same {
            assert(rest.take(p@.len() as int) =~= p@);
            assert(rest.skip(p@.len() as int) =~= s@.skip(i + pc@.len()));
        } else {
            assert(rest.take(p@.len() as int) != p@) by {
                let t = choose|t: int| 0 <= t < pc@.len() && s@[i + t] != pc@[t];
                assert(rest.take(p@.len() as int)[t] == s@[i + t]);
            }
            assert(strip_leading(rest, p@) == rest);
            break;
        }
        i = i + pc.len();
    }
    crate::text::copy_range(s, i, s.len())
}

fn before_first_chars(s: &Vec<char>, c: char) -> (r: Vec<char>)
    ensures
        r@ == before_first(s@, c),
{
    let mut i: usize = 0;
    assert(s@.skip(0) =~= s@);
    while i < s.len() && s[i] != c
        invariant
            i <= s@.len(),
            before_first(s@, c) == s@.take(i as int) + before_first(s@.skip(i as int), c),
        decreases s@.len() - i,
    {
        assert(s@.skip(i as int).drop_first() =~= s@.skip(i + 1));
        assert(s@.take(i + 1) =~= s@.take(i as int) + seq![s@[i as int]]);
        i = i + 1;
    }
    assert(s@.take(i as int) + before_first(s@.skip(i as int), c) =~= s@.take(i as int));
    crate::text::copy_range(s, 0, i)
}

/// The default Realtime API address.
pub const DEFAULT_BASE_URL: &'static str = "wss://api.openai.com/v1/realtime";

/// The default transcription model.
pub const DEFAULT_MODEL: &'static str = "gpt-4o-transcribe";

/// The WebSocket address of a session: the base address without trailing slashes, then
/// `?model=` and the model.
pub open spec fn spec_ws_url(base_url: Seq<char>, model: Seq<char>) -> Seq<char> {
    strip_trailing(base_url, '/') + "?model="@ + model
}

/// The host of a WebSocket address: after any leading `wss://` and then `ws://`, up to the
/// first `/`, and of that up to the first `?`.
pub open spec fn spec_ws_host(url: Seq<char>) -> Seq<char> {
    before_first(before_first(strip_leading(strip_leading(url, "wss://"@), "ws://"@), '/'), '?')
}

/// The mathematical content of an `OpenAIRealtimeTranscriber`.
pub struct RealtimeView {
    pub api_key: Seq<char>,
    pub language: Seq<char>,
    pub model: Seq<char>,
    pub base_url: Seq<char>,
}

/// The configuration of a live transcription session with OpenAI's Realtime API.
#[derive(Debug)]
pub struct OpenAIRealtimeTranscriber {
    api_key: String,
    language: String,
    model: String,
    base_url: String,
}

impl View for OpenAIRealtimeTranscriber {
    type V = RealtimeView;

    closed spec fn view(&self) -> RealtimeView {
        RealtimeView {
            api_key: self.api_key@,
            language: self.language@,
            model: self.model@,
            base_url: self.base_url@,
        }
    }
}

impl OpenAIRealtimeTranscriber {
    /// A session for `api_key` in English with the default model and address.
    pub fn new(api_key: &str) -> (t: Self)
        ensures
            t@ == (RealtimeView {
                api_key: api_key@,
                language: "en"@,
                model: DEFAULT_MODEL@,
                base_url: DEFAULT_BASE_URL@,
            }),
    {
        OpenAIRealtimeTranscriber {
            api_key: api_key.to_owned(),
            language: "en".to_owned(),
            model: DEFAULT_MODEL.to_owned(),
            base_url: DEFAULT_BASE_URL.to_owned(),
        }
    }

    /// Leaves the transcriber as it is; the model is chosen with `with_model`.
    pub fn set_model(&self, model: &str) -> (r: &Self)
        ensures
            r@ == self@,
    {
        self
    }

    /// The same transcriber with another model.
    pub fn with_model(self, model: &str) -> (t: Self)
        ensures
            t@ == (RealtimeView { model: model@, ..self@ }),
    {
        OpenAIRealtimeTranscriber { model: model.to_owned(), ..self }
    }

    /// The same transcriber with another base address.
    pub fn with_base_url(self, base_url: &str) -> (t: Self)
        ensures
            t@ == (RealtimeView { base_url: base_url@, ..self@ }),
    {
        OpenAIRealtimeTranscriber { base_url: base_url.to_owned(), ..self }
    }

    /// Selects the language of later sessions.
    pub fn set_language(&mut self, language: &str)
        ensures
            final(self)@ == (RealtimeView { language: language@, ..old(self)@ }),
    {
        self.language = language.to_owned();
    }

    /// The language of later sessions.
    pub fn language(&self) -> (l: String)
        ensures
            l@ == self@.language,
    {
        self.language.clone()
    }

    /// The transcription model.
    pub fn model(&self) -> (m: String)
        ensures
            m@ == self@.model,
    {
        self.model.clone()
    }

    /// The API key.
    pub fn api_key(&self) -> (k: String)
        ensures
            k@ == self@.api_key,
    {
        self.api_key.clone()
    }

    /// The WebSocket address that a session connects to.
    pub fn ws_url(&self) -> (u: String)
        ensures
            u@ == spec_ws_url(self@.base_url, self@.model),
    {
        let base = chars_of(self.base_url.as_str());
        let stripped = strip_trailing_chars(&base, '/');
        let mut u = string_of(&stripped);
        u.append("?model=");
        u.append(self.model.as_str());
        u
    }
}

/// The host named by the WebSocket address `url`, as the `Host` header carries it.
pub fn ws_host(url: &str) -> (h: String)
    ensures
        h@ == spec_ws_host(url@),
{
    proof {
        reveal_strlit("wss://");
        reveal_strlit("ws://");
    }
    let cs = chars_of(url);
    let a = strip_leading_chars(&cs, "wss://");
    let b = strip_leading_chars(&a, "ws://");
    let c = before_first_chars(&b, '/');
    let d = before_first_chars(&c, '?');
    string_of(&d)
}

} // verus!
