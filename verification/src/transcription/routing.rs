//! Which transcription service a recording goes to, and with which credentials.
use vstd::prelude::*;
use crate::settings::{opt_view, EnglishEndpointType, Settings};
use crate::text::{str_eq, to_lowercase, unicode_lowercase};

verus! {

/// A configured transcription service with its credentials.
#[derive(Debug)]
pub enum Endpoint {
    /// A RunPod serverless endpoint running the ivrit-ai Whisper model.
    RunPod { api_key: String, endpoint_id: String },
    /// OpenAI's batch transcription API.
    OpenAI { api_key: String },
}

/// The mathematical content of an `Endpoint`.
pub enum EndpointView {
    RunPod { api_key: Seq<char>, endpoint_id: Seq<char> },
    OpenAI { api_key: Seq<char> },
}

impl View for Endpoint {
    type V = EndpointView;

    open spec fn view(&self) -> EndpointView {
        match self {
            Endpoint::RunPod { api_key, endpoint_id } => EndpointView::RunPod {
                api_key: api_key@,
                endpoint_id: endpoint_id@,
            },
            Endpoint::OpenAI { api_key } => EndpointView::OpenAI { api_key: api_key@ },
        }
    }
}

/// A configured credential: a value that is present and not empty, or else the message.
pub open spec fn required(o: Option<Seq<char>>, missing: Seq<char>) -> Result<Seq<char>, Seq<char>> {
    match o {
        Some(s) => if s.len() > 0 {
            Ok(s)
        } else {
            Err(missing)
        },
        None => Err(missing),
    }
}

/// A RunPod endpoint from a key and an endpoint id, the key checked first.
pub open spec fn spec_runpod(
    key: Option<Seq<char>>,
    id: Option<Seq<char>>,
    key_missing: Seq<char>,
    id_missing: Seq<char>,
) -> Result<EndpointView, Seq<char>> {
    match required(key, key_missing) {
        Err(m) => Err(m),
        Ok(k) => match required(id, id_missing) {
            Err(m) => Err(m),
            Ok(i) => Ok(EndpointView::RunPod { api_key: k, endpoint_id: i }),
        },
    }
}

/// An OpenAI endpoint from a key.
pub open spec fn spec_openai(key: Option<Seq<char>>, key_missing: Seq<char>) -> Result<
    EndpointView,
    Seq<char>,
> {
    match required(key, key_missing) {
        Err(m) => Err(m),
        Ok(k) => Ok(EndpointView::OpenAI { api_key: k }),
    }
}

/// The views of an endpoint selection.
pub open spec fn result_view(r: Result<Endpoint, String>) -> Result<EndpointView, Seq<char>> {
    match r {
        Ok(e) => Ok(e@),
        Err(m) => Err(m@),
    }
}

/// The service that a recording in `language` goes to: Hebrew always goes to the default
/// RunPod endpoint; English goes where the English endpoint type says.
pub open spec fn spec_select_endpoint(settings: &Settings, language: Seq<char>) -> Result<
    EndpointView,
    Seq<char>,
> {
    if language == "he"@ {
        spec_runpod(
            opt_view(settings.runpod_api_key),
            opt_view(settings.runpod_endpoint_id),
            "Hebrew default RunPod API key not set. Go to Settings to add it."@,
            "Hebrew default RunPod Endpoint ID not set. Go to Settings to add it."@,
        )
    } else {
        match settings.english_endpoint_type {
            EnglishEndpointType::SharedRunPod => spec_runpod(
                opt_view(settings.runpod_api_key),
                opt_view(settings.runpod_endpoint_id),
                "Default RunPod API key not set. Go to Settings to add it."@,
                "Default RunPod Endpoint ID not set. Go to Settings to add it."@,
            ),
            EnglishEndpointType::CustomRunPod => spec_runpod(
                opt_view(settings.english_custom_runpod_api_key),
                opt_view(settings.english_custom_runpod_endpoint_id),
                "Custom RunPod API key for English not set. Go to Settings to add it."@,
                "Custom RunPod Endpoint ID for English not set. Go to Settings to add it."@,
            ),
            EnglishEndpointType::OpenAI => spec_openai(
                opt_view(settings.english_openai_api_key),
                "OpenAI API key not set. Go to Settings to add it."@,
            ),
        }
    }
}

fn required_value(o: &Option<String>, missing: &str) -> (r: Result<String, String>)
    ensures
        match r {
            Ok(s) => required(opt_view(*o), missing@) == Ok::<Seq<char>, Seq<char>>(s@),
            Err(m) => required(opt_view(*o), missing@) == Err::<Seq<char>, Seq<char>>(m@),
        },
{
    match o {
        Some(s) => {
            if s.as_str().is_empty() {
                Err(missing.to_owned())
            } else {
                Ok(s.clone())
            }
        },
        None => Err(missing.to_owned()),
    }
}

fn runpod_endpoint(
    key: &Option<String>,
    id: &Option<String>,
    key_missing: &str,
    id_missing: &str,
) -> (r: Result<Endpoint, String>)
    ensures
        result_view(r) == spec_runpod(opt_view(*key), opt_view(*id), key_missing@, id_missing@),
{
    let k = required_value(key, key_missing)?;
    let i = required_value(id, id_missing)?;
    Ok(Endpoint::RunPod { api_key: k, endpoint_id: i })
}

fn openai_endpoint(key: &Option<String>, key_missing: &str) -> (r: Result<Endpoint, String>)
    ensures
        result_view(r) == spec_openai(opt_view(*key), key_missing@),
{
    let k = required_value(key, key_missing)?;
    Ok(Endpoint::OpenAI { api_key: k })
}

/// Chooses the service and credentials for transcribing a recording in `language`, or the
/// message telling the user which credential is missing.
pub fn select_endpoint(settings: &Settings, language: &str) -> (r: Result<Endpoint, String>)
    ensures
        result_view(r) == spec_select_endpoint(settings, language@),
{
    if str_eq(language, "he") {
        runpod_endpoint(
            &settings.runpod_api_key,
            &settings.runpod_endpoint_id,
            "Hebrew default RunPod API key not set. Go to Settings to add it.",
            "Hebrew default RunPod Endpoint ID not set. Go to Settings to add it.",
        )
    } else {
        match settings.english_endpoint_type {
            EnglishEndpointType::SharedRunPod => runpod_endpoint(
                &settings.runpod_api_key,
                &settings.runpod_endpoint_id,
                "Default RunPod API key not set. Go to Settings to add it.",
                "Default RunPod Endpoint ID not set. Go to Settings to add it.",
            ),
            EnglishEndpointType::CustomRunPod => runpod_endpoint(
                &settings.english_custom_runpod_api_key,
                &settings.english_custom_runpod_endpoint_id,
                "Custom RunPod API key for English not set. Go to Settings to add it.",
                "Custom RunPod Endpoint ID for English not set. Go to Settings to add it.",
            ),
            EnglishEndpointType::OpenAI => openai_endpoint(
                &settings.english_openai_api_key,
                "OpenAI API key not set. Go to Settings to add it.",
            ),
        }
    }
}

/// Whether a credential is set: present and not empty.
pub open spec fn credential_set(o: Option<String>) -> bool {
    o matches Some(s) && s@.len() > 0
}

/// Whether the selection `r` is a RunPod endpoint built from exactly the key `key` and the
/// endpoint id `id`, and fails exactly when one of them is not set.
pub open spec fn runpod_from(
    r: Result<EndpointView, Seq<char>>,
    key: Option<String>,
    id: Option<String>,
) -> bool {
    &&& (r is Ok <==> credential_set(key) && credential_set(id))
    &&& r matches Ok(e) ==> key matches Some(k) && id matches Some(i) && e
        == (EndpointView::RunPod { api_key: k@, endpoint_id: i@ })
}

/// Whether the selection `r` is an OpenAI endpoint with exactly the key `key`, and fails
/// exactly when that key is not set.
pub open spec fn openai_from(r: Result<EndpointView, Seq<char>>, key: Option<String>) -> bool {
    &&& (r is Ok <==> credential_set(key))
    &&& r matches Ok(e) ==> key matches Some(k) && e == (EndpointView::OpenAI { api_key: k@ })
}

/// The key and the endpoint id of a selection come from one group of the settings: the
/// default RunPod pair for Hebrew, and for English on the shared endpoint; the English
/// custom RunPod pair for English on a custom endpoint; the OpenAI key for English on
/// OpenAI. The selection succeeds exactly when each credential of that group is set.
pub proof fn law_endpoint_credentials(settings: &Settings, language: Seq<char>)
    ensures
        (language == "he"@ || settings.english_endpoint_type == EnglishEndpointType::SharedRunPod)
            ==> runpod_from(
            spec_select_endpoint(settings, language),
            settings.runpod_api_key,
            settings.runpod_endpoint_id,
        ),
        (language != "he"@ && settings.english_endpoint_type == EnglishEndpointType::CustomRunPod)
            ==> runpod_from(
            spec_select_endpoint(settings, language),
            settings.english_custom_runpod_api_key,
            settings.english_custom_runpod_endpoint_id,
        ),
        (language != "he"@ && settings.english_endpoint_type == EnglishEndpointType::OpenAI)
            ==> openai_from(spec_select_endpoint(settings, language), settings.english_openai_api_key),
{
}

/// The service for the bundled-audio test in `language` ("en" or "he", any case): the
/// English test follows the English endpoint type, the Hebrew one uses the default RunPod
/// endpoint. The second component is the language code the request carries.
pub open spec fn spec_select_test_endpoint(settings: &Settings, language: Seq<char>) -> Result<
    (EndpointView, Seq<char>),
    Seq<char>,
> {
    let l = unicode_lowercase(language);
    if l == "en"@ {
        let e = match settings.english_endpoint_type {
            EnglishEndpointType::SharedRunPod => spec_runpod(
                opt_view(settings.runpod_api_key),
                opt_view(settings.runpod_endpoint_id),
                "Default RunPod API key not set"@,
                "Default RunPod Endpoint ID not set"@,
            ),
            EnglishEndpointType::CustomRunPod => spec_runpod(
                opt_view(settings.english_custom_runpod_api_key),
                opt_view(settings.english_custom_runpod_endpoint_id),
                "Custom RunPod API key for English not set"@,
                "Custom RunPod Endpoint ID for English not set"@,
            ),
            EnglishEndpointType::OpenAI => spec_openai(
                opt_view(settings.english_openai_api_key),
                "OpenAI API key not set"@,
            ),
        };
        match e {
            Ok(v) => Ok((v, "en"@)),
            Err(m) => Err(m),
        }
    } else if l == "he"@ {
        match spec_runpod(
            opt_view(settings.runpod_api_key),
            opt_view(settings.runpod_endpoint_id),
            "RunPod API key not set"@,
            "RunPod Endpoint ID not set"@,
        ) {
            Ok(v) => Ok((v, "he"@)),
            Err(m) => Err(m),
        }
    } else {
        Err("Unsupported test language: "@ + l)
    }
}

/// The endpoint of a test selection, without the language code.
pub open spec fn test_endpoint_of(r: Result<(EndpointView, Seq<char>), Seq<char>>) -> Result<
    EndpointView,
    Seq<char>,
> {
    match r {
        Ok((e, _)) => Ok(e),
        Err(m) => Err(m),
    }
}

/// The bundled-audio test takes its credentials from the same groups as a recording: the
/// default RunPod pair for Hebrew, and for English the group of the English endpoint type;
/// it carries the code of the language it tests, and refuses any other language.
pub proof fn law_test_endpoint_credentials(settings: &Settings, language: Seq<char>)
    ensures
        ({
            let l = unicode_lowercase(language);
            let r = spec_select_test_endpoint(settings, language);
            &&& l == "he"@ ==> runpod_from(
                test_endpoint_of(r),
                settings.runpod_api_key,
                settings.runpod_endpoint_id,
            ) && (r matches Ok((_, c)) ==> c == "he"@)
            &&& l == "en"@ ==> (r matches Ok((_, c)) ==> c == "en"@)
            &&& (l == "en"@ && settings.english_endpoint_type == EnglishEndpointType::SharedRunPod)
                ==> runpod_from(
                test_endpoint_of(r),
                settings.runpod_api_key,
                settings.runpod_endpoint_id,
            )
            &&& (l == "en"@ && settings.english_endpoint_type == EnglishEndpointType::CustomRunPod)
                ==> runpod_from(
                test_endpoint_of(r),
                settings.english_custom_runpod_api_key,
                settings.english_custom_runpod_endpoint_id,
            )
            &&& (l == "en"@ && settings.english_endpoint_type == EnglishEndpointType::OpenAI)
                ==> openai_from(test_endpoint_of(r), settings.english_openai_api_key)
            &&& (l != "en"@ && l != "he"@) ==> r is Err
        }),
{
    assert("en"@ != "he"@) by {
        reveal_strlit("en");
        reveal_strlit("he");
        assert("en"@[0] != "he"@[0]);
    }
}

/// Chooses the service for the bundled-audio transcription test, or says why it cannot run.
pub fn select_test_endpoint(settings: &Settings, language: &str) -> (r: Result<
    (Endpoint, String),
    String,
>)
    ensures
        match r {
            Ok((e, l)) => spec_select_test_endpoint(settings, language@) == Ok::<
                (EndpointView, Seq<char>),
                Seq<char>,
            >((e@, l@)),
            Err(m) => spec_select_test_endpoint(settings, language@) == Err::<
                (EndpointView, Seq<char>),
                Seq<char>,
            >(m@),
        },
{
    let lowered = to_lowercase(language);
    if str_eq(lowered.as_str(), "en") {
        let e = match settings.english_endpoint_type {
            EnglishEndpointType::SharedRunPod => runpod_endpoint(
                &settings.runpod_api_key,
                &settings.runpod_endpoint_id,
                "Default RunPod API key not set",
                "Default RunPod Endpoint ID not set",
            ),
            EnglishEndpointType::CustomRunPod => runpod_endpoint(
                &settings.english_custom_runpod_api_key,
                &settings.english_custom_runpod_endpoint_id,
                "Custom RunPod API key for English not set",
                "Custom RunPod Endpoint ID for English not set",
            ),
            EnglishEndpointType::OpenAI => openai_endpoint(
                &settings.english_openai_api_key,
                "OpenAI API key not set",
            ),
        }?;
        Ok((e, "en".to_owned()))
    } else if str_eq(lowered.as_str(), "he") {
        let e = runpod_endpoint(
            &settings.runpod_api_key,
            &settings.runpod_endpoint_id,
            "RunPod API key not set",
            "RunPod Endpoint ID not set",
        )?;
        Ok((e, "he".to_owned()))
    } else {
        let mut m = "Unsupported test language: ".to_owned();
        m.append(lowered.as_str());
        Err(m)
    }
}

/// The indicator's "warming up" phase is shown exactly for recordings that go to RunPod:
/// whenever a service is selected, it is a RunPod endpoint precisely when `uses_runpod`
/// says so. Hebrew in particular always goes to RunPod.
pub proof fn law_routing_agrees_with_indicator(settings: &Settings, language: Seq<char>)
    ensures
        spec_select_endpoint(settings, language) matches Ok(e) ==> ((e is RunPod)
            == crate::session::spec_uses_runpod(settings, language)),
        language == "he"@ ==> (spec_select_endpoint(settings, language) matches Ok(e)
            ==> e is RunPod),
{
}

} // verus!
