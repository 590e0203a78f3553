//! Languages as the Whisper speech model names them.
use vstd::prelude::*;
use crate::text::{chars_of, chars_eq_str, to_lowercase, unicode_lowercase};

verus! {

/// Errors of local Whisper transcription.
#[derive(Debug)]
pub enum TranscriptionError {
    /// The model file at `path` could not be loaded, for the reason given.
    ModelLoadError { path: String, reason: String },
    /// No model is loaded.
    ModelNotLoaded,
    /// The inference state could not be created.
    StateCreationError(String),
    /// Inference failed.
    TranscriptionFailed(String),
    /// A language code that is not supported.
    InvalidLanguage(String),
    /// The model produced no audio segments.
    NoSegments,
}

/// Supported languages for transcription.
#[derive(Debug, Clone, Copy, PartialEq, Eq, Structural)]
pub enum Language {
    English,
    Hebrew,
    /// Let the model detect the language.
    Auto,
}

/// The language that a lower-case code names, if any.
pub open spec fn language_from_name(s: Seq<char>) -> Option<Language> {
    if s == "en"@ || s == "english"@ {
        Some(Language::English)
    } else if s == "he"@ || s == "hebrew"@ {
        Some(Language::Hebrew)
    } else if s == "auto"@ {
        Some(Language::Auto)
    } else {
        None
    }
}

impl Language {
    /// The code Whisper takes: "en", "he", or none for automatic detection.
    pub fn as_whisper_code(&self) -> (r: Option<&'static str>)
        ensures
            match *self {
                Language::English => r matches Some(c) && c@ == "en"@,
                Language::Hebrew => r matches Some(c) && c@ == "he"@,
                Language::Auto => r is None,
            },
    {
        match self {
            Language::English => Some("en"),
            Language::Hebrew => Some("he"),
            Language::Auto => None,
        }
    }

    /// Parses "en"/"english", "he"/"hebrew" or "auto", ignoring case.
    pub fn from_code(code: &str) -> (r: Result<Self, TranscriptionError>)
        ensures
            match language_from_name(unicode_lowercase(code@)) {
                Some(l) => r == Ok::<Language, TranscriptionError>(l),
                None => r matches Err(TranscriptionError::InvalidLanguage(c)) && c@ == code@,
            },
    {
        let lowered = to_lowercase(code);
        let k = chars_of(lowered.as_str());
        if chars_eq_str(&k, "en") || chars_eq_str(&k, "english") {
            Ok(Language::English)
        } else if chars_eq_str(&k, "he") || chars_eq_str(&k, "hebrew") {
            Ok(Language::Hebrew)
        } else if chars_eq_str(&k, "auto") {
            Ok(Language::Auto)
        } else {
            Err(TranscriptionError::InvalidLanguage(code.to_owned()))
        }
    }
}

} // verus!
