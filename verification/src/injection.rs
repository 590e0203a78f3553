//! Typing text at the cursor: the errors, and when to pause between typed characters.
use vstd::prelude::*;

verus! {

/// The default pause between typed characters, in milliseconds.
pub const DEFAULT_CHAR_DELAY_MS: u64 = 5;

/// Errors that can occur during text injection.
#[derive(Debug)]
pub enum InjectionError {
    /// The keyboard simulator could not be initialised.
    InitError(String),
    /// The text could not be typed.
    TypeError(String),
    /// The input is not valid.
    InvalidInput(String),
}

impl InjectionError {
    /// The description of the error.
    pub fn message(&self) -> (m: String)
        ensures
            m@ == match *self {
                InjectionError::InitError(d) => "Failed to initialize enigo: "@ + d@,
                InjectionError::TypeError(d) => "Failed to inject text: "@ + d@,
                InjectionError::InvalidInput(d) => "Invalid input: "@ + d@,
            },
    {
        let (prefix, detail) = match self {
            InjectionError::InitError(d) => ("Failed to initialize enigo: ", d),
            InjectionError::TypeError(d) => ("Failed to inject text: ", d),
            InjectionError::InvalidInput(d) => ("Invalid input: ", d),
        };
        let mut m = prefix.to_owned();
        m.append(detail.as_str());
        m
    }
}

/// Whether typing pauses after the character at position `i` of `count` characters: after
/// every character but the last, unless the delay is zero.
pub fn pause_after(i: usize, count: usize, delay_ms: u64) -> (b: bool)
    ensures
        b == (i + 1 < count && delay_ms > 0),
{
    count > 0 && i < count - 1 && delay_ms > 0
}

} // verus!
