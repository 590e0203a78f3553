//! The operating system family, where the library's behaviour depends on it.
use vstd::prelude::*;

verus! {

/// The platform the application runs on, as far as shortcut handling distinguishes it.
#[derive(Debug, Clone, Copy, PartialEq, Eq, Structural)]
pub enum Platform {
    /// macOS, where "Cmd" stands in for "Ctrl" in `CmdOrCtrl` shortcuts.
    MacOS,
    /// Linux, Windows and the rest.
    Other,
}

} // verus!
