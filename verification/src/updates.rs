//! Information about an available application update.
use vstd::prelude::*;

verus! {

/// Metadata about an available update, as shown to the user.
#[derive(Debug)]
pub struct UpdateInfo {
    /// Version offered by the update manifest (e.g. "1.2.0").
    pub version: String,
    /// Version currently running.
    pub current_version: String,
    /// Release notes, if the manifest provides them.
    pub notes: Option<String>,
    /// Publish date, if the manifest gives one.
    pub date: Option<String>,
}

} // verus!
