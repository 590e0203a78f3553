//! Core logic of the AirType voice-to-text desktop application.

pub mod audio;
mod clock;
pub mod history;
pub mod hotkeys;
pub mod injection;
pub mod json;
pub mod logs;
pub mod models;
pub mod paths;
pub mod platform;
pub mod session;
pub mod settings;
pub mod text;
pub mod transcription;
pub mod updates;
