//! Batch speech-to-text: choosing the service, framing the audio, and reading the replies.

pub mod routing;
pub mod wav;
pub mod runpod;
pub mod filler;
pub mod whisper;
pub mod openai;
pub mod realtime;
