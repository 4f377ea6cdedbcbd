//! Request orchestration for a desktop voice assistant: the chat, transcription
//! and speech-synthesis clients' decisions, their retry policy, stage
//! notifications and the per-workflow timing recorder.

pub mod chat;
pub mod error;
pub mod http;
pub mod message;
pub mod progress;
pub mod retry;
pub mod sidecar;
pub mod synthesis;
pub mod transcription;
pub mod workflow;
