//! Verified core of the AetherEcho interview assistant: audio framing,
//! voice-activity detection, the listening pipeline's decisions, request
//! building and response interpretation for the Groq API, and the shared
//! application state.

pub mod text;
pub mod wav;
pub mod audio;
pub mod vad;
pub mod groq;
pub mod state;
pub mod pipeline;
pub mod keyring_store;
pub mod transcriber;
pub mod commands;
pub mod tray;
