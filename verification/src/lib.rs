//! Hold-to-talk dictation: a verified core for a dictation session daemon.
//!
//! The library models the session controller (the state machine that turns
//! key press/release edges into recording, transcription and paste steps),
//! together with the pure decision logic around it: key-name resolution,
//! input-device selection, paste-method selection and hotkey planning,
//! settings merging, preflight reporting and transcript normalization.
//! All I/O (device reads, subprocesses, the speech model) lives outside the
//! library and feeds it plain values.

pub mod audio;
pub mod config;
pub mod diagnostics;
pub mod input;
pub mod paste;
pub mod preflight;
pub mod session;
pub mod text;
pub mod transcribe;

pub use input::strip_device_prefix;
pub use transcribe::normalize_whitespace;
