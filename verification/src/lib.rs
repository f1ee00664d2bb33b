//! Backend logic of a desktop note-taking and activity-tracking application.
//!
//! The heart of the crate is the speech-to-text pipeline: a fixed-capacity
//! ring buffer of audio samples, an energy-based voice-activity gate, a
//! linear-interpolation resampler, PCM normalisation, and the scheduling
//! rules of the one-shot and the streaming transcription modes.
//!
//! Amplitudes are fixed-point numbers: an `i32` sample `s` stands for the
//! amplitude `s / 2^31`, so every sample lies in `[-1, 1)`.
pub mod batch;
pub mod claude;
pub mod dates;
pub mod decode;
pub mod engine;
pub mod error;
pub mod file;
pub mod github;
pub mod model;
pub mod realtime;
pub mod recordings;
pub mod resample;
pub mod ring;
pub mod secure;
pub mod sort;
pub mod text;
pub mod vad;
pub mod vault;
