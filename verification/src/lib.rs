//! An OpenAI-compatible audio-transcription endpoint core.
//!
//! The crate models the request/response protocol of a transcription
//! endpoint (validation of decoded form fields, the segment builder, the
//! streaming event model and the JSON wire bodies) and the scheduling
//! bridge that carries a validated request from many concurrent producers
//! to a blocking inference worker over unbounded channels.

pub mod bridge;
pub mod error;
pub mod laws;
pub mod render;
pub mod segment;
pub mod transcription;
