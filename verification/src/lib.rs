//! Verified core of the J2V real-time Japanese to Vietnamese pipeline:
//! model bookkeeping, capture-backend selection, PCM conversions, transcription
//! buffering, transcript de-duplication and the translation circuit breaker.
pub mod audio;
pub mod commands;
pub mod error;
pub mod models;
pub mod platform;
pub mod text;
pub mod translation;
pub mod transcription;
