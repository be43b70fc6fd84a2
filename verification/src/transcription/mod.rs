//! Turning captured audio into transcription requests.
pub mod buffer_worker;
pub mod pcm;
pub mod whisper;
