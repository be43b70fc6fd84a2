//! Audio capture: the capture configuration and backends, captured chunks, and
//! the integer conversions applied to captured samples.
pub mod capture;
pub mod device;

use crate::platform::TargetOs;
use vstd::prelude::*;

verus! {

broadcast use vstd::string::group_string_axioms;

/// Platform-specific audio capture backend.
#[derive(Debug, Clone, Copy, PartialEq, Eq, Structural)]
pub enum CaptureBackend {
    /// Automatically choose backend by platform and availability.
    Auto,
    /// Capture from loopback driver exposed as an input device.
    LoopbackDriver,
    /// Native ScreenCaptureKit system audio capture (macOS).
    ScreenCaptureKit,
    /// Native WASAPI loopback capture (Windows).
    WasapiLoopback,
}

/// Real-time audio chunk for streaming.
#[derive(Debug, Clone, PartialEq, Eq)]
pub struct AudioChunk {
    /// Raw audio samples (I16 format).
    pub samples: Vec<i16>,
    /// Number of samples in this chunk.
    pub sample_count: usize,
    /// Milliseconds since the capture started.
    pub timestamp_ms: u64,
}

/// Configuration for an audio capture session.
#[derive(Debug, Clone, PartialEq, Eq)]
pub struct AudioCaptureConfig {
    /// Sample rate in Hz (default: 48000).
    pub sample_rate: u32,
    /// Number of audio channels (default: 2).
    pub channels: u16,
    /// Optional input device name. If None, use system default input.
    pub input_device_name: Option<String>,
    /// Chosen capture backend.
    pub capture_backend: CaptureBackend,
}

impl Default for AudioCaptureConfig {
    /// 48 kHz stereo from the default device, backend chosen automatically.
    fn default() -> (r: Self)
        ensures
            r.sample_rate == 48000,
            r.channels == 2,
            r.input_device_name is None,
            r.capture_backend == CaptureBackend::Auto,
    {
        AudioCaptureConfig {
            sample_rate: 48000,
            channels: 2,
            input_device_name: None,
            capture_backend: CaptureBackend::Auto,
        }
    }
}

/// The backend that a requested name selects; on macOS no request means
/// ScreenCaptureKit, elsewhere it means automatic choice.
pub open spec fn backend_for_request(value: Option<Seq<char>>, os: TargetOs) -> CaptureBackend {
    match value {
        None => if os == TargetOs::MacOs {
            CaptureBackend::ScreenCaptureKit
        } else {
            CaptureBackend::Auto
        },
        Some(v) => if v == "screen-capture-kit"@ {
            CaptureBackend::ScreenCaptureKit
        } else if v == "wasapi-loopback"@ {
            CaptureBackend::WasapiLoopback
        } else if v == "loopback-driver"@ {
            CaptureBackend::LoopbackDriver
        } else {
            CaptureBackend::Auto
        },
    }
}

/// Reads the capture backend the frontend asked for.
pub fn parse_capture_backend(value: Option<String>, os: TargetOs) -> (r: CaptureBackend)
    ensures
        r == backend_for_request(
            match value {
                Some(v) => Some(v@),
                None => None,
            },
            os,
        ),
{
    match value {
        None => {
            if os == TargetOs::MacOs {
                CaptureBackend::ScreenCaptureKit
            } else {
                CaptureBackend::Auto
            }
        },
        Some(v) => {
            if v == String::from_str("screen-capture-kit") {
                CaptureBackend::ScreenCaptureKit
            } else if v == String::from_str("wasapi-loopback") {
                CaptureBackend::WasapiLoopback
            } else if v == String::from_str("loopback-driver") {
                CaptureBackend::LoopbackDriver
            } else {
                CaptureBackend::Auto
            }
        },
    }
}

} // verus!
