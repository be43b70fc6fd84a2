use j2v::audio::capture::{
    chunk_timestamp_ms, convert_u16_samples, decode_pcm16, interleave_channels, make_chunk,
    pick_loopback_device, sck_buffer_is_float, score_loopback_device_name, select_capture_path,
    u16_sample_to_i16, CapturePath,
};
use j2v::audio::device::{DeviceManager, InputDeviceProbe};
use j2v::audio::{parse_capture_backend, AudioCaptureConfig, CaptureBackend};
use j2v::platform::TargetOs;

#[test]
fn capture_config_default() {
    let c = AudioCaptureConfig::default();
    assert_eq!(c.sample_rate, 48000);
    assert_eq!(c.channels, 2);
    assert_eq!(c.input_device_name, None);
    assert_eq!(c.capture_backend, CaptureBackend::Auto);
}

#[test]
fn backend_requests() {
    assert_eq!(parse_capture_backend(None, TargetOs::MacOs), CaptureBackend::ScreenCaptureKit);
    assert_eq!(parse_capture_backend(None, TargetOs::Linux), CaptureBackend::Auto);
    assert_eq!(parse_capture_backend(Some("wasapi-loopback".into()), TargetOs::MacOs), CaptureBackend::WasapiLoopback);
    assert_eq!(parse_capture_backend(Some("screen-capture-kit".into()), TargetOs::Windows), CaptureBackend::ScreenCaptureKit);
    assert_eq!(parse_capture_backend(Some("loopback-driver".into()), TargetOs::Linux), CaptureBackend::LoopbackDriver);
    assert_eq!(parse_capture_backend(Some("auto".into()), TargetOs::MacOs), CaptureBackend::Auto);
    assert_eq!(parse_capture_backend(Some("bogus".into()), TargetOs::Linux), CaptureBackend::Auto);
}

#[test]
fn capture_paths() {
    assert_eq!(select_capture_path(CaptureBackend::Auto, TargetOs::MacOs), Ok(CapturePath::ScreenCaptureKit));
    assert_eq!(select_capture_path(CaptureBackend::Auto, TargetOs::Windows), Ok(CapturePath::WasapiLoopback));
    assert_eq!(select_capture_path(CaptureBackend::Auto, TargetOs::Linux), Ok(CapturePath::LoopbackDevice));
    assert_eq!(select_capture_path(CaptureBackend::LoopbackDriver, TargetOs::MacOs), Ok(CapturePath::LoopbackDevice));
    assert_eq!(
        select_capture_path(CaptureBackend::ScreenCaptureKit, TargetOs::Linux),
        Err("ScreenCaptureKit chỉ hỗ trợ macOS".to_string())
    );
    assert_eq!(
        select_capture_path(CaptureBackend::WasapiLoopback, TargetOs::MacOs),
        Err("WASAPI loopback chỉ hỗ trợ Windows".to_string())
    );
}

#[test]
fn loopback_scores() {
    assert_eq!(score_loopback_device_name("BlackHole 2ch"), 120);
    assert_eq!(score_loopback_device_name("CABLE Output (VB-Audio Virtual Cable)"), 110);
    assert_eq!(score_loopback_device_name("Stereo Mix (Realtek Audio)"), 100);
    assert_eq!(score_loopback_device_name("Loopback Audio"), 90);
    assert_eq!(score_loopback_device_name("Multi-Output Device"), 25);
    assert_eq!(score_loopback_device_name("MacBook Pro Microphone"), -60);
    assert_eq!(score_loopback_device_name("Headset Loopback"), 30);
    assert_eq!(score_loopback_device_name("Speakers"), 0);
}

#[test]
fn picks_first_best_loopback_device() {
    let names: Vec<String> = ["MacBook Pro Microphone", "Loopback Audio", "BlackHole 2ch", "BlackHole 16ch"]
        .iter()
        .map(|s| s.to_string())
        .collect();
    assert_eq!(pick_loopback_device(&names), Ok(2));
    let none: Vec<String> = vec!["Built-in Microphone".to_string(), "Speakers".to_string()];
    assert_eq!(
        pick_loopback_device(&none),
        Err("No loopback/system-audio device found. Install and route audio via BlackHole (macOS) or Stereo Mix/VB-Cable (Windows).".to_string())
    );
}

#[test]
fn u16_samples_are_centered() {
    assert_eq!(u16_sample_to_i16(0), -32768);
    assert_eq!(u16_sample_to_i16(32768), 0);
    assert_eq!(u16_sample_to_i16(65535), 32767);
    assert_eq!(convert_u16_samples(&[0, 32768, 40000]), vec![-32768, 0, 7232]);
}

#[test]
fn pcm16_decoding() {
    let bytes = [0x01u8, 0x00, 0xff, 0xff, 0x00, 0x80, 0x7f];
    assert_eq!(decode_pcm16(&bytes, true), vec![1, -1, -32768]);
    assert_eq!(decode_pcm16(&bytes, false), vec![256, -1, 128]);
    let native: Vec<i16> = bytes.chunks_exact(2).map(|c| i16::from_ne_bytes([c[0], c[1]])).collect();
    assert_eq!(decode_pcm16(&bytes, u16::from_ne_bytes([1, 0]) == 1), native);
    assert_eq!(decode_pcm16(&[], true), Vec::<i16>::new());
}

#[test]
fn sck_float_detection() {
    assert!(sck_buffer_is_float(8, 4));
    assert!(sck_buffer_is_float(4, 0));
    assert!(!sck_buffer_is_float(3, 4));
    assert!(!sck_buffer_is_float(8, 2));
}

#[test]
fn interleaving() {
    let chans = vec![vec![1i16, 2, 3], vec![], vec![10, 20]];
    assert_eq!(interleave_channels(&chans), vec![1, 10, 2, 20]);
    assert_eq!(interleave_channels(&vec![vec![], vec![]]), Vec::<i16>::new());
    assert_eq!(interleave_channels(&vec![]), Vec::<i16>::new());
}

#[test]
fn chunk_helpers() {
    assert_eq!(chunk_timestamp_ms(1500, 1000), 500);
    assert_eq!(chunk_timestamp_ms(900, 1000), 0);
    let c = make_chunk(vec![1, 2], 2, 40);
    assert_eq!((c.samples, c.sample_count, c.timestamp_ms), (vec![1, 2], 2, 40));
}

#[test]
fn input_device_listing() {
    let probes = vec![
        InputDeviceProbe { name: Some("Mic".into()), default_format: Some((48000, 2)) },
        InputDeviceProbe { name: None, default_format: Some((44100, 1)) },
        InputDeviceProbe { name: Some("BlackHole".into()), default_format: None },
    ];
    let devices = DeviceManager::input_devices_from(&probes).unwrap();
    assert_eq!(devices.len(), 2);
    assert_eq!(devices[0].id, "Mic");
    assert_eq!(devices[0].sample_rate, Some(48000));
    assert_eq!(devices[0].channels, Some(2));
    assert!(devices[0].is_input && !devices[0].is_output);
    assert_eq!(devices[1].name, "BlackHole");
    assert_eq!(devices[1].sample_rate, None);
    let unnamed = vec![InputDeviceProbe { name: None, default_format: None }];
    assert_eq!(DeviceManager::input_devices_from(&unnamed), Err("No input devices found".to_string()));
}
