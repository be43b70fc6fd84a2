use j2v::transcription::buffer_worker::{normalize_text_for_dedup, push_chunk_samples, BufferWorkerState};
use j2v::transcription::whisper::{whisper_result, worker_reply_status, WhisperOutput};

#[test]
fn request_size_is_320ms_at_16khz() {
    assert_eq!(push_chunk_samples(), 5120);
}

#[test]
fn batches_form_at_request_size() {
    let mut st = BufferWorkerState::new(16000, 1);
    let a: Vec<i16> = (0..3000).map(|i| i as i16).collect();
    assert_eq!(st.on_audio_chunk(&a), None);
    let b: Vec<i16> = (3000..6000).map(|i| i as i16).collect();
    let batch = st.on_audio_chunk(&b).expect("a full request");
    let expected: Vec<i16> = (0..6000).map(|i| i as i16).collect();
    assert_eq!(batch, expected);
    assert_eq!(st.on_stream_end(), None);
}

#[test]
fn stereo_48k_is_prepared_before_batching() {
    let mut st = BufferWorkerState::new(48000, 2);
    let frames: Vec<i16> = (0..6).flat_map(|i| [i * 10, i * 10 + 2]).collect();
    assert_eq!(st.on_audio_chunk(&frames), None);
    assert_eq!(st.on_stream_end(), Some(vec![11, 41]));
    assert_eq!(st.on_stream_end(), None);
}

#[test]
fn no_sample_is_lost() {
    let mut st = BufferWorkerState::new(16000, 1);
    let mut sent: Vec<i16> = Vec::new();
    let mut all: Vec<i16> = Vec::new();
    for k in 0..20 {
        let chunk: Vec<i16> = (0..(700 + 37 * k)).map(|i| (i * 7 + k) as i16).collect();
        all.extend_from_slice(&chunk);
        if let Some(batch) = st.on_audio_chunk(&chunk) {
            assert!(batch.len() >= 5120);
            sent.extend(batch);
        }
    }
    if let Some(rest) = st.on_stream_end() {
        assert!(rest.len() < 5120);
        sent.extend(rest);
    }
    assert_eq!(sent, all);
}

#[test]
fn normalization_for_dedup() {
    assert_eq!(normalize_text_for_dedup("Hello, World!"), "helloworld");
    assert_eq!(normalize_text_for_dedup("こんにちは。 元気？"), "こんにちは元気");
    assert_eq!(normalize_text_for_dedup("A.B、C"), "abc");
}

#[test]
fn repeated_transcripts_are_suppressed() {
    let mut st = BufferWorkerState::new(16000, 1);
    assert!(st.accept_transcript("こんにちは。"));
    assert!(!st.accept_transcript("こんにちは"));
    assert!(!st.accept_transcript("   "));
    assert!(st.accept_transcript("さようなら"));
    assert!(st.accept_transcript("こんにちは"));
    let texts: Vec<String> = vec!["Hi!".into(), "hi".into(), "".into(), "Bye".into(), "bye.".into()];
    assert_eq!(st.emit_transcription_results(&texts), vec![true, false, false, true, false]);
}

#[test]
fn whisper_results() {
    let ok = WhisperOutput { success: true, text: Some("テスト".into()), language: None, error: None };
    assert_eq!(whisper_result(true, "{}", "", &Ok(ok)), Ok(("テスト".to_string(), "ja".to_string())));
    let failed = WhisperOutput { success: false, text: None, language: None, error: None };
    assert_eq!(whisper_result(true, "{}", "", &Ok(failed)), Err("Unknown whisper error".to_string()));
    assert_eq!(
        whisper_result(true, "garbage", "", &Err("expected value".into())),
        Err("Failed to parse whisper output: expected value\nOutput: garbage".to_string())
    );
    let crashed = WhisperOutput { success: false, text: None, language: None, error: Some("no model".into()) };
    assert_eq!(whisper_result(false, "{}", "trace", &Ok(crashed)), Err("no model".to_string()));
    assert_eq!(
        whisper_result(false, "", "trace", &Err("eof".into())),
        Err("Whisper process failed: trace".to_string())
    );
}

#[test]
fn worker_reply_statuses() {
    assert_eq!(worker_reply_status(true, None, "x"), Ok(()));
    assert_eq!(worker_reply_status(false, Some("boom".into()), "x"), Err("boom".to_string()));
    assert_eq!(worker_reply_status(false, None, "unknown"), Err("unknown".to_string()));
}

#[test]
fn unknown_format_waits_for_chunks() {
    let mut st = BufferWorkerState::new(0, 0);
    assert_eq!(st.on_stream_end(), None);
    assert!(st.accept_transcript("テスト"));
}
