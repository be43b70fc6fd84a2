use std::collections::{HashMap, VecDeque};
use j2v::translation::{
    build_translation_prompt, interpret_ollama_reply, model_name, prepare_translation_source,
    push_translation_context_segment, remove_translation_start, retry_decision, CircuitBreaker,
    OllamaReply, RetryDecision, TranslationFailure, TranslationStage,
};

#[test]
fn model_and_prompt() {
    assert_eq!(model_name(), "qwen2.5:7b");
    let p = build_translation_prompt("猫");
    assert!(p.starts_with("You are a professional Japanese to Vietnamese translator."));
    assert!(p.ends_with("\n\nJapanese:\n猫\n\nVietnamese:"));
}

#[test]
fn source_preparation() {
    assert_eq!(prepare_translation_source("  犬  "), Ok("犬".to_string()));
    assert_eq!(prepare_translation_source(" \n"), Err("Source text is empty".to_string()));
}

fn reply(response: Option<&str>, error: Option<&str>) -> Result<OllamaReply, String> {
    Ok(OllamaReply { response: response.map(String::from), error: error.map(String::from) })
}

#[test]
fn ollama_replies() {
    assert_eq!(interpret_ollama_reply(200, "200 OK", "{}", &reply(Some("  Con mèo \n"), None)), Ok("Con mèo".to_string()));
    assert_eq!(
        interpret_ollama_reply(200, "200 OK", "{}", &reply(Some("  "), None)),
        Err(TranslationFailure { message: "Qwen returned an empty translation".into(), retryable: false })
    );
    assert_eq!(
        interpret_ollama_reply(200, "200 OK", "{}", &reply(None, Some("model missing"))),
        Err(TranslationFailure { message: "Ollama translation failed: model missing".into(), retryable: false })
    );
    assert_eq!(
        interpret_ollama_reply(200, "200 OK", "<html>", &Err("expected value at line 1".into())),
        Err(TranslationFailure { message: "Invalid Ollama JSON response: expected value at line 1".into(), retryable: true })
    );
    assert_eq!(
        interpret_ollama_reply(503, "503 Service Unavailable", " busy ", &Err("x".into())),
        Err(TranslationFailure { message: "Ollama translation failed with status 503 Service Unavailable: busy".into(), retryable: true })
    );
    assert_eq!(
        interpret_ollama_reply(429, "429 Too Many Requests", "{}", &reply(None, Some("slow down"))),
        Err(TranslationFailure { message: "Ollama translation failed: slow down".into(), retryable: true })
    );
    assert_eq!(
        interpret_ollama_reply(404, "404 Not Found", "{}", &reply(None, None)),
        Err(TranslationFailure { message: "Ollama translation failed with status 404 Not Found: {}".into(), retryable: false })
    );
}

#[test]
fn retry_policy() {
    let transient = TranslationFailure::retryable("t".into());
    let fatal = TranslationFailure::non_retryable("f".into());
    assert!(transient.retryable && !fatal.retryable);
    assert_eq!(retry_decision(1, &transient), RetryDecision::RetryAfterMs(250));
    assert_eq!(retry_decision(2, &transient), RetryDecision::RetryAfterMs(500));
    assert_eq!(retry_decision(3, &transient), RetryDecision::GiveUp);
    assert_eq!(retry_decision(1, &fatal), RetryDecision::GiveUp);
}

#[test]
fn breaker_opens_after_five_failures() {
    let mut b = CircuitBreaker::new();
    for i in 0..4u64 {
        assert_eq!(b.accept_request(1000 + i), None);
        assert_eq!(b.record_outcome(Err(format!("e{i}")), 1000 + i), Err(format!("e{i}")));
    }
    assert_eq!(b.accept_request(1004), None);
    assert_eq!(
        b.record_outcome(Err("down".into()), 1004),
        Err("Translation degraded: Ollama had 5 consecutive failures. Circuit breaker opened for 20s. Last error: down".into())
    );
    assert_eq!(
        b.accept_request(1005),
        Some("Translation temporarily unavailable: Ollama circuit breaker is open (19s remaining)".into())
    );
    assert_eq!(
        b.reject_message_if_open(20_504),
        Some("Translation temporarily unavailable: Ollama circuit breaker is open (1s remaining)".into())
    );
    assert_eq!(b.accept_request(21_004), None);
    assert_eq!(b.record_outcome(Err("again".into()), 21_010), Err("again".into()));
    assert_eq!(b.record_outcome(Ok("xin chào".into()), 21_020), Ok("xin chào".into()));
}

#[test]
fn breaker_success_resets_count() {
    let mut b = CircuitBreaker::new();
    for _ in 0..4 {
        let _ = b.on_failure("e".into(), 0);
    }
    b.on_success();
    for _ in 0..4 {
        assert_eq!(b.on_failure("e".into(), 0), "e");
    }
    b.close_if_elapsed(0);
    assert_eq!(b.reject_message_if_open(0), None);
}

#[test]
fn context_segments() {
    let mut h: VecDeque<String> = VecDeque::new();
    push_translation_context_segment(&mut h, "   ".into(), 4, 320);
    assert!(h.is_empty());
    for i in 0..6 {
        push_translation_context_segment(&mut h, format!(" s{i} "), 4, 320);
    }
    assert_eq!(h, VecDeque::from(vec!["s2".to_string(), "s3".into(), "s4".into(), "s5".into()]));
    push_translation_context_segment(&mut h, "あいうえお".into(), 4, 3);
    assert_eq!(h.back().map(String::as_str), Some("あいう"));
    assert_eq!(h.len(), 4);
    push_translation_context_segment(&mut h, "x".into(), 0, 3);
    assert!(h.is_empty());
}

#[test]
fn translation_latency() {
    let mut starts: HashMap<u64, u64> = HashMap::new();
    starts.insert(7, 1000);
    assert_eq!(remove_translation_start(&mut starts, 7, 1250), 250);
    assert!(starts.is_empty());
    assert_eq!(remove_translation_start(&mut starts, 7, 1300), 0);
}

#[test]
fn translation_stage_flow() {
    let mut stage = TranslationStage::new();
    assert_eq!(stage.begin(1, "  ", 10), None);
    let (src, ctx) = stage.begin(1, " 一 ", 10).unwrap();
    assert_eq!(src, "一");
    assert!(ctx.is_empty());
    assert_eq!(stage.finish(1, src, 60), 50);
    let (_, ctx) = stage.begin(2, "二", 70).unwrap();
    assert_eq!(ctx, vec!["一".to_string()]);
    assert_eq!(stage.finish(3, "三".into(), 80), 0);
}
