use j2v::models::ollama::parse_ollama_list_contains_model;

#[test]
fn finds_model_in_listing() {
    let out = "NAME          ID              SIZE      MODIFIED\nqwen2.5:7b    845dbda0ea48    4.7 GB    2 days ago\nllama3:8b     365c0bd3c000    4.7 GB    3 weeks ago\n";
    assert!(parse_ollama_list_contains_model(out, "qwen2.5:7b"));
    assert!(parse_ollama_list_contains_model(out, "llama3:8b"));
    assert!(!parse_ollama_list_contains_model(out, "qwen2.5"));
    assert!(!parse_ollama_list_contains_model(out, "845dbda0ea48"));
}

#[test]
fn header_line_is_skipped() {
    assert!(!parse_ollama_list_contains_model("qwen2.5:7b 1 2\n", "qwen2.5:7b"));
    assert!(!parse_ollama_list_contains_model("", "qwen2.5:7b"));
    assert!(parse_ollama_list_contains_model("NAME\nqwen2.5:7b", "qwen2.5:7b"));
}

#[test]
fn crlf_and_blank_lines() {
    assert!(parse_ollama_list_contains_model("NAME ID\r\n\r\n   \r\n  qwen2.5:7b\tabc\r\n", "qwen2.5:7b"));
    assert!(!parse_ollama_list_contains_model("NAME ID\r\n\r\n", "qwen2.5:7b"));
    assert!(parse_ollama_list_contains_model("NAME\r\nqwen2.5:7b\r\n", "qwen2.5:7b"));
}
