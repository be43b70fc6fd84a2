use j2v::error::AppError;
use j2v::commands::parse_model_request;
use j2v::models::checker::{
    check_all_models, check_model, get_ollama_path, has_real_whisper_model, model_directory_name,
    validate_whisper_model_dir, ModelProbe, ModelProbes, WhisperDirProbe, WhisperEntryProbe,
};
use j2v::models::{ModelId, ModelStatus};
use j2v::platform::TargetOs;

fn empty_whisper() -> WhisperDirProbe {
    WhisperDirProbe { dir_exists: false, has_model_bin: false, has_config: false, entries: vec![] }
}

fn probe(path: Option<&str>, exists: bool) -> ModelProbe {
    ModelProbe { path: path.map(|p| p.to_string()), exists, whisper: empty_whisper() }
}

#[test]
fn model_ids_and_names() {
    assert_eq!(ModelId::Ollama.as_str(), "ollama");
    assert_eq!(ModelId::Qwen.as_str(), "qwen");
    assert_eq!(ModelId::FasterWhisper.as_str(), "faster-whisper");
    assert_eq!(ModelId::SileroVad.as_str(), "silero-vad");
    assert_eq!(ModelId::MeloTts.as_str(), "melotts");
    assert_eq!(ModelId::Qwen.display_name(), "Qwen2.5-7B");
    assert_eq!(ModelId::SileroVad.display_name(), "Silero VAD");
    assert_eq!(ModelId::MeloTts.display_name(), "MeloTTS");
    assert_eq!(ModelId::FasterWhisper.display_name(), "Faster-Whisper");
    assert_eq!(ModelId::Ollama.display_name(), "Ollama");
}

#[test]
fn from_str_round_trips_every_model() {
    for id in ModelId::all() {
        assert_eq!(ModelId::from_str(id.as_str()), Some(*id));
    }
    assert_eq!(ModelId::all().len(), 5);
    assert_eq!(ModelId::all()[2], ModelId::FasterWhisper);
}

#[test]
fn from_str_rejects_unknown_names() {
    assert_eq!(ModelId::from_str("Ollama"), None);
    assert_eq!(ModelId::from_str(""), None);
    assert_eq!(ModelId::from_str("whisper"), None);
    assert_eq!(ModelId::from_str("qwen "), None);
}

#[test]
fn model_status_new_fills_names() {
    let s = ModelStatus::new(ModelId::Qwen, true, Some("/m/Qwen2.5-7B".to_string()));
    assert_eq!(s.id, "qwen");
    assert_eq!(s.name, "Qwen2.5-7B");
    assert!(s.installed);
    assert_eq!(s.path.as_deref(), Some("/m/Qwen2.5-7B"));
}

#[test]
fn parse_model_request_reports_unknown_model() {
    assert_eq!(parse_model_request("melotts"), Ok(ModelId::MeloTts));
    assert_eq!(parse_model_request("tts"), Err("Unknown model: tts".to_string()));
}

#[test]
fn app_error_messages() {
    assert_eq!(AppError::IoError("disk".into()).message(), "IO Error: disk");
    assert_eq!(AppError::InstallationError("x".into()).message(), "Installation Error: x");
    assert_eq!(AppError::NotSupported("y".into()).message(), "Not Supported: y");
    assert_eq!(AppError::InvalidModel("z".into()).message(), "Invalid Model: z");
}

#[test]
fn ollama_path_depends_on_os() {
    let home = Some("/home/u".to_string());
    assert_eq!(get_ollama_path(&home, TargetOs::Linux).as_deref(), Some("/home/u/.ollama"));
    assert_eq!(get_ollama_path(&home, TargetOs::MacOs).as_deref(), Some("/home/u/.ollama"));
    assert_eq!(
        get_ollama_path(&Some("C:\\Users\\u".to_string()), TargetOs::Windows).as_deref(),
        Some("C:\\Users\\u\\AppData\\Local\\Ollama")
    );
    assert_eq!(get_ollama_path(&None, TargetOs::Linux), None);
}

#[test]
fn model_directory_names() {
    assert_eq!(model_directory_name(ModelId::Ollama), None);
    assert_eq!(model_directory_name(ModelId::Qwen), Some("Qwen2.5-7B"));
    assert_eq!(model_directory_name(ModelId::FasterWhisper), Some("faster-whisper"));
    assert_eq!(model_directory_name(ModelId::SileroVad), Some("silero-vad"));
    assert_eq!(model_directory_name(ModelId::MeloTts), Some("melotts"));
}

#[test]
fn whisper_model_direct_or_nested() {
    let mut p = WhisperDirProbe { dir_exists: true, has_model_bin: true, has_config: true, entries: vec![] };
    assert!(has_real_whisper_model(&p));
    p.has_config = false;
    assert!(!has_real_whisper_model(&p));
    p.entries.push(WhisperEntryProbe { is_dir: false, has_model_bin: true, has_config: true });
    assert!(!has_real_whisper_model(&p));
    p.entries.push(WhisperEntryProbe { is_dir: true, has_model_bin: true, has_config: false });
    assert!(!has_real_whisper_model(&p));
    p.entries.push(WhisperEntryProbe { is_dir: true, has_model_bin: true, has_config: true });
    assert!(has_real_whisper_model(&p));
    p.dir_exists = false;
    assert!(!has_real_whisper_model(&p));
}

#[test]
fn validate_whisper_model_dir_messages() {
    let missing = empty_whisper();
    assert_eq!(
        validate_whisper_model_dir(&missing),
        Err("faster-whisper model not installed. Please install it from the Models screen.".to_string())
    );
    let no_files = WhisperDirProbe { dir_exists: true, has_model_bin: true, has_config: false, entries: vec![] };
    assert_eq!(
        validate_whisper_model_dir(&no_files),
        Err("faster-whisper model files not found. Please install the model from the Models screen.".to_string())
    );
    let ok = WhisperDirProbe { dir_exists: true, has_model_bin: true, has_config: true, entries: vec![] };
    assert_eq!(validate_whisper_model_dir(&ok), Ok(()));
}

#[test]
fn check_model_per_kind() {
    let s = check_model(ModelId::Ollama, &probe(None, true));
    assert!(!s.installed);
    let s = check_model(ModelId::Ollama, &probe(Some("/h/.ollama"), true));
    assert!(s.installed);
    assert_eq!(s.path.as_deref(), Some("/h/.ollama"));
    let s = check_model(ModelId::MeloTts, &probe(Some("/m/melotts"), false));
    assert!(!s.installed);
    assert_eq!(s.id, "melotts");
    let mut fw = probe(Some("/m/faster-whisper"), true);
    assert!(!check_model(ModelId::FasterWhisper, &fw).installed);
    fw.whisper = WhisperDirProbe { dir_exists: true, has_model_bin: true, has_config: true, entries: vec![] };
    assert!(check_model(ModelId::FasterWhisper, &fw).installed);
}

#[test]
fn check_all_models_in_order() {
    let probes = ModelProbes {
        ollama: probe(Some("/h/.ollama"), false),
        qwen: probe(Some("/m/Qwen2.5-7B"), true),
        faster_whisper: probe(Some("/m/faster-whisper"), true),
        silero_vad: probe(None, true),
        melotts: probe(Some("/m/melotts"), false),
    };
    let all = check_all_models(&probes);
    let ids: Vec<&str> = all.iter().map(|s| s.id.as_str()).collect();
    assert_eq!(ids, vec!["ollama", "qwen", "faster-whisper", "silero-vad", "melotts"]);
    let installed: Vec<bool> = all.iter().map(|s| s.installed).collect();
    assert_eq!(installed, vec![false, true, false, true, false]);
    assert_eq!(all[3].path, None);
}
