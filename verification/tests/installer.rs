use j2v::error::AppError;
use j2v::models::installer::{install_model, InstallAction, InstallEvent, OllamaCommand};
use j2v::models::ModelId;
use j2v::platform::TargetOs;

fn ran(success: bool, stdout: &str, stderr: &str) -> InstallEvent {
    InstallEvent::CommandRan { success, stdout: stdout.into(), stderr: stderr.into() }
}

const LISTING_WITH_QWEN: &str = "NAME          ID      SIZE\nqwen2.5:7b    845db   4.7 GB\n";
const LISTING_WITHOUT_QWEN: &str = "NAME          ID      SIZE\nllama3:8b     365c0   4.7 GB\n";

#[test]
fn qwen_already_installed() {
    let (mut s, first) = install_model(ModelId::Qwen, TargetOs::Linux);
    assert_eq!(first, InstallAction::CreateModelsDir);
    assert_eq!(s.step(InstallEvent::FsDone), InstallAction::RunOllama(OllamaCommand::Version));
    assert_eq!(s.step(ran(true, "ollama version 0.3", "")), InstallAction::RunOllama(OllamaCommand::List));
    assert_eq!(
        s.step(ran(true, LISTING_WITH_QWEN, "")),
        InstallAction::Finish(Ok("Qwen model already installed (qwen2.5:7b)".into()))
    );
}

#[test]
fn qwen_pulled_and_verified() {
    let (mut s, _) = install_model(ModelId::Qwen, TargetOs::MacOs);
    s.step(InstallEvent::FsDone);
    s.step(ran(true, "", ""));
    assert_eq!(s.step(ran(true, LISTING_WITHOUT_QWEN, "")), InstallAction::RunOllama(OllamaCommand::PullQwen));
    assert_eq!(s.step(ran(true, "success", "")), InstallAction::RunOllama(OllamaCommand::List));
    assert_eq!(
        s.step(ran(true, LISTING_WITH_QWEN, "")),
        InstallAction::Finish(Ok("Qwen model installed successfully (qwen2.5:7b)".into()))
    );
}

#[test]
fn qwen_failures() {
    let (mut s, _) = install_model(ModelId::Qwen, TargetOs::Linux);
    s.step(InstallEvent::FsDone);
    assert_eq!(
        s.step(InstallEvent::CommandFailed("No such file or directory (os error 2)".into())),
        InstallAction::Finish(Err(AppError::InstallationError(
            "Failed to execute ollama [\"--version\"]: No such file or directory (os error 2)".into()
        )))
    );
    let (mut s, _) = install_model(ModelId::Qwen, TargetOs::Linux);
    s.step(InstallEvent::FsDone);
    assert_eq!(
        s.step(ran(false, "", "  could not connect \n")),
        InstallAction::Finish(Err(AppError::InstallationError(
            "Ollama is not available. Please install/start Ollama first: could not connect".into()
        )))
    );
    let (mut s, _) = install_model(ModelId::Qwen, TargetOs::Linux);
    s.step(InstallEvent::FsDone);
    s.step(ran(true, "", ""));
    s.step(ran(true, LISTING_WITHOUT_QWEN, ""));
    assert_eq!(
        s.step(ran(false, " pulling manifest\n", "  ")),
        InstallAction::Finish(Err(AppError::InstallationError(
            "Failed to pull Qwen model (qwen2.5:7b): pulling manifest".into()
        )))
    );
    let (mut s, _) = install_model(ModelId::Qwen, TargetOs::Linux);
    s.step(InstallEvent::FsDone);
    s.step(ran(true, "", ""));
    s.step(ran(true, LISTING_WITHOUT_QWEN, ""));
    s.step(ran(true, "", ""));
    assert_eq!(
        s.step(ran(true, LISTING_WITHOUT_QWEN, "")),
        InstallAction::Finish(Err(AppError::InstallationError(
            "Qwen model pull finished but verification failed for qwen2.5:7b".into()
        )))
    );
}

#[test]
fn models_dir_failure() {
    let (mut s, _) = install_model(ModelId::MeloTts, TargetOs::Linux);
    assert_eq!(
        s.step(InstallEvent::FsFailed("permission denied".into())),
        InstallAction::Finish(Err(AppError::IoError("Failed to create models directory: permission denied".into())))
    );
}

#[test]
fn melotts_is_prepared() {
    let (mut s, _) = install_model(ModelId::MeloTts, TargetOs::Windows);
    assert_eq!(s.step(InstallEvent::FsDone), InstallAction::CreateModelDir(ModelId::MeloTts));
    assert_eq!(s.step(InstallEvent::FsDone), InstallAction::WriteInstalledMarker(ModelId::MeloTts));
    assert_eq!(s.step(InstallEvent::FsDone), InstallAction::Finish(Ok("MeloTTS model prepared".into())));
    let (mut s, _) = install_model(ModelId::MeloTts, TargetOs::Linux);
    s.step(InstallEvent::FsDone);
    s.step(InstallEvent::FsDone);
    assert_eq!(
        s.step(InstallEvent::FsFailed("read-only".into())),
        InstallAction::Finish(Err(AppError::IoError("Failed to mark installation: read-only".into())))
    );
}

#[test]
fn faster_whisper_install() {
    let (mut s, _) = install_model(ModelId::FasterWhisper, TargetOs::Linux);
    assert_eq!(s.step(InstallEvent::FsDone), InstallAction::CreateModelDir(ModelId::FasterWhisper));
    assert_eq!(s.step(InstallEvent::FsDone), InstallAction::FindWhisperInstallerScript);
    assert_eq!(s.step(InstallEvent::Located(Some("/app/scripts/install_whisper_model.py".into()))), InstallAction::FindPython);
    assert_eq!(s.step(InstallEvent::Located(Some("python3".into()))), InstallAction::RunWhisperInstaller);
    assert_eq!(s.python(), Some("python3".to_string()));
    assert_eq!(s.script(), Some("/app/scripts/install_whisper_model.py".to_string()));
    assert_eq!(
        s.step(ran(false, "progress\n", "  \n")),
        InstallAction::Finish(Err(AppError::InstallationError("Whisper model installation failed: progress".into())))
    );
    let (mut s, _) = install_model(ModelId::FasterWhisper, TargetOs::Linux);
    s.step(InstallEvent::FsDone);
    s.step(InstallEvent::FsDone);
    assert_eq!(
        s.step(InstallEvent::Located(None)),
        InstallAction::Finish(Err(AppError::InstallationError("install_whisper_model.py not found".into())))
    );
    let (mut s, _) = install_model(ModelId::FasterWhisper, TargetOs::Linux);
    s.step(InstallEvent::FsDone);
    s.step(InstallEvent::FsDone);
    s.step(InstallEvent::Located(Some("x.py".into())));
    s.step(InstallEvent::Located(Some("python".into())));
    assert_eq!(
        s.step(ran(true, "", "")),
        InstallAction::Finish(Ok("Faster-Whisper model installed successfully (profile: small)".into()))
    );
}

#[test]
fn silero_install() {
    let (mut s, _) = install_model(ModelId::SileroVad, TargetOs::MacOs);
    assert_eq!(s.step(InstallEvent::FsDone), InstallAction::FindPython);
    assert_eq!(s.step(InstallEvent::Located(Some("python3".into()))), InstallAction::RunSileroInstaller);
    assert_eq!(
        s.step(ran(true, " /assets/silero_vad_v6.onnx\n", "")),
        InstallAction::Finish(Ok("Silero VAD runtime model installed successfully (/assets/silero_vad_v6.onnx)".into()))
    );
    let (mut s, _) = install_model(ModelId::SileroVad, TargetOs::MacOs);
    s.step(InstallEvent::FsDone);
    s.step(InstallEvent::Located(Some("python3".into())));
    assert_eq!(
        s.step(InstallEvent::CommandFailed("denied".into())),
        InstallAction::Finish(Err(AppError::InstallationError("Failed to execute Silero VAD installer with python3: denied".into())))
    );
    let (mut s, _) = install_model(ModelId::SileroVad, TargetOs::MacOs);
    s.step(InstallEvent::FsDone);
    assert_eq!(
        s.step(InstallEvent::Located(None)),
        InstallAction::Finish(Err(AppError::InstallationError("Python 3 not found".into())))
    );
}

#[test]
fn ollama_install_by_platform() {
    let (mut s, _) = install_model(ModelId::Ollama, TargetOs::Windows);
    assert_eq!(
        s.step(InstallEvent::FsDone),
        InstallAction::Finish(Err(AppError::NotSupported(
            "Please download Ollama from https://ollama.ai and install manually".into()
        )))
    );
    let (mut s, _) = install_model(ModelId::Ollama, TargetOs::Other);
    assert_eq!(
        s.step(InstallEvent::FsDone),
        InstallAction::Finish(Err(AppError::NotSupported("Ollama installation is not supported on this OS".into())))
    );
    let (mut s, _) = install_model(ModelId::Ollama, TargetOs::MacOs);
    assert_eq!(s.step(InstallEvent::FsDone), InstallAction::RunOllamaInstaller);
    assert_eq!(
        s.step(ran(false, "", "brew: not found\n")),
        InstallAction::Finish(Err(AppError::InstallationError("Ollama installation failed: brew: not found\n".into())))
    );
    let (mut s, _) = install_model(ModelId::Ollama, TargetOs::Linux);
    s.step(InstallEvent::FsDone);
    assert_eq!(s.step(ran(true, "", "")), InstallAction::Finish(Ok("Ollama installed successfully".into())));
}
