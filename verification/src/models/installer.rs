//! Installing a model, as a sequence of outside steps (creating directories,
//! running `ollama`, Python installers, ...) driven by a verified state machine.
//!
//! `install_model` opens a session and names the first step; after performing a
//! step, the caller reports how it went with `InstallSession::step`, which names
//! the next step, until the session finishes with the installation's result.
use super::ollama::{listing_contains_model, parse_ollama_list_contains_model};
use super::ModelId;
use crate::error::AppError;
use crate::platform::TargetOs;
use crate::text::{trim, trim_str};
use vstd::prelude::*;

verus! {

broadcast use vstd::string::group_string_axioms;

/// The Ollama tag of the Qwen translation model.
pub const QWEN_MODEL_TAG: &'static str = "qwen2.5:7b";

/// The Whisper model profile installed for local CPU use.
pub const WHISPER_MODEL_PROFILE: &'static str = "small";

/// The script that downloads the Whisper model.
pub const WHISPER_INSTALLER_SCRIPT: &'static str = "install_whisper_model.py";

/// An `ollama` command line.
#[derive(Debug, Clone, Copy, PartialEq, Eq, Structural)]
pub enum OllamaCommand {
    /// `ollama --version`
    Version,
    /// `ollama list`
    List,
    /// `ollama pull qwen2.5:7b`
    PullQwen,
}

/// Where an installation session stands.
#[derive(Debug, Clone, Copy, PartialEq, Eq, Structural)]
pub enum InstallStage {
    CreatingModelsDir,
    InstallingOllama,
    CheckingOllamaCli,
    ListingModels,
    PullingQwen,
    VerifyingQwen,
    CreatingWhisperDir,
    FindingWhisperScript,
    FindingPythonForWhisper,
    RunningWhisperInstaller,
    FindingPythonForSilero,
    RunningSileroInstaller,
    CreatingMeloDir,
    MarkingMelo,
    Finished,
}

/// The next outside step of an installation.
#[derive(Debug, PartialEq, Eq)]
pub enum InstallAction {
    /// Create the models directory and its parents.
    CreateModelsDir,
    /// Create the directory of this model under the models directory.
    CreateModelDir(ModelId),
    /// Write the empty `.installed` marker file into this model's directory.
    WriteInstalledMarker(ModelId),
    /// Run `ollama` with these arguments.
    RunOllama(OllamaCommand),
    /// Run the system's Ollama installer (Homebrew on macOS, the install script on Linux).
    RunOllamaInstaller,
    /// Look for the Whisper installer script near the executable.
    FindWhisperInstallerScript,
    /// Look for a Python 3 interpreter.
    FindPython,
    /// Run the Whisper installer script (the session's `script`) with the session's
    /// `python`, the model profile and the faster-whisper directory.
    RunWhisperInstaller,
    /// Run the Silero VAD installer with the session's `python`.
    RunSileroInstaller,
    /// The installation ended with this result.
    Finish(Result<String, AppError>),
}

/// How an outside step went.
#[derive(Debug, Clone, PartialEq, Eq)]
pub enum InstallEvent {
    /// The directory or file operation succeeded.
    FsDone,
    /// The directory or file operation failed with this error text.
    FsFailed(String),
    /// What was looked for was found here, or was not found.
    Located(Option<String>),
    /// The command ran: whether it exited successfully, its output and its error output.
    CommandRan { success: bool, stdout: String, stderr: String },
    /// The command could not be started; the error text.
    CommandFailed(String),
}

/// The kind of an error, without its text.
#[derive(Debug, Clone, Copy, PartialEq, Eq, Structural)]
pub enum ErrorKind {
    Io,
    Installation,
    NotSupported,
    InvalidModel,
}

/// An error as the specification reads it: its kind and its text.
pub open spec fn error_view(e: AppError) -> (ErrorKind, Seq<char>) {
    match e {
        AppError::IoError(m) => (ErrorKind::Io, m@),
        AppError::InstallationError(m) => (ErrorKind::Installation, m@),
        AppError::NotSupported(m) => (ErrorKind::NotSupported, m@),
        AppError::InvalidModel(m) => (ErrorKind::InvalidModel, m@),
    }
}

/// An event as the specification reads it.
pub enum EventView {
    FsDone,
    FsFailed(Seq<char>),
    Located(Option<Seq<char>>),
    CommandRan(bool, Seq<char>, Seq<char>),
    CommandFailed(Seq<char>),
}

pub open spec fn event_view(e: InstallEvent) -> EventView {
    match e {
        InstallEvent::FsDone => EventView::FsDone,
        InstallEvent::FsFailed(m) => EventView::FsFailed(m@),
        InstallEvent::Located(p) => EventView::Located(
            match p {
                Some(s) => Some(s@),
                None => None,
            },
        ),
        InstallEvent::CommandRan { success, stdout, stderr } => EventView::CommandRan(
            success,
            stdout@,
            stderr@,
        ),
        InstallEvent::CommandFailed(m) => EventView::CommandFailed(m@),
    }
}

/// An action as the specification reads it.
pub enum ActionView {
    CreateModelsDir,
    CreateModelDir(ModelId),
    WriteInstalledMarker(ModelId),
    RunOllama(OllamaCommand),
    RunOllamaInstaller,
    FindWhisperInstallerScript,
    FindPython,
    RunWhisperInstaller,
    RunSileroInstaller,
    Finish(Result<Seq<char>, (ErrorKind, Seq<char>)>),
}

pub open spec fn action_view(a: InstallAction) -> ActionView {
    match a {
        InstallAction::CreateModelsDir => ActionView::CreateModelsDir,
        InstallAction::CreateModelDir(m) => ActionView::CreateModelDir(m),
        InstallAction::WriteInstalledMarker(m) => ActionView::WriteInstalledMarker(m),
        InstallAction::RunOllama(c) => ActionView::RunOllama(c),
        InstallAction::RunOllamaInstaller => ActionView::RunOllamaInstaller,
        InstallAction::FindWhisperInstallerScript => ActionView::FindWhisperInstallerScript,
        InstallAction::FindPython => ActionView::FindPython,
        InstallAction::RunWhisperInstaller => ActionView::RunWhisperInstaller,
        InstallAction::RunSileroInstaller => ActionView::RunSileroInstaller,
        InstallAction::Finish(r) => ActionView::Finish(
            match r {
                Ok(m) => Ok(m@),
                Err(e) => Err(error_view(e)),
            },
        ),
    }
}

/// The event kinds that report on the step a stage waits for.
pub open spec fn event_fits(stage: InstallStage, e: EventView) -> bool {
    match stage {
        InstallStage::CreatingModelsDir | InstallStage::CreatingWhisperDir
        | InstallStage::CreatingMeloDir | InstallStage::MarkingMelo => e is FsDone || e is FsFailed,
        InstallStage::FindingWhisperScript | InstallStage::FindingPythonForWhisper
        | InstallStage::FindingPythonForSilero => e is Located,
        InstallStage::Finished => false,
        _ => e is CommandRan || e is CommandFailed,
    }
}

/// The stage and action after the models directory exists, for each model.
pub open spec fn dispatch(model: ModelId, os: TargetOs) -> (InstallStage, ActionView) {
    match model {
        ModelId::Ollama => match os {
            TargetOs::Windows => (
                InstallStage::Finished,
                ActionView::Finish(
                    Err(
                        (
                            ErrorKind::NotSupported,
                            "Please download Ollama from https://ollama.ai and install manually"@,
                        ),
                    ),
                ),
            ),
            TargetOs::Other => (
                InstallStage::Finished,
                ActionView::Finish(
                    Err(
                        (
                            ErrorKind::NotSupported,
                            "Ollama installation is not supported on this OS"@,
                        ),
                    ),
                ),
            ),
            _ => (InstallStage::InstallingOllama, ActionView::RunOllamaInstaller),
        },
        ModelId::Qwen => (
            InstallStage::CheckingOllamaCli,
            ActionView::RunOllama(OllamaCommand::Version),
        ),
        ModelId::FasterWhisper => (
            InstallStage::CreatingWhisperDir,
            ActionView::CreateModelDir(ModelId::FasterWhisper),
        ),
        ModelId::SileroVad => (InstallStage::FindingPythonForSilero, ActionView::FindPython),
        ModelId::MeloTts => (InstallStage::CreatingMeloDir, ActionView::CreateModelDir(ModelId::MeloTts)),
    }
}

/// A finished step with this result.
pub open spec fn finish(r: Result<Seq<char>, (ErrorKind, Seq<char>)>) -> (InstallStage, ActionView) {
    (InstallStage::Finished, ActionView::Finish(r))
}

/// An installation error with this text.
pub open spec fn install_err(m: Seq<char>) -> (InstallStage, ActionView) {
    finish(Err((ErrorKind::Installation, m)))
}

/// The text of a command that could not be started.
pub open spec fn ollama_spawn_error(cmd: OllamaCommand, e: Seq<char>) -> Seq<char> {
    let prefix = match cmd {
        OllamaCommand::Version => "Failed to execute ollama [\"--version\"]: "@,
        OllamaCommand::List => "Failed to execute ollama [\"list\"]: "@,
        OllamaCommand::PullQwen => "Failed to execute ollama [\"pull\", \"qwen2.5:7b\"]: "@,
    };
    prefix + e
}

/// The error output if it holds more than white space, else the output.
pub open spec fn error_detail(stdout: Seq<char>, stderr: Seq<char>) -> Seq<char> {
    if trim(stderr).len() > 0 {
        stderr
    } else {
        stdout
    }
}

/// What the session does next, given where it stands, the Python interpreter it
/// found (if any), and how the last step went.
pub open spec fn next_step(
    model: ModelId,
    os: TargetOs,
    stage: InstallStage,
    python: Seq<char>,
    e: EventView,
) -> (InstallStage, ActionView) {
    match stage {
        InstallStage::CreatingModelsDir => match e {
            EventView::FsFailed(m) => finish(
                Err((ErrorKind::Io, "Failed to create models directory: "@ + m)),
            ),
            _ => dispatch(model, os),
        },
        InstallStage::InstallingOllama => match e {
            EventView::CommandFailed(m) => install_err("Failed to install Ollama: "@ + m),
            EventView::CommandRan(ok, _, err) => if ok {
                finish(Ok("Ollama installed successfully"@))
            } else {
                install_err("Ollama installation failed: "@ + err)
            },
            _ => finish(Err((ErrorKind::Installation, Seq::empty()))),
        },
        InstallStage::CheckingOllamaCli => match e {
            EventView::CommandFailed(m) => install_err(ollama_spawn_error(OllamaCommand::Version, m)),
            EventView::CommandRan(ok, _, err) => if ok {
                (InstallStage::ListingModels, ActionView::RunOllama(OllamaCommand::List))
            } else {
                install_err(
                    "Ollama is not available. Please install/start Ollama first: "@ + trim(err),
                )
            },
            _ => finish(Err((ErrorKind::Installation, Seq::empty()))),
        },
        InstallStage::ListingModels => match e {
            EventView::CommandFailed(m) => install_err(ollama_spawn_error(OllamaCommand::List, m)),
            EventView::CommandRan(ok, out, err) => if !ok {
                install_err("Failed to query Ollama model list: "@ + trim(err))
            } else if listing_contains_model(out, "qwen2.5:7b"@) {
                finish(Ok("Qwen model already installed (qwen2.5:7b)"@))
            } else {
                (InstallStage::PullingQwen, ActionView::RunOllama(OllamaCommand::PullQwen))
            },
            _ => finish(Err((ErrorKind::Installation, Seq::empty()))),
        },
        InstallStage::PullingQwen => match e {
            EventView::CommandFailed(m) => install_err(ollama_spawn_error(OllamaCommand::PullQwen, m)),
            EventView::CommandRan(ok, out, err) => if ok {
                (InstallStage::VerifyingQwen, ActionView::RunOllama(OllamaCommand::List))
            } else {
                install_err(
                    "Failed to pull Qwen model (qwen2.5:7b): "@ + if trim(err).len() > 0 {
                        trim(err)
                    } else {
                        trim(out)
                    },
                )
            },
            _ => finish(Err((ErrorKind::Installation, Seq::empty()))),
        },
        InstallStage::VerifyingQwen => match e {
            EventView::CommandFailed(m) => install_err(ollama_spawn_error(OllamaCommand::List, m)),
            EventView::CommandRan(ok, out, err) => if !ok {
                install_err("Failed to query Ollama model list: "@ + trim(err))
            } else if listing_contains_model(out, "qwen2.5:7b"@) {
                finish(Ok("Qwen model installed successfully (qwen2.5:7b)"@))
            } else {
                install_err("Qwen model pull finished but verification failed for qwen2.5:7b"@)
            },
            _ => finish(Err((ErrorKind::Installation, Seq::empty()))),
        },
        InstallStage::CreatingWhisperDir => match e {
            EventView::FsFailed(m) => finish(
                Err((ErrorKind::Io, "Failed to create faster-whisper directory: "@ + m)),
            ),
            _ => (InstallStage::FindingWhisperScript, ActionView::FindWhisperInstallerScript),
        },
        InstallStage::FindingWhisperScript => match e {
            EventView::Located(Some(_)) => (InstallStage::FindingPythonForWhisper, ActionView::FindPython),
            _ => install_err("install_whisper_model.py not found"@),
        },
        InstallStage::FindingPythonForWhisper => match e {
            EventView::Located(Some(_)) => (
                InstallStage::RunningWhisperInstaller,
                ActionView::RunWhisperInstaller,
            ),
            _ => install_err("Python 3 not found"@),
        },
        InstallStage::RunningWhisperInstaller => match e {
            EventView::CommandFailed(m) => install_err(
                "Failed to execute Whisper installer with "@ + python + ": "@ + m,
            ),
            EventView::CommandRan(ok, out, err) => if ok {
                finish(Ok("Faster-Whisper model installed successfully (profile: small)"@))
            } else {
                install_err("Whisper model installation failed: "@ + trim(error_detail(out, err)))
            },
            _ => finish(Err((ErrorKind::Installation, Seq::empty()))),
        },
        InstallStage::FindingPythonForSilero => match e {
            EventView::Located(Some(_)) => (
                InstallStage::RunningSileroInstaller,
                ActionView::RunSileroInstaller,
            ),
            _ => install_err("Python 3 not found"@),
        },
        InstallStage::RunningSileroInstaller => match e {
            EventView::CommandFailed(m) => install_err(
                "Failed to execute Silero VAD installer with "@ + python + ": "@ + m,
            ),
            EventView::CommandRan(ok, out, err) => if !ok {
                install_err(
                    "Silero VAD installation failed: "@ + if trim(err).len() > 0 {
                        trim(err)
                    } else {
                        trim(out)
                    },
                )
            } else if trim(out).len() == 0 {
                finish(Ok("Silero VAD runtime model installed successfully"@))
            } else {
                finish(Ok("Silero VAD runtime model installed successfully ("@ + trim(out) + ")"@))
            },
            _ => finish(Err((ErrorKind::Installation, Seq::empty()))),
        },
        InstallStage::CreatingMeloDir => match e {
            EventView::FsFailed(m) => finish(
                Err((ErrorKind::Io, "Failed to create melotts directory: "@ + m)),
            ),
            _ => (InstallStage::MarkingMelo, ActionView::WriteInstalledMarker(ModelId::MeloTts)),
        },
        InstallStage::MarkingMelo => match e {
            EventView::FsFailed(m) => finish(
                Err((ErrorKind::Io, "Failed to mark installation: "@ + m)),
            ),
            _ => finish(Ok("MeloTTS model prepared"@)),
        },
        InstallStage::Finished => finish(Err((ErrorKind::Installation, Seq::empty()))),
    }
}

/// An installation in progress.
pub struct InstallSession {
    model: ModelId,
    os: TargetOs,
    stage: InstallStage,
    script: Option<String>,
    python: Option<String>,
}

impl InstallSession {
    pub closed spec fn model(&self) -> ModelId {
        self.model
    }

    pub closed spec fn os(&self) -> TargetOs {
        self.os
    }

    pub closed spec fn stage(&self) -> InstallStage {
        self.stage
    }

    /// The Python interpreter found, as the specification reads it (empty when none).
    pub closed spec fn python_seq(&self) -> Seq<char> {
        match self.python {
            Some(p) => p@,
            None => Seq::empty(),
        }
    }

    /// The Python interpreter found for the installer, if any.
    pub fn python(&self) -> (r: Option<String>)
        ensures
            match r {
                Some(p) => p@ == self.python_seq(),
                None => self.python_seq() == Seq::<char>::empty(),
            },
    {
        match &self.python {
            Some(p) => Some(p.clone()),
            None => None,
        }
    }

    /// The Whisper installer script found, as the specification reads it.
    pub closed spec fn script_seq(&self) -> Option<Seq<char>> {
        match self.script {
            Some(p) => Some(p@),
            None => None,
        }
    }

    /// The Whisper installer script found, if any.
    pub fn script(&self) -> (r: Option<String>)
        ensures
            match r {
                Some(p) => self.script_seq() == Some(p@),
                None => self.script_seq() is None,
            },
    {
        match &self.script {
            Some(p) => Some(p.clone()),
            None => None,
        }
    }

    /// The next step after the last one went as `event` says.
    pub fn step(&mut self, event: InstallEvent) -> (r: InstallAction)
        requires
            event_fits(old(self).stage(), event_view(event)),
            stage_of_model(old(self).model(), old(self).stage()),
        ensures
            stage_of_model(final(self).model(), final(self).stage()),
            final(self).script_seq() == (match (old(self).stage(), event_view(event)) {
                (InstallStage::FindingWhisperScript, EventView::Located(Some(p))) => Some(p),
                _ => old(self).script_seq(),
            }),
            final(self).python_seq() == (match (old(self).stage(), event_view(event)) {
                (InstallStage::FindingPythonForWhisper, EventView::Located(Some(p))) => p,
                (InstallStage::FindingPythonForSilero, EventView::Located(Some(p))) => p,
                _ => old(self).python_seq(),
            }),
            final(self).model() == old(self).model(),
            final(self).os() == old(self).os(),
            (final(self).stage(), action_view(r)) == next_step(
                old(self).model(),
                old(self).os(),
                old(self).stage(),
                old(self).python_seq(),
                event_view(event),
            ),
    {
        let ghost ev = event_view(event);
        let ghost py = self.python_seq();
        let (stage, action) = self.next(event);
        proof {
            law_stages_stay_with_model(self.model, self.os, old(self).stage, py, ev);
        }
        self.stage = stage;
        action
    }

    fn next(&mut self, event: InstallEvent) -> (r: (InstallStage, InstallAction))
        requires
            event_fits(old(self).stage, event_view(event)),
        ensures
            final(self).script_seq() == (match (old(self).stage(), event_view(event)) {
                (InstallStage::FindingWhisperScript, EventView::Located(Some(p))) => Some(p),
                _ => old(self).script_seq(),
            }),
            final(self).python_seq() == (match (old(self).stage(), event_view(event)) {
                (InstallStage::FindingPythonForWhisper, EventView::Located(Some(p))) => p,
                (InstallStage::FindingPythonForSilero, EventView::Located(Some(p))) => p,
                _ => old(self).python_seq(),
            }),
            final(self).model == old(self).model,
            final(self).os == old(self).os,
            (r.0, action_view(r.1)) == next_step(
                old(self).model,
                old(self).os,
                old(self).stage,
                old(self).python_seq(),
                event_view(event),
            ),
    {
        match self.stage {
            InstallStage::CreatingModelsDir => match event {
                InstallEvent::FsFailed(m) => fail_io("Failed to create models directory: ", m),
                _ => self.dispatch(),
            },
            InstallStage::InstallingOllama => match event {
                InstallEvent::CommandFailed(m) => fail_install("Failed to install Ollama: ", m),
                InstallEvent::CommandRan { success, stdout, stderr } => {
                    if success {
                        succeed(String::from_str("Ollama installed successfully"))
                    } else {
                        fail_install("Ollama installation failed: ", stderr)
                    }
                },
                _ => unreachable_step(),
            },
            InstallStage::CheckingOllamaCli => match event {
                InstallEvent::CommandFailed(m) => fail_install(
                    "Failed to execute ollama [\"--version\"]: ",
                    m,
                ),
                InstallEvent::CommandRan { success, stdout, stderr } => {
                    if success {
                        (InstallStage::ListingModels, InstallAction::RunOllama(OllamaCommand::List))
                    } else {
                        fail_install(
                            "Ollama is not available. Please install/start Ollama first: ",
                            trim_str(stderr.as_str()),
                        )
                    }
                },
                _ => unreachable_step(),
            },
            InstallStage::ListingModels => match event {
                InstallEvent::CommandFailed(m) => fail_install("Failed to execute ollama [\"list\"]: ", m),
                InstallEvent::CommandRan { success, stdout, stderr } => {
                    if !success {
                        fail_install(
                            "Failed to query Ollama model list: ",
                            trim_str(stderr.as_str()),
                        )
                    } else if parse_ollama_list_contains_model(stdout.as_str(), "qwen2.5:7b") {
                        succeed(String::from_str("Qwen model already installed (qwen2.5:7b)"))
                    } else {
                        (InstallStage::PullingQwen, InstallAction::RunOllama(OllamaCommand::PullQwen))
                    }
                },
                _ => unreachable_step(),
            },
            InstallStage::PullingQwen => match event {
                InstallEvent::CommandFailed(m) => fail_install(
                    "Failed to execute ollama [\"pull\", \"qwen2.5:7b\"]: ",
                    m,
                ),
                InstallEvent::CommandRan { success, stdout, stderr } => {
                    if success {
                        (InstallStage::VerifyingQwen, InstallAction::RunOllama(OllamaCommand::List))
                    } else {
                        let err = trim_str(stderr.as_str());
                        let detail = if err.as_str().is_empty() {
                            trim_str(stdout.as_str())
                        } else {
                            err
                        };
                        fail_install("Failed to pull Qwen model (qwen2.5:7b): ", detail)
                    }
                },
                _ => unreachable_step(),
            },
            InstallStage::VerifyingQwen => match event {
                InstallEvent::CommandFailed(m) => fail_install("Failed to execute ollama [\"list\"]: ", m),
                InstallEvent::CommandRan { success, stdout, stderr } => {
                    if !success {
                        fail_install(
                            "Failed to query Ollama model list: ",
                            trim_str(stderr.as_str()),
                        )
                    } else if parse_ollama_list_contains_model(stdout.as_str(), "qwen2.5:7b") {
                        succeed(String::from_str("Qwen model installed successfully (qwen2.5:7b)"))
                    } else {
                        fail_install_msg(String::from_str("Qwen model pull finished but verification failed for qwen2.5:7b"))
                    }
                },
                _ => unreachable_step(),
            },
            InstallStage::CreatingWhisperDir => match event {
                InstallEvent::FsFailed(m) => fail_io("Failed to create faster-whisper directory: ", m),
                _ => (InstallStage::FindingWhisperScript, InstallAction::FindWhisperInstallerScript),
            },
            InstallStage::FindingWhisperScript => match event {
                InstallEvent::Located(Some(path)) => {
                    self.script = Some(path);
                    (InstallStage::FindingPythonForWhisper, InstallAction::FindPython)
                },
                _ => fail_install_msg(String::from_str("install_whisper_model.py not found")),
            },
            InstallStage::FindingPythonForWhisper => match event {
                InstallEvent::Located(Some(python)) => {
                    self.python = Some(python);
                    (InstallStage::RunningWhisperInstaller, InstallAction::RunWhisperInstaller)
                },
                _ => fail_install_msg(String::from_str("Python 3 not found")),
            },
            InstallStage::RunningWhisperInstaller => match event {
                InstallEvent::CommandFailed(m) => {
                    let text = String::from_str("Failed to execute Whisper installer with ").concat(
                        self.python_str().as_str(),
                    ).concat(": ").concat(m.as_str());
                    fail_install_msg(text)
                },
                InstallEvent::CommandRan { success, stdout, stderr } => {
                    if success {
                        succeed(
                            String::from_str(
                                "Faster-Whisper model installed successfully (profile: small)",
                            ),
                        )
                    } else {
                        let detail = if trim_str(stderr.as_str()).as_str().is_empty() {
                            stdout
                        } else {
                            stderr
                        };
                        fail_install(
                            "Whisper model installation failed: ",
                            trim_str(detail.as_str()),
                        )
                    }
                },
                _ => unreachable_step(),
            },
            InstallStage::FindingPythonForSilero => match event {
                InstallEvent::Located(Some(python)) => {
                    self.python = Some(python);
                    (InstallStage::RunningSileroInstaller, InstallAction::RunSileroInstaller)
                },
                _ => fail_install_msg(String::from_str("Python 3 not found")),
            },
            InstallStage::RunningSileroInstaller => match event {
                InstallEvent::CommandFailed(m) => {
                    let text = String::from_str("Failed to execute Silero VAD installer with ").concat(
                        self.python_str().as_str(),
                    ).concat(": ").concat(m.as_str());
                    fail_install_msg(text)
                },
                InstallEvent::CommandRan { success, stdout, stderr } => {
                    let out = trim_str(stdout.as_str());
                    let err = trim_str(stderr.as_str());
                    if !success {
                        let detail = if err.as_str().is_empty() {
                            out
                        } else {
                            err
                        };
                        fail_install("Silero VAD installation failed: ", detail)
                    } else if out.as_str().is_empty() {
                        succeed(String::from_str("Silero VAD runtime model installed successfully"))
                    } else {
                        succeed(
                            String::from_str(
                                "Silero VAD runtime model installed successfully (",
                            ).concat(out.as_str()).concat(")"),
                        )
                    }
                },
                _ => unreachable_step(),
            },
            InstallStage::CreatingMeloDir => match event {
                InstallEvent::FsFailed(m) => fail_io("Failed to create melotts directory: ", m),
                _ => (InstallStage::MarkingMelo, InstallAction::WriteInstalledMarker(ModelId::MeloTts)),
            },
            InstallStage::MarkingMelo => match event {
                InstallEvent::FsFailed(m) => fail_io("Failed to mark installation: ", m),
                _ => succeed(String::from_str("MeloTTS model prepared")),
            },
            InstallStage::Finished => unreachable_step(),
        }
    }

    fn python_str(&self) -> (r: String)
        ensures
            r@ == self.python_seq(),
    {
        match &self.python {
            Some(p) => p.clone(),
            None => String::new(),
        }
    }

    fn dispatch(&self) -> (r: (InstallStage, InstallAction))
        ensures
            (r.0, action_view(r.1)) == dispatch(self.model, self.os),
    {
        match self.model {
            ModelId::Ollama => match self.os {
                TargetOs::Windows => (
                    InstallStage::Finished,
                    InstallAction::Finish(
                        Err(
                            AppError::NotSupported(
                                String::from_str(
                                    "Please download Ollama from https://ollama.ai and install manually",
                                ),
                            ),
                        ),
                    ),
                ),
                TargetOs::Other => (
                    InstallStage::Finished,
                    InstallAction::Finish(
                        Err(
                            AppError::NotSupported(
                                String::from_str("Ollama installation is not supported on this OS"),
                            ),
                        ),
                    ),
                ),
                _ => (InstallStage::InstallingOllama, InstallAction::RunOllamaInstaller),
            },
            ModelId::Qwen => (
                InstallStage::CheckingOllamaCli,
                InstallAction::RunOllama(OllamaCommand::Version),
            ),
            ModelId::FasterWhisper => (
                InstallStage::CreatingWhisperDir,
                InstallAction::CreateModelDir(ModelId::FasterWhisper),
            ),
            ModelId::SileroVad => (InstallStage::FindingPythonForSilero, InstallAction::FindPython),
            ModelId::MeloTts => (
                InstallStage::CreatingMeloDir,
                InstallAction::CreateModelDir(ModelId::MeloTts),
            ),
        }
    }
}

fn succeed(m: String) -> (r: (InstallStage, InstallAction))
    ensures
        (r.0, action_view(r.1)) == finish(Ok(m@)),
{
    (InstallStage::Finished, InstallAction::Finish(Ok(m)))
}

fn fail_io(prefix: &str, m: String) -> (r: (InstallStage, InstallAction))
    ensures
        (r.0, action_view(r.1)) == finish(Err((ErrorKind::Io, prefix@ + m@))),
{
    (
        InstallStage::Finished,
        InstallAction::Finish(Err(AppError::IoError(String::from_str(prefix).concat(m.as_str())))),
    )
}

fn fail_install(prefix: &str, m: String) -> (r: (InstallStage, InstallAction))
    ensures
        (r.0, action_view(r.1)) == install_err(prefix@ + m@),
{
    (
        InstallStage::Finished,
        InstallAction::Finish(
            Err(AppError::InstallationError(String::from_str(prefix).concat(m.as_str()))),
        ),
    )
}

fn fail_install_msg(m: String) -> (r: (InstallStage, InstallAction))
    ensures
        (r.0, action_view(r.1)) == install_err(m@),
{
    (InstallStage::Finished, InstallAction::Finish(Err(AppError::InstallationError(m))))
}

/// The answer to an event that does not report on the awaited step; `step`
/// never gives it, as its precondition rules such events out.
fn unreachable_step() -> (r: (InstallStage, InstallAction))
    ensures
        (r.0, action_view(r.1)) == finish(Err((ErrorKind::Installation, Seq::empty()))),
{
    fail_install_msg(String::new())
}

/// Opens an installation session for a model; the first step creates the
/// models directory.
pub fn install_model(model_id: ModelId, os: TargetOs) -> (r: (InstallSession, InstallAction))
    ensures
        r.0.model() == model_id,
        r.0.os() == os,
        r.0.stage() == InstallStage::CreatingModelsDir,
        stage_of_model(model_id, r.0.stage()),
        r.1 == InstallAction::CreateModelsDir,
{
    (
        InstallSession {
            model: model_id,
            os,
            stage: InstallStage::CreatingModelsDir,
            script: None,
            python: None,
        },
        InstallAction::CreateModelsDir,
    )
}

} // verus!

verus! {

/// How many steps at most remain from a stage.
pub open spec fn steps_left(stage: InstallStage) -> int {
    match stage {
        InstallStage::CreatingModelsDir => 5,
        InstallStage::CheckingOllamaCli | InstallStage::CreatingWhisperDir => 4,
        InstallStage::ListingModels | InstallStage::FindingWhisperScript => 3,
        InstallStage::PullingQwen | InstallStage::FindingPythonForWhisper
        | InstallStage::FindingPythonForSilero | InstallStage::CreatingMeloDir => 2,
        InstallStage::Finished => 0,
        _ => 1,
    }
}

/// Every installation finishes: each step that the session awaits brings it
/// closer to the end, and the session names a final result exactly when it
/// reaches the finished stage.
pub proof fn law_installation_finishes(
    model: ModelId,
    os: TargetOs,
    stage: InstallStage,
    python: Seq<char>,
    e: EventView,
)
    requires
        event_fits(stage, e),
    ensures
        steps_left(next_step(model, os, stage, python, e).0) < steps_left(stage),
        (next_step(model, os, stage, python, e).0 == InstallStage::Finished)
            == (next_step(model, os, stage, python, e).1 is Finish),
{
}

/// A step that failed never ends the installation with success.
pub proof fn law_failed_step_never_succeeds(
    model: ModelId,
    os: TargetOs,
    stage: InstallStage,
    python: Seq<char>,
    e: EventView,
)
    requires
        event_fits(stage, e),
        e is FsFailed || e is CommandFailed || e == EventView::Located(None) || (e matches EventView::CommandRan(ok, _, _) && !ok),
    ensures
        !(next_step(model, os, stage, python, e).1 matches ActionView::Finish(Ok(_))),
{
}

/// A step that went well never ends the installation with an error. The two
/// exceptions are decided on purpose: Ollama cannot be installed from here on
/// Windows or an unknown system, and a pulled Qwen model that the following
/// `ollama list` does not name is a failed installation.
pub proof fn law_successful_step_never_fails(
    model: ModelId,
    os: TargetOs,
    stage: InstallStage,
    python: Seq<char>,
    e: EventView,
)
    requires
        event_fits(stage, e),
        e is FsDone || (e is Located && e->Located_0 is Some) || (e is CommandRan && e->CommandRan_0),
        !(stage == InstallStage::CreatingModelsDir && model == ModelId::Ollama && (os
            == TargetOs::Windows || os == TargetOs::Other)),
        stage == InstallStage::VerifyingQwen ==> listing_contains_model(
            e->CommandRan_1,
            "qwen2.5:7b"@,
        ),
    ensures
        !(next_step(model, os, stage, python, e).1 matches ActionView::Finish(Err(_))),
{
}

/// The stages an installation of a model passes through.
pub open spec fn stage_of_model(model: ModelId, stage: InstallStage) -> bool {
    stage == InstallStage::CreatingModelsDir || stage == InstallStage::Finished || match model {
        ModelId::Ollama => stage == InstallStage::InstallingOllama,
        ModelId::Qwen => stage == InstallStage::CheckingOllamaCli || stage
            == InstallStage::ListingModels || stage == InstallStage::PullingQwen || stage
            == InstallStage::VerifyingQwen,
        ModelId::FasterWhisper => stage == InstallStage::CreatingWhisperDir || stage
            == InstallStage::FindingWhisperScript || stage == InstallStage::FindingPythonForWhisper
            || stage == InstallStage::RunningWhisperInstaller,
        ModelId::SileroVad => stage == InstallStage::FindingPythonForSilero || stage
            == InstallStage::RunningSileroInstaller,
        ModelId::MeloTts => stage == InstallStage::CreatingMeloDir || stage
            == InstallStage::MarkingMelo,
    }
}

/// A session only ever passes through the stages of its own model.
pub proof fn law_stages_stay_with_model(
    model: ModelId,
    os: TargetOs,
    stage: InstallStage,
    python: Seq<char>,
    e: EventView,
)
    requires
        event_fits(stage, e),
        stage_of_model(model, stage),
    ensures
        stage_of_model(model, next_step(model, os, stage, python, e).0),
{
}

/// Qwen is reported installed only when a successful `ollama list` named it.
pub proof fn law_qwen_installed_only_when_listed(
    os: TargetOs,
    stage: InstallStage,
    python: Seq<char>,
    e: EventView,
)
    requires
        event_fits(stage, e),
        stage_of_model(ModelId::Qwen, stage),
        next_step(ModelId::Qwen, os, stage, python, e).1 matches ActionView::Finish(Ok(_)),
    ensures
        e matches EventView::CommandRan(ok, out, _) && ok && listing_contains_model(out, "qwen2.5:7b"@),
        stage == InstallStage::ListingModels || stage == InstallStage::VerifyingQwen,
{
}

} // verus!
