//! Deciding from what was found on disk whether each model is installed.
use super::{all_models, model_display_name, model_key, ModelId, ModelStatus};
use crate::platform::TargetOs;
use vstd::prelude::*;

verus! {

broadcast use vstd::string::group_string_axioms;

/// What was found for one entry inside the faster-whisper model directory.
#[derive(Debug, Clone, Copy, PartialEq, Eq, Structural)]
pub struct WhisperEntryProbe {
    pub is_dir: bool,
    pub has_model_bin: bool,
    pub has_config: bool,
}

/// What was found on disk for the faster-whisper model directory: the directory
/// itself, its `model.bin` and `config.json`, and each of its entries
/// (none when the directory cannot be listed).
#[derive(Debug, Clone, PartialEq, Eq)]
pub struct WhisperDirProbe {
    pub dir_exists: bool,
    pub has_model_bin: bool,
    pub has_config: bool,
    pub entries: Vec<WhisperEntryProbe>,
}

/// What was found on disk for one model: the path that was probed
/// (`None` when it could not be formed or is not valid UTF-8), whether it exists,
/// and, for faster-whisper, the directory contents.
#[derive(Debug, Clone, PartialEq, Eq)]
pub struct ModelProbe {
    pub path: Option<String>,
    pub exists: bool,
    pub whisper: WhisperDirProbe,
}

/// The probes of every model.
#[derive(Debug, Clone, PartialEq, Eq)]
pub struct ModelProbes {
    pub ollama: ModelProbe,
    pub qwen: ModelProbe,
    pub faster_whisper: ModelProbe,
    pub silero_vad: ModelProbe,
    pub melotts: ModelProbe,
}

/// An entry holds a complete nested model: a directory with both model files.
pub open spec fn entry_holds_model(e: WhisperEntryProbe) -> bool {
    e.is_dir && e.has_model_bin && e.has_config
}

/// The model files lie directly in the directory.
pub open spec fn whisper_direct_model(p: WhisperDirProbe) -> bool {
    p.has_model_bin && p.has_config
}

/// Some entry of the directory is a directory holding the model files.
pub open spec fn whisper_nested_model(p: WhisperDirProbe) -> bool {
    exists|i: int| 0 <= i < p.entries@.len() && entry_holds_model(#[trigger] p.entries@[i])
}

/// A usable faster-whisper model is on disk.
pub open spec fn whisper_model_present(p: WhisperDirProbe) -> bool {
    p.dir_exists && (whisper_direct_model(p) || whisper_nested_model(p))
}

/// The directory under the models directory that holds a model (none for Ollama,
/// which lives under the home directory).
pub open spec fn model_dir_name(id: ModelId) -> Option<Seq<char>> {
    match id {
        ModelId::Ollama => None,
        ModelId::Qwen => Some("Qwen2.5-7B"@),
        ModelId::FasterWhisper => Some("faster-whisper"@),
        ModelId::SileroVad => Some("silero-vad"@),
        ModelId::MeloTts => Some("melotts"@),
    }
}

/// Whether the probe shows the model as installed.
pub open spec fn probe_installed(id: ModelId, p: ModelProbe) -> bool {
    match id {
        ModelId::Ollama => p.path is Some && p.exists,
        ModelId::FasterWhisper => whisper_model_present(p.whisper),
        _ => p.exists,
    }
}

/// The status reported for a model, given its probe.
pub open spec fn status_from_probe(s: ModelStatus, id: ModelId, p: ModelProbe) -> bool {
    &&& s.id@ == model_key(id)
    &&& s.name@ == model_display_name(id)
    &&& s.installed == probe_installed(id, p)
    &&& s.path == p.path
}

/// The probe of a model.
pub open spec fn probe_of(probes: ModelProbes, id: ModelId) -> ModelProbe {
    match id {
        ModelId::Ollama => probes.ollama,
        ModelId::Qwen => probes.qwen,
        ModelId::FasterWhisper => probes.faster_whisper,
        ModelId::SileroVad => probes.silero_vad,
        ModelId::MeloTts => probes.melotts,
    }
}

/// Where Ollama keeps its data, given the home directory.
pub open spec fn ollama_path_of(home: Option<Seq<char>>, os: TargetOs) -> Option<Seq<char>> {
    match home {
        None => None,
        Some(h) => match os {
            TargetOs::Windows => Some(h + "\\AppData\\Local\\Ollama"@),
            _ => Some(h + "/.ollama"@),
        },
    }
}

/// The characters of an optional string.
pub open spec fn opt_chars(o: Option<String>) -> Option<Seq<char>> {
    match o {
        Some(s) => Some(s@),
        None => None,
    }
}

/// The directory that holds a model under the models directory.
pub fn model_directory_name(id: ModelId) -> (r: Option<&'static str>)
    ensures
        match r {
            Some(s) => model_dir_name(id) == Some(s@),
            None => model_dir_name(id) is None,
        },
{
    match id {
        ModelId::Ollama => None,
        ModelId::Qwen => Some("Qwen2.5-7B"),
        ModelId::FasterWhisper => Some("faster-whisper"),
        ModelId::SileroVad => Some("silero-vad"),
        ModelId::MeloTts => Some("melotts"),
    }
}

/// Where Ollama keeps its data: `<home>/.ollama`, or `<home>\AppData\Local\Ollama` on Windows.
pub fn get_ollama_path(home: &Option<String>, os: TargetOs) -> (r: Option<String>)
    ensures
        opt_chars(r) == ollama_path_of(opt_chars(*home), os),
{
    match home {
        None => None,
        Some(h) => {
            let base = h.clone();
            match os {
                TargetOs::Windows => Some(base.concat("\\AppData\\Local\\Ollama")),
                _ => Some(base.concat("/.ollama")),
            }
        },
    }
}

/// Whether a usable faster-whisper model is on disk: the directory exists and
/// holds `model.bin` and `config.json`, directly or in one of its subdirectories.
pub fn has_real_whisper_model(p: &WhisperDirProbe) -> (r: bool)
    ensures
        r == whisper_model_present(*p),
{
    if !p.dir_exists {
        return false;
    }
    if p.has_model_bin && p.has_config {
        return true;
    }
    let mut i: usize = 0;
    while i < p.entries.len()
        invariant
            p.dir_exists,
            !whisper_direct_model(*p),
            i <= p.entries.len(),
            forall|k: int| 0 <= k < i ==> !entry_holds_model(#[trigger] p.entries@[k]),
        decreases p.entries.len() - i,
    {
        let e = p.entries[i];
        if e.is_dir && e.has_model_bin && e.has_config {
            assert(entry_holds_model(p.entries@[i as int]));
            return true;
        }
        i = i + 1;
    }
    false
}

fn clone_path(p: &Option<String>) -> (r: Option<String>)
    ensures
        r == *p,
{
    match p {
        Some(s) => Some(s.clone()),
        None => None,
    }
}

/// The status of one model, decided from what was found on disk for it.
pub fn check_model(model_id: ModelId, probe: &ModelProbe) -> (r: ModelStatus)
    ensures
        status_from_probe(r, model_id, *probe),
{
    let installed = match model_id {
        ModelId::Ollama => probe.path.is_some() && probe.exists,
        ModelId::FasterWhisper => has_real_whisper_model(&probe.whisper),
        _ => probe.exists,
    };
    ModelStatus::new(model_id, installed, clone_path(&probe.path))
}

/// A model is reported installed exactly when what it needs is on disk: Qwen,
/// Silero VAD and MeloTTS when their directory exists; Ollama when its path could
/// be formed and exists; faster-whisper when its directory exists and holds
/// `model.bin` and `config.json`, directly or inside one of its subdirectories.
/// The status always carries the probed path.
pub proof fn law_installed_means_on_disk(s: ModelStatus, id: ModelId, p: ModelProbe)
    requires
        status_from_probe(s, id, p),
    ensures
        (id == ModelId::Qwen || id == ModelId::SileroVad || id == ModelId::MeloTts) ==> (
        s.installed == p.exists),
        id == ModelId::Ollama ==> (s.installed == (p.path is Some && p.exists)),
        id == ModelId::FasterWhisper ==> (s.installed == (p.whisper.dir_exists && ((
        p.whisper.has_model_bin && p.whisper.has_config) || exists|i: int|
            0 <= i < p.whisper.entries@.len() && (#[trigger] p.whisper.entries@[i]).is_dir
                && p.whisper.entries@[i].has_model_bin && p.whisper.entries@[i].has_config))),
        s.path == p.path,
{
}

fn probe_for(probes: &ModelProbes, id: ModelId) -> (r: &ModelProbe)
    ensures
        *r == probe_of(*probes, id),
{
    match id {
        ModelId::Ollama => &probes.ollama,
        ModelId::Qwen => &probes.qwen,
        ModelId::FasterWhisper => &probes.faster_whisper,
        ModelId::SileroVad => &probes.silero_vad,
        ModelId::MeloTts => &probes.melotts,
    }
}

/// The status of every model, in the order of `ModelId::all()`.
pub fn check_all_models(probes: &ModelProbes) -> (r: Vec<ModelStatus>)
    ensures
        r@.len() == all_models().len(),
        forall|i: int|
            0 <= i < r@.len() ==> status_from_probe(
                #[trigger] r@[i],
                all_models()[i],
                probe_of(*probes, all_models()[i]),
            ),
{
    let ids = ModelId::all();
    let mut out: Vec<ModelStatus> = Vec::new();
    let mut i: usize = 0;
    while i < ids.len()
        invariant
            ids@ == all_models(),
            i <= ids@.len(),
            out@.len() == i,
            forall|k: int|
                0 <= k < i ==> status_from_probe(
                    #[trigger] out@[k],
                    all_models()[k],
                    probe_of(*probes, all_models()[k]),
                ),
        decreases ids.len() - i,
    {
        let id = ids[i];
        out.push(check_model(id, probe_for(probes, id)));
        i = i + 1;
    }
    out
}

} // verus!

verus! {

/// The error reported when no faster-whisper directory exists.
pub open spec fn whisper_missing_text() -> Seq<char> {
    "faster-whisper model not installed. Please install it from the Models screen."@
}

/// The error reported when the faster-whisper directory holds no model files.
pub open spec fn whisper_files_missing_text() -> Seq<char> {
    "faster-whisper model files not found. Please install the model from the Models screen."@
}

/// Checks that a usable faster-whisper model is on disk before transcribing.
pub fn validate_whisper_model_dir(p: &WhisperDirProbe) -> (r: Result<(), String>)
    ensures
        match r {
            Ok(()) => whisper_model_present(*p),
            Err(m) => {
                &&& !whisper_model_present(*p)
                &&& (!p.dir_exists ==> m@ == whisper_missing_text())
                &&& (p.dir_exists ==> m@ == whisper_files_missing_text())
            },
        },
{
    if !p.dir_exists {
        return Err(
            String::from_str(
                "faster-whisper model not installed. Please install it from the Models screen.",
            ),
        );
    }
    if !has_real_whisper_model(p) {
        return Err(
            String::from_str(
                "faster-whisper model files not found. Please install the model from the Models screen.",
            ),
        );
    }
    Ok(())
}

} // verus!
