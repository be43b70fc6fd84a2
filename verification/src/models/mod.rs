//! The local models the application depends on, and their installation status.
pub mod checker;
pub mod installer;
pub mod ollama;

use vstd::prelude::*;

verus! {

broadcast use vstd::string::group_string_axioms;

/// Installation status of one model, as shown on the model setup screen.
#[derive(Debug, Clone, PartialEq, Eq)]
pub struct ModelStatus {
    pub id: String,
    pub name: String,
    pub installed: bool,
    pub path: Option<String>,
}

/// The models the application knows about.
#[derive(Debug, Clone, Copy, PartialEq, Eq, Structural)]
pub enum ModelId {
    Ollama,
    Qwen,
    FasterWhisper,
    SileroVad,
    MeloTts,
}

/// The identifier of a model, as used by the frontend.
pub open spec fn model_key(id: ModelId) -> Seq<char> {
    match id {
        ModelId::Ollama => "ollama"@,
        ModelId::Qwen => "qwen"@,
        ModelId::FasterWhisper => "faster-whisper"@,
        ModelId::SileroVad => "silero-vad"@,
        ModelId::MeloTts => "melotts"@,
    }
}

/// The human-readable name of a model.
pub open spec fn model_display_name(id: ModelId) -> Seq<char> {
    match id {
        ModelId::Ollama => "Ollama"@,
        ModelId::Qwen => "Qwen2.5-7B"@,
        ModelId::FasterWhisper => "Faster-Whisper"@,
        ModelId::SileroVad => "Silero VAD"@,
        ModelId::MeloTts => "MeloTTS"@,
    }
}

/// The model that an identifier names, if any.
pub open spec fn model_from_key(s: Seq<char>) -> Option<ModelId> {
    if s == "ollama"@ {
        Some(ModelId::Ollama)
    } else if s == "qwen"@ {
        Some(ModelId::Qwen)
    } else if s == "faster-whisper"@ {
        Some(ModelId::FasterWhisper)
    } else if s == "silero-vad"@ {
        Some(ModelId::SileroVad)
    } else if s == "melotts"@ {
        Some(ModelId::MeloTts)
    } else {
        None
    }
}

/// Every model, in the order the setup screen lists them.
pub open spec fn all_models() -> Seq<ModelId> {
    seq![ModelId::Ollama, ModelId::Qwen, ModelId::FasterWhisper, ModelId::SileroVad, ModelId::MeloTts]
}

impl ModelId {
    pub fn as_str(&self) -> (s: &'static str)
        ensures
            s@ == model_key(*self),
    {
        match self {
            ModelId::Ollama => "ollama",
            ModelId::Qwen => "qwen",
            ModelId::FasterWhisper => "faster-whisper",
            ModelId::SileroVad => "silero-vad",
            ModelId::MeloTts => "melotts",
        }
    }

    pub fn display_name(&self) -> (s: &'static str)
        ensures
            s@ == model_display_name(*self),
    {
        match self {
            ModelId::Ollama => "Ollama",
            ModelId::Qwen => "Qwen2.5-7B",
            ModelId::FasterWhisper => "Faster-Whisper",
            ModelId::SileroVad => "Silero VAD",
            ModelId::MeloTts => "MeloTTS",
        }
    }

    pub fn from_str(s: &str) -> (r: Option<Self>)
        ensures
            r == model_from_key(s@),
    {
        let owned = String::from_str(s);
        if owned == String::from_str("ollama") {
            Some(ModelId::Ollama)
        } else if owned == String::from_str("qwen") {
            Some(ModelId::Qwen)
        } else if owned == String::from_str("faster-whisper") {
            Some(ModelId::FasterWhisper)
        } else if owned == String::from_str("silero-vad") {
            Some(ModelId::SileroVad)
        } else if owned == String::from_str("melotts") {
            Some(ModelId::MeloTts)
        } else {
            None
        }
    }

    pub fn all() -> (r: &'static [Self])
        ensures
            r@ == all_models(),
    {
        &[ModelId::Ollama, ModelId::Qwen, ModelId::FasterWhisper, ModelId::SileroVad, ModelId::MeloTts]
    }
}

impl ModelStatus {
    pub fn new(model_id: ModelId, installed: bool, path: Option<String>) -> (r: Self)
        ensures
            r.id@ == model_key(model_id),
            r.name@ == model_display_name(model_id),
            r.installed == installed,
            r.path == path,
    {
        ModelStatus {
            id: String::from_str(model_id.as_str()),
            name: String::from_str(model_id.display_name()),
            installed,
            path,
        }
    }
}

} // verus!

verus! {

/// Reading back the identifier of a model gives that model.
pub proof fn law_model_key_round_trip(id: ModelId)
    ensures
        model_from_key(model_key(id)) == Some(id),
{
    reveal_strlit("ollama");
    reveal_strlit("qwen");
    reveal_strlit("faster-whisper");
    reveal_strlit("silero-vad");
    reveal_strlit("melotts");
    assert("ollama"@.len() == 6 && "qwen"@.len() == 4 && "faster-whisper"@.len() == 14);
    assert("silero-vad"@.len() == 10 && "melotts"@.len() == 7);
}

/// Only the identifier of a model names it: any other text names no model.
pub proof fn law_only_model_keys_parse(s: Seq<char>)
    ensures
        model_from_key(s) is Some ==> model_key(model_from_key(s)->Some_0) == s,
        (forall|id: ModelId| model_key(id) != s) ==> model_from_key(s) is None,
{
    if model_from_key(s) is None {
    } else {
        assert(model_key(model_from_key(s)->Some_0) == s);
    }
}

/// Every model appears exactly once in the list of all models.
pub proof fn law_all_models_once(id: ModelId)
    ensures
        all_models().contains(id),
        forall|i: int, j: int|
            0 <= i < all_models().len() && 0 <= j < all_models().len() && i != j ==> all_models()[i]
                != all_models()[j],
{
    match id {
        ModelId::Ollama => assert(all_models()[0] == id),
        ModelId::Qwen => assert(all_models()[1] == id),
        ModelId::FasterWhisper => assert(all_models()[2] == id),
        ModelId::SileroVad => assert(all_models()[3] == id),
        ModelId::MeloTts => assert(all_models()[4] == id),
    }
}

} // verus!
