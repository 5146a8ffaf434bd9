//! Whisper models: which file each model is, where it is fetched from and kept, and which
//! alignment preset it uses.
use vstd::prelude::*;
use vstd::string::*;

verus! {

/// Folder in which downloaded models are kept.
pub const MODELS_PATH: &'static str = "./models";

/// Address under which the model files are published.
pub const MODELS_URL: &'static str = "https://huggingface.co/ggerganov/whisper.cpp/resolve/main";

/// The Whisper model sizes that the transcriber can run.
#[derive(Clone, Copy, Debug, PartialEq, Eq, Structural)]
pub enum ModelType {
    Base,
    Tiny,
    Small,
    Medium,
    Large,
}

/// The DTW alignment presets of whisper.cpp (`whisper_rs::DtwModelPreset`).
#[derive(Clone, Copy, Debug, PartialEq, Eq, Structural)]
pub enum DtwPreset {
    TinyEn,
    Tiny,
    BaseEn,
    Base,
    SmallEn,
    Small,
    MediumEn,
    Medium,
    LargeV1,
    LargeV2,
    LargeV3,
    LargeV3Turbo,
}

/// The file name of a model.
pub open spec fn model_filename(model: ModelType) -> Seq<char> {
    match model {
        ModelType::Base => "ggml-base.bin"@,
        ModelType::Tiny => "ggml-tiny.bin"@,
        ModelType::Small => "ggml-small.bin"@,
        ModelType::Medium => "ggml-medium.bin"@,
        ModelType::Large => "ggml-large-v3.bin"@,
    }
}

/// The alignment preset of a model.
pub open spec fn model_dtw_preset(model: ModelType) -> DtwPreset {
    match model {
        ModelType::Base => DtwPreset::BaseEn,
        ModelType::Tiny => DtwPreset::TinyEn,
        ModelType::Small => DtwPreset::Small,
        ModelType::Medium => DtwPreset::Medium,
        ModelType::Large => DtwPreset::LargeV3,
    }
}

/// Where a model is kept on disk.
pub open spec fn model_path_text(model: ModelType) -> Seq<char> {
    MODELS_PATH@ + "/"@ + model_filename(model)
}

/// Where a model is fetched from.
pub open spec fn model_url_text(model: ModelType) -> Seq<char> {
    MODELS_URL@ + "/"@ + model_filename(model)
}

/// The download that fetches a model: the folder to create, the address to fetch, and the
/// file to write.
#[derive(Debug)]
pub struct ModelDownload {
    pub folder: String,
    pub url: String,
    pub path: String,
}

/// How a model download failed: the target file already exists, or anything else (with its
/// message).
#[derive(Debug)]
pub enum DownloadFailure {
    AlreadyExists,
    Other(String),
}

impl ModelType {
    /// The file name of this model.
    pub fn filename(&self) -> (name: &'static str)
        ensures
            name@ == model_filename(*self),
    {
        match self {
            ModelType::Base => "ggml-base.bin",
            ModelType::Tiny => "ggml-tiny.bin",
            ModelType::Small => "ggml-small.bin",
            ModelType::Medium => "ggml-medium.bin",
            ModelType::Large => "ggml-large-v3.bin",
        }
    }

    /// The alignment preset that this model is run with.
    pub fn get_dtw_params(&self) -> (preset: DtwPreset)
        ensures
            preset == model_dtw_preset(*self),
    {
        match self {
            ModelType::Base => DtwPreset::BaseEn,
            ModelType::Tiny => DtwPreset::TinyEn,
            ModelType::Small => DtwPreset::Small,
            ModelType::Medium => DtwPreset::Medium,
            ModelType::Large => DtwPreset::LargeV3,
        }
    }
}

/// The download that makes model `model_type` available: create `./models`, fetch
/// `<published address>/<file name>` into `./models/<file name>`.
pub fn download_model(model_type: ModelType) -> (download: ModelDownload)
    ensures
        download.folder@ == MODELS_PATH@,
        download.url@ == model_url_text(model_type),
        download.path@ == model_path_text(model_type),
        download.url@ == MODELS_URL@ + "/"@ + model_filename(model_type),
        download.path@ == MODELS_PATH@ + "/"@ + model_filename(model_type),
{
    let name = model_type.filename();
    ModelDownload {
        folder: String::from_str(MODELS_PATH),
        url: String::from_str(MODELS_URL).concat("/").concat(name),
        path: String::from_str(MODELS_PATH).concat("/").concat(name),
    }
}

/// The outcome of a model download: the model's path when the download succeeded or the file
/// was already there, the failure's message otherwise.
pub fn model_download_result(download: ModelDownload, failure: Option<DownloadFailure>) -> (outcome: Result<String, String>)
    ensures
        match failure {
            None => outcome == Ok::<String, String>(download.path),
            Some(DownloadFailure::AlreadyExists) => outcome == Ok::<String, String>(download.path),
            Some(DownloadFailure::Other(message)) => outcome == Err::<String, String>(message),
        },
{
    match failure {
        None => Ok(download.path),
        Some(DownloadFailure::AlreadyExists) => Ok(download.path),
        Some(DownloadFailure::Other(message)) => Err(message),
    }
}

/// A model is fetched from the very file it is kept as: the last component of its address is
/// the file name of its path, and both are the model's file name.
pub proof fn lemma_model_url_fetches_kept_file(model: ModelType)
    ensures
        ({
            let url = model_url_text(model);
            let path = model_path_text(model);
            let url_prefix = MODELS_URL@.len() as int + 1;
            let path_prefix = MODELS_PATH@.len() as int + 1;
            &&& url.subrange(url_prefix, url.len() as int) == path.subrange(path_prefix, path.len() as int)
            &&& url.subrange(url_prefix, url.len() as int) == model_filename(model)
            &&& url.subrange(0, url_prefix) == MODELS_URL@ + "/"@
        }),
{
    reveal_strlit("/");
    let url = model_url_text(model);
    let path = model_path_text(model);
    assert(url.subrange(MODELS_URL@.len() as int + 1, url.len() as int) =~= model_filename(model));
    assert(path.subrange(MODELS_PATH@.len() as int + 1, path.len() as int) =~= model_filename(model));
    assert(url.subrange(0, MODELS_URL@.len() as int + 1) =~= MODELS_URL@ + "/"@);
}

/// Distinct models are kept in distinct files.
pub proof fn lemma_model_paths_distinct(a: ModelType, b: ModelType)
    ensures
        model_path_text(a) == model_path_text(b) ==> a == b,
{
    reveal_strlit("ggml-base.bin");
    reveal_strlit("ggml-tiny.bin");
    reveal_strlit("ggml-small.bin");
    reveal_strlit("ggml-medium.bin");
    reveal_strlit("ggml-large-v3.bin");
    let p = MODELS_PATH@ + "/"@;
    if model_path_text(a) == model_path_text(b) {
        assert(model_filename(a) =~= model_path_text(a).subrange(p.len() as int, model_path_text(a).len() as int));
        assert(model_filename(b) =~= model_path_text(b).subrange(p.len() as int, model_path_text(b).len() as int));
        if a != b {
            assert(model_filename(a).len() != model_filename(b).len() || model_filename(a)[5] != model_filename(b)[5]);
        }
    }
}

} // verus!
