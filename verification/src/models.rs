//! The downloadable Whisper speech models: their files, addresses and sizes.
use vstd::prelude::*;
use crate::paths::{in_app_dir, in_models_dir, path_exists};
use crate::settings::ModelSize;

verus! {

/// Base address of the Whisper model downloads.
pub const MODEL_BASE_URL: &'static str = "https://huggingface.co/ggerganov/whisper.cpp/resolve/main";

/// Address of the Hebrew-optimised model (ivrit-ai turbo, about 1.6 GB).
pub const HEBREW_MODEL_URL: &'static str = "https://huggingface.co/ivrit-ai/whisper-large-v3-turbo-ggml/resolve/main/ggml-model.bin";

/// File name of the Hebrew-optimised model.
pub const HEBREW_MODEL_FILENAME: &'static str = "ggml-ivrit-large-v3-turbo.bin";

/// The file name of a model.
pub open spec fn spec_model_filename(size: ModelSize) -> Seq<char> {
    match size {
        ModelSize::Tiny => "ggml-tiny.bin"@,
        ModelSize::Base => "ggml-base.bin"@,
        ModelSize::Small => "ggml-small.bin"@,
        ModelSize::Medium => "ggml-medium.bin"@,
        ModelSize::Large => "ggml-large-v3.bin"@,
    }
}

/// The file name of the model of `size`.
pub fn model_filename(size: ModelSize) -> (f: &'static str)
    ensures
        f@ == spec_model_filename(size),
{
    match size {
        ModelSize::Tiny => "ggml-tiny.bin",
        ModelSize::Base => "ggml-base.bin",
        ModelSize::Small => "ggml-small.bin",
        ModelSize::Medium => "ggml-medium.bin",
        ModelSize::Large => "ggml-large-v3.bin",
    }
}

/// The download address of the model of `size`.
pub fn model_url(size: ModelSize) -> (u: String)
    ensures
        u@ == MODEL_BASE_URL@ + "/"@ + spec_model_filename(size),
{
    let mut u = MODEL_BASE_URL.to_owned();
    u.append("/");
    u.append(model_filename(size));
    u
}

/// Where the model of `size` is kept: its file in the models directory.
pub fn model_path(size: ModelSize) -> (p: String)
    ensures
        in_app_dir(p@, seq!["models"@, spec_model_filename(size)]),
{
    in_models_dir(model_filename(size))
}

/// Where the Hebrew model is kept: its file in the models directory.
pub fn hebrew_model_path() -> (p: String)
    ensures
        in_app_dir(p@, seq!["models"@, HEBREW_MODEL_FILENAME@]),
{
    in_models_dir(HEBREW_MODEL_FILENAME)
}

/// Whether the model of `size` has been downloaded (its file exists).
pub fn model_exists(size: ModelSize) -> bool {
    let p = model_path(size);
    path_exists(p.as_str())
}

/// Whether the Hebrew model has been downloaded (its file exists).
pub fn hebrew_model_exists() -> bool {
    let p = hebrew_model_path();
    path_exists(p.as_str())
}

/// The approximate size of the model of `size`, in MB, for display.
pub fn model_size_mb(size: ModelSize) -> (mb: u64)
    ensures
        mb == match size {
            ModelSize::Tiny => 75u64,
            ModelSize::Base => 142u64,
            ModelSize::Small => 466u64,
            ModelSize::Medium => 1500u64,
            ModelSize::Large => 3000u64,
        },
{
    match size {
        ModelSize::Tiny => 75,
        ModelSize::Base => 142,
        ModelSize::Small => 466,
        ModelSize::Medium => 1500,
        ModelSize::Large => 3000,
    }
}

/// The approximate size of the Hebrew model, in MB.
pub fn hebrew_model_size_mb() -> (mb: u64)
    ensures
        mb == 1625,
{
    1625
}

} // verus!
