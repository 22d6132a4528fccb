//! Where a downloaded whisper model comes from and where it is saved.

use vstd::prelude::*;

use crate::file_type::{extension_of, path_extension};
use crate::text::{join_path, joined, str_eq};

verus! {

/// A whisper model published in ggml format.
#[derive(Clone, Copy, Debug, PartialEq, Eq, Structural)]
pub enum WhisperModel {
    /// Tiny Whisper model - finetuned for English.
    TinyEn,
    /// Tiny Whisper model.
    Tiny,
    /// Base Whisper model - finetuned for English.
    BaseEn,
    /// Base Whisper model.
    Base,
    /// Small Whisper model - finetuned for English.
    SmallEn,
    /// Small Whisper model.
    Small,
    /// Medium Whisper model - finetuned for English.
    MediumEn,
    /// Medium Whisper model.
    Medium,
    /// Large Whisper model - old version.
    LargeV1,
    /// Large Whisper model - V2.
    LargeV2,
    /// Large Whisper model - V3.
    LargeV3,
}

/// Where the models are published.
pub const MODEL_BASE_URL: &'static str = "https://huggingface.co/ggerganov/whisper.cpp/resolve/main/";

pub open spec fn model_filename(m: WhisperModel) -> Seq<char> {
    match m {
        WhisperModel::TinyEn => "ggml-tiny.en.bin"@,
        WhisperModel::Tiny => "ggml-tiny.bin"@,
        WhisperModel::BaseEn => "ggml-base.en.bin"@,
        WhisperModel::Base => "ggml-base.bin"@,
        WhisperModel::SmallEn => "ggml-small.en.bin"@,
        WhisperModel::Small => "ggml-small.bin"@,
        WhisperModel::MediumEn => "ggml-medium.en.bin"@,
        WhisperModel::Medium => "ggml-medium.bin"@,
        WhisperModel::LargeV1 => "ggml-large-v1.bin"@,
        WhisperModel::LargeV2 => "ggml-large-v2.bin"@,
        WhisperModel::LargeV3 => "ggml-large-v3.bin"@,
    }
}

impl WhisperModel {
    /// The model's file name.
    pub fn filename(self) -> (r: &'static str)
        ensures
            r@ == model_filename(self),
    {
        match self {
            WhisperModel::TinyEn => "ggml-tiny.en.bin",
            WhisperModel::Tiny => "ggml-tiny.bin",
            WhisperModel::BaseEn => "ggml-base.en.bin",
            WhisperModel::Base => "ggml-base.bin",
            WhisperModel::SmallEn => "ggml-small.en.bin",
            WhisperModel::Small => "ggml-small.bin",
            WhisperModel::MediumEn => "ggml-medium.en.bin",
            WhisperModel::Medium => "ggml-medium.bin",
            WhisperModel::LargeV1 => "ggml-large-v1.bin",
            WhisperModel::LargeV2 => "ggml-large-v2.bin",
            WhisperModel::LargeV3 => "ggml-large-v3.bin",
        }
    }

    /// The model's download URL.
    pub fn url(self) -> (r: String)
        ensures
            r@ == MODEL_BASE_URL@ + model_filename(self),
    {
        String::from_str(MODEL_BASE_URL).concat(self.filename())
    }
}

/// Arguments of the model download command.
#[derive(Clone, Debug)]
pub struct DownloadWhisperArgs {
    /// Whisper model to download
    pub model: WhisperModel,
    /// Output file path, or a directory to save into
    pub output: String,
    /// Overwrite existing file
    pub overwrite: bool,
}

/// What is on disk at a path.
#[derive(Clone, Copy, Debug, PartialEq, Eq, Structural)]
pub struct PathStatus {
    pub exists: bool,
    pub is_dir: bool,
}

/// Where the model is saved: into an existing directory, over an existing
/// file, to a new path ending in `.bin`, or else into a new directory of that
/// name.
pub open spec fn output_path_spec(path: Seq<char>, filename: Seq<char>, status: PathStatus) -> Seq<
    char,
> {
    if status.exists {
        if status.is_dir {
            joined(path, filename)
        } else {
            path
        }
    } else if extension_of(path) == Some("bin"@) {
        path
    } else {
        joined(path, filename)
    }
}

/// Resolve the output path based on user input and what is on disk there
pub fn resolve_output_path(path: &str, filename: &str, status: PathStatus) -> (r: String)
    ensures
        r@ == output_path_spec(path@, filename@, status),
{
    let is_bin = match path_extension(path) {
        Some(e) => str_eq(e.as_str(), "bin"),
        None => false,
    };
    if status.exists {
        if status.is_dir {
            join_path(path, filename)
        } else {
            String::from_str(path)
        }
    } else if is_bin {
        String::from_str(path)
    } else {
        join_path(path, filename)
    }
}

} // verus!
