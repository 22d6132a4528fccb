//! Commands beside the pipeline.

pub mod download_whisper;
