//! Speech transcription with a local whisper model.
//!
//! The audio is decoded to mono 16 kHz samples and transcribed outside this
//! crate; here stand the checks made before and after, and how the recognized
//! segments become one text.

use vstd::prelude::*;

use crate::extractor::{finish_text, ExtractError};
use crate::text::{trim_spec, trim_text};
use crate::validate::{model_path_error, string_view, validate_whisper_model_path, FileStatus};

verus! {

#[derive(Debug, Default)]
pub struct WhisperExtractor;

pub const WHISPER_REQUIRED_SAMPLE_RATE: u32 = 16_000;

pub const WHISPER_REQUIRED_CHANNELS: u16 = 1;

/// The recognized segments, each trimmed, the empty ones left out, joined by
/// newlines in order.
pub open spec fn transcript_of(segments: Seq<Seq<char>>) -> Seq<char>
    decreases segments.len(),
{
    if segments.len() == 0 {
        seq![]
    } else {
        let before = transcript_of(segments.drop_last());
        let t = trim_spec(segments.last());
        if t.len() == 0 {
            before
        } else if before.len() == 0 {
            t
        } else {
            before + seq!['\n'] + t
        }
    }
}

impl WhisperExtractor {
    /// The model path from the value of the model-path variable and what is
    /// on disk there; checked before any audio is decoded.
    pub fn model_path(&self, value: Option<String>, status: FileStatus) -> (r: Result<
        String,
        ExtractError,
    >)
        ensures
            match model_path_error(string_view(value), status) {
                Some(e) => r == Err::<String, ExtractError>(ExtractError::Model(e)),
                None => r matches Ok(p) && string_view(value) == Some(p@),
            },
    {
        match validate_whisper_model_path(value, status) {
            Ok(p) => Ok(p),
            Err(e) => Err(ExtractError::Model(e)),
        }
    }

    /// Decoded audio must hold at least one sample.
    pub fn require_samples(&self, sample_count: usize) -> (r: Result<(), ExtractError>)
        ensures
            r is Ok <==> sample_count > 0,
            r matches Err(e) ==> e is EmptyAudio,
    {
        if sample_count == 0 {
            Err(ExtractError::EmptyAudio)
        } else {
            Ok(())
        }
    }

    /// The transcript of the recognized segments, refused when empty.
    pub fn transcript(&self, segments: &Vec<String>) -> (r: Result<String, ExtractError>)
        ensures
            r is Ok <==> trim_spec(transcript_of(segments@.map_values(|s: String| s@))).len() > 0,
            r matches Ok(t) ==> t@ == trim_spec(
                transcript_of(segments@.map_values(|s: String| s@)),
            ),
            r matches Err(e) ==> e is EmptyOutput,
    {
        let ghost all = segments@.map_values(|s: String| s@);
        let mut text = String::new();
        let mut i: usize = 0;
        while i < segments.len()
            invariant
                i <= segments@.len(),
                all == segments@.map_values(|s: String| s@),
                text@ == transcript_of(all.subrange(0, i as int)),
            decreases segments@.len() - i,
        {
            let ghost before = text@;
            let t = trim_text(segments[i].as_str());
            if t.as_str().unicode_len() > 0 {
                if text.as_str().unicode_len() > 0 {
                    text.append("\n");
                }
                text.append(t.as_str());
            }
            proof {
                reveal_strlit("\n");
                let next = all.subrange(0, i + 1);
                assert(next.drop_last() =~= all.subrange(0, i as int));
                assert(next.last() == segments@[i as int]@);
                assert(text@ =~= transcript_of(next));
            }
            i = i + 1;
        }
        assert(all.subrange(0, i as int) =~= all);
        finish_text(text.as_str())
    }
}

} // verus!
