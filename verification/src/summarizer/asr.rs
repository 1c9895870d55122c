//! Speech to text (audio extracted with FFmpeg, transcribed with Whisper).
use vstd::prelude::*;

use crate::error::Error;

verus! {

/// A transcriber using a Whisper model (`tiny`, `base`, `small`, `medium`, `large`).
#[derive(Debug, Clone)]
pub struct AsrTranscriber {
    /// Model name.
    pub model: String,
}

impl AsrTranscriber {
    /// A transcriber using `model`.
    pub fn new(model: String) -> (t: Self)
        ensures
            t.model@ == model@,
    {
        AsrTranscriber { model }
    }

    /// The transcript of the video at `video_path`: empty, until transcription is
    /// available.
    pub fn transcribe(&self, video_path: &str) -> (r: Result<String, Error>)
        ensures
            r matches Ok(t) && t@.len() == 0,
    {
        Ok(String::new())
    }
}

} // verus!
