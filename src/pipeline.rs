use vstd::prelude::*;
use crate::buffer::AudioChunk;

verus! {

/// What the pipeline produced for one audio chunk. `confidence` carries the
/// raw bit pattern of a 32-bit float, passed through as the pipeline gave
/// it, without clamping.
#[derive(Debug, Clone)]
pub struct Translation {
    pub original: String,
    pub translated: String,
    pub confidence: u32,
}

/// A failure reported by a pipeline.
#[derive(Debug, Clone)]
pub struct PipelineError {
    pub message: String,
}

/// The speech-recognition and translation engine driven through the
/// boundary. Implementations are supplied by the host; nothing is assumed of
/// what they return.
pub trait Pipeline: Sized {
    /// Loads the recognition and translation models and prepares a pipeline
    /// for the given pair of languages.
    fn create(
        whisper_model_path: &str,
        gemma_model_path: &str,
        source_lang: &str,
        target_lang: &str,
    ) -> Result<Self, PipelineError>;

    /// Recognises and translates one chunk, blocking until a result or a
    /// failure is available.
    fn process_audio_sync(&self, chunk: AudioChunk) -> Result<Translation, PipelineError>;
}

} // verus!
