use vstd::prelude::*;
use vstd::utf8::{decode_utf8, valid_utf8};
use crate::buffer::{copy_view, view_is_valid, FFIAudioChunk};
use crate::error::{status_code, BoundaryError, STATUS_FAILED, STATUS_OK};
use crate::handoff::{c_string_of, encode_text, fits_c_string, OwnedText};
use crate::pipeline::{Pipeline, PipelineError, Translation};
use crate::slot::{after_clear, after_install, PipelineSlot};

verus! {

/// Relies on std::str::from_utf8: it accepts exactly the valid UTF-8 byte
/// strings, and the accepted text has those bytes as its encoding.
#[verifier::external_body]
fn decode_text(bytes: &[u8]) -> (r: Option<String>)
    ensures
        r is Some <==> valid_utf8(bytes@),
        r matches Some(s) ==> s@ == decode_utf8(bytes@),
{
    match std::str::from_utf8(bytes) {
        Ok(s) => Some(s.to_string()),
        Err(_) => None,
    }
}

/// A text argument is usable when it is present and valid UTF-8.
pub open spec fn text_arg_ok(b: Option<&[u8]>) -> bool {
    b is Some && valid_utf8(b.unwrap()@)
}

/// The text of a usable argument.
pub open spec fn text_arg(b: Option<&[u8]>) -> Seq<char> {
    decode_utf8(b.unwrap()@)
}

/// The four text arguments of an initialisation, decoded.
pub struct InitArgs {
    pub whisper_model_path: String,
    pub gemma_model_path: String,
    pub source_lang: String,
    pub target_lang: String,
}

/// Decodes one text argument; an absent or malformed one is `InvalidInput`.
pub fn read_text_arg(b: Option<&[u8]>) -> (r: Result<String, BoundaryError>)
    ensures
        r is Ok <==> text_arg_ok(b),
        r is Err ==> r == Err::<String, _>(BoundaryError::InvalidInput),
        r matches Ok(s) ==> s@ == text_arg(b),
{
    match b {
        None => Err(BoundaryError::InvalidInput),
        Some(bytes) => match decode_text(bytes) {
            Some(s) => Ok(s),
            None => Err(BoundaryError::InvalidInput),
        },
    }
}

/// Checks and decodes the four text arguments of an initialisation.
pub fn init_args(
    whisper_model_path: Option<&[u8]>,
    gemma_model_path: Option<&[u8]>,
    source_lang: Option<&[u8]>,
    target_lang: Option<&[u8]>,
) -> (r: Result<InitArgs, BoundaryError>)
    ensures
        r is Ok <==> text_arg_ok(whisper_model_path) && text_arg_ok(gemma_model_path)
            && text_arg_ok(source_lang) && text_arg_ok(target_lang),
        r is Err ==> r == Err::<InitArgs, _>(BoundaryError::InvalidInput),
        r matches Ok(a) ==> {
            &&& a.whisper_model_path@ == text_arg(whisper_model_path)
            &&& a.gemma_model_path@ == text_arg(gemma_model_path)
            &&& a.source_lang@ == text_arg(source_lang)
            &&& a.target_lang@ == text_arg(target_lang)
        },
{
    let w = read_text_arg(whisper_model_path);
    let g = read_text_arg(gemma_model_path);
    let s = read_text_arg(source_lang);
    let t = read_text_arg(target_lang);
    match (w, g, s, t) {
        (Ok(w), Ok(g), Ok(s), Ok(t)) => Ok(
            InitArgs { whisper_model_path: w, gemma_model_path: g, source_lang: s, target_lang: t },
        ),
        _ => Err(BoundaryError::InvalidInput),
    }
}

/// Installs a freshly built pipeline, or reports a failed construction as
/// `ModelLoadError` and leaves the slot as it was.
pub fn install_outcome<P>(slot: &mut PipelineSlot<P>, outcome: Result<P, PipelineError>) -> (r:
    Result<(), BoundaryError>)
    ensures
        r is Ok <==> outcome is Ok,
        r is Err ==> r == Err::<(), _>(BoundaryError::ModelLoadError) && final(slot)@ == old(slot)@,
        outcome matches Ok(p) ==> final(slot)@ == after_install(old(slot)@, p),
{
    match outcome {
        Ok(p) => {
            slot.install(p);
            Ok(())
        },
        Err(_) => Err(BoundaryError::ModelLoadError),
    }
}

/// Initialises the pipeline from the four text arguments. Malformed
/// arguments and failed construction give `-1` and leave the slot as it was;
/// on `0` a new pipeline is installed, replacing any earlier one.
pub fn suno_init<P: Pipeline>(
    slot: &mut PipelineSlot<P>,
    whisper_model_path: Option<&[u8]>,
    gemma_model_path: Option<&[u8]>,
    source_lang: Option<&[u8]>,
    target_lang: Option<&[u8]>,
) -> (r: i32)
    ensures
        r == STATUS_OK || r == STATUS_FAILED,
        !(text_arg_ok(whisper_model_path) && text_arg_ok(gemma_model_path) && text_arg_ok(
            source_lang,
        ) && text_arg_ok(target_lang)) ==> r == STATUS_FAILED,
        r == STATUS_FAILED ==> final(slot)@ == old(slot)@,
        r == STATUS_OK ==> final(slot)@ is Some,
{
    let outcome = match init_args(whisper_model_path, gemma_model_path, source_lang, target_lang) {
        Err(e) => Err(e),
        Ok(a) => install_outcome(
            slot,
            P::create(
                a.whisper_model_path.as_str(),
                a.gemma_model_path.as_str(),
                a.source_lang.as_str(),
                a.target_lang.as_str(),
            ),
        ),
    };
    status_code(&outcome)
}

/// The caller's result slot: two text handles and the confidence bits.
pub struct FFITranslation {
    pub original: Option<OwnedText>,
    pub translated: Option<OwnedText>,
    pub confidence: u32,
}

impl FFITranslation {
    /// A result slot with no handles in it.
    pub fn empty() -> (r: Self)
        ensures
            r.original is None,
            r.translated is None,
            r.confidence == 0,
    {
        FFITranslation { original: None, translated: None, confidence: 0 }
    }
}

/// The result slot holds the encoding of `t`.
pub open spec fn holds_translation(r: FFITranslation, t: Translation) -> bool {
    &&& r.original matches Some(h) && h@ == c_string_of(t.original@) && h.wf()
    &&& r.translated matches Some(h) && h@ == c_string_of(t.translated@) && h.wf()
    &&& r.confidence == t.confidence
}

/// A pipeline outcome can be handed to the caller: it is a translation
/// whose two texts fit nul-terminated strings.
pub open spec fn deliverable(outcome: Result<Translation, PipelineError>) -> bool {
    outcome matches Ok(t) && fits_c_string(t.original@) && fits_c_string(t.translated@)
}

/// Writes a pipeline outcome into the caller's result slot. Either all three
/// fields are written, or, on failure, none: a failed inference is
/// `InferenceError`, a text that holds a zero byte is `EncodingError`.
pub fn deliver(outcome: Result<Translation, PipelineError>, result: &mut FFITranslation) -> (r:
    Result<(), BoundaryError>)
    ensures
        r is Ok <==> deliverable(outcome),
        outcome is Err ==> r == Err::<(), _>(BoundaryError::InferenceError),
        outcome is Ok && !deliverable(outcome) ==> r == Err::<(), _>(
            BoundaryError::EncodingError,
        ),
        r is Err ==> *final(result) == *old(result),
        r is Ok ==> holds_translation(*final(result), outcome.unwrap()),
{
    match outcome {
        Err(_) => Err(BoundaryError::InferenceError),
        Ok(t) => {
            let original = encode_text(&t.original);
            let translated = encode_text(&t.translated);
            match (original, translated) {
                (Ok(o), Ok(d)) => {
                    result.original = Some(o);
                    result.translated = Some(d);
                    result.confidence = t.confidence;
                    Ok(())
                },
                _ => Err(BoundaryError::EncodingError),
            }
        },
    }
}

/// Runs one chunk through the installed pipeline and hands the result to
/// the caller. `-1` when no pipeline is installed, the descriptor is
/// invalid, inference fails or a text cannot be encoded; the result slot is
/// then untouched. On `0` all three fields hold the translation.
pub fn suno_process_audio<P: Pipeline>(
    slot: &PipelineSlot<P>,
    audio_chunk: Option<&FFIAudioChunk>,
    result: &mut FFITranslation,
) -> (r: i32)
    ensures
        r == STATUS_OK || r == STATUS_FAILED,
        slot@ is None ==> r == STATUS_FAILED,
        !(audio_chunk is Some && view_is_valid(*audio_chunk.unwrap())) ==> r == STATUS_FAILED,
        r == STATUS_FAILED ==> *final(result) == *old(result),
        r == STATUS_OK ==> exists|t: Translation| #[trigger]
            holds_translation(*final(result), t),
{
    let outcome = match slot.acquire() {
        Err(e) => Err(e),
        Ok(pipeline) => match copy_view(audio_chunk) {
            Err(e) => Err(e),
            Ok(chunk) => {
                let produced = pipeline.process_audio_sync(chunk);
                let ghost t = produced->Ok_0;
                let delivered = deliver(produced, result);
                assert(delivered is Ok ==> holds_translation(*result, t));
                delivered
            },
        },
    };
    status_code(&outcome)
}

/// Removes the installed pipeline, if any. Calls in flight keep theirs.
pub fn suno_cleanup<P>(slot: &mut PipelineSlot<P>)
    ensures
        final(slot)@ == after_clear(old(slot)@),
{
    slot.clear();
}

} // verus!
