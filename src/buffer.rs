use vstd::prelude::*;

verus! {

/// A caller's description of an audio buffer. Samples are carried as the
/// raw bit patterns of 32-bit floats; `data` is `None` where the caller
/// passed no sample buffer at all.
pub struct FFIAudioChunk {
    pub data: Option<Vec<u32>>,
    pub length: usize,
    pub sample_rate: u32,
    pub channels: u16,
}

/// An owned audio chunk, independent of any caller memory.
pub struct AudioChunk {
    pub data: Vec<u32>,
    pub sample_rate: u32,
    pub channels: u16,
    /// Capture time in milliseconds.
    pub timestamp_ms: u64,
}

/// A descriptor can be copied: it names a sample buffer that holds exactly
/// the declared number of samples, at a positive rate and channel count.
pub open spec fn view_is_valid(v: FFIAudioChunk) -> bool {
    &&& v.data is Some
    &&& v.data.unwrap()@.len() == v.length
    &&& v.sample_rate > 0
    &&& v.channels > 0
}

/// Copies every sample of `src` into a new vector.
pub fn copy_samples(src: &Vec<u32>) -> (r: Vec<u32>)
    ensures
        r@ == src@,
{
    let mut r: Vec<u32> = Vec::with_capacity(src.len());
    let mut i: usize = 0;
    while i < src.len()
        invariant
            i <= src@.len(),
            r@ == src@.subrange(0, i as int),
        decreases src@.len() - i,
    {
        r.push(src[i]);
        i = i + 1;
    }
    assert(r@ =~= src@);
    r
}

/// Turns a caller's buffer description into an owned audio chunk, copying
/// every sample. An absent descriptor or sample buffer, a length that does
/// not match the samples, or a zero rate or channel count is rejected.
pub fn copy_view(view: Option<&FFIAudioChunk>) -> (r: Result<AudioChunk, crate::error::BoundaryError>)
    ensures
        r is Ok <==> (view is Some && view_is_valid(*view.unwrap())),
        r is Err ==> r == Err::<AudioChunk, _>(crate::error::BoundaryError::InvalidInput),
        r matches Ok(c) ==> {
            &&& c.data@ == view.unwrap().data.unwrap()@
            &&& c.sample_rate == view.unwrap().sample_rate
            &&& c.channels == view.unwrap().channels
            &&& c.timestamp_ms == 0
        },
{
    match view {
        None => Err(crate::error::BoundaryError::InvalidInput),
        Some(v) => match &v.data {
            None => Err(crate::error::BoundaryError::InvalidInput),
            Some(samples) => {
                if samples.len() != v.length || v.sample_rate == 0 || v.channels == 0 {
                    Err(crate::error::BoundaryError::InvalidInput)
                } else {
                    Ok(AudioChunk {
                        data: copy_samples(samples),
                        sample_rate: v.sample_rate,
                        channels: v.channels,
                        timestamp_ms: 0,
                    })
                }
            },
        },
    }
}

} // verus!
