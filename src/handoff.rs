use vstd::prelude::*;
use crate::error::BoundaryError;
use vstd::utf8::encode_utf8;

verus! {

/// The bytes of a text as they cross the boundary: its UTF-8 encoding
/// followed by one terminating zero byte.
pub open spec fn c_string_of(text: Seq<char>) -> Seq<u8> {
    encode_utf8(text).push(0u8)
}

/// A text can be carried as a nul-terminated string when its encoding holds
/// no zero byte.
pub open spec fn fits_c_string(text: Seq<char>) -> bool {
    forall|i: int| 0 <= i < encode_utf8(text).len() ==> encode_utf8(text)[i] != 0u8
}

/// An owned, nul-terminated text handed across the boundary. It can be read
/// until it is released; releasing consumes it, so it cannot be read or
/// released again.
pub struct OwnedText {
    bytes: Vec<u8>,
}

impl View for OwnedText {
    type V = Seq<u8>;

    /// The bytes, terminating zero included.
    closed spec fn view(&self) -> Seq<u8> {
        self.bytes@
    }
}

impl OwnedText {
    /// Every byte but the last is nonzero, and the last is zero.
    pub open spec fn wf(&self) -> bool {
        &&& self@.len() > 0
        &&& self@.last() == 0u8
        &&& forall|i: int| 0 <= i < self@.len() - 1 ==> self@[i] != 0u8
    }

    /// Number of bytes before the terminating zero.
    pub fn len(&self) -> (r: usize)
        requires
            self.wf(),
        ensures
            r == self@.len() - 1,
    {
        self.bytes.len() - 1
    }

    /// The bytes, terminating zero included.
    pub fn as_bytes_with_nul(&self) -> (r: &[u8])
        ensures
            r@ == self@,
    {
        self.bytes.as_slice()
    }

    /// Gives up the handle and yields its bytes, terminating zero included.
    pub fn into_bytes_with_nul(self) -> (r: Vec<u8>)
        ensures
            r@ == self@,
    {
        self.bytes
    }

    /// Releases the handle and frees its bytes.
    pub fn release(self) {
    }
}

/// Encodes a text as a nul-terminated boundary string. A text whose
/// encoding holds a zero byte is refused with `EncodingError`.
pub fn encode_text(text: &String) -> (r: Result<OwnedText, BoundaryError>)
    ensures
        r is Ok <==> fits_c_string(text@),
        r is Err ==> r == Err::<OwnedText, _>(BoundaryError::EncodingError),
        r matches Ok(h) ==> h@ == c_string_of(text@) && h.wf(),
{
    let src: &[u8] = text.as_str().as_bytes();
    let mut out: Vec<u8> = Vec::with_capacity(src.len());
    let mut i: usize = 0;
    while i < src.len()
        invariant
            src@ == encode_utf8(text@),
            i <= src@.len(),
            out@ == src@.subrange(0, i as int),
            forall|j: int| 0 <= j < i ==> src@[j] != 0u8,
        decreases src@.len() - i,
    {
        if src[i] == 0 {
            return Err(BoundaryError::EncodingError);
        }
        out.push(src[i]);
        i = i + 1;
    }
    out.push(0);
    assert(out@ =~= c_string_of(text@));
    Ok(OwnedText { bytes: out })
}

/// Releases a handle held in a caller's slot, if there is one, and empties
/// the slot. An empty slot is left as it is.
pub fn suno_free_string(handle: &mut Option<OwnedText>)
    ensures
        *final(handle) is None,
{
    match handle.take() {
        Some(h) => h.release(),
        None => {},
    }
}

} // verus!
