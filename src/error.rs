use vstd::prelude::*;

verus! {

/// Why a boundary operation failed. Every variant is reported to a native
/// caller as the same negative status code.
#[derive(Debug, Clone, Copy, PartialEq, Eq, Structural)]
pub enum BoundaryError {
    /// Malformed text, a missing required buffer, or an inconsistent length.
    InvalidInput,
    /// No pipeline has been installed.
    NotInitialized,
    /// The pipeline could not be constructed.
    ModelLoadError,
    /// The pipeline failed to produce a result.
    InferenceError,
    /// A result string cannot be carried as a nul-terminated string.
    EncodingError,
}

/// Status code of a successful boundary call.
pub const STATUS_OK: i32 = 0;

/// Status code of every failed boundary call.
pub const STATUS_FAILED: i32 = -1;

/// The status code reported for an outcome.
pub open spec fn status_of<T>(r: Result<T, BoundaryError>) -> i32 {
    if r is Ok {
        STATUS_OK
    } else {
        STATUS_FAILED
    }
}

} // verus!

verus! {

/// The status code reported to a native caller for an outcome.
pub fn status_code<T>(r: &Result<T, BoundaryError>) -> (s: i32)
    ensures
        s == status_of(*r),
{
    match r {
        Ok(_) => STATUS_OK,
        Err(_) => STATUS_FAILED,
    }
}

} // verus!
