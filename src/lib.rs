//! A C-callable boundary around a speech-recognition and translation
//! pipeline: owned copies of caller audio, a process-wide pipeline slot with
//! shared, reference-counted access, text handed to the caller as
//! nul-terminated byte strings, and integer status codes.
pub mod error;
pub mod buffer;
pub mod handoff;
pub mod pipeline;
pub mod slot;
pub mod boundary;
