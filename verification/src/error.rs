//! Errors reported by the library.
use vstd::prelude::*;

verus! {

/// What can go wrong in this library.
#[derive(Debug)]
pub enum AudioError {
    /// An error reported by the audio backend, carried as its message.
    BackendError(String),
    /// A sample was refused because the buffer is full.
    BufferFull,
    /// No supported configuration was found for the named device.
    NoInfoForAudioDevice(String),
    /// The sample format of a stream is not supported.
    UnsupportedSampleFormat(String),
}

} // verus!
