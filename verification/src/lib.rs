//! Audio sample buffers and the rules around audio devices and streams.
pub mod buffers;
pub mod builder;
pub mod device;
pub mod error;
pub mod queues;
pub mod stream;
pub mod traits;

use vstd::prelude::*;

verus! {

/// Identifier of an audio object.
pub type PvcAudioId = u32;

} // verus!
