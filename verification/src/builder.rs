//! Building buffers of the various kinds.
use crate::buffers::{AudioFixedQueue, AudioRingBuffer, AudioUnboundQueue};
use crate::device::{Input, Output};
use crate::queues::valid_capacity;
use crate::traits::AudioBuffer;
use std::marker::PhantomData;
use vstd::prelude::*;

verus! {

/// The buffer size, in samples, that builders start with.
pub const AUDIOBUFFER_SIZE: usize = 48000 * 2;

/// Represents the kind of buffer used by [`AudioBufferBuilder`] to build an
/// [`AudioBuffers`].
#[derive(Debug, Clone, Copy)]
pub enum BufferKind {
    /// An `AudioRingBuffer`
    Ring,
    /// An `AudioFixedQueue`
    Fixed,
    /// An `AudioUnboundQueue`
    Unbound,
}

impl Default for BufferKind {
    fn default() -> (k: Self)
        ensures
            k == BufferKind::Ring,
    {
        BufferKind::Ring
    }
}

/// Container used by builders to return the various buffer types.
pub enum AudioBuffers {
    Ring(AudioRingBuffer),
    Fixed(AudioFixedQueue),
    Unbound(AudioUnboundQueue),
}

impl AudioBuffers {
    /// The kind of the buffer held.
    pub open spec fn kind(&self) -> BufferKind {
        match self {
            AudioBuffers::Ring(_) => BufferKind::Ring,
            AudioBuffers::Fixed(_) => BufferKind::Fixed,
            AudioBuffers::Unbound(_) => BufferKind::Unbound,
        }
    }

    /// The buffer held is freshly made: well formed, empty, for `channels`
    /// channels, and, for the bounded kinds, of capacity `size`.
    pub open spec fn is_fresh(&self, channels: u32, size: nat) -> bool {
        match self {
            AudioBuffers::Ring(b) => {
                &&& b.wf()
                &&& b.channel_count() == channels
                &&& b.buffer_size() == size
                &&& b.samples() == Seq::<u32>::empty()
            },
            AudioBuffers::Fixed(b) => {
                &&& b.wf()
                &&& b.channel_count() == channels
                &&& b.buffer_size() == size
                &&& b.samples() == Seq::<u32>::empty()
            },
            AudioBuffers::Unbound(b) => {
                &&& b.wf()
                &&& b.channel_count() == channels
                &&& b.samples() == Seq::<u32>::empty()
            },
        }
    }
}

/// Builder for creating [`AudioBuffers`] of various kinds.
#[derive(Debug, Clone, Copy)]
pub struct AudioBufferBuilder;

impl AudioBufferBuilder {
    /// Returns a [`BufferBuilder`] for input buffers.
    pub fn input() -> (b: BufferBuilder<Input>)
        ensures
            b.kind() == BufferKind::Ring,
            b.buffer_size() == AUDIOBUFFER_SIZE,
    {
        BufferBuilder::<Input>::new(BufferKind::Ring)
    }

    /// Returns a [`BufferBuilder`] for output buffers.
    pub fn output() -> (b: BufferBuilder<Output>)
        ensures
            b.kind() == BufferKind::Ring,
            b.buffer_size() == AUDIOBUFFER_SIZE,
    {
        BufferBuilder::<Output>::new(BufferKind::Ring)
    }
}

/// Collects the kind and size of the buffer to build.
#[derive(Debug)]
pub struct BufferBuilder<T> {
    kind: BufferKind,
    buffer_size: usize,
    _state: PhantomData<T>,
}

impl<T> Default for BufferBuilder<T> {
    fn default() -> (b: Self)
        ensures
            b.kind() == BufferKind::Ring,
            b.buffer_size() == 0,
    {
        Self { kind: BufferKind::Ring, buffer_size: 0, _state: PhantomData }
    }
}

impl<T> BufferBuilder<T> {
    /// The kind of buffer that will be built.
    pub closed spec fn kind(&self) -> BufferKind {
        self.kind
    }

    /// The size, in samples, of the buffer that will be built.
    pub closed spec fn buffer_size(&self) -> usize {
        self.buffer_size
    }

    /// The kind of buffer that will be built.
    pub fn chosen_kind(&self) -> (k: BufferKind)
        ensures
            k == self.kind(),
    {
        self.kind
    }

    /// The size, in samples, of the buffer that will be built.
    pub fn chosen_buffer_size(&self) -> (n: usize)
        ensures
            n == self.buffer_size(),
    {
        self.buffer_size
    }

    /// Returns a [`BufferBuilder`] with the specified [`BufferKind`] and the
    /// default buffer size.
    pub fn new(kind: BufferKind) -> (b: Self)
        ensures
            b.kind() == kind,
            b.buffer_size() == AUDIOBUFFER_SIZE,
    {
        Self { kind, buffer_size: AUDIOBUFFER_SIZE, _state: PhantomData }
    }

    /// Returns a [`BufferBuilder`] with the specified buffer size.
    pub fn set_buffer_size(self, buffer_size: usize) -> (b: Self)
        ensures
            b.kind() == self.kind(),
            b.buffer_size() == buffer_size,
    {
        let mut this = self;
        this.buffer_size = buffer_size;
        this
    }

    /// Returns a [`BufferBuilder`] with the specified [`BufferKind`].
    pub fn set_kind(self, kind: BufferKind) -> (b: Self)
        ensures
            b.kind() == kind,
            b.buffer_size() == self.buffer_size(),
    {
        let mut this = self;
        this.kind = kind;
        this
    }
}

impl BufferBuilder<Input> {
    /// Builds an empty buffer of the chosen kind for input audio with
    /// `channels` channels; the bounded kinds get the chosen size.
    pub fn build(self, channels: u16) -> (r: AudioBuffers)
        requires
            self.kind() is Unbound || valid_capacity(self.buffer_size() as int),
        ensures
            r.kind() == self.kind(),
            r.is_fresh(channels as u32, self.buffer_size() as nat),
    {
        match self.kind {
            BufferKind::Ring => {
                let buff = AudioRingBuffer::new(channels as u32, self.buffer_size);
                AudioBuffers::Ring(buff)
            },
            BufferKind::Fixed => {
                let buff = AudioFixedQueue::new(channels as u32, self.buffer_size);
                AudioBuffers::Fixed(buff)
            },
            BufferKind::Unbound => {
                let buff = AudioUnboundQueue::new(channels as u32);
                AudioBuffers::Unbound(buff)
            },
        }
    }
}

} // verus!
