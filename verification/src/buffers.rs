//! The three kinds of audio buffers.
mod fixed;
mod ring;
mod unbound;

pub use fixed::{
    fixed_accepted, fixed_write, lemma_fixed_round_trip, lemma_fixed_write_bounded, lemma_fixed_write_concat,
    AudioFixedQueue,
};
pub use ring::{
    lemma_ring_round_trip, lemma_ring_write_concat, lemma_ring_write_keeps_newest, ring_push,
    ring_write, AudioRingBuffer,
};
pub use unbound::{lemma_unbound_write_concat, AudioUnboundQueue};
