//! The interface shared by the audio buffers.
//!
//! A sample is carried as the 32 bits of its `f32` value (`f32::to_bits`):
//! the buffers only store, order and hand back samples, so the bit pattern
//! stands for the sample one for one.
use crate::error::AudioError;
use vstd::prelude::*;

verus! {

/// How many samples a read into a slice with room for `wanted` takes from a
/// queue that holds `available`: as many as both allow.
pub open spec fn fifo_read_count(available: nat, wanted: nat) -> nat {
    if available <= wanted {
        available
    } else {
        wanted
    }
}

/// A buffer of audio samples.
pub trait AudioBuffer {
    /// The samples held, oldest first.
    spec fn samples(&self) -> Seq<u32>;

    /// The number of channels the buffer was made for.
    spec fn channel_count(&self) -> u32;

    /// The buffer's internal invariant.
    spec fn wf(&self) -> bool;

    fn channels(&self) -> (c: u32)
        ensures
            c == self.channel_count(),
    ;

    fn len(&self) -> (n: usize)
        requires
            self.wf(),
        ensures
            n == self.samples().len(),
    ;
}

/// Types that hand out audio samples, oldest first.
pub trait InputReader: AudioBuffer {
    /// Reads a single audio sample from the buffer: the oldest one, which
    /// leaves the buffer. Returns `None` when the buffer is empty.
    fn read(&mut self) -> (r: Option<u32>)
        requires
            old(self).wf(),
        ensures
            final(self).wf(),
            final(self).channel_count() == old(self).channel_count(),
            old(self).samples().len() == 0 ==> {
                &&& r is None
                &&& final(self).samples() == old(self).samples()
            },
            old(self).samples().len() > 0 ==> {
                &&& r == Some(old(self).samples()[0])
                &&& final(self).samples() == old(self).samples().drop_first()
            },
    ;

    /// Reads samples into `slice`, oldest first, and returns how many were
    /// stored there: they fill the front of `slice`, the rest of it is left
    /// as it was. The read stops only when the slice is full or the buffer is
    /// empty, so it stores the smaller of the two counts.
    fn read_slice(&mut self, slice: &mut [u32]) -> (n: usize)
        requires
            old(self).wf(),
        ensures
            final(self).wf(),
            final(self).channel_count() == old(self).channel_count(),
            n <= old(slice)@.len(),
            n <= old(self).samples().len(),
            n == old(slice)@.len() || n == old(self).samples().len(),
            final(slice)@.len() == old(slice)@.len(),
            final(slice)@.take(n as int) == old(self).samples().take(n as int),
            final(slice)@.skip(n as int) == old(slice)@.skip(n as int),
    ;
}

/// A read into a slice takes the smaller of what the buffer holds and what the
/// slice has room for: never more than either, and exactly one of the two, so
/// a slice with no more room than the buffer holds is filled completely and a
/// buffer holding no more than the slice has room for is emptied.
pub proof fn lemma_fifo_read_count_is_min(available: nat, wanted: nat)
    ensures
        fifo_read_count(available, wanted) <= available,
        fifo_read_count(available, wanted) <= wanted,
        fifo_read_count(available, wanted) == available || fifo_read_count(available, wanted)
            == wanted,
        available >= wanted ==> fifo_read_count(available, wanted) == wanted,
        available <= wanted ==> fifo_read_count(available, wanted) == available,
{
}

/// Types that take audio samples in.
pub trait InputWriter: AudioBuffer {
    /// Writes a single audio sample to the buffer. On success it is the
    /// newest sample held; on failure the buffer is unchanged.
    fn write(&mut self, sample: u32) -> (r: Result<(), AudioError>)
        requires
            old(self).wf(),
        ensures
            final(self).wf(),
            final(self).channel_count() == old(self).channel_count(),
            r is Ok ==> {
                &&& final(self).samples().len() > 0
                &&& final(self).samples().last() == sample
            },
            r is Err ==> final(self).samples() == old(self).samples(),
    ;

    /// Writes the samples of `slice` to the buffer, in order, and returns how
    /// many of them the buffer took.
    fn write_slice(&mut self, slice: &[u32]) -> (n: usize)
        requires
            old(self).wf(),
        ensures
            final(self).wf(),
            final(self).channel_count() == old(self).channel_count(),
            n <= slice@.len(),
    ;
}

} // verus!
