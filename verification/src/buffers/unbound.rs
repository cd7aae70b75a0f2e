//! An unbounded queue that takes every sample written.
use crate::error::AudioError;
use crate::queues::{seg_queue_items, seg_queue_len, seg_queue_new, seg_queue_pop, seg_queue_push};
use crate::traits::{fifo_read_count, AudioBuffer, InputReader, InputWriter};
use crossbeam::queue::SegQueue;
use vstd::prelude::*;

verus! {

/// Writing `a` and then `b` to an unbounded queue leaves the same samples as
/// writing `a + b` at once: everything, in order.
pub proof fn lemma_unbound_write_concat(items: Seq<u32>, a: Seq<u32>, b: Seq<u32>)
    ensures
        (items + a) + b == items + (a + b),
{
    assert((items + a) + b =~= items + (a + b));
}

/// Unbounded queue for audio samples.
///
/// Every sample written is kept until it is read. The samples sit in an
/// unbounded `crossbeam` queue.
pub struct AudioUnboundQueue {
    /// Number of channels in the queue
    pub channels: u32,
    data: SegQueue<u32>,
}

impl AudioUnboundQueue {
    /// Creates a new, empty queue with the specified number of channels.
    pub fn new(channels: u32) -> (r: Self)
        ensures
            r.wf(),
            r.channel_count() == channels,
            r.samples() == Seq::<u32>::empty(),
    {
        Self { channels, data: seg_queue_new() }
    }

    /// Clears the queue, removing all audio samples.
    pub fn clear(&mut self)
        requires
            old(self).wf(),
        ensures
            final(self).wf(),
            final(self).channel_count() == old(self).channel_count(),
            final(self).samples() == Seq::<u32>::empty(),
    {
        loop
            invariant
                self.channels == old(self).channels,
            ensures
                self.channels == old(self).channels,
                seg_queue_items(self.data) == Seq::<u32>::empty(),
            decreases seg_queue_items(self.data).len(),
        {
            let r = seg_queue_pop(&mut self.data);
            if r.is_none() {
                break;
            }
        }
    }
}

impl AudioBuffer for AudioUnboundQueue {
    closed spec fn samples(&self) -> Seq<u32> {
        seg_queue_items(self.data)
    }

    closed spec fn channel_count(&self) -> u32 {
        self.channels
    }

    closed spec fn wf(&self) -> bool {
        true
    }

    fn channels(&self) -> (c: u32) {
        self.channels
    }

    fn len(&self) -> (n: usize) {
        seg_queue_len(&self.data)
    }
}

impl InputWriter for AudioUnboundQueue {
    /// Writes a single audio sample; always succeeds.
    fn write(&mut self, sample: u32) -> (r: Result<(), AudioError>)
        ensures
            r is Ok,
            final(self).samples() == old(self).samples().push(sample),
    {
        seg_queue_push(&mut self.data, sample);
        Ok(())
    }

    /// Writes all samples of `slice`, in order.
    fn write_slice(&mut self, slice: &[u32]) -> (n: usize)
        ensures
            n == slice@.len(),
            final(self).samples() == old(self).samples() + slice@,
    {
        let ghost items0 = seg_queue_items(self.data);
        let mut i: usize = 0;
        assert(items0 + slice@.take(0) =~= items0);
        while i < slice.len()
            invariant
                self.channels == old(self).channels,
                items0 == seg_queue_items(old(self).data),
                i <= slice@.len(),
                seg_queue_items(self.data) == items0 + slice@.take(i as int),
            decreases slice@.len() - i,
        {
            seg_queue_push(&mut self.data, slice[i]);
            proof {
                assert(items0 + slice@.take(i + 1) =~= (items0 + slice@.take(i as int)).push(
                    slice@[i as int],
                ));
            }
            i += 1;
        }
        assert(slice@.take(i as int) =~= slice@);
        slice.len()
    }
}

impl InputReader for AudioUnboundQueue {
    fn read(&mut self) -> (r: Option<u32>) {
        seg_queue_pop(&mut self.data)
    }

    /// Fills the front of `slice` with the oldest samples, as many as the
    /// slice has room for and the queue holds.
    fn read_slice(&mut self, slice: &mut [u32]) -> (n: usize)
        ensures
            n == fifo_read_count(old(self).samples().len(), old(slice)@.len()),
            final(self).samples() == old(self).samples().skip(n as int),
    {
        let ghost items0 = seg_queue_items(self.data);
        let ghost slice0 = slice@;
        let mut count: usize = 0;
        let mut i: usize = 0;
        while i < slice.len()
            invariant
                self.channels == old(self).channels,
                items0 == seg_queue_items(old(self).data),
                slice0 == old(slice)@,
                slice@.len() == slice0.len(),
                i <= slice0.len(),
                count == fifo_read_count(items0.len(), i as nat),
                seg_queue_items(self.data) == items0.skip(count as int),
                slice@.take(count as int) == items0.take(count as int),
                slice@.skip(count as int) == slice0.skip(count as int),
            decreases slice0.len() - i,
        {
            let r = seg_queue_pop(&mut self.data);
            if let Some(s) = r {
                let ghost before = slice@;
                proof {
                    assert(count == i);
                    assert(items0.skip(count as int).drop_first() =~= items0.skip(count + 1));
                }
                slice[i] = s;
                proof {
                    assert(slice@.take(count + 1) =~= items0.take(count + 1));
                    assert forall|j: int| count + 1 <= j < slice0.len() implies slice@[j]
                        == slice0[j] by {
                        assert(before.skip(count as int)[j - count] == slice0.skip(
                            count as int,
                        )[j - count]);
                    }
                    assert(slice@.skip(count + 1) =~= slice0.skip(count + 1));
                }
                count += 1;
            }
            i += 1;
        }
        count
    }
}

} // verus!
