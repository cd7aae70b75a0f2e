//! A fixed-size ring buffer that overwrites its oldest samples when full.
use crate::error::AudioError;
use crate::queues::{
    array_queue_capacity, array_queue_force_push, array_queue_items, array_queue_len,
    array_queue_new, array_queue_pop, valid_capacity,
};
use crate::traits::{fifo_read_count, AudioBuffer, InputReader, InputWriter};
use crossbeam::queue::ArrayQueue;
use vstd::prelude::*;

verus! {

/// The samples a ring buffer of the given capacity holds after `incoming` is
/// written onto `items`: the newest `capacity` samples of both together.
pub open spec fn ring_write(items: Seq<u32>, incoming: Seq<u32>, capacity: nat) -> Seq<u32> {
    let all = items + incoming;
    if all.len() <= capacity {
        all
    } else {
        all.skip(all.len() - capacity)
    }
}

/// One overwriting push onto a ring buffer of the given capacity.
pub open spec fn ring_push(items: Seq<u32>, sample: u32, capacity: nat) -> Seq<u32> {
    if items.len() < capacity {
        items.push(sample)
    } else {
        items.drop_first().push(sample)
    }
}

/// One push onto a ring buffer is a write of one sample.
proof fn lemma_ring_write_push(items: Seq<u32>, incoming: Seq<u32>, sample: u32, capacity: nat)
    requires
        items.len() <= capacity,
        capacity > 0,
    ensures
        ring_write(items, incoming.push(sample), capacity) == ring_push(
            ring_write(items, incoming, capacity),
            sample,
            capacity,
        ),
{
    let all = items + incoming;
    let r = ring_write(items, incoming, capacity);
    assert(items + incoming.push(sample) =~= all.push(sample));
    if all.len() < capacity {
        assert(ring_push(r, sample, capacity) =~= all.push(sample));
    } else {
        assert(r.len() == capacity);
        assert(ring_push(r, sample, capacity) =~= all.push(sample).skip(
            all.len() + 1 - capacity,
        ));
    }
}

/// Writing `a` and then `b` leaves the same samples as writing `a + b` at once.
pub proof fn lemma_ring_write_concat(items: Seq<u32>, a: Seq<u32>, b: Seq<u32>, capacity: nat)
    requires
        items.len() <= capacity,
    ensures
        ring_write(ring_write(items, a, capacity), b, capacity) == ring_write(
            items,
            a + b,
            capacity,
        ),
{
    let all = items + a;
    let r = ring_write(items, a, capacity);
    assert(items + (a + b) =~= all + b);
    if all.len() > capacity {
        assert(r + b =~= (all + b).skip(all.len() - capacity));
    }
    assert(ring_write(r, b, capacity) =~= ring_write(items, a + b, capacity));
}

/// A ring buffer never holds more than its capacity, holds every sample
/// written while there is room, and keeps the newest samples in order: what
/// it holds is the newest stretch of the old samples followed by the written
/// ones, and the last sample written is the newest one held.
pub proof fn lemma_ring_write_keeps_newest(items: Seq<u32>, incoming: Seq<u32>, capacity: nat)
    requires
        items.len() <= capacity,
        capacity > 0,
    ensures
        ring_write(items, incoming, capacity).len() == if items.len() + incoming.len()
            <= capacity {
            items.len() + incoming.len()
        } else {
            capacity
        },
        incoming.len() > 0 ==> ring_write(items, incoming, capacity).last() == incoming.last(),
        incoming.len() >= capacity ==> ring_write(items, incoming, capacity) == incoming.skip(
            incoming.len() - capacity,
        ),
        forall|i: int|
            0 <= i < ring_write(items, incoming, capacity).len() ==> #[trigger] ring_write(
                items,
                incoming,
                capacity,
            )[i] == (items + incoming)[items.len() + incoming.len() - ring_write(
                items,
                incoming,
                capacity,
            ).len() + i],
{
    let all = items + incoming;
    if incoming.len() > 0 {
        assert(all.last() == incoming.last());
    }
    if incoming.len() >= capacity {
        assert(all.skip(all.len() - capacity) =~= incoming.skip(incoming.len() - capacity));
    }
}

/// Samples written into an empty ring buffer that has room for all of them
/// are held unchanged, and a read into a slice of their length gives them all
/// back in order.
pub proof fn lemma_ring_round_trip(incoming: Seq<u32>, capacity: nat)
    requires
        incoming.len() <= capacity,
    ensures
        ring_write(Seq::empty(), incoming, capacity) == incoming,
        fifo_read_count(incoming.len(), incoming.len()) == incoming.len(),
{
    assert(Seq::<u32>::empty() + incoming =~= incoming);
}

/// Ring buffer for audio samples.
///
/// It holds at most its capacity of samples. Writing to a full buffer
/// overwrites the oldest samples, so writes never fail. The samples sit in a
/// bounded `crossbeam` queue.
pub struct AudioRingBuffer {
    /// Number of channels in the buffer
    pub channels: u32,
    /// The underlying ring buffer
    data: ArrayQueue<u32>,
}

impl AudioRingBuffer {
    /// The capacity of the buffer in samples.
    pub closed spec fn buffer_size(&self) -> nat {
        array_queue_capacity(self.data)
    }

    /// Creates a new AudioRingBuffer with the specified number of channels and
    /// buffer size (in samples).
    pub fn new(channels: u32, buffer_size: usize) -> (r: Self)
        requires
            valid_capacity(buffer_size as int),
        ensures
            r.wf(),
            r.channel_count() == channels,
            r.buffer_size() == buffer_size,
            r.samples() == Seq::<u32>::empty(),
    {
        let data = array_queue_new(buffer_size);
        Self { channels, data }
    }

    /// Clears the buffer, removing all audio samples.
    pub fn clear(&mut self)
        requires
            old(self).wf(),
        ensures
            final(self).wf(),
            final(self).channel_count() == old(self).channel_count(),
            final(self).buffer_size() == old(self).buffer_size(),
            final(self).samples() == Seq::<u32>::empty(),
    {
        loop
            invariant
                self.wf(),
                self.channel_count() == old(self).channel_count(),
                self.buffer_size() == old(self).buffer_size(),
            ensures
                self.wf(),
                self.channel_count() == old(self).channel_count(),
                self.buffer_size() == old(self).buffer_size(),
                self.samples() == Seq::<u32>::empty(),
            decreases array_queue_items(self.data).len(),
        {
            let r = array_queue_pop(&mut self.data);
            if r.is_none() {
                break;
            }
        }
    }
}

impl AudioBuffer for AudioRingBuffer {
    closed spec fn samples(&self) -> Seq<u32> {
        array_queue_items(self.data)
    }

    closed spec fn channel_count(&self) -> u32 {
        self.channels
    }

    /// The capacity is one the queue accepts, and the buffer never holds
    /// more samples than its capacity.
    open spec fn wf(&self) -> bool {
        &&& valid_capacity(self.buffer_size() as int)
        &&& self.samples().len() <= self.buffer_size()
    }

    fn channels(&self) -> (c: u32) {
        self.channels
    }

    fn len(&self) -> (n: usize)
        ensures
            n <= self.buffer_size(),
    {
        array_queue_len(&self.data)
    }
}

impl InputReader for AudioRingBuffer {
    fn read(&mut self) -> (r: Option<u32>)
        ensures
            final(self).buffer_size() == old(self).buffer_size(),
    {
        array_queue_pop(&mut self.data)
    }

    /// Fills the front of `slice` with the oldest samples, as many as the
    /// slice has room for and the buffer holds. Samples are moved in groups of
    /// four while both the slice and the buffer have room for a whole group,
    /// then one at a time.
    fn read_slice(&mut self, slice: &mut [u32]) -> (n: usize)
        ensures
            final(self).buffer_size() == old(self).buffer_size(),
            n == fifo_read_count(old(self).samples().len(), old(slice)@.len()),
            final(self).samples() == old(self).samples().skip(n as int),
    {
        let ghost items0 = array_queue_items(self.data);
        let ghost slice0 = slice@;
        let target_len = slice.len();
        let mut count: usize = 0;
        loop
            invariant_except_break
                count <= target_len,
            invariant
                self.wf(),
                self.channels == old(self).channels,
                array_queue_capacity(self.data) == array_queue_capacity(old(self).data),
                items0 == array_queue_items(old(self).data),
                slice0 == old(slice)@,
                target_len == slice0.len(),
                slice@.len() == target_len,
                count <= items0.len(),
                count <= target_len,
                array_queue_items(self.data) == items0.skip(count as int),
                slice@.take(count as int) == items0.take(count as int),
                slice@.skip(count as int) == slice0.skip(count as int),
            ensures
                count == fifo_read_count(items0.len(), slice0.len()),
            decreases target_len - count,
        {
            if count >= target_len {
                break;
            }
            let remaining = target_len - count;
            if remaining >= 4 && array_queue_len(&self.data) >= 4 {
                let v0 = array_queue_pop(&mut self.data);
                let v1 = array_queue_pop(&mut self.data);
                let v2 = array_queue_pop(&mut self.data);
                let v3 = array_queue_pop(&mut self.data);
                if let (Some(a), Some(b), Some(c), Some(d)) = (v0, v1, v2, v3) {
                    proof {
                        assert(items0.skip(count as int).drop_first().drop_first().drop_first().drop_first()
                            =~= items0.skip(count + 4));
                    }
                    let ghost before = slice@;
                    slice[count] = a;
                    slice[count + 1] = b;
                    slice[count + 2] = c;
                    slice[count + 3] = d;
                    proof {
                        assert(slice@.take(count + 4) =~= items0.take(count + 4));
                        assert forall|j: int| count + 4 <= j < slice0.len() implies slice@[j]
                            == slice0[j] by {
                            assert(before.skip(count as int)[j - count] == slice0.skip(
                                count as int,
                            )[j - count]);
                        }
                        assert(slice@.skip(count + 4) =~= slice0.skip(count + 4));
                    }
                    count += 4;
                }
            } else {
                let v = array_queue_pop(&mut self.data);
                match v {
                    Some(value) => {
                        proof {
                            assert(items0.skip(count as int).drop_first() =~= items0.skip(
                                count + 1,
                            ));
                        }
                        let ghost before = slice@;
                        slice[count] = value;
                        proof {
                            assert(slice@.take(count + 1) =~= items0.take(count + 1));
                            assert forall|j: int| count + 1 <= j < slice0.len() implies slice@[j]
                                == slice0[j] by {
                                assert(before.skip(count as int)[j - count] == slice0.skip(
                                    count as int,
                                )[j - count]);
                            }
                            assert(slice@.skip(count + 1) =~= slice0.skip(count + 1));
                        }
                        count += 1;
                    },
                    None => {
                        break;
                    },
                }
            }
        }
        count
    }
}

impl InputWriter for AudioRingBuffer {
    /// Writes a single audio sample to the buffer. This will overwrite the
    /// oldest sample if the buffer is full, so it always succeeds.
    fn write(&mut self, value: u32) -> (r: Result<(), AudioError>)
        ensures
            r is Ok,
            final(self).buffer_size() == old(self).buffer_size(),
            final(self).samples() == ring_write(
                old(self).samples(),
                seq![value],
                old(self).buffer_size(),
            ),
    {
        proof {
            lemma_ring_write_push(array_queue_items(self.data), Seq::empty(), value, array_queue_capacity(self.data));
            assert(Seq::<u32>::empty().push(value) =~= seq![value]);
            assert(array_queue_items(self.data) + Seq::<u32>::empty() =~= array_queue_items(self.data));
        }
        array_queue_force_push(&mut self.data, value);
        Ok(())
    }

    /// Writes a slice of audio samples to the buffer. This will overwrite the
    /// oldest samples if the buffer is full; it always takes the whole slice.
    fn write_slice(&mut self, slice: &[u32]) -> (n: usize)
        ensures
            n == slice@.len(),
            final(self).buffer_size() == old(self).buffer_size(),
            final(self).samples() == ring_write(
                old(self).samples(),
                slice@,
                old(self).buffer_size(),
            ),
    {
        let ghost items0 = array_queue_items(self.data);
        let ghost cap = array_queue_capacity(self.data);
        let mut i: usize = 0;
        assert(items0 + slice@.take(0) =~= items0);
        while i < slice.len()
            invariant
                self.wf(),
                self.channels == old(self).channels,
                array_queue_capacity(self.data) == cap,
                cap == array_queue_capacity(old(self).data),
                items0 == array_queue_items(old(self).data),
                items0.len() <= cap,
                i <= slice@.len(),
                array_queue_items(self.data) == ring_write(items0, slice@.take(i as int), cap),
            decreases slice@.len() - i,
        {
            proof {
                lemma_ring_write_push(items0, slice@.take(i as int), slice@[i as int], cap);
                assert(slice@.take(i as int).push(slice@[i as int]) =~= slice@.take(i + 1));
            }
            array_queue_force_push(&mut self.data, slice[i]);
            i += 1;
        }
        assert(slice@.take(i as int) =~= slice@);
        slice.len()
    }
}

} // verus!
