//! A fixed-size queue that refuses samples when full.
use crate::error::AudioError;
use crate::queues::{
    array_queue_cap, array_queue_capacity, array_queue_items, array_queue_len, array_queue_new,
    array_queue_pop, array_queue_push, valid_capacity,
};
use crate::traits::{fifo_read_count, AudioBuffer, InputReader, InputWriter};
use crossbeam::queue::ArrayQueue;
use vstd::prelude::*;

verus! {

/// How many of `incoming` samples a fixed queue of the given capacity that
/// holds `held` samples takes: as many as there is room for.
pub open spec fn fixed_accepted(held: nat, incoming: nat, capacity: nat) -> nat {
    let room: int = capacity - held;
    if room <= 0 {
        0
    } else if incoming <= room {
        incoming
    } else {
        room as nat
    }
}

/// The samples a fixed queue holds after `incoming` is written onto `items`:
/// the samples that fit are appended, the rest are dropped.
pub open spec fn fixed_write(items: Seq<u32>, incoming: Seq<u32>, capacity: nat) -> Seq<u32> {
    items + incoming.take(fixed_accepted(items.len(), incoming.len(), capacity) as int)
}

/// Writing `a` and then `b` to a fixed queue leaves the same samples, and
/// takes as many in all, as writing `a + b` at once.
pub proof fn lemma_fixed_write_concat(items: Seq<u32>, a: Seq<u32>, b: Seq<u32>, capacity: nat)
    requires
        items.len() <= capacity,
    ensures
        fixed_write(fixed_write(items, a, capacity), b, capacity) == fixed_write(
            items,
            a + b,
            capacity,
        ),
        fixed_accepted(items.len(), a.len(), capacity) + fixed_accepted(
            fixed_write(items, a, capacity).len(),
            b.len(),
            capacity,
        ) == fixed_accepted(items.len(), (a + b).len(), capacity),
{
    let k = fixed_accepted(items.len(), a.len(), capacity);
    let mid = fixed_write(items, a, capacity);
    let k2 = fixed_accepted(mid.len(), b.len(), capacity);
    let k3 = fixed_accepted(items.len(), (a + b).len(), capacity);
    assert(k + k2 == k3);
    assert(a.take(k as int) + b.take(k2 as int) =~= (a + b).take(k3 as int));
    assert(mid + b.take(k2 as int) =~= items + (a.take(k as int) + b.take(k2 as int)));
}

/// A fixed queue never holds more than its capacity, and keeps every sample
/// written while there is room. It takes as many of the written samples as
/// there is room for, the earliest ones, behind the samples it held, and
/// loses none of those.
pub proof fn lemma_fixed_write_bounded(items: Seq<u32>, incoming: Seq<u32>, capacity: nat)
    requires
        items.len() <= capacity,
    ensures
        fixed_write(items, incoming, capacity).len() <= capacity,
        items.len() + incoming.len() <= capacity ==> fixed_write(items, incoming, capacity)
            == items + incoming,
        fixed_accepted(items.len(), incoming.len(), capacity) <= incoming.len(),
        items.len() + fixed_accepted(items.len(), incoming.len(), capacity) <= capacity,
        fixed_accepted(items.len(), incoming.len(), capacity) == incoming.len() || items.len()
            + fixed_accepted(items.len(), incoming.len(), capacity) == capacity,
        fixed_write(items, incoming, capacity).len() == items.len() + fixed_accepted(
            items.len(),
            incoming.len(),
            capacity,
        ),
        forall|i: int|
            0 <= i < items.len() ==> #[trigger] fixed_write(items, incoming, capacity)[i]
                == items[i],
        forall|i: int|
            items.len() <= i < fixed_write(items, incoming, capacity).len() ==> #[trigger] fixed_write(
                items,
                incoming,
                capacity,
            )[i] == incoming[i - items.len()],
{
    if items.len() + incoming.len() <= capacity {
        assert(incoming.take(incoming.len() as int) =~= incoming);
    }
}

/// Samples written into an empty fixed queue that has room for all of them
/// are all taken and held unchanged, and a read into a slice of their length
/// gives them all back in order.
pub proof fn lemma_fixed_round_trip(incoming: Seq<u32>, capacity: nat)
    requires
        incoming.len() <= capacity,
    ensures
        fixed_accepted(0, incoming.len(), capacity) == incoming.len(),
        fixed_write(Seq::empty(), incoming, capacity) == incoming,
        fifo_read_count(incoming.len(), incoming.len()) == incoming.len(),
{
    assert(Seq::<u32>::empty() + incoming.take(incoming.len() as int) =~= incoming);
}

/// Fixed-size queue for audio samples.
///
/// It holds at most its capacity of samples; a sample written to a full
/// queue is refused. The samples sit in a bounded `crossbeam` queue.
pub struct AudioFixedQueue {
    /// Number of channels in the queue
    pub channels: u32,
    data: ArrayQueue<u32>,
}

impl AudioFixedQueue {
    /// The capacity of the queue in samples.
    pub closed spec fn buffer_size(&self) -> nat {
        array_queue_capacity(self.data)
    }

    /// Creates a new queue with the specified number of channels and capacity
    /// (in samples).
    pub fn new(channels: u32, capacity: usize) -> (r: Self)
        requires
            valid_capacity(capacity as int),
        ensures
            r.wf(),
            r.channel_count() == channels,
            r.buffer_size() == capacity,
            r.samples() == Seq::<u32>::empty(),
    {
        Self { channels, data: array_queue_new(capacity) }
    }

    /// The capacity of the queue in samples.
    pub fn capacity(&self) -> (n: usize)
        ensures
            n == self.buffer_size(),
    {
        array_queue_cap(&self.data)
    }

    /// Whether the queue holds no sample.
    pub fn is_empty(&self) -> (b: bool)
        ensures
            b == (self.samples().len() == 0),
    {
        array_queue_len(&self.data) == 0
    }
}

impl AudioBuffer for AudioFixedQueue {
    closed spec fn samples(&self) -> Seq<u32> {
        array_queue_items(self.data)
    }

    closed spec fn channel_count(&self) -> u32 {
        self.channels
    }

    /// The capacity is one the queue accepts, and the queue never holds more
    /// samples than its capacity.
    open spec fn wf(&self) -> bool {
        &&& valid_capacity(self.buffer_size() as int)
        &&& self.samples().len() <= self.buffer_size()
    }

    fn channels(&self) -> (c: u32) {
        self.channels
    }

    fn len(&self) -> (n: usize)
        ensures
            n <= self.buffer_size(),
    {
        array_queue_len(&self.data)
    }
}

impl InputWriter for AudioFixedQueue {
    /// Writes a single audio sample; fails with `BufferFull`, leaving the
    /// queue unchanged, when the queue is full.
    fn write(&mut self, sample: u32) -> (r: Result<(), AudioError>)
        ensures
            final(self).buffer_size() == old(self).buffer_size(),
            old(self).samples().len() < old(self).buffer_size() ==> {
                &&& r is Ok
                &&& final(self).samples() == old(self).samples().push(sample)
            },
            old(self).samples().len() >= old(self).buffer_size() ==> r == Err::<
                (),
                AudioError,
            >(AudioError::BufferFull),
    {
        let result = array_queue_push(&mut self.data, sample);
        match result {
            Ok(()) => Ok(()),
            Err(_) => Err(AudioError::BufferFull),
        }
    }

    /// Writes the samples of `slice` in order while there is room; the rest
    /// are dropped. Returns how many were taken.
    fn write_slice(&mut self, slice: &[u32]) -> (n: usize)
        ensures
            final(self).buffer_size() == old(self).buffer_size(),
            n == fixed_accepted(old(self).samples().len(), slice@.len(), old(self).buffer_size()),
            final(self).samples() == fixed_write(
                old(self).samples(),
                slice@,
                old(self).buffer_size(),
            ),
    {
        let ghost items0 = array_queue_items(self.data);
        let ghost cap = array_queue_capacity(self.data);
        let mut count: usize = 0;
        let mut i: usize = 0;
        assert(items0 + Seq::<u32>::empty() =~= items0);
        while i < slice.len()
            invariant
                self.wf(),
                self.channels == old(self).channels,
                array_queue_capacity(self.data) == cap,
                cap == array_queue_capacity(old(self).data),
                items0 == array_queue_items(old(self).data),
                items0.len() <= cap,
                i <= slice@.len(),
                count <= i,
                count == fixed_accepted(items0.len(), i as nat, cap),
                array_queue_items(self.data) == fixed_write(items0, slice@.take(i as int), cap),
            decreases slice@.len() - i,
        {
            let result = array_queue_push(&mut self.data, slice[i]);
            proof {
                let k = fixed_accepted(items0.len(), i as nat, cap);
                let k1 = fixed_accepted(items0.len(), (i + 1) as nat, cap);
                assert(slice@.take(i + 1).take(k1 as int) =~= if k1 == k {
                    slice@.take(i as int).take(k as int)
                } else {
                    slice@.take(i as int).take(k as int).push(slice@[i as int])
                });
            }
            if result.is_ok() {
                count += 1;
            }
            i += 1;
        }
        assert(slice@.take(i as int) =~= slice@);
        count
    }
}

impl InputReader for AudioFixedQueue {
    fn read(&mut self) -> (r: Option<u32>)
        ensures
            final(self).buffer_size() == old(self).buffer_size(),
    {
        array_queue_pop(&mut self.data)
    }

    /// Fills the front of `slice` with the oldest samples, as many as the
    /// slice has room for and the queue holds.
    fn read_slice(&mut self, slice: &mut [u32]) -> (n: usize)
        ensures
            final(self).buffer_size() == old(self).buffer_size(),
            n == fifo_read_count(old(self).samples().len(), old(slice)@.len()),
            final(self).samples() == old(self).samples().skip(n as int),
    {
        let ghost items0 = array_queue_items(self.data);
        let ghost slice0 = slice@;
        let mut count: usize = 0;
        let mut i: usize = 0;
        while i < slice.len()
            invariant
                self.wf(),
                self.channels == old(self).channels,
                array_queue_capacity(self.data) == array_queue_capacity(old(self).data),
                items0 == array_queue_items(old(self).data),
                slice0 == old(slice)@,
                slice@.len() == slice0.len(),
                i <= slice0.len(),
                count == fifo_read_count(items0.len(), i as nat),
                array_queue_items(self.data) == items0.skip(count as int),
                slice@.take(count as int) == items0.take(count as int),
                slice@.skip(count as int) == slice0.skip(count as int),
            decreases slice0.len() - i,
        {
            let r = array_queue_pop(&mut self.data);
            if let Some(s) = r {
                let ghost before = slice@;
                proof {
                    assert(count == i);
                    assert(items0.skip(count as int).drop_first() =~= items0.skip(count + 1));
                }
                slice[i] = s;
                proof {
                    assert(slice@.take(count + 1) =~= items0.take(count + 1));
                    assert forall|j: int| count + 1 <= j < slice0.len() implies slice@[j]
                        == slice0[j] by {
                        assert(before.skip(count as int)[j - count] == slice0.skip(
                            count as int,
                        )[j - count]);
                    }
                    assert(slice@.skip(count + 1) =~= slice0.skip(count + 1));
                }
                count += 1;
            }
            i += 1;
        }
        count
    }
}

} // verus!
