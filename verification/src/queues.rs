//! The two lock-free queues of `crossbeam` that hold the samples of the
//! buffers, and what this library relies on of them.
//!
//! The queues take `&self` in `crossbeam` because they are shared between
//! threads. Here every operation goes through an exclusive reference, so that
//! each call has one well-defined effect on the sequence of queued samples,
//! which is what the contracts below describe.
use crossbeam::queue::{ArrayQueue, SegQueue};
use vstd::prelude::*;

verus! {

#[verifier::external_type_specification]
#[verifier::external_body]
#[verifier::reject_recursive_types(T)]
pub struct ExArrayQueue<T>(ArrayQueue<T>);

#[verifier::external_type_specification]
#[verifier::external_body]
#[verifier::reject_recursive_types(T)]
pub struct ExSegQueue<T>(SegQueue<T>);

/// The samples held by a bounded queue, oldest first.
pub uninterp spec fn array_queue_items(q: ArrayQueue<u32>) -> Seq<u32>;

/// The capacity a bounded queue was created with.
pub uninterp spec fn array_queue_capacity(q: ArrayQueue<u32>) -> nat;

/// The samples held by an unbounded queue, oldest first.
pub uninterp spec fn seg_queue_items(q: SegQueue<u32>) -> Seq<u32>;

/// Capacities that `ArrayQueue::new` accepts: it panics on zero, and the
/// slot buffer (16 bytes per slot for `u32` items) must not exceed
/// `isize::MAX` bytes, else the allocation panics with a capacity overflow.
pub open spec fn valid_capacity(cap: int) -> bool {
    0 < cap && cap * 16 <= isize::MAX
}

/// Whether a bounded buffer can be made with `cap` samples of capacity.
pub fn is_valid_capacity(cap: usize) -> (b: bool)
    ensures
        b == valid_capacity(cap as int),
{
    cap > 0 && (cap as u128) * 16 <= (isize::MAX as u128)
}

/// `ArrayQueue::new`: an empty queue with the given capacity.
#[verifier::external_body]
pub(crate) fn array_queue_new(cap: usize) -> (q: ArrayQueue<u32>)
    requires
        valid_capacity(cap as int),
    ensures
        array_queue_items(q) == Seq::<u32>::empty(),
        array_queue_capacity(q) == cap,
{
    ArrayQueue::new(cap)
}

/// `ArrayQueue::push`: appends `value` when the queue is not full and returns
/// `Ok`; otherwise hands `value` back in `Err` and leaves the queue unchanged.
#[verifier::external_body]
pub(crate) fn array_queue_push(q: &mut ArrayQueue<u32>, value: u32) -> (r: Result<(), u32>)
    ensures
        array_queue_capacity(*final(q)) == array_queue_capacity(*old(q)),
        array_queue_items(*old(q)).len() < array_queue_capacity(*old(q)) ==> {
            &&& r is Ok
            &&& array_queue_items(*final(q)) == array_queue_items(*old(q)).push(value)
        },
        array_queue_items(*old(q)).len() >= array_queue_capacity(*old(q)) ==> {
            &&& r == Err::<(), u32>(value)
            &&& array_queue_items(*final(q)) == array_queue_items(*old(q))
        },
{
    q.push(value)
}

/// `ArrayQueue::force_push`: appends `value`; when the queue is full, the
/// oldest sample is first removed and returned.
#[verifier::external_body]
pub(crate) fn array_queue_force_push(q: &mut ArrayQueue<u32>, value: u32) -> (r: Option<u32>)
    requires
        array_queue_capacity(*old(q)) > 0,
    ensures
        array_queue_capacity(*final(q)) == array_queue_capacity(*old(q)),
        array_queue_items(*old(q)).len() < array_queue_capacity(*old(q)) ==> {
            &&& r is None
            &&& array_queue_items(*final(q)) == array_queue_items(*old(q)).push(value)
        },
        array_queue_items(*old(q)).len() >= array_queue_capacity(*old(q)) ==> {
            &&& r == Some(array_queue_items(*old(q))[0])
            &&& array_queue_items(*final(q)) == array_queue_items(*old(q)).drop_first().push(value)
        },
{
    q.force_push(value)
}

/// `ArrayQueue::pop`: removes and returns the oldest sample, or `None` when
/// the queue is empty.
#[verifier::external_body]
pub(crate) fn array_queue_pop(q: &mut ArrayQueue<u32>) -> (r: Option<u32>)
    ensures
        array_queue_capacity(*final(q)) == array_queue_capacity(*old(q)),
        array_queue_items(*old(q)).len() == 0 ==> {
            &&& r is None
            &&& array_queue_items(*final(q)) == array_queue_items(*old(q))
        },
        array_queue_items(*old(q)).len() > 0 ==> {
            &&& r == Some(array_queue_items(*old(q))[0])
            &&& array_queue_items(*final(q)) == array_queue_items(*old(q)).drop_first()
        },
{
    q.pop()
}

/// `ArrayQueue::len`: the number of queued samples.
#[verifier::external_body]
pub(crate) fn array_queue_len(q: &ArrayQueue<u32>) -> (n: usize)
    ensures
        n == array_queue_items(*q).len(),
{
    q.len()
}

/// `ArrayQueue::capacity`: the capacity the queue was created with.
#[verifier::external_body]
pub(crate) fn array_queue_cap(q: &ArrayQueue<u32>) -> (n: usize)
    ensures
        n == array_queue_capacity(*q),
{
    q.capacity()
}

/// `SegQueue::new`: an empty unbounded queue.
#[verifier::external_body]
pub(crate) fn seg_queue_new() -> (q: SegQueue<u32>)
    ensures
        seg_queue_items(q) == Seq::<u32>::empty(),
{
    SegQueue::new()
}

/// `SegQueue::push`: appends `value` at the tail.
#[verifier::external_body]
pub(crate) fn seg_queue_push(q: &mut SegQueue<u32>, value: u32)
    ensures
        seg_queue_items(*final(q)) == seg_queue_items(*old(q)).push(value),
{
    q.push(value)
}

/// `SegQueue::pop`: removes and returns the oldest sample, or `None` when the
/// queue is empty.
#[verifier::external_body]
pub(crate) fn seg_queue_pop(q: &mut SegQueue<u32>) -> (r: Option<u32>)
    ensures
        seg_queue_items(*old(q)).len() == 0 ==> {
            &&& r is None
            &&& seg_queue_items(*final(q)) == seg_queue_items(*old(q))
        },
        seg_queue_items(*old(q)).len() > 0 ==> {
            &&& r == Some(seg_queue_items(*old(q))[0])
            &&& seg_queue_items(*final(q)) == seg_queue_items(*old(q)).drop_first()
        },
{
    q.pop()
}

/// `SegQueue::len`: the number of queued samples.
#[verifier::external_body]
pub(crate) fn seg_queue_len(q: &SegQueue<u32>) -> (n: usize)
    ensures
        n == seg_queue_items(*q).len(),
{
    q.len()
}

} // verus!
