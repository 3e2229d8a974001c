//! Trusted interface to the bounded single-producer/single-consumer byte
//! queue that decouples the GPS ingest handler from the uplink dispatch
//! handler.
//!
//! The queue itself comes from the `heapless` crate: a fixed-size ring
//! buffer with separate head and tail cursors, each written by only one
//! side, synchronized through atomics, so producer and consumer may run in
//! different interrupt contexts without a lock.  Its behaviour is stated
//! here over the mathematical sequence of pending bytes, `queue_contents`,
//! and everything built on top of it is verified against these contracts.

use vstd::prelude::*;
use crate::QUEUE_CAPACITY;

verus! {

/// Declaration of the ring-buffer type from the `heapless` crate, so that
/// it can appear in signatures and fields; Verus sees nothing inside it.
#[verifier::external_type_specification]
#[verifier::external_body]
#[verifier::reject_recursive_types(T)]
pub struct ExQueue<T, const N: usize>(heapless::spsc::Queue<T, N>);

/// The sequence of pending bytes held by a queue, oldest first.
pub uninterp spec fn queue_contents(q: heapless::spsc::Queue<u16, 64>) -> Seq<u16>;

/// Relies on `heapless::spsc::Queue::new`: creates an empty queue.
#[verifier::external_body]
pub(crate) fn queue_new() -> (q: heapless::spsc::Queue<u16, 64>)
    ensures
        queue_contents(q) == Seq::<u16>::empty(),
{
    heapless::spsc::Queue::new()
}

/// Relies on `heapless::spsc::Queue::enqueue`: appends the item at the tail
/// and returns `Ok` when a slot is free (the ring buffer keeps one of its 64
/// slots unused, so up to `QUEUE_CAPACITY` items can be pending); on a full
/// queue it returns the item back as `Err` and changes nothing.
#[verifier::external_body]
pub(crate) fn queue_enqueue(q: &mut heapless::spsc::Queue<u16, 64>, v: u16) -> (accepted: bool)
    ensures
        queue_contents(*old(q)).len() < QUEUE_CAPACITY ==> accepted
            && queue_contents(*final(q)) == queue_contents(*old(q)).push(v),
        queue_contents(*old(q)).len() >= QUEUE_CAPACITY ==> !accepted
            && queue_contents(*final(q)) == queue_contents(*old(q)),
{
    q.enqueue(v).is_ok()
}

/// Relies on `heapless::spsc::Queue::dequeue`: removes and returns the item
/// at the head, or returns `None` and changes nothing when the queue is
/// empty.
#[verifier::external_body]
pub(crate) fn queue_dequeue(q: &mut heapless::spsc::Queue<u16, 64>) -> (r: Option<u16>)
    ensures
        queue_contents(*old(q)).len() > 0 ==> r == Some(queue_contents(*old(q))[0])
            && queue_contents(*final(q)) == queue_contents(*old(q)).drop_first(),
        queue_contents(*old(q)).len() == 0 ==> r == None::<u16>
            && queue_contents(*final(q)) == queue_contents(*old(q)),
{
    q.dequeue()
}

/// Relies on `heapless::spsc::Queue::is_empty`: true exactly when the head
/// and tail cursors coincide, that is, when no items are pending.
#[verifier::external_body]
pub(crate) fn queue_is_empty(q: &heapless::spsc::Queue<u16, 64>) -> (r: bool)
    ensures
        r == (queue_contents(*q).len() == 0),
{
    q.is_empty()
}

} // verus!
