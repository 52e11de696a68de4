//! The per-hotkey mutation queue, backed by the `circular-buffer` crate.
//!
//! Control requests (enable, disable, toggle) are queued as plain request
//! codes and drained in FIFO order by the dispatch path. The buffer is the
//! outside crate's fixed-capacity ring: it holds at most 64 requests, and a
//! push into a full buffer drops the oldest request.

use vstd::prelude::*;

use circular_buffer::FixedCircularBuffer;

verus! {

#[verifier::external_type_specification]
#[verifier::external_body]
#[verifier::reject_recursive_types(T)]
pub struct ExFixedCircularBuffer<T, const N: usize>(FixedCircularBuffer<T, N>);

/// The request codes a queue holds, front to back.
pub uninterp spec fn queue_requests(q: FixedCircularBuffer<u8, 64>) -> Seq<u8>;

/// The queue contents after a push: appended at the back, with the front
/// request dropped when the queue is already at its capacity of 64.
pub open spec fn queue_after_push(q: Seq<u8>, request: u8) -> Seq<u8> {
    if q.len() < 64 {
        q.push(request)
    } else {
        q.skip(1).push(request)
    }
}

/// Relies on FixedCircularBuffer::new: the buffer starts empty.
#[verifier::external_body]
pub(crate) fn queue_new() -> (r: FixedCircularBuffer<u8, 64>)
    ensures
        queue_requests(r) == Seq::<u8>::empty(),
{
    FixedCircularBuffer::new()
}

/// Relies on FixedCircularBuffer::push_back: appends at the back and, when
/// the buffer is full, removes and returns the element at the front. The
/// buffer never holds more than its capacity of 64 elements.
#[verifier::external_body]
pub(crate) fn queue_push(q: &mut FixedCircularBuffer<u8, 64>, request: u8)
    ensures
        queue_requests(*final(q)) == queue_after_push(queue_requests(*old(q)), request),
        queue_requests(*final(q)).len() <= 64,
{
    let _ = q.push_back(request);
}

/// Relies on FixedCircularBuffer::drain: removes and yields all elements
/// from front to back.
#[verifier::external_body]
pub(crate) fn queue_take_all(q: &mut FixedCircularBuffer<u8, 64>) -> (r: Vec<u8>)
    ensures
        r@ == queue_requests(*old(q)),
        queue_requests(*final(q)) == Seq::<u8>::empty(),
{
    q.drain(..).collect()
}

} // verus!
