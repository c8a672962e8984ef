//! The queue of pending lock requests kept by the reader/writer semaphores.
//!
//! The queue is a fixed-capacity `AllocRingBuffer` of the `ringbuffer`
//! crate. Verus sees its contents through `request_items` and its capacity
//! through `request_capacity`; the wrappers below state what each method of
//! the crate does to them.
use ringbuffer::{AllocRingBuffer, RingBuffer};
use vstd::prelude::*;

verus! {

/// Whether a queued request asks for shared or exclusive access.
#[derive(Clone, Copy, Debug, PartialEq, Eq, Structural)]
pub enum AcquireType {
    Read,
    Write,
}

/// One entry of the request queue: a batch of requests of the same kind,
/// counting those not granted yet. A batch with none left leaves the queue
/// once it is at the front and nobody holds the lock.
///
/// `notifier` names the notifier that the waiting callers listen on; the
/// code that runs the waits keeps the notifier itself and finds it again by
/// this number.
#[derive(Clone, Copy, Debug)]
pub struct Acquire {
    /// shared or exclusive access
    pub kind: AcquireType,
    /// requests of this batch that have not been granted yet
    pub count: usize,
    /// the notifier the batch waits on
    pub notifier: u64,
}

impl Acquire {
    /// A new batch holding one request.
    pub fn new(kind: AcquireType, notifier: u64) -> (r: Acquire)
        ensures
            r == (Acquire { kind, count: 1, notifier }),
    {
        Acquire { kind, count: 1, notifier }
    }

    pub fn is_read(&self) -> (r: bool)
        ensures
            r == (self.kind == AcquireType::Read),
    {
        match self.kind {
            AcquireType::Read => true,
            AcquireType::Write => false,
        }
    }

    pub fn is_write(&self) -> (r: bool)
        ensures
            r == (self.kind == AcquireType::Write),
    {
        match self.kind {
            AcquireType::Read => false,
            AcquireType::Write => true,
        }
    }
}

#[verifier::external_type_specification]
#[verifier::external_body]
#[verifier::reject_recursive_types(T)]
pub struct ExAllocRingBuffer<T>(AllocRingBuffer<T>);

/// The entries of a request queue, oldest first.
pub uninterp spec fn request_items(rb: AllocRingBuffer<Acquire>) -> Seq<Acquire>;

/// The capacity a request queue was made with.
pub uninterp spec fn request_capacity(rb: AllocRingBuffer<Acquire>) -> nat;

/// A well-formed queue never holds more entries than its capacity, which is
/// positive.
pub open spec fn queue_fits(rb: AllocRingBuffer<Acquire>) -> bool {
    &&& 0 < request_capacity(rb)
    &&& request_items(rb).len() <= request_capacity(rb)
}

/// `AllocRingBuffer::new`: an empty queue with the given capacity. The crate
/// panics on a zero capacity, and on one whose allocation (the capacity
/// rounded up to a power of two) overflows; capacities are kept small here.
#[verifier::external_body]
pub fn queue_new(capacity: usize) -> (rb: AllocRingBuffer<Acquire>)
    requires
        0 < capacity <= 4096,
    ensures
        request_items(rb) == Seq::<Acquire>::empty(),
        request_capacity(rb) == capacity,
{
    AllocRingBuffer::new(capacity)
}

/// `RingBuffer::len`: the number of entries.
#[verifier::external_body]
pub fn queue_len(rb: &AllocRingBuffer<Acquire>) -> (r: usize)
    ensures
        r == request_items(*rb).len(),
{
    rb.len()
}

/// `RingBuffer::is_full`: whether the number of entries equals the capacity.
#[verifier::external_body]
pub fn queue_is_full(rb: &AllocRingBuffer<Acquire>) -> (r: bool)
    ensures
        r == (request_items(*rb).len() == request_capacity(*rb)),
{
    rb.is_full()
}

/// `RingBuffer::push`: appends an entry; on a full queue the oldest entry
/// is dropped first.
#[verifier::external_body]
pub fn queue_push(rb: &mut AllocRingBuffer<Acquire>, value: Acquire)
    requires
        queue_fits(*old(rb)),
    ensures
        request_capacity(*final(rb)) == request_capacity(*old(rb)),
        request_items(*old(rb)).len() < request_capacity(*old(rb)) ==> request_items(*final(rb))
            == request_items(*old(rb)).push(value),
        request_items(*old(rb)).len() == request_capacity(*old(rb)) ==> request_items(*final(rb))
            == request_items(*old(rb)).drop_first().push(value),
{
    rb.push(value)
}

/// `RingBuffer::dequeue`: removes and returns the oldest entry, if any.
#[verifier::external_body]
pub fn queue_dequeue(rb: &mut AllocRingBuffer<Acquire>) -> (r: Option<Acquire>)
    ensures
        request_capacity(*final(rb)) == request_capacity(*old(rb)),
        request_items(*old(rb)).len() == 0 ==> r is None && request_items(*final(rb))
            == request_items(*old(rb)),
        request_items(*old(rb)).len() > 0 ==> r == Some(request_items(*old(rb))[0])
            && request_items(*final(rb)) == request_items(*old(rb)).drop_first(),
{
    rb.dequeue()
}

/// `RingBuffer::peek`: a copy of the oldest entry, if any.
#[verifier::external_body]
pub fn queue_peek(rb: &AllocRingBuffer<Acquire>) -> (r: Option<Acquire>)
    ensures
        request_items(*rb).len() == 0 ==> r is None,
        request_items(*rb).len() > 0 ==> r == Some(request_items(*rb)[0]),
{
    rb.peek().copied()
}

/// `RingBuffer::get`: a copy of the entry at `index`, counted from the
/// oldest and taken modulo the length.
#[verifier::external_body]
pub fn queue_get(rb: &AllocRingBuffer<Acquire>, index: usize) -> (r: Option<Acquire>)
    ensures
        request_items(*rb).len() == 0 ==> r is None,
        request_items(*rb).len() > 0 ==> r == Some(
            request_items(*rb)[index as int % request_items(*rb).len() as int],
        ),
{
    rb.get(index).copied()
}

/// `RingBuffer::front_mut`: the oldest entry, to be changed in place. The
/// crate returns `None` on an empty queue; that case is left out.
#[verifier::external_body]
pub fn queue_front_mut(rb: &mut AllocRingBuffer<Acquire>) -> (r: &mut Acquire)
    requires
        request_items(*old(rb)).len() > 0,
    ensures
        *r == request_items(*old(rb))[0],
        request_capacity(*final(rb)) == request_capacity(*old(rb)),
        request_items(*final(rb)) == request_items(*old(rb)).update(0, *final(r)),
{
    rb.front_mut().unwrap()
}

/// `RingBuffer::back_mut`: the newest entry, to be changed in place. The
/// crate returns `None` on an empty queue; that case is left out.
#[verifier::external_body]
pub fn queue_back_mut(rb: &mut AllocRingBuffer<Acquire>) -> (r: &mut Acquire)
    requires
        request_items(*old(rb)).len() > 0,
    ensures
        *r == request_items(*old(rb)).last(),
        request_capacity(*final(rb)) == request_capacity(*old(rb)),
        request_items(*final(rb)) == request_items(*old(rb)).update(
            request_items(*old(rb)).len() - 1,
            *final(r),
        ),
{
    rb.back_mut().unwrap()
}

/// `RingBuffer::get_mut`: the entry at `index`, to be changed in place. Only
/// indices below the length are admitted.
#[verifier::external_body]
pub fn queue_get_mut(rb: &mut AllocRingBuffer<Acquire>, index: usize) -> (r: &mut Acquire)
    requires
        index < request_items(*old(rb)).len(),
    ensures
        *r == request_items(*old(rb))[index as int],
        request_capacity(*final(rb)) == request_capacity(*old(rb)),
        request_items(*final(rb)) == request_items(*old(rb)).update(index as int, *final(r)),
{
    rb.get_mut(index).unwrap()
}

} // verus!
