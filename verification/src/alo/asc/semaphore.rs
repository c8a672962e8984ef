//! The reader/writer semaphore behind the async `Worl`.
//!
//! It keeps the same queue of batches, and takes the same decisions, as the
//! blocking semaphore of `thread::semaphore`, with two differences: a
//! request is refused as soon as the queue is full, even one that could join
//! the newest batch, and a batch has no size limit short of `usize::MAX`
//! requests. Its waits do not time out; awaiting the notifiers is left
//! to the caller.
use crate::alo::request::AcquireType;
use crate::alo::thread::semaphore::{
    initial_with, lemma_poll_keeps_wf, lemma_request_keeps_wf, lemma_step_keeps_wf, min,
    polled, requested, with_count, notifiers_of, released_read, released_write, started, step,
    RwSemaphore as Core, SemaphoreState, Signal, Step, ACQUIRE_BUFFER_SIZE,
};
use vstd::prelude::*;

verus! {

/// Largest number of read-locks held at once.
pub const MAX_READS: usize = 128;

/// Number of batches the request queue can hold.
pub const MAX_ACQUIRES: usize = 16;

/// Why a lock could not be acquired.
#[derive(Clone, Copy, Debug, PartialEq, Eq, Structural)]
pub enum AcquireError {
    /// the lock holds no value
    ValueNone,
    /// the request could not be queued
    Unavailable,
    /// the semaphore is closed
    Closed,
}

pub type AcquireResult<T = ()> = Result<T, AcquireError>;

/// The state of a new async semaphore: its batches take any number of
/// requests that a `usize` can count.
pub open spec fn initial_async() -> SemaphoreState {
    initial_with(usize::MAX)
}

/// What starting an async acquisition does: refused (`None`) on a full queue
/// or a closed semaphore, else as in the blocking semaphore.
pub open spec fn started_async(s: SemaphoreState, kind: AcquireType, fresh: u64) -> Option<
    (SemaphoreState, u64, Seq<Signal>),
> {
    if s.queue.len() == ACQUIRE_BUFFER_SIZE {
        None
    } else {
        match started(s, kind, fresh) {
            Ok(x) => Some(x),
            Err(_) => None,
        }
    }
}

/// The state after a step of the async semaphore (its requests are refused
/// on a full queue).
pub open spec fn async_step(s: SemaphoreState, op: Step) -> SemaphoreState {
    match op {
        Step::Read(_) => if s.queue.len() == ACQUIRE_BUFFER_SIZE {
            s
        } else {
            step(s, op)
        },
        Step::Write(_) => if s.queue.len() == ACQUIRE_BUFFER_SIZE {
            s
        } else {
            step(s, op)
        },
        _ => step(s, op),
    }
}

/// The state after a sequence of steps of the async semaphore.
pub open spec fn async_run(s: SemaphoreState, ops: Seq<Step>) -> SemaphoreState
    decreases ops.len(),
{
    if ops.len() == 0 {
        s
    } else {
        async_run(async_step(s, ops[0]), ops.drop_first())
    }
}

proof fn lemma_async_run_keeps_wf(s: SemaphoreState, ops: Seq<Step>)
    requires
        s.wf(),
    ensures
        async_run(s, ops).wf(),
    decreases ops.len(),
{
    if ops.len() > 0 {
        lemma_step_keeps_wf(s, ops[0]);
        lemma_async_run_keeps_wf(async_step(s, ops[0]), ops.drop_first());
    }
}

/// Mutual exclusion for the async semaphore: in every state reached from a
/// new one, no reader holds the lock beside a writer, and at most
/// `MAX_READS` readers hold it.
pub proof fn lemma_async_reachable_states_exclusive(ops: Seq<Step>)
    ensures
        async_run(initial_async(), ops).wf(),
        !(async_run(initial_async(), ops).writer && async_run(initial_async(), ops).readers > 0),
        async_run(initial_async(), ops).readers <= MAX_READS,
{
    lemma_async_run_keeps_wf(initial_async(), ops);
}

/// A full queue, or a closed semaphore, refuses every async request.
pub proof fn lemma_closed_or_full_refuses(s: SemaphoreState, kind: AcquireType, fresh: u64)
    requires
        s.closed || s.queue.len() == MAX_ACQUIRES,
    ensures
        started_async(s, kind, fresh) is None,
{
}

/// The async semaphore refuses a request only when it is closed or its
/// queue is full: on an open semaphore with room in the queue, a read or a
/// write request is always taken, whoever holds the lock.
pub proof fn lemma_open_with_room_accepts(s: SemaphoreState, kind: AcquireType, fresh: u64)
    requires
        !s.closed,
        s.queue.len() < MAX_ACQUIRES,
    ensures
        started_async(s, kind, fresh) is Some,
{
}

/// A reader joins the readers that hold the lock: when readers hold it,
/// below the limit, and their batch is the only one queued, a new read
/// request joins that batch and is granted at once, by a signal on its
/// notifier first thing, with more readers counted afterwards.
pub proof fn lemma_reader_joins_held_batch(s: SemaphoreState, fresh: u64)
    requires
        s.wf(),
        !s.closed,
        0 < s.readers < MAX_READS,
        s.queue.len() == 1,
        s.queue[0].count < s.batch_limit,
    ensures
        ({
            let r = started_async(s, AcquireType::Read, fresh);
            &&& r is Some
            &&& (r->0).1 == s.queue[0].notifier
            &&& (r->0).2.len() > 0
            &&& (r->0).2[0] matches Signal::Many(n, c) && n == s.queue[0].notifier && c > 0
            &&& (r->0).0.readers > s.readers
        }),
{
    let q = s.queue;
    let a = q[0];
    let m = s.with_queue(q.update(0, with_count(a, a.count + 1)));
    assert(q.last() == a);
    assert(requested(s, AcquireType::Read, fresh) matches Ok((m2, n2)) && m2 == m && n2 == a.notifier);
    lemma_request_keeps_wf(s, AcquireType::Read, fresh);
    let b = m.queue[0];
    let permits = min(MAX_READS - m.readers, b.count as int);
    let m1 = m.with_readers((m.readers + permits) as nat).with_queue(
        m.queue.update(0, with_count(b, b.count - permits)),
    );
    assert(m1.wf());
    lemma_poll_keeps_wf(m1);
    assert(polled(m).1 == seq![Signal::Many(b.notifier, permits as u8)] + polled(m1).1);
    assert((seq![Signal::Many(b.notifier, permits as u8)] + polled(m1).1)[0] == Signal::Many(
        b.notifier,
        permits as u8,
    ));
}

/// A semaphore for the async `Worl`.
pub struct RwSemaphore {
    core: Core,
}

impl View for RwSemaphore {
    type V = SemaphoreState;

    closed spec fn view(&self) -> SemaphoreState {
        self.core@
    }
}

impl RwSemaphore {
    pub closed spec fn inv(&self) -> bool {
        self.core.inv()
    }

    pub fn new() -> (r: RwSemaphore)
        ensures
            r.inv(),
            r@ == initial_async(),
    {
        RwSemaphore { core: Core::with_batch_limit(usize::MAX) }
    }

    /// A well-formed semaphore keeps the limits and the exclusion of `wf`.
    pub proof fn lemma_inv_gives_wf(&self)
        requires
            self.inv(),
        ensures
            self@.wf(),
    {
        self.core.lemma_inv_gives_wf();
    }

    pub fn is_closed(&self) -> (r: bool)
        ensures
            r == self@.closed,
    {
        self.core.is_closed()
    }

    pub fn reader_count(&self) -> (r: usize)
        ensures
            r == self@.readers,
    {
        self.core.reader_count() as usize
    }

    fn start_acquire(&mut self, kind: AcquireType, fresh: u64) -> (r: Option<(u64, Vec<Signal>)>)
        requires
            old(self).inv(),
        ensures
            final(self).inv(),
            match started_async(old(self)@, kind, fresh) {
                Some((s, n, sigs)) => r is Some && (r->0).0 == n && (r->0).1@ == sigs
                    && final(self)@ == s,
                None => r is None && final(self)@ == old(self)@,
            },
    {
        if self.core.is_full() {
            return None;
        }
        let started = match kind {
            AcquireType::Read => self.core.start_acquire_read(fresh),
            AcquireType::Write => self.core.start_acquire_write(fresh),
        };
        match started {
            Ok(x) => Some(x),
            Err(_) => None,
        }
    }

    /// First half of acquiring a read-lock: records the request and polls.
    /// `None` means the request was refused. On `Some`, the caller sends the
    /// signals, awaits the returned notifier, and then holds the lock unless
    /// the semaphore is closed by then.
    pub fn start_acquire_read(&mut self, fresh: u64) -> (r: Option<(u64, Vec<Signal>)>)
        requires
            old(self).inv(),
        ensures
            final(self).inv(),
            match started_async(old(self)@, AcquireType::Read, fresh) {
                Some((s, n, sigs)) => r is Some && (r->0).0 == n && (r->0).1@ == sigs
                    && final(self)@ == s,
                None => r is None && final(self)@ == old(self)@,
            },
    {
        self.start_acquire(AcquireType::Read, fresh)
    }

    /// First half of acquiring a write-lock; see `start_acquire_read`.
    pub fn start_acquire_write(&mut self, fresh: u64) -> (r: Option<(u64, Vec<Signal>)>)
        requires
            old(self).inv(),
        ensures
            final(self).inv(),
            match started_async(old(self)@, AcquireType::Write, fresh) {
                Some((s, n, sigs)) => r is Some && (r->0).0 == n && (r->0).1@ == sigs
                    && final(self)@ == s,
                None => r is None && final(self)@ == old(self)@,
            },
    {
        self.start_acquire(AcquireType::Write, fresh)
    }

    /// Releases a read-lock. Releasing when no reader holds the lock is left
    /// out.
    pub fn release_read(&mut self) -> (sigs: Vec<Signal>)
        requires
            old(self).inv(),
            old(self)@.readers > 0,
        ensures
            final(self).inv(),
            final(self)@ == released_read(old(self)@).0,
            sigs@ == released_read(old(self)@).1,
    {
        self.core.release_read()
    }

    /// Releases the write-lock.
    pub fn release_write(&mut self) -> (sigs: Vec<Signal>)
        requires
            old(self).inv(),
        ensures
            final(self).inv(),
            final(self)@ == released_write(old(self)@).0,
            sigs@ == released_write(old(self)@).1,
    {
        self.core.release_write()
    }

    /// Flips the closed flag: closing a closed semaphore opens it again.
    pub fn flip_closed(&mut self)
        requires
            old(self).inv(),
        ensures
            final(self).inv(),
            final(self)@ == (SemaphoreState { closed: !old(self)@.closed, ..old(self)@ }),
    {
        self.core.flip_closed()
    }

    /// The notifiers of the queued batches, oldest first.
    pub fn notifiers(&self) -> (r: Vec<u64>)
        requires
            self.inv(),
        ensures
            r@ == notifiers_of(self@.queue),
    {
        self.core.notifiers()
    }

    /// Closes the semaphore (flipping the flag) and returns the notifiers of
    /// the queued batches, all of whose waiters the caller wakes, as it does
    /// those waiting for room.
    pub fn close(&mut self) -> (r: Vec<u64>)
        requires
            old(self).inv(),
        ensures
            final(self).inv(),
            final(self)@ == (SemaphoreState { closed: !old(self)@.closed, ..old(self)@ }),
            r@ == notifiers_of(old(self)@.queue),
    {
        self.core.close()
    }
}

} // verus!
