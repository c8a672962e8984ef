//! The reader/writer semaphore behind the blocking `Worl`.
//!
//! Requests are queued, in arrival order, in a ring buffer of
//! `ACQUIRE_BUFFER_SIZE` batches; consecutive requests of one kind share a
//! batch of up to `ACQUIRE_BATCH_SIZE_MAX` requests. Only the batch at the
//! front of the queue is ever granted, so writers cannot be starved by a
//! stream of readers. A write-lock is granted only while nothing is held,
//! and nothing is granted while it is held. A batch whose requests have all
//! been granted (or withdrawn) keeps its place at the front while its
//! holders hold the lock; once nothing is held, the batch leaves the queue,
//! and its departure is announced to callers waiting for room.
//!
//! The functions here make every decision of the semaphore; waiting on a
//! notifier is left to the caller, which sends each `Signal` they return.
use crate::alo::notify::NOTIFY_TIMEOUT_DEFAULT_MILLIS;
use crate::alo::request::{
    queue_back_mut, queue_dequeue, queue_fits, queue_front_mut, queue_get, queue_get_mut,
    queue_is_full, queue_len, queue_new, queue_peek, queue_push, request_capacity, request_items,
    Acquire, AcquireType,
};
use ringbuffer::AllocRingBuffer;
use vstd::prelude::*;

verus! {

/// Largest number of requests one batch may hold.
pub const ACQUIRE_BATCH_SIZE_MAX: usize = 128;

/// Number of batches the request queue can hold.
pub const ACQUIRE_BUFFER_SIZE: usize = 16;

/// Largest number of read-locks held at once.
pub const MAX_READS: u8 = 128;

/// Why a lock could not be acquired.
#[derive(Clone, Copy, Debug, PartialEq, Eq, Structural)]
pub enum AcquireError {
    /// the lock holds no value
    ValueNone,
    /// the request queue had no room for a read request
    ReadUnavailable,
    /// the request queue had no room for a write request
    WriteUnavailable,
    /// the request was not granted within the timeout
    Timeout,
    /// a thread panicked while holding the semaphore's state
    Poisoned,
    /// the semaphore is closed
    Closed,
}

pub type AcquireResult<T = ()> = Result<T, AcquireError>;

/// A notification that the semaphore asks its caller to send.
#[derive(Clone, Copy, Debug, PartialEq, Eq, Structural)]
pub enum Signal {
    /// grant one request of the batch waiting on the notifier: wake one
    /// waiter
    One(u64),
    /// grant the given number of requests of the batch waiting on the
    /// notifier: wake that many waiters
    Many(u64, u8),
    /// a batch left the queue: wake every caller waiting for room
    Available,
    /// a lock was given back: wake every caller waiting for a release
    Released,
}

/// The semaphore as Verus sees it.
#[verifier::ext_equal]
pub struct SemaphoreState {
    /// read-locks currently held
    pub readers: nat,
    /// whether a write-lock is currently held
    pub writer: bool,
    /// the request queue, oldest batch first
    pub queue: Seq<Acquire>,
    /// whether the semaphore is closed
    pub closed: bool,
    /// timeout, in milliseconds, for new notifiers
    pub timeout: u16,
    /// largest number of requests one batch may hold
    pub batch_limit: usize,
}

impl SemaphoreState {
    /// The limits and the exclusion every state keeps: at most `MAX_READS`
    /// readers, never a writer beside readers, the readers' batch at the
    /// front of the queue while they hold the lock, and a queue within its
    /// capacity of batches within their size.
    pub open spec fn wf(self) -> bool {
        &&& self.readers <= MAX_READS
        &&& !(self.writer && self.readers > 0)
        &&& self.readers > 0 ==> self.queue.len() > 0 && self.queue[0].kind == AcquireType::Read
        &&& self.writer ==> self.queue.len() > 0 && self.queue[0].kind == AcquireType::Write
        &&& self.queue.len() <= ACQUIRE_BUFFER_SIZE
        &&& 0 < self.batch_limit
        &&& forall|i: int|
            0 <= i < self.queue.len() ==> #[trigger] self.queue[i].count <= self.batch_limit
    }

    pub open spec fn with_queue(self, queue: Seq<Acquire>) -> SemaphoreState {
        SemaphoreState { queue, ..self }
    }

    pub open spec fn with_readers(self, readers: nat) -> SemaphoreState {
        SemaphoreState { readers, ..self }
    }

    pub open spec fn with_writer(self, writer: bool) -> SemaphoreState {
        SemaphoreState { writer, ..self }
    }
}

/// The state of a new semaphore whose batches hold up to `batch_limit`
/// requests.
pub open spec fn initial_with(batch_limit: usize) -> SemaphoreState {
    SemaphoreState {
        readers: 0,
        writer: false,
        queue: Seq::empty(),
        closed: false,
        timeout: NOTIFY_TIMEOUT_DEFAULT_MILLIS,
        batch_limit,
    }
}

/// The state of a new semaphore.
pub open spec fn initial() -> SemaphoreState {
    initial_with(ACQUIRE_BATCH_SIZE_MAX)
}

pub open spec fn with_count(a: Acquire, count: int) -> Acquire {
    Acquire { count: count as usize, ..a }
}

pub open spec fn min(a: int, b: int) -> int {
    if a <= b {
        a
    } else {
        b
    }
}

/// What a poll does, one step at a time: while nothing is held, an
/// exhausted batch at the front leaves the queue (announced by
/// `Available`), so a batch keeps its place while its holders hold the lock;
/// then, unless a writer holds the lock, the front batch is
/// granted: a read batch as many requests as there are free read slots, a
/// write batch one request when no reader holds the lock. Polling goes on
/// until nothing more can be done.
pub open spec fn polled(s: SemaphoreState) -> (SemaphoreState, Seq<Signal>)
    decreases s.queue.len(), s.queue[0].count,
{
    if s.readers == 0 && !s.writer && s.queue.len() > 0 && s.queue[0].count == 0 {
        let (t, sigs) = polled(s.with_queue(s.queue.drop_first()));
        (t, seq![Signal::Available] + sigs)
    } else if s.writer || s.queue.len() == 0 || s.queue[0].count == 0 {
        (s, Seq::empty())
    } else {
        let a = s.queue[0];
        if a.kind == AcquireType::Read {
            if s.readers < MAX_READS {
                let permits = min(MAX_READS - s.readers, a.count as int);
                let (t, sigs) = polled(
                    s.with_readers((s.readers + permits) as nat).with_queue(
                        s.queue.update(0, with_count(a, a.count - permits)),
                    ),
                );
                (t, seq![Signal::Many(a.notifier, permits as u8)] + sigs)
            } else {
                (s, Seq::empty())
            }
        } else if s.readers == 0 {
            let (t, sigs) = polled(
                s.with_writer(true).with_queue(s.queue.update(0, with_count(a, a.count - 1))),
            );
            (t, seq![Signal::One(a.notifier)] + sigs)
        } else {
            (s, Seq::empty())
        }
    }
}

/// The error for a request of this kind that finds no room in the queue.
pub open spec fn unavailable(kind: AcquireType) -> AcquireError {
    if kind == AcquireType::Read {
        AcquireError::ReadUnavailable
    } else {
        AcquireError::WriteUnavailable
    }
}

impl Acquire {
    pub open spec fn new_spec(kind: AcquireType, notifier: u64) -> Acquire {
        Acquire { kind, count: 1, notifier }
    }
}

/// Where a new request of the given kind goes: it joins the newest batch
/// when that batch is of its kind and has room, else opens a batch waiting
/// on `fresh` when the queue has room; `Ok` carries the state after it is
/// recorded and the notifier its caller waits on.
pub open spec fn requested(s: SemaphoreState, kind: AcquireType, fresh: u64) -> Result<
    (SemaphoreState, u64),
    AcquireError,
> {
    let q = s.queue;
    if s.closed {
        Err(AcquireError::Closed)
    } else if q.len() > 0 && q.last().kind == kind && q.last().count < s.batch_limit {
        Ok((s.with_queue(q.update(q.len() - 1, with_count(q.last(), q.last().count + 1))), q.last().notifier))
    } else if q.len() < ACQUIRE_BUFFER_SIZE {
        Ok((s.with_queue(q.push(Acquire::new_spec(kind, fresh))), fresh))
    } else {
        Err(unavailable(kind))
    }
}

/// What starting an acquisition does: the request is recorded and a poll
/// follows; `Ok` carries the state after the poll, the notifier to wait on
/// and the signals the poll asks for.
pub open spec fn started(s: SemaphoreState, kind: AcquireType, fresh: u64) -> Result<
    (SemaphoreState, u64, Seq<Signal>),
    AcquireError,
> {
    match requested(s, kind, fresh) {
        Ok((m, n)) => Ok((polled(m).0, n, polled(m).1)),
        Err(e) => Err(e),
    }
}

/// The index of the first batch, at or after `i`, that waits on `notifier`;
/// the queue's length if there is none.
pub open spec fn position_from(q: Seq<Acquire>, notifier: u64, i: nat) -> nat
    decreases q.len() - i,
{
    if i >= q.len() {
        q.len()
    } else if q[i as int].notifier == notifier {
        i
    } else {
        position_from(q, notifier, i + 1)
    }
}

/// The queue after a caller of `notifier` gave up waiting: its batch counts
/// one request fewer (a batch with none left is unchanged).
pub open spec fn withdrawn(s: SemaphoreState, notifier: u64) -> SemaphoreState {
    let i = position_from(s.queue, notifier, 0) as int;
    if i < s.queue.len() && s.queue[i].count > 0 {
        s.with_queue(s.queue.update(i, with_count(s.queue[i], s.queue[i].count - 1)))
    } else {
        s
    }
}

/// What ending an acquisition does once the wait is over: a caller that was
/// notified holds the lock unless the semaphore was closed meanwhile; one
/// that timed out withdraws its request, and a poll follows.
pub open spec fn finished(s: SemaphoreState, notifier: u64, notified: bool) -> (
    SemaphoreState,
    AcquireResult,
    Seq<Signal>,
) {
    if notified {
        (
            s,
            if s.closed {
                Err(AcquireError::Closed)
            } else {
                Ok(())
            },
            Seq::empty(),
        )
    } else {
        let w = withdrawn(s, notifier);
        (polled(w).0, Err(AcquireError::Timeout), polled(w).1)
    }
}

/// Giving a lock back: the holders are counted down, the release is
/// announced, and an open semaphore polls.
pub open spec fn released(t: SemaphoreState) -> (SemaphoreState, Seq<Signal>) {
    if t.closed {
        (t, seq![Signal::Released])
    } else {
        (polled(t).0, seq![Signal::Released] + polled(t).1)
    }
}

/// Releasing a read-lock.
pub open spec fn released_read(s: SemaphoreState) -> (SemaphoreState, Seq<Signal>) {
    released(s.with_readers((s.readers - 1) as nat))
}

/// Releasing the write-lock.
pub open spec fn released_write(s: SemaphoreState) -> (SemaphoreState, Seq<Signal>) {
    released(s.with_writer(false))
}

/// The notifiers of the queued batches, oldest first.
pub open spec fn notifiers_of(q: Seq<Acquire>) -> Seq<u64> {
    q.map_values(|a: Acquire| a.notifier)
}

/// One step a semaphore can take.
pub enum Step {
    /// a read request opening a batch on the given notifier if it must
    Read(u64),
    /// a write request opening a batch on the given notifier if it must
    Write(u64),
    /// the end of a wait on the notifier: notified or timed out
    Finish(u64, bool),
    ReleaseRead,
    ReleaseWrite,
    Close,
    SetTimeout(u16),
}

/// The state after a step (a step the semaphore refuses, or a read release
/// with no reader, leaves it unchanged).
pub open spec fn step(s: SemaphoreState, op: Step) -> SemaphoreState {
    match op {
        Step::Read(fresh) => match started(s, AcquireType::Read, fresh) {
            Ok((t, _, _)) => t,
            Err(_) => s,
        },
        Step::Write(fresh) => match started(s, AcquireType::Write, fresh) {
            Ok((t, _, _)) => t,
            Err(_) => s,
        },
        Step::Finish(n, notified) => finished(s, n, notified).0,
        Step::ReleaseRead => if s.readers > 0 {
            released_read(s).0
        } else {
            s
        },
        Step::ReleaseWrite => released_write(s).0,
        Step::Close => SemaphoreState { closed: !s.closed, ..s },
        Step::SetTimeout(t) => SemaphoreState { timeout: t, ..s },
    }
}

/// The state after a sequence of steps.
pub open spec fn run(s: SemaphoreState, ops: Seq<Step>) -> SemaphoreState
    decreases ops.len(),
{
    if ops.len() == 0 {
        s
    } else {
        run(step(s, ops[0]), ops.drop_first())
    }
}

/// How many of the signals announce a batch leaving the queue.
pub open spec fn announcements(sigs: Seq<Signal>) -> nat
    decreases sigs.len(),
{
    if sigs.len() == 0 {
        0
    } else {
        (if sigs[0] == Signal::Available {
            1nat
        } else {
            0nat
        }) + announcements(sigs.drop_first())
    }
}

/// The read-locks the signals grant.
pub open spec fn read_grants(sigs: Seq<Signal>) -> nat
    decreases sigs.len(),
{
    if sigs.len() == 0 {
        0
    } else {
        (match sigs[0] {
            Signal::Many(_, p) => p as nat,
            _ => 0nat,
        }) + read_grants(sigs.drop_first())
    }
}

/// Whether a signal grants requests.
pub open spec fn is_grant(sig: Signal) -> bool {
    sig is One || sig is Many
}

/// The index of the oldest batch that still has requests; the queue's
/// length if there is none.
pub open spec fn first_with_requests(q: Seq<Acquire>) -> nat
    decreases q.len(),
{
    if q.len() == 0 {
        0
    } else if q[0].count > 0 {
        0
    } else {
        1 + first_with_requests(q.drop_first())
    }
}

/// The grant a poll with nothing held gives a batch that has requests.
pub open spec fn first_grant(a: Acquire) -> Signal {
    if a.kind == AcquireType::Read {
        Signal::Many(a.notifier, min(MAX_READS as int, a.count as int) as u8)
    } else {
        Signal::One(a.notifier)
    }
}


proof fn lemma_prepend_counts(x: Signal, rest: Seq<Signal>)
    ensures
        announcements(seq![x] + rest) == (if x == Signal::Available {
            1nat
        } else {
            0nat
        }) + announcements(rest),
        read_grants(seq![x] + rest) == (match x {
            Signal::Many(_, p) => p as nat,
            _ => 0nat,
        }) + read_grants(rest),
        (seq![x] + rest)[0] == x,
        forall|k: int| 0 <= k < rest.len() ==> (seq![x] + rest)[k + 1] == rest[k],
{
    assert((seq![x] + rest).drop_first() =~= rest);
}

proof fn lemma_drop_first_wf(s: SemaphoreState)
    requires
        s.wf(),
        s.readers == 0,
        !s.writer,
        s.queue.len() > 0,
    ensures
        s.with_queue(s.queue.drop_first()).wf(),
{
    assert forall|i: int| 0 <= i < s.queue.len() - 1 implies #[trigger] s.queue.drop_first()[i].count
        <= s.batch_limit by {
        assert(s.queue.drop_first()[i] == s.queue[i + 1]);
    }
}

/// Polling keeps the limits and the exclusion of `wf`, counts up the
/// readers by exactly the read requests it grants, and announces every
/// batch it removes from the queue.
pub proof fn lemma_poll_keeps_wf(s: SemaphoreState)
    requires
        s.wf(),
    ensures
        polled(s).0.wf(),
        polled(s).0.readers == s.readers + read_grants(polled(s).1),
        polled(s).0.queue.len() + announcements(polled(s).1) == s.queue.len(),
        polled(s).0.closed == s.closed,
        polled(s).0.timeout == s.timeout,
    decreases s.queue.len(), s.queue[0].count,
{
    if s.readers == 0 && !s.writer && s.queue.len() > 0 && s.queue[0].count == 0 {
        let s1 = s.with_queue(s.queue.drop_first());
        lemma_drop_first_wf(s);
        lemma_poll_keeps_wf(s1);
        lemma_prepend_counts(Signal::Available, polled(s1).1);
    } else if s.writer || s.queue.len() == 0 || s.queue[0].count == 0 {
    } else {
        let a = s.queue[0];
        if a.kind == AcquireType::Read {
            if s.readers < MAX_READS {
                let permits = min(MAX_READS - s.readers, a.count as int);
                let s1 = s.with_readers((s.readers + permits) as nat).with_queue(
                    s.queue.update(0, with_count(a, a.count - permits)),
                );
                assert(s1.wf());
                lemma_poll_keeps_wf(s1);
                lemma_prepend_counts(Signal::Many(a.notifier, permits as u8), polled(s1).1);
            }
        } else if s.readers == 0 {
            let s1 = s.with_writer(true).with_queue(s.queue.update(0, with_count(a, a.count - 1)));
            assert(s1.wf());
            lemma_poll_keeps_wf(s1);
            lemma_prepend_counts(Signal::One(a.notifier), polled(s1).1);
        }
    }
}

/// While a writer holds the lock, a poll changes nothing: no request is
/// granted, the writer's batch keeps its place, and nothing is signalled.
pub proof fn lemma_held_writer_blocks(s: SemaphoreState)
    requires
        s.writer,
    ensures
        polled(s).0 == s,
        polled(s).1.len() == 0,
{
}

/// While readers hold the lock, a poll grants no write-lock: no writer
/// holds it afterwards and no signal grants a single write request.
pub proof fn lemma_readers_block_writers(s: SemaphoreState)
    requires
        s.wf(),
        s.readers > 0,
    ensures
        !polled(s).0.writer,
        forall|k: int| 0 <= k < polled(s).1.len() ==> !(polled(s).1[k] is One),
    decreases s.queue.len(), s.queue[0].count,
{
    if s.writer || s.queue.len() == 0 || s.queue[0].count == 0 {
    } else {
        let a = s.queue[0];
        if a.kind == AcquireType::Read && s.readers < MAX_READS {
            let permits = min(MAX_READS - s.readers, a.count as int);
            let s1 = s.with_readers((s.readers + permits) as nat).with_queue(
                s.queue.update(0, with_count(a, a.count - permits)),
            );
            assert(s1.wf());
            lemma_readers_block_writers(s1);
            lemma_prepend_counts(Signal::Many(a.notifier, permits as u8), polled(s1).1);
            assert forall|k: int| 0 <= k < polled(s).1.len() implies !(polled(s).1[k] is One) by {
                if k > 0 {
                    assert(polled(s).1[k] == polled(s1).1[k - 1]);
                }
            }
        }
    }
}

/// While readers hold the lock, their batch keeps its place at the front
/// of the queue: a poll removes no batch and still has a read batch in
/// front.
pub proof fn lemma_readers_keep_their_batch(s: SemaphoreState)
    requires
        s.wf(),
        s.readers > 0,
    ensures
        polled(s).0.queue.len() == s.queue.len(),
        polled(s).0.queue[0].kind == AcquireType::Read,
        polled(s).0.queue[0].notifier == s.queue[0].notifier,
    decreases s.queue.len(), s.queue[0].count,
{
    if s.writer || s.queue.len() == 0 || s.queue[0].count == 0 {
    } else {
        let a = s.queue[0];
        if a.kind == AcquireType::Read && s.readers < MAX_READS {
            let permits = min(MAX_READS - s.readers, a.count as int);
            let s1 = s.with_readers((s.readers + permits) as nat).with_queue(
                s.queue.update(0, with_count(a, a.count - permits)),
            );
            assert(s1.wf());
            lemma_readers_keep_their_batch(s1);
        }
    }
}

/// Progress, in arrival order: once nothing is held, a poll announces the
/// departure of the exhausted batches ahead and then grants the oldest batch
/// that still has requests.
pub proof fn lemma_poll_grants_oldest_waiting(s: SemaphoreState)
    requires
        s.wf(),
        s.readers == 0,
        !s.writer,
        first_with_requests(s.queue) < s.queue.len(),
    ensures
        ({
            let j = first_with_requests(s.queue) as int;
            &&& polled(s).1.len() > j
            &&& forall|k: int| 0 <= k < j ==> polled(s).1[k] == Signal::Available
            &&& polled(s).1[j] == first_grant(s.queue[j])
        }),
    decreases s.queue.len(),
{
    if s.queue[0].count == 0 {
        let s1 = s.with_queue(s.queue.drop_first());
        lemma_drop_first_wf(s);
        assert(s.queue.drop_first().len() == s.queue.len() - 1);
        lemma_poll_grants_oldest_waiting(s1);
        lemma_prepend_counts(Signal::Available, polled(s1).1);
        let j = first_with_requests(s.queue) as int;
        assert(s.queue.drop_first()[j - 1] == s.queue[j]);
        assert forall|k: int| 0 <= k < j implies polled(s).1[k] == Signal::Available by {
            if k > 0 {
                assert(polled(s).1[k] == polled(s1).1[k - 1]);
            }
        }
    } else {
        let a = s.queue[0];
        if a.kind == AcquireType::Read {
            let permits = min(MAX_READS - s.readers, a.count as int);
            let s1 = s.with_readers((s.readers + permits) as nat).with_queue(
                s.queue.update(0, with_count(a, a.count - permits)),
            );
            lemma_prepend_counts(Signal::Many(a.notifier, permits as u8), polled(s1).1);
        } else {
            let s1 = s.with_writer(true).with_queue(s.queue.update(0, with_count(a, a.count - 1)));
            lemma_prepend_counts(Signal::One(a.notifier), polled(s1).1);
        }
    }
}

/// Recording a request keeps `wf`.
pub proof fn lemma_request_keeps_wf(s: SemaphoreState, kind: AcquireType, fresh: u64)
    requires
        s.wf(),
    ensures
        requested(s, kind, fresh) matches Ok((t, _)) ==> t.wf(),
{
    let q = s.queue;
    if !s.closed && q.len() > 0 && q.last().kind == kind && q.last().count < s.batch_limit {
        let t = s.with_queue(q.update(q.len() - 1, with_count(q.last(), q.last().count + 1)));
        assert(t.queue[0].kind == q[0].kind);
        assert forall|i: int| 0 <= i < t.queue.len() implies #[trigger] t.queue[i].count
            <= t.batch_limit by {
            if i != q.len() - 1 {
                assert(t.queue[i] == q[i]);
            }
        }
    } else if !s.closed && q.len() < ACQUIRE_BUFFER_SIZE {
        let t = s.with_queue(q.push(Acquire::new_spec(kind, fresh)));
        if q.len() > 0 {
            assert(t.queue[0] == q[0]);
        }
        assert forall|i: int| 0 <= i < t.queue.len() implies #[trigger] t.queue[i].count
            <= t.batch_limit by {
            if i < q.len() {
                assert(t.queue[i] == q[i]);
            }
        }
    }
}

/// Withdrawing a request keeps `wf`.
pub proof fn lemma_withdraw_keeps_wf(s: SemaphoreState, notifier: u64)
    requires
        s.wf(),
    ensures
        withdrawn(s, notifier).wf(),
{
}

/// Every step keeps the limits and the exclusion of `wf`.
pub proof fn lemma_step_keeps_wf(s: SemaphoreState, op: Step)
    requires
        s.wf(),
    ensures
        step(s, op).wf(),
{
    match op {
        Step::Read(fresh) => {
            lemma_request_keeps_wf(s, AcquireType::Read, fresh);
            if let Ok((m, _)) = requested(s, AcquireType::Read, fresh) {
                lemma_poll_keeps_wf(m);
            }
        },
        Step::Write(fresh) => {
            lemma_request_keeps_wf(s, AcquireType::Write, fresh);
            if let Ok((m, _)) = requested(s, AcquireType::Write, fresh) {
                lemma_poll_keeps_wf(m);
            }
        },
        Step::Finish(n, notified) => {
            if !notified {
                lemma_withdraw_keeps_wf(s, n);
                lemma_poll_keeps_wf(withdrawn(s, n));
            }
        },
        Step::ReleaseRead => {
            if s.readers > 0 {
                lemma_poll_keeps_wf(s.with_readers((s.readers - 1) as nat));
            }
        },
        Step::ReleaseWrite => {
            lemma_poll_keeps_wf(s.with_writer(false));
        },
        _ => {},
    }
}

/// Mutual exclusion: in every state reached from a new semaphore, whatever
/// the steps, no reader holds the lock beside a writer, at most `MAX_READS`
/// readers hold it, and the queue keeps its limits.
pub proof fn lemma_reachable_states_exclusive(ops: Seq<Step>)
    ensures
        run(initial(), ops).wf(),
        !(run(initial(), ops).writer && run(initial(), ops).readers > 0),
{
    lemma_run_keeps_wf(initial(), ops);
}

proof fn lemma_run_keeps_wf(s: SemaphoreState, ops: Seq<Step>)
    requires
        s.wf(),
    ensures
        run(s, ops).wf(),
    decreases ops.len(),
{
    if ops.len() > 0 {
        lemma_step_keeps_wf(s, ops[0]);
        lemma_run_keeps_wf(step(s, ops[0]), ops.drop_first());
    }
}

/// Requests of one kind are batched: on an open semaphore whose newest batch
/// is of the request's kind and has room, the request joins it, so the
/// queue does not grow and the caller waits on that batch's notifier.
pub proof fn lemma_same_kind_batched(s: SemaphoreState, kind: AcquireType, fresh: u64)
    requires
        !s.closed,
        s.queue.len() > 0,
        s.queue.last().kind == kind,
        s.queue.last().count < s.batch_limit,
    ensures
        requested(s, kind, fresh) == Ok::<(SemaphoreState, u64), AcquireError>(
            (
                s.with_queue(
                    s.queue.update(
                        s.queue.len() - 1,
                        with_count(s.queue.last(), s.queue.last().count + 1),
                    ),
                ),
                s.queue.last().notifier,
            ),
        ),
{
}

/// A full queue refuses a request that cannot join its newest batch, and
/// the refusal changes nothing.
pub proof fn lemma_full_queue_refuses(s: SemaphoreState, kind: AcquireType, fresh: u64)
    requires
        !s.closed,
        s.queue.len() == ACQUIRE_BUFFER_SIZE,
        !(s.queue.last().kind == kind && s.queue.last().count < s.batch_limit),
    ensures
        started(s, kind, fresh) == Err::<(SemaphoreState, u64, Seq<Signal>), AcquireError>(
            unavailable(kind),
        ),
{
}

/// A closed semaphore refuses every acquisition.
pub proof fn lemma_closed_refuses(s: SemaphoreState, kind: AcquireType, fresh: u64)
    requires
        s.closed,
    ensures
        started(s, kind, fresh) == Err::<(SemaphoreState, u64, Seq<Signal>), AcquireError>(
            AcquireError::Closed,
        ),
{
}

/// A caller that times out takes back exactly one request of the batch it
/// waited on, when that batch still has one.
pub proof fn lemma_timeout_withdraws_one(s: SemaphoreState, notifier: u64)
    requires
        position_from(s.queue, notifier, 0) < s.queue.len(),
        s.queue[position_from(s.queue, notifier, 0) as int].count > 0,
    ensures
        ({
            let i = position_from(s.queue, notifier, 0) as int;
            let w = withdrawn(s, notifier);
            &&& w.queue.len() == s.queue.len()
            &&& w.queue[i].count == s.queue[i].count - 1
            &&& forall|j: int| 0 <= j < s.queue.len() && j != i ==> w.queue[j] == s.queue[j]
        }),
{
}

proof fn lemma_position_is_first(q: Seq<Acquire>, notifier: u64, i: int, k: nat)
    requires
        k <= i < q.len(),
        q[i].notifier == notifier,
        forall|j: int| k <= j < i ==> #[trigger] q[j].notifier != notifier,
    ensures
        position_from(q, notifier, k) == i,
    decreases i - k,
{
    if k < i {
        lemma_position_is_first(q, notifier, i, k + 1);
    }
}

/// A request that timed out is taken back from the batch it waits on,
/// wherever that batch stands in the queue, the front one included: when
/// the batch at `i` is the first that waits on `notifier` and still counts
/// a request, ending the wait without a notification fails with `Timeout`,
/// counts that batch one request fewer, leaves every other batch and the
/// holders as they were, and then polls.
pub proof fn lemma_timeout_withdraws_from_its_batch(s: SemaphoreState, notifier: u64, i: int)
    requires
        0 <= i < s.queue.len(),
        s.queue[i].notifier == notifier,
        forall|j: int| 0 <= j < i ==> #[trigger] s.queue[j].notifier != notifier,
        s.queue[i].count > 0,
    ensures
        ({
            let w = withdrawn(s, notifier);
            &&& w.queue.len() == s.queue.len()
            &&& w.queue[i].count == s.queue[i].count - 1
            &&& w.queue[i].kind == s.queue[i].kind
            &&& w.queue[i].notifier == notifier
            &&& forall|j: int| 0 <= j < s.queue.len() && j != i ==> w.queue[j] == s.queue[j]
            &&& w.readers == s.readers
            &&& w.writer == s.writer
            &&& w.closed == s.closed
            &&& finished(s, notifier, false).1 == Err::<(), AcquireError>(AcquireError::Timeout)
            &&& finished(s, notifier, false).0 == polled(w).0
            &&& finished(s, notifier, false).2 == polled(w).1
        }),
{
    lemma_position_is_first(s.queue, notifier, i, 0);
}

/// Once the last holder lets go, the oldest waiting batch is granted: a
/// release that leaves nothing held, on an open semaphore, grants the
/// oldest batch that still has requests.
pub proof fn lemma_release_hands_over(s: SemaphoreState)
    requires
        s.wf(),
        !s.closed,
        s.readers == 1 || (s.writer && s.readers == 0),
        first_with_requests(s.queue) < s.queue.len(),
    ensures
        ({
            let t = if s.writer {
                s.with_writer(false)
            } else {
                s.with_readers(0)
            };
            let j = first_with_requests(s.queue) as int;
            &&& released(t).1 == seq![Signal::Released] + polled(t).1
            &&& polled(t).1.len() > j
            &&& polled(t).1[j] == first_grant(s.queue[j])
        }),
{
    let t = if s.writer {
        s.with_writer(false)
    } else {
        s.with_readers(0)
    };
    lemma_poll_grants_oldest_waiting(t);
}


/// A semaphore that allows multiple simultaneous readers but only one active
/// writer, with a queue of requests so that writers cannot be starved.
pub struct RwSemaphore {
    /// reader count
    rc: u8,
    /// write-lock held
    wh: bool,
    /// the request queue
    al: AllocRingBuffer<Acquire>,
    /// semaphore closed
    sc: bool,
    /// timeout for new notifiers
    to: u16,
    /// largest number of requests one batch may hold
    bl: usize,
}

impl View for RwSemaphore {
    type V = SemaphoreState;

    closed spec fn view(&self) -> SemaphoreState {
        SemaphoreState {
            readers: self.rc as nat,
            writer: self.wh,
            queue: request_items(self.al),
            closed: self.sc,
            timeout: self.to,
            batch_limit: self.bl,
        }
    }
}

fn signal_then(first: Signal, rest: Vec<Signal>) -> (r: Vec<Signal>)
    ensures
        r@ == seq![first] + rest@,
{
    let ghost tail = rest@;
    let mut out: Vec<Signal> = Vec::new();
    out.push(first);
    let mut rest = rest;
    out.append(&mut rest);
    proof {
        assert(out@ =~= seq![first] + tail);
    }
    out
}

impl RwSemaphore {
    /// The queue keeps its capacity and the state its limits.
    pub closed spec fn inv(&self) -> bool {
        &&& queue_fits(self.al)
        &&& request_capacity(self.al) == ACQUIRE_BUFFER_SIZE
        &&& self@.wf()
    }

    pub fn new() -> (r: RwSemaphore)
        ensures
            r.inv(),
            r@ == initial(),
    {
        RwSemaphore::with_batch_limit(ACQUIRE_BATCH_SIZE_MAX)
    }

    /// A semaphore whose batches hold up to `batch_limit` requests (at least
    /// one).
    pub fn with_batch_limit(batch_limit: usize) -> (r: RwSemaphore)
        requires
            0 < batch_limit,
        ensures
            r.inv(),
            r@ == initial_with(batch_limit),
    {
        RwSemaphore {
            rc: 0,
            wh: false,
            al: queue_new(ACQUIRE_BUFFER_SIZE),
            sc: false,
            to: NOTIFY_TIMEOUT_DEFAULT_MILLIS,
            bl: batch_limit,
        }
    }

    /// A well-formed semaphore keeps the limits and the exclusion of `wf`.
    pub proof fn lemma_inv_gives_wf(&self)
        requires
            self.inv(),
        ensures
            self@.wf(),
    {
    }

    /// Retires exhausted batches at the front while nothing is held, and
    /// grants what can be granted, until nothing more can be done.
    pub fn poll(&mut self) -> (sigs: Vec<Signal>)
        requires
            old(self).inv(),
        ensures
            final(self).inv(),
            final(self)@ == polled(old(self)@).0,
            sigs@ == polled(old(self)@).1,
        decreases old(self)@.queue.len(), old(self)@.queue[0].count,
    {
        let ghost s = self@;
        let front = match queue_peek(&self.al) {
            Some(front) => front,
            None => {
                return Vec::new();
            },
        };
        if self.rc == 0 && !self.wh && front.count == 0 {
            let _ = queue_dequeue(&mut self.al);
            proof {
                lemma_drop_first_wf(s);
                assert(self@ =~= s.with_queue(s.queue.drop_first()));
            }
            let rest = self.poll();
            return signal_then(Signal::Available, rest);
        }
        if self.wh || front.count == 0 {
            return Vec::new();
        }
        if front.is_read() {
            if self.rc < MAX_READS {
                let room = (MAX_READS - self.rc) as usize;
                let acquire = queue_front_mut(&mut self.al);
                let permit_count = if room <= acquire.count {
                    room
                } else {
                    acquire.count
                };
                acquire.count = acquire.count - permit_count;
                let notifier = acquire.notifier;
                self.rc = self.rc + permit_count as u8;
                proof {
                    assert(self@ =~= s.with_readers((s.readers + permit_count) as nat).with_queue(
                        s.queue.update(0, with_count(s.queue[0], s.queue[0].count - permit_count)),
                    ));
                }
                let rest = self.poll();
                signal_then(Signal::Many(notifier, permit_count as u8), rest)
            } else {
                Vec::new()
            }
        } else if self.rc == 0 {
            let acquire = queue_front_mut(&mut self.al);
            acquire.count = acquire.count - 1;
            let notifier = acquire.notifier;
            self.wh = true;
            proof {
                assert(self@ =~= s.with_writer(true).with_queue(
                    s.queue.update(0, with_count(s.queue[0], s.queue[0].count - 1)),
                ));
            }
            let rest = self.poll();
            signal_then(Signal::One(notifier), rest)
        } else {
            Vec::new()
        }
    }

    /// Records that a caller waiting on `notifier` gave up: the first batch
    /// waiting on it counts one request fewer.
    fn dequeue(&mut self, notifier: u64)
        requires
            old(self).inv(),
        ensures
            final(self).inv(),
            final(self)@ == withdrawn(old(self)@, notifier),
    {
        let ghost s = self@;
        let len = queue_len(&self.al);
        let mut i: usize = 0;
        while i < len
            invariant
                self@ == s,
                s == old(self)@,
                self.inv(),
                len == s.queue.len(),
                i <= len,
                position_from(s.queue, notifier, 0) == position_from(s.queue, notifier, i as nat),
            decreases len - i,
        {
            let entry = queue_get(&self.al, i);
            proof {
                assert(i as int % len as int == i as int) by (nonlinear_arith)
                    requires
                        i < len,
                ;
            }
            let e = entry.unwrap();
            if e.notifier == notifier {
                proof {
                    assert(position_from(s.queue, notifier, i as nat) == i);
                }
                if e.count > 0 {
                    let acquire = queue_get_mut(&mut self.al, i);
                    acquire.count = acquire.count - 1;
                    proof {
                        assert(self@ =~= withdrawn(s, notifier));
                    }
                }
                return;
            }
            i = i + 1;
        }
        proof {
            assert(self@ =~= withdrawn(s, notifier));
        }
    }

    /// Records a request of the given kind: it joins the newest batch when
    /// that batch is of its kind and has room, else opens a batch waiting on
    /// `fresh` when the queue has room.
    fn enqueue(&mut self, kind: AcquireType, fresh: u64) -> (r: AcquireResult<u64>)
        requires
            old(self).inv(),
        ensures
            final(self).inv(),
            match requested(old(self)@, kind, fresh) {
                Ok((s, n)) => r == Ok::<u64, AcquireError>(n) && final(self)@ == s,
                Err(e) => r == Err::<u64, AcquireError>(e) && final(self)@ == old(self)@,
            },
    {
        let ghost s = self@;
        proof {
            lemma_request_keeps_wf(s, kind, fresh);
        }
        if self.sc {
            return Err(AcquireError::Closed);
        }
        let read = match kind {
            AcquireType::Read => true,
            AcquireType::Write => false,
        };
        let len = queue_len(&self.al);
        if len > 0 {
            let acquire = queue_back_mut(&mut self.al);
            if acquire.is_read() == read && acquire.count < self.bl {
                acquire.count = acquire.count + 1;
                let notifier = acquire.notifier;
                proof {
                    assert(self@ =~= requested(s, kind, fresh).unwrap().0);
                }
                return Ok(notifier);
            }
        }
        if !queue_is_full(&self.al) {
            queue_push(&mut self.al, Acquire::new(kind, fresh));
            proof {
                assert(self@ =~= requested(s, kind, fresh).unwrap().0);
            }
            Ok(fresh)
        } else if read {
            proof {
                assert(self@ =~= s);
            }
            Err(AcquireError::ReadUnavailable)
        } else {
            proof {
                assert(self@ =~= s);
            }
            Err(AcquireError::WriteUnavailable)
        }
    }

    fn start_acquire(&mut self, kind: AcquireType, fresh: u64) -> (r: AcquireResult<(u64, Vec<Signal>)>)
        requires
            old(self).inv(),
        ensures
            final(self).inv(),
            match started(old(self)@, kind, fresh) {
                Ok((s, n, sigs)) => r is Ok && (r->Ok_0).0 == n && (r->Ok_0).1@ == sigs
                    && final(self)@ == s,
                Err(e) => r is Err && r->Err_0 == e && final(self)@ == old(self)@,
            },
    {
        match self.enqueue(kind, fresh) {
            Ok(notifier) => {
                let sigs = self.poll();
                Ok((notifier, sigs))
            },
            Err(e) => Err(e),
        }
    }

    /// First half of acquiring a read-lock: records the request and polls.
    /// `fresh` names the notifier of a new batch, should the request open
    /// one. On `Ok`, the caller sends the signals, waits on the returned
    /// notifier, and ends with `finish_acquire`.
    pub fn start_acquire_read(&mut self, fresh: u64) -> (r: AcquireResult<(u64, Vec<Signal>)>)
        requires
            old(self).inv(),
        ensures
            final(self).inv(),
            match started(old(self)@, AcquireType::Read, fresh) {
                Ok((s, n, sigs)) => r is Ok && (r->Ok_0).0 == n && (r->Ok_0).1@ == sigs
                    && final(self)@ == s,
                Err(e) => r is Err && r->Err_0 == e && final(self)@ == old(self)@,
            },
    {
        self.start_acquire(AcquireType::Read, fresh)
    }

    /// First half of acquiring a write-lock; see `start_acquire_read`.
    pub fn start_acquire_write(&mut self, fresh: u64) -> (r: AcquireResult<(u64, Vec<Signal>)>)
        requires
            old(self).inv(),
        ensures
            final(self).inv(),
            match started(old(self)@, AcquireType::Write, fresh) {
                Ok((s, n, sigs)) => r is Ok && (r->Ok_0).0 == n && (r->Ok_0).1@ == sigs
                    && final(self)@ == s,
                Err(e) => r is Err && r->Err_0 == e && final(self)@ == old(self)@,
            },
    {
        self.start_acquire(AcquireType::Write, fresh)
    }

    /// Second half of acquiring a lock: `notified` tells whether the wait on
    /// `notifier` ended with a notification (rather than a timeout).
    pub fn finish_acquire(&mut self, notifier: u64, notified: bool) -> (r: (AcquireResult, Vec<Signal>))
        requires
            old(self).inv(),
        ensures
            final(self).inv(),
            final(self)@ == finished(old(self)@, notifier, notified).0,
            r.0 == finished(old(self)@, notifier, notified).1,
            r.1@ == finished(old(self)@, notifier, notified).2,
    {
        if notified {
            if !self.sc {
                (Ok(()), Vec::new())
            } else {
                (Err(AcquireError::Closed), Vec::new())
            }
        } else {
            proof {
                lemma_withdraw_keeps_wf(self@, notifier);
            }
            self.dequeue(notifier);
            let sigs = self.poll();
            (Err(AcquireError::Timeout), sigs)
        }
    }

    fn release(&mut self) -> (sigs: Vec<Signal>)
        requires
            old(self).inv(),
        ensures
            final(self).inv(),
            final(self)@ == released(old(self)@).0,
            sigs@ == released(old(self)@).1,
    {
        if !self.sc {
            let rest = self.poll();
            signal_then(Signal::Released, rest)
        } else {
            let mut out: Vec<Signal> = Vec::new();
            out.push(Signal::Released);
            proof {
                assert(out@ =~= seq![Signal::Released]);
            }
            out
        }
    }

    /// Releases a read-lock. Releasing when no reader holds the lock is left
    /// out.
    pub fn release_read(&mut self) -> (sigs: Vec<Signal>)
        requires
            old(self).inv(),
            old(self)@.readers > 0,
        ensures
            final(self).inv(),
            final(self)@ == released_read(old(self)@).0,
            sigs@ == released_read(old(self)@).1,
    {
        self.rc = self.rc - 1;
        self.release()
    }

    /// Releases the write-lock.
    pub fn release_write(&mut self) -> (sigs: Vec<Signal>)
        requires
            old(self).inv(),
        ensures
            final(self).inv(),
            final(self)@ == released_write(old(self)@).0,
            sigs@ == released_write(old(self)@).1,
    {
        self.wh = false;
        self.release()
    }

    /// The notifiers of the queued batches, oldest first.
    pub fn notifiers(&self) -> (r: Vec<u64>)
        requires
            self.inv(),
        ensures
            r@ == notifiers_of(self@.queue),
    {
        let len = queue_len(&self.al);
        let mut out: Vec<u64> = Vec::new();
        let mut i: usize = 0;
        while i < len
            invariant
                self.inv(),
                len == self@.queue.len(),
                i <= len,
                out@ == notifiers_of(self@.queue).take(i as int),
            decreases len - i,
        {
            let entry = queue_get(&self.al, i);
            proof {
                assert(i as int % len as int == i as int) by (nonlinear_arith)
                    requires
                        i < len,
                ;
            }
            out.push(entry.unwrap().notifier);
            proof {
                assert(out@ =~= notifiers_of(self@.queue).take(i + 1));
            }
            i = i + 1;
        }
        proof {
            assert(out@ =~= notifiers_of(self@.queue));
        }
        out
    }

    /// Sets the timeout for new notifiers, and returns the notifiers of the
    /// queued batches, whose timeouts the caller updates too.
    pub fn set_timeout(&mut self, timeout_millis: u16) -> (r: Vec<u64>)
        requires
            old(self).inv(),
        ensures
            final(self).inv(),
            final(self)@ == (SemaphoreState { timeout: timeout_millis, ..old(self)@ }),
            r@ == notifiers_of(old(self)@.queue),
    {
        self.to = timeout_millis;
        self.notifiers()
    }

    /// Flips the closed flag: closing a closed semaphore opens it again.
    pub fn flip_closed(&mut self)
        requires
            old(self).inv(),
        ensures
            final(self).inv(),
            final(self)@ == (SemaphoreState { closed: !old(self)@.closed, ..old(self)@ }),
    {
        self.sc = !self.sc;
    }

    /// Closes the semaphore (flipping the flag) and returns the notifiers of
    /// the queued batches, all of whose waiters the caller wakes, as it does
    /// those waiting for room.
    pub fn close(&mut self) -> (r: Vec<u64>)
        requires
            old(self).inv(),
        ensures
            final(self).inv(),
            final(self)@ == (SemaphoreState { closed: !old(self)@.closed, ..old(self)@ }),
            r@ == notifiers_of(old(self)@.queue),
    {
        self.flip_closed();
        self.notifiers()
    }

    pub fn is_closed(&self) -> (r: bool)
        ensures
            r == self@.closed,
    {
        self.sc
    }

    pub fn is_full(&self) -> (r: bool)
        requires
            self.inv(),
        ensures
            r == (self@.queue.len() == ACQUIRE_BUFFER_SIZE),
    {
        queue_is_full(&self.al)
    }

    pub fn reader_count(&self) -> (r: u8)
        ensures
            r == self@.readers,
    {
        self.rc
    }

    pub fn writer_held(&self) -> (r: bool)
        ensures
            r == self@.writer,
    {
        self.wh
    }

    pub fn timeout(&self) -> (r: u16)
        ensures
            r == self@.timeout,
    {
        self.to
    }
}

/// Whether an unscheduled acquisition tries again after this result: only
/// when the queue had no room for its request.
pub fn retry_unscheduled(kind: AcquireType, r: &AcquireResult) -> (b: bool)
    ensures
        b == (*r == Err::<(), AcquireError>(unavailable(kind))),
{
    match (kind, r) {
        (AcquireType::Read, Err(AcquireError::ReadUnavailable)) => true,
        (AcquireType::Write, Err(AcquireError::WriteUnavailable)) => true,
        _ => false,
    }
}

} // verus!
