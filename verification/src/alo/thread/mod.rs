//! The blocking `Worl` and `Wom`.
//!
//! `Wom` is a mutex around an `Option`; `Worl` a reader/writer lock around
//! one. The values here are the guarded slots: each method is what the lock
//! does to its value once the lock word or the semaphore has let the caller
//! in, and reports back what the lock must do next. Spinning on the lock
//! word and waiting on notifiers is left to the caller.
pub mod guard;
pub mod semaphore;

use guard::{WomGuard, WorlGuardRead, WorlGuardWrite};
use semaphore::{released_read, released_write, AcquireError, AcquireResult, RwSemaphore, Signal};
use vstd::prelude::*;

verus! {

/// The lock word of an unlocked `Wom`.
pub const UNLOCKED: u8 = 0;

/// The lock word of a locked `Wom` that nobody else waits for.
pub const LOCKED: u8 = 1;

/// The lock word of a locked `Wom` that others wait for.
pub const CONTENDED: u8 = 2;

/// How many times a thread reads the lock word before it stops spinning.
pub const SPIN_LIMIT: u32 = 100;

/// Whether spinning on the lock word stops: once the word is no longer
/// `LOCKED`, or the spins are used up.
pub fn spin_done(state: u8, spins_left: u32) -> (r: bool)
    ensures
        r == (state != LOCKED || spins_left == 0),
{
    state != LOCKED || spins_left == 0
}

/// Whether a thread that wants the lock and last saw `state` marks the word
/// `CONTENDED` (and takes the lock if it was `UNLOCKED`), rather than wait
/// for the word to change.
pub fn marks_contended(state: u8) -> (r: bool)
    ensures
        r == (state != CONTENDED),
{
    state != CONTENDED
}

/// Whether swapping `CONTENDED` into the lock word took the lock: it did if
/// the word held `UNLOCKED`.
pub fn swap_took_lock(previous: u8) -> (r: bool)
    ensures
        r == (previous == UNLOCKED),
{
    previous == UNLOCKED
}

/// An atomic step of one thread on a `Wom`'s lock word.
#[derive(Clone, Copy, Debug, PartialEq, Eq, Structural)]
pub enum WordStep {
    /// compare-and-swap from `UNLOCKED` to `LOCKED`: takes the lock if it
    /// was free, else leaves the word alone
    Take,
    /// a thread that last saw the given word swaps in `CONTENDED` when
    /// `marks_contended` says so, and takes the lock when `swap_took_lock`
    /// says so of the word it swapped out
    Mark(u8),
    /// the holder gives the lock back: the word goes from `LOCKED` or
    /// `CONTENDED` to `UNLOCKED`
    Release,
}

/// A `Wom`'s lock word, with the number of threads that hold the lock.
pub struct LockWord {
    pub word: u8,
    pub holders: nat,
}

/// The lock word of a new `Wom`: unlocked, held by nobody.
pub open spec fn free_word() -> LockWord {
    LockWord { word: UNLOCKED, holders: 0 }
}

/// The lock word after one step.
pub open spec fn word_step(w: LockWord, op: WordStep) -> LockWord {
    match op {
        WordStep::Take => if w.word == UNLOCKED {
            LockWord { word: LOCKED, holders: w.holders + 1 }
        } else {
            w
        },
        WordStep::Mark(seen) => if seen != CONTENDED {
            LockWord {
                word: CONTENDED,
                holders: if w.word == UNLOCKED {
                    w.holders + 1
                } else {
                    w.holders
                },
            }
        } else {
            w
        },
        WordStep::Release => if w.holders > 0 && (w.word == LOCKED || w.word == CONTENDED) {
            LockWord { word: UNLOCKED, holders: (w.holders - 1) as nat }
        } else {
            w
        },
    }
}

/// The lock word after a sequence of steps, by any threads, in order.
pub open spec fn word_run(w: LockWord, ops: Seq<WordStep>) -> LockWord
    decreases ops.len(),
{
    if ops.len() == 0 {
        w
    } else {
        word_run(word_step(w, ops[0]), ops.drop_first())
    }
}

/// What every reachable lock word keeps: at most one holder, and a holder
/// exactly when the word is not `UNLOCKED`.
pub open spec fn word_wf(w: LockWord) -> bool {
    &&& w.holders <= 1
    &&& (w.holders == 0 <==> w.word == UNLOCKED)
}

proof fn lemma_word_run_keeps_wf(w: LockWord, ops: Seq<WordStep>)
    requires
        word_wf(w),
    ensures
        word_wf(word_run(w, ops)),
    decreases ops.len(),
{
    if ops.len() > 0 {
        lemma_word_run_keeps_wf(word_step(w, ops[0]), ops.drop_first());
    }
}

/// Mutual exclusion for `Wom`: in every state that the lock word reaches
/// from a new `Wom`, whatever the threads do in whatever order, at most one
/// thread holds the lock, and the word reads `UNLOCKED` exactly when none
/// does.
pub proof fn lemma_lock_word_exclusive(ops: Seq<WordStep>)
    ensures
        word_run(free_word(), ops).holders <= 1,
        word_run(free_word(), ops).holders == 0 <==> word_run(free_word(), ops).word == UNLOCKED,
{
    lemma_word_run_keeps_wf(free_word(), ops);
}

/// A held lock cannot be taken: while a thread holds it, neither a
/// compare-and-swap nor a swap of `CONTENDED` adds a holder.
pub proof fn lemma_held_word_refuses(w: LockWord, op: WordStep)
    requires
        word_wf(w),
        w.holders == 1,
        op != WordStep::Release,
    ensures
        word_step(w, op).holders == 1,
        word_step(w, op).word != UNLOCKED,
{
}

/// What reading a lock's `Option` comes to: the value, or `ValueNone`.
pub open spec fn read_outcome<T>(v: Option<T>) -> Result<T, AcquireError> {
    match v {
        Some(x) => Ok(x),
        None => Err(AcquireError::ValueNone),
    }
}

/// What swapping `x` into a lock's `Option` comes to: the new `Option` and
/// what the caller holds afterwards. An empty `Option` is left alone.
pub open spec fn swapped<T>(v: Option<T>, x: T) -> (Option<T>, T) {
    match v {
        Some(current) => (Some(x), current),
        None => (None, x),
    }
}

/// A read gives back what a write stored, and nothing once the value was
/// cleared.
pub proof fn lemma_read_returns_written<T>(x: T)
    ensures
        read_outcome(Some(x)) == Ok::<T, AcquireError>(x),
        read_outcome(None::<T>) == Err::<T, AcquireError>(AcquireError::ValueNone),
{
}

/// Swapping is undone by swapping back: on a lock holding a value, a second
/// swap with what the first one handed out restores both sides.
pub proof fn lemma_swap_twice_restores<T>(v: Option<T>, x: T)
    requires
        v is Some,
    ensures
        swapped(swapped(v, x).0, swapped(v, x).1) == (v, x),
{
}

/// Where acquiring a write-lock on a `Worl` stands. The acquisition fails
/// fast: it first takes a read-lock, gives it back while checking that there
/// is a value to write to, and only then asks for the write-lock.
#[derive(Clone, Copy, Debug, PartialEq, Eq)]
pub enum WritePhase {
    /// the read-lock is to be requested
    ReadLock,
    /// the read-lock is held: it is to be given back and the value checked
    Check,
    /// there was a value: the write-lock is to be requested
    WriteLock,
    /// the acquisition is over, with this outcome
    Done(AcquireResult),
}

/// The phase that follows `phase` once its action gave `outcome`: the
/// result of the lock request, or for `Check` that of the value check. An
/// error ends the acquisition with that error.
pub open spec fn write_phase_after(phase: WritePhase, outcome: AcquireResult) -> WritePhase {
    match phase {
        WritePhase::Done(r) => WritePhase::Done(r),
        _ => match outcome {
            Err(e) => WritePhase::Done(Err(e)),
            Ok(()) => match phase {
                WritePhase::ReadLock => WritePhase::Check,
                WritePhase::Check => WritePhase::WriteLock,
                _ => WritePhase::Done(Ok(())),
            },
        },
    }
}

/// The phase reached from `phase` through the given outcomes, in order.
pub open spec fn write_phases(phase: WritePhase, outcomes: Seq<AcquireResult>) -> WritePhase
    decreases outcomes.len(),
{
    if outcomes.len() == 0 {
        phase
    } else {
        write_phases(write_phase_after(phase, outcomes[0]), outcomes.drop_first())
    }
}

/// Takes an acquisition of a write-lock one phase further, given what the
/// action of the current phase gave.
pub fn next_write_phase(phase: WritePhase, outcome: AcquireResult) -> (r: WritePhase)
    ensures
        r == write_phase_after(phase, outcome),
{
    match phase {
        WritePhase::Done(r) => WritePhase::Done(r),
        _ => match outcome {
            Err(e) => WritePhase::Done(Err(e)),
            Ok(()) => match phase {
                WritePhase::ReadLock => WritePhase::Check,
                WritePhase::Check => WritePhase::WriteLock,
                _ => WritePhase::Done(Ok(())),
            },
        },
    }
}

/// A finished acquisition stays finished, with its outcome.
pub proof fn lemma_write_done_stays(r: AcquireResult, outcomes: Seq<AcquireResult>)
    ensures
        write_phases(WritePhase::Done(r), outcomes) == WritePhase::Done(r),
    decreases outcomes.len(),
{
    if outcomes.len() > 0 {
        lemma_write_done_stays(r, outcomes.drop_first());
    }
}

/// Failing fast: when the read-lock is granted but there is no value, the
/// acquisition ends with `ValueNone` and never asks for the write-lock,
/// whatever would have followed.
pub proof fn lemma_write_fails_fast(outcomes: Seq<AcquireResult>)
    requires
        outcomes.len() >= 2,
        outcomes[0] is Ok,
        outcomes[1] == Err::<(), AcquireError>(AcquireError::ValueNone),
    ensures
        write_phases(WritePhase::ReadLock, outcomes) == WritePhase::Done(
            Err::<(), AcquireError>(AcquireError::ValueNone),
        ),
{
    let rest = outcomes.drop_first();
    assert(rest[0] == outcomes[1]);
    assert(write_phases(WritePhase::ReadLock, outcomes) == write_phases(WritePhase::Check, rest));
    assert(write_phases(WritePhase::Check, rest) == write_phases(
        WritePhase::Done(Err(AcquireError::ValueNone)),
        rest.drop_first(),
    ));
    lemma_write_done_stays(Err(AcquireError::ValueNone), rest.drop_first());
}

/// The write-lock is asked for only after the read-lock was granted and the
/// value check passed, and the acquisition succeeds only when, besides, the
/// write-lock was granted.
pub proof fn lemma_write_lock_after_check(outcomes: Seq<AcquireResult>)
    ensures
        write_phases(WritePhase::ReadLock, outcomes) == WritePhase::WriteLock ==> outcomes.len()
            == 2 && outcomes[0] is Ok && outcomes[1] is Ok,
        write_phases(WritePhase::ReadLock, outcomes) == WritePhase::Done(Ok::<(), AcquireError>(()))
            ==> outcomes.len() >= 3 && outcomes[0] is Ok && outcomes[1] is Ok && outcomes[2] is Ok,
{
    if outcomes.len() > 0 {
        let o1 = outcomes.drop_first();
        let p1 = write_phase_after(WritePhase::ReadLock, outcomes[0]);
        assert(write_phases(WritePhase::ReadLock, outcomes) == write_phases(p1, o1));
        if let WritePhase::Done(r) = p1 {
            lemma_write_done_stays(r, o1);
        } else if o1.len() > 0 {
            let o2 = o1.drop_first();
            assert(o1[0] == outcomes[1]);
            let p2 = write_phase_after(p1, o1[0]);
            assert(write_phases(p1, o1) == write_phases(p2, o2));
            if let WritePhase::Done(r) = p2 {
                lemma_write_done_stays(r, o2);
            } else if o2.len() > 0 {
                assert(o2[0] == outcomes[2]);
                let p3 = write_phase_after(p2, o2[0]);
                assert(write_phases(p2, o2) == write_phases(p3, o2.drop_first()));
                if let WritePhase::Done(r) = p3 {
                    lemma_write_done_stays(r, o2.drop_first());
                }
            }
        }
    }
}

/// Write, Option, Read, Lock: the value behind a reader/writer lock.
///
/// Each method stands for the part of a `Worl` operation that runs once the
/// semaphore has granted the lock the operation asked for; methods that give
/// a lock back do so on the semaphore they are handed, and return the signal
/// its poll asks for.
pub struct Worl<T> {
    data: Option<T>,
}

impl<T> View for Worl<T> {
    type V = Option<T>;

    closed spec fn view(&self) -> Option<T> {
        self.data
    }
}

/// A semaphore on which a held read-lock can be given back.
pub open spec fn read_releasable(sem: RwSemaphore) -> bool {
    &&& sem.inv()
    &&& sem@.readers > 0
}

impl<T> Worl<T> {
    /// Create a new populated instance
    pub fn new(data: T) -> (r: Worl<T>)
        ensures
            r@ == Some(data),
    {
        Worl { data: Some(data) }
    }

    /// Create a new empty instance
    pub fn empty() -> (r: Worl<T>)
        ensures
            r@ == None::<T>,
    {
        Worl { data: None }
    }

    pub fn has_contents(&self) -> (r: bool)
        ensures
            r == self@ is Some,
    {
        self.data.is_some()
    }

    /// With a read-lock granted: a guard to the value; when there is none,
    /// the read-lock goes back to `sem` and the result is `ValueNone`.
    pub fn read<'a>(&'a self, sem: &mut RwSemaphore) -> (r: (AcquireResult<WorlGuardRead<'a, T>>, Vec<Signal>))
        requires
            read_releasable(*old(sem)),
        ensures
            final(sem).inv(),
            self@ is None ==> r.0 is Err && r.0->Err_0 == AcquireError::ValueNone && final(sem)@
                == released_read(old(sem)@).0 && r.1@ == released_read(old(sem)@).1,
            self@ is Some ==> r.0 is Ok && r.0->Ok_0.worl@ == self@ && final(sem)@ == old(sem)@
                && r.1@.len() == 0,
            r.0 is Ok ==> read_outcome(self@) == Ok::<T, AcquireError>(r.0->Ok_0.worl@->0),
            r.0 is Err ==> read_outcome(self@) == Err::<T, AcquireError>(r.0->Err_0),
    {
        if !self.has_contents() {
            let sig = sem.release_read();
            (Err(AcquireError::ValueNone), sig)
        } else {
            (Ok(WorlGuardRead::new(self)), Vec::new())
        }
    }

    /// With the fail-fast read-lock of a write (or swap) granted: gives the
    /// read-lock back to `sem` and tells whether there is a value to write
    /// to (`Ok`) or not (`ValueNone`).
    pub fn check_for_write(&self, sem: &mut RwSemaphore) -> (r: (AcquireResult, Vec<Signal>))
        requires
            read_releasable(*old(sem)),
        ensures
            final(sem).inv(),
            final(sem)@ == released_read(old(sem)@).0,
            r.1@ == released_read(old(sem)@).1,
            self@ is None ==> r.0 == Err::<(), AcquireError>(AcquireError::ValueNone),
            self@ is Some ==> r.0 == Ok::<(), AcquireError>(()),
    {
        let sig = sem.release_read();
        if !self.has_contents() {
            (Err(AcquireError::ValueNone), sig)
        } else {
            (Ok(()), sig)
        }
    }

    /// With a write-lock granted: a guard to the value.
    pub fn write(&mut self) -> (r: WorlGuardWrite<'_, T>)
        ensures
            r.worl@ == old(self)@,
            final(self)@ == final(r.worl)@,
    {
        WorlGuardWrite::new(self)
    }

    /// With a write-lock granted: empties the `Worl` and gives the
    /// write-lock back to `sem`.
    pub fn clear(&mut self, sem: &mut RwSemaphore) -> (sig: Vec<Signal>)
        requires
            old(sem).inv(),
        ensures
            final(self)@ == None::<T>,
            final(sem).inv(),
            final(sem)@ == released_write(old(sem)@).0,
            sig@ == released_write(old(sem)@).1,
    {
        self.data = None;
        sem.release_write()
    }

    /// With a write-lock granted: stores `data` and hands out a guard to it.
    pub fn set(&mut self, data: T) -> (r: WorlGuardWrite<'_, T>)
        ensures
            r.worl@ == Some(data),
            final(self)@ == final(r.worl)@,
    {
        self.data = Some(data);
        WorlGuardWrite::new(self)
    }

    /// With a write-lock granted: swaps `data` with the stored value and
    /// hands out a guard to the new value. Should the value have been
    /// cleared since it was checked, the result is `ValueNone` and nothing
    /// changes.
    pub fn swap(&mut self, data: &mut T) -> (r: AcquireResult<WorlGuardWrite<'_, T>>)
        ensures
            old(self)@ is None ==> r is Err && r->Err_0 == AcquireError::ValueNone && final(self)@
                == old(self)@ && *final(data) == *old(data),
            old(self)@ is Some ==> r is Ok && r->Ok_0.worl@ == Some(*old(data)) && *final(data)
                == old(self)@->0 && final(self)@ == final(r->Ok_0.worl)@,
    {
        match &mut self.data {
            Some(current) => {
                std::mem::swap(data, current);
            },
            None => {
                return Err(AcquireError::ValueNone);
            },
        }
        Ok(WorlGuardWrite::new(self))
    }
}

/// Write, Option, Mutex: the value behind the lock.
///
/// Acquiring the lock hands out a guard to the value inside the `Option`,
/// so every acquisition first checks that there is one.
pub struct Wom<T> {
    data: Option<T>,
}

impl<T> View for Wom<T> {
    type V = Option<T>;

    closed spec fn view(&self) -> Option<T> {
        self.data
    }
}

impl<T> Wom<T> {
    /// Create a new populated instance
    pub fn new(data: T) -> (r: Wom<T>)
        ensures
            r@ == Some(data),
    {
        Wom { data: Some(data) }
    }

    /// Create a new empty instance
    pub fn empty() -> (r: Wom<T>)
        ensures
            r@ == None::<T>,
    {
        Wom { data: None }
    }

    pub fn has_contents(&self) -> (r: bool)
        ensures
            r == self@ is Some,
    {
        self.data.is_some()
    }

    /// Gets a mutable reference to the contained value, if one exists.
    pub fn get_mut(&mut self) -> (r: AcquireResult<&mut T>)
        ensures
            old(self)@ is None ==> r == Err::<&mut T, AcquireError>(AcquireError::ValueNone)
                && final(self)@ == old(self)@,
            old(self)@ is Some ==> r is Ok && *r->Ok_0 == old(self)@->0 && final(self)@ == Some(
                *final(r->Ok_0),
            ),
    {
        match &mut self.data {
            Some(value) => Ok(value),
            None => Err(AcquireError::ValueNone),
        }
    }

    /// With the lock word taken: a guard to the value, or `ValueNone` when
    /// there is none, in which case the caller gives the lock word back.
    pub fn lock(&mut self) -> (r: AcquireResult<WomGuard<'_, T>>)
        ensures
            old(self)@ is None ==> r is Err && r->Err_0 == AcquireError::ValueNone && final(self)@
                == old(self)@,
            old(self)@ is Some ==> r is Ok && r->Ok_0.wom@ == old(self)@ && final(self)@
                == final(r->Ok_0.wom)@,
            r is Ok ==> read_outcome(old(self)@) == Ok::<T, AcquireError>(r->Ok_0.wom@->0),
    {
        if self.data.is_none() {
            Err(AcquireError::ValueNone)
        } else {
            Ok(WomGuard::new(self))
        }
    }

    /// After one attempt at the lock word (`acquired` tells whether it was
    /// taken): `WriteUnavailable` if it was not, else as `lock`. The lock
    /// word is not given back on `ValueNone`.
    pub fn try_lock(&mut self, acquired: bool) -> (r: AcquireResult<WomGuard<'_, T>>)
        ensures
            !acquired ==> r is Err && r->Err_0 == AcquireError::WriteUnavailable && final(self)@
                == old(self)@,
            acquired && old(self)@ is None ==> r is Err && r->Err_0 == AcquireError::ValueNone
                && final(self)@ == old(self)@,
            acquired && old(self)@ is Some ==> r is Ok && r->Ok_0.wom@ == old(self)@
                && final(self)@ == final(r->Ok_0.wom)@,
    {
        if !acquired {
            Err(AcquireError::WriteUnavailable)
        } else if self.data.is_none() {
            Err(AcquireError::ValueNone)
        } else {
            Ok(WomGuard::new(self))
        }
    }

    /// With the lock word taken: empties the `Wom`; an empty one reports
    /// `ValueNone` and stays empty.
    pub fn clear(&mut self) -> (r: AcquireResult)
        ensures
            old(self)@ is None ==> r == Err::<(), AcquireError>(AcquireError::ValueNone),
            old(self)@ is Some ==> r == Ok::<(), AcquireError>(()),
            final(self)@ == None::<T>,
    {
        if self.data.is_none() {
            return Err(AcquireError::ValueNone);
        }
        self.data = None;
        Ok(())
    }

    /// With the lock word taken: stores `data` and hands out a guard to it.
    pub fn set(&mut self, data: T) -> (r: AcquireResult<WomGuard<'_, T>>)
        ensures
            r is Ok && r->Ok_0.wom@ == Some(data) && final(self)@ == final(r->Ok_0.wom)@,
    {
        self.data = Some(data);
        Ok(WomGuard::new(self))
    }

    /// With the lock word taken: swaps `data` with the stored value and
    /// hands out a guard to the new value; an empty `Wom` reports
    /// `ValueNone` and nothing changes.
    pub fn swap(&mut self, data: &mut T) -> (r: AcquireResult<WomGuard<'_, T>>)
        ensures
            old(self)@ is None ==> r is Err && r->Err_0 == AcquireError::ValueNone && final(self)@
                == old(self)@ && *final(data) == *old(data),
            old(self)@ is Some ==> r is Ok && r->Ok_0.wom@ == Some(*old(data)) && *final(data)
                == old(self)@->0 && final(self)@ == final(r->Ok_0.wom)@,
    {
        match &mut self.data {
            Some(current) => {
                std::mem::swap(data, current);
            },
            None => {
                return Err(AcquireError::ValueNone);
            },
        }
        Ok(WomGuard::new(self))
    }
}

} // verus!
