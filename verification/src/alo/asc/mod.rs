//! The async `Worl` and `Wom`.
//!
//! The async `Wom` guards its value with a borrow counter instead of a lock:
//! positive while the value is read, negative while it is written. The
//! async `Worl` queues its requests in the semaphore of `semaphore`.
//! Awaiting notifications is left to the caller.
pub mod guard;
pub mod semaphore;

use guard::{WomGuard, WorlGuardRead, WorlGuardWrite};
use semaphore::{AcquireError, AcquireResult};
use vstd::prelude::*;

verus! {

/// Whether a shared borrow may start when the counter held `previous`: not
/// while the value is borrowed exclusively.
pub fn shared_borrow_allowed(previous: i16) -> (r: bool)
    ensures
        r == (previous >= 0),
{
    previous >= 0
}

/// Whether an exclusive borrow may start when the counter held `previous`:
/// only while the value is not borrowed at all.
pub fn exclusive_borrow_allowed(previous: i16) -> (r: bool)
    ensures
        r == (previous == 0),
{
    previous == 0
}

/// The counter after a guard is given up: one step back towards zero from
/// below, one step down otherwise.
pub fn counter_after_release(current: i16) -> (r: i16)
    ensures
        current < 0 ==> r == current + 1,
        current >= 0 ==> r == current - 1,
{
    if current < 0 {
        current + 1
    } else {
        current - 1
    }
}


/// Write, Option, Read, Lock: the value behind the async reader/writer lock.
///
/// Each method stands for the part of a `Worl` operation that runs once the
/// semaphore has granted the lock it asked for.
pub struct Worl<T> {
    data: Option<T>,
}

impl<T> View for Worl<T> {
    type V = Option<T>;

    closed spec fn view(&self) -> Option<T> {
        self.data
    }
}

impl<T> Worl<T> {
    /// Create a new populated instance
    pub fn new(data: T) -> (r: Worl<T>)
        ensures
            r@ == Some(data),
    {
        Worl { data: Some(data) }
    }

    /// Create a new empty instance
    pub fn empty() -> (r: Worl<T>)
        ensures
            r@ == None::<T>,
    {
        Worl { data: None }
    }

    /// With a read-lock granted: a guard to the value, or `ValueNone` when
    /// there is none (the read-lock stays counted).
    pub fn read(&self) -> (r: AcquireResult<WorlGuardRead<'_, T>>)
        ensures
            self@ is None ==> r is Err && r->Err_0 == AcquireError::ValueNone,
            self@ is Some ==> r is Ok && r->Ok_0.worl@ == self@,
    {
        if self.data.is_none() {
            Err(AcquireError::ValueNone)
        } else {
            Ok(WorlGuardRead::new(self))
        }
    }

    /// With a write-lock granted: a guard to the value, or `ValueNone` when
    /// there is none.
    pub fn write(&mut self) -> (r: AcquireResult<WorlGuardWrite<'_, T>>)
        ensures
            old(self)@ is None ==> r is Err && r->Err_0 == AcquireError::ValueNone && final(self)@
                == old(self)@,
            old(self)@ is Some ==> r is Ok && r->Ok_0.worl@ == old(self)@ && final(self)@
                == final(r->Ok_0.worl)@,
    {
        if self.data.is_none() {
            Err(AcquireError::ValueNone)
        } else {
            Ok(WorlGuardWrite::new(self))
        }
    }

    /// With a write-lock granted: stores `data`.
    pub fn set(&mut self, data: T)
        ensures
            final(self)@ == Some(data),
    {
        self.data = Some(data);
    }

    /// With a write-lock granted: empties the `Worl`.
    pub fn clear(&mut self)
        ensures
            final(self)@ == None::<T>,
    {
        self.data = None;
    }
}

/// Write, Option, Mutex: the value and its borrow counter.
pub struct Wom<T> {
    mtx: i16,
    data: Option<T>,
}

/// The value of an async `Wom` and its borrow counter as Verus sees them.
pub struct WomView<T> {
    pub borrows: i16,
    pub data: Option<T>,
}

impl<T> View for Wom<T> {
    type V = WomView<T>;

    closed spec fn view(&self) -> WomView<T> {
        WomView { borrows: self.mtx, data: self.data }
    }
}

impl<T> Wom<T> {
    /// Create a new populated instance
    pub fn new(data: T) -> (r: Wom<T>)
        ensures
            r@ == (WomView { borrows: 0, data: Some(data) }),
    {
        Wom { mtx: 0, data: Some(data) }
    }

    /// Create a new empty instance
    pub fn empty() -> (r: Wom<T>)
        ensures
            r@ == (WomView::<T> { borrows: 0, data: None }),
    {
        Wom { mtx: 0, data: None }
    }

    pub fn has_contents(&self) -> (r: bool)
        ensures
            r == self@.data is Some,
    {
        self.data.is_some()
    }

    pub fn borrow_count(&self) -> (r: i16)
        ensures
            r == self@.borrows,
    {
        self.mtx
    }

    /// The value, for changing in place, while it is not borrowed:
    /// `Unavailable` while it is, `ValueNone` when there is none.
    pub fn get_mut(&mut self) -> (r: AcquireResult<&mut T>)
        ensures
            old(self)@.borrows != 0 ==> r is Err && r->Err_0 == AcquireError::Unavailable
                && final(self)@ == old(self)@,
            old(self)@.borrows == 0 && old(self)@.data is None ==> r is Err && r->Err_0
                == AcquireError::ValueNone && final(self)@ == old(self)@,
            old(self)@.borrows == 0 && old(self)@.data is Some ==> r is Ok && *r->Ok_0 == old(
                self,
            )@.data->0 && final(self)@ == (WomView { borrows: 0, data: Some(*final(r->Ok_0)) }),
    {
        if self.mtx != 0 {
            return Err(AcquireError::Unavailable);
        }
        match &mut self.data {
            Some(value) => Ok(value),
            None => Err(AcquireError::ValueNone),
        }
    }

    /// A guard to the value; `ValueNone` when there is none.
    pub fn lock(&mut self) -> (r: AcquireResult<WomGuard<'_, T>>)
        ensures
            old(self)@.data is None ==> r is Err && r->Err_0 == AcquireError::ValueNone
                && final(self)@ == old(self)@,
            old(self)@.data is Some ==> r is Ok && r->Ok_0.wom@ == old(self)@ && final(self)@
                == final(r->Ok_0.wom)@,
    {
        if self.data.is_none() {
            Err(AcquireError::ValueNone)
        } else {
            Ok(WomGuard::new(self))
        }
    }
}

} // verus!
