//! The guard of the async `Wom`.
use super::{counter_after_release, exclusive_borrow_allowed, shared_borrow_allowed, Wom, WomView, Worl};
use vstd::prelude::*;

verus! {


/// Shared access to the value of an async `Worl` whose read-lock is held.
pub struct WorlGuardRead<'a, T: 'a> {
    pub worl: &'a Worl<T>,
}

impl<'a, T: 'a> WorlGuardRead<'a, T> {
    pub fn new(worl: &'a Worl<T>) -> (r: WorlGuardRead<'a, T>)
        ensures
            r.worl == worl,
    {
        WorlGuardRead { worl }
    }

    /// The guarded value. A `Worl` without one has none to give; that
    /// case is left out.
    pub fn get(&self) -> (r: &'a T)
        requires
            self.worl@ is Some,
        ensures
            *r == self.worl@->0,
    {
        self.worl.data.as_ref().unwrap()
    }
}

/// Exclusive access to the value of an async `Worl` whose write-lock is
/// held.
pub struct WorlGuardWrite<'a, T: 'a> {
    pub worl: &'a mut Worl<T>,
}

impl<'a, T: 'a> WorlGuardWrite<'a, T> {
    pub fn new(worl: &'a mut Worl<T>) -> (r: WorlGuardWrite<'a, T>)
        ensures
            r.worl@ == old(worl)@,
            final(worl)@ == final(r.worl)@,
    {
        WorlGuardWrite { worl }
    }

    /// The guarded `Option`.
    pub open spec fn value(&self) -> Option<T> {
        self.worl@
    }

    /// The guarded value. A `Worl` without one has none to give; that
    /// case is left out.
    pub fn get(&self) -> (r: &T)
        requires
            self.value() is Some,
        ensures
            *r == self.value()->0,
    {
        self.worl.data.as_ref().unwrap()
    }


    /// The guarded value, for as long as the guard's borrow lasts.
    pub fn into_ref(self) -> (r: &'a T)
        requires
            self.value() is Some,
        ensures
            *r == self.value()->0,
    {
        let worl: &'a mut Worl<T> = self.worl;
        worl.data.as_ref().unwrap()
    }

    /// The guarded value, to be changed in place for as long as the guard's
    /// borrow lasts.
    pub fn into_mut(self) -> (r: &'a mut T)
        requires
            self.value() is Some,
        ensures
            *r == self.value()->0,
            final(self.worl)@ == Some(*final(r)),
    {
        let worl: &'a mut Worl<T> = self.worl;
        worl.data.as_mut().unwrap()
    }

    /// The guarded value, to be changed in place.
    pub fn get_mut(&mut self) -> (r: &mut T)
        requires
            old(self).worl@ is Some,
        ensures
            *r == old(self).worl@->0,
            final(self).worl@ == Some(*final(r)),
            final(final(self).worl)@ == final(old(self).worl)@,
    {
        self.worl.data.as_mut().unwrap()
    }
}

/// Access to the value of an async `Wom`; each access is counted on the
/// `Wom`'s borrow counter.
pub struct WomGuard<'a, T: 'a> {
    pub wom: &'a mut Wom<T>,
}

impl<'a, T: 'a> WomGuard<'a, T> {
    /// The value and counter behind the guard.
    pub open spec fn value(&self) -> WomView<T> {
        self.wom@
    }

    pub fn new(wom: &'a mut Wom<T>) -> (r: WomGuard<'a, T>)
        ensures
            r.wom@ == old(wom)@,
            final(wom)@ == final(r.wom)@,
    {
        WomGuard { wom }
    }

    /// Borrows the value for reading and counts the borrow. Reading while
    /// the value is borrowed exclusively (the caller panics instead) and a
    /// guard without a value are left out.
    pub fn deref(self) -> (r: &'a T)
        requires
            self.value().data is Some,
            self.value().borrows >= 0,
        ensures
            *r == self.value().data->0,
            final(self.wom)@ == (WomView {
                borrows: (if self.value().borrows == i16::MAX {
                    i16::MIN as int
                } else {
                    self.value().borrows + 1
                }) as i16,
                data: self.value().data,
            }),
    {
        let wom: &'a mut Wom<T> = self.wom;
        let allowed = shared_borrow_allowed(wom.mtx);
        assert(allowed);
        wom.mtx = wom.mtx.wrapping_add(1);
        wom.data.as_ref().unwrap()
    }

    /// Borrows the value for writing and counts the borrow. Writing while the
    /// value is borrowed at all (the caller panics instead) and a guard without
    /// a value are left out.
    pub fn deref_mut(self) -> (r: &'a mut T)
        requires
            self.value().data is Some,
            self.value().borrows == 0,
        ensures
            *r == self.value().data->0,
            final(self.wom)@ == (WomView { borrows: -1i16, data: Some(*final(r)) }),
    {
        let wom: &'a mut Wom<T> = self.wom;
        let allowed = exclusive_borrow_allowed(wom.mtx);
        assert(allowed);
        wom.mtx = -1;
        wom.data.as_mut().unwrap()
    }

    /// Gives the guard up: the counter takes one step back.
    pub fn release(self)
        ensures
            final(self.wom)@ == (WomView {
                borrows: (if self.value().borrows < 0 {
                    self.value().borrows + 1
                } else {
                    self.value().borrows - 1
                }) as i16,
                data: self.value().data,
            }),
    {
        self.wom.mtx = counter_after_release(self.wom.mtx);
    }
}

} // verus!
