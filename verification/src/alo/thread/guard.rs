//! Guards to the value behind a held lock.
use super::{swapped, Wom, Worl};
use vstd::prelude::*;

verus! {


/// Shared access to the value of a `Worl` whose read-lock is held.
pub struct WorlGuardRead<'a, T: 'a> {
    pub worl: &'a Worl<T>,
}

impl<'a, T: 'a> WorlGuardRead<'a, T> {
    pub fn new(worl: &'a Worl<T>) -> (r: WorlGuardRead<'a, T>)
        ensures
            r.worl == worl,
    {
        WorlGuardRead { worl }
    }

    /// The guarded value. A `Worl` emptied meanwhile has none to give; that
    /// case is left out.
    pub fn get(&self) -> (r: &'a T)
        requires
            self.worl@ is Some,
        ensures
            *r == self.worl@->0,
    {
        self.worl.data.as_ref().unwrap()
    }
}

/// Exclusive access to the value of a `Worl` whose write-lock is held.
pub struct WorlGuardWrite<'a, T: 'a> {
    pub worl: &'a mut Worl<T>,
}

impl<'a, T: 'a> WorlGuardWrite<'a, T> {
    pub fn new(worl: &'a mut Worl<T>) -> (r: WorlGuardWrite<'a, T>)
        ensures
            r.worl@ == old(worl)@,
            final(worl)@ == final(r.worl)@,
    {
        WorlGuardWrite { worl }
    }

    /// The guarded `Option`.
    pub open spec fn value(&self) -> Option<T> {
        self.worl@
    }

    /// The guarded value. A guard whose value was taken away has none to
    /// give; that case is left out.
    pub fn get(&self) -> (r: &T)
        requires
            self.value() is Some,
        ensures
            *r == self.value()->0,
    {
        self.worl.data.as_ref().unwrap()
    }

    /// The guarded value, to be changed in place.
    pub fn get_mut(&mut self) -> (r: &mut T)
        requires
            old(self).worl@ is Some,
        ensures
            *r == old(self).worl@->0,
            final(self).worl@ == Some(*final(r)),
            final(final(self).worl)@ == final(old(self).worl)@,
    {
        self.worl.data.as_mut().unwrap()
    }


    /// The guarded value, for as long as the guard's borrow lasts.
    pub fn into_ref(self) -> (r: &'a T)
        requires
            self.value() is Some,
        ensures
            *r == self.value()->0,
    {
        let worl: &'a mut Worl<T> = self.worl;
        worl.data.as_ref().unwrap()
    }

    /// The guarded value, to be changed in place for as long as the guard's
    /// borrow lasts.
    pub fn into_mut(self) -> (r: &'a mut T)
        requires
            self.value() is Some,
        ensures
            *r == self.value()->0,
            final(self.worl)@ == Some(*final(r)),
    {
        let worl: &'a mut Worl<T> = self.worl;
        worl.data.as_mut().unwrap()
    }

    /// Empties the `Worl` and gives the guard up.
    pub fn clear(self)
        ensures
            final(self.worl)@ == None::<T>,
    {
        self.worl.data = None;
    }

    /// Replaces the guarded value.
    pub fn set(&mut self, data: T)
        ensures
            final(self).worl@ == Some(data),
            final(final(self).worl)@ == final(old(self).worl)@,
    {
        self.worl.data = Some(data);
    }

    /// Swaps `data` with the guarded value, if there is one; tells whether it
    /// did.
    pub fn swap(&mut self, data: &mut T) -> (r: bool)
        ensures
            r == old(self).worl@ is Some,
            r ==> final(self).worl@ == Some(*old(data)) && *final(data) == old(self).worl@->0,
            (final(self).worl@, *final(data)) == swapped(old(self).worl@, *old(data)),
            !r ==> final(self).worl@ == old(self).worl@ && *final(data) == *old(data),
            final(final(self).worl)@ == final(old(self).worl)@,
    {
        match &mut self.worl.data {
            Some(current) => {
                std::mem::swap(data, current);
                true
            },
            None => false,
        }
    }
}

/// Access to the value of a `Wom` whose lock is held.
pub struct WomGuard<'a, T: 'a> {
    pub wom: &'a mut Wom<T>,
}

impl<'a, T: 'a> WomGuard<'a, T> {
    /// The guarded `Option`.
    pub open spec fn value(&self) -> Option<T> {
        self.wom@
    }

    pub fn new(wom: &'a mut Wom<T>) -> (r: WomGuard<'a, T>)
        ensures
            r.wom@ == old(wom)@,
            final(wom)@ == final(r.wom)@,
    {
        WomGuard { wom }
    }

    /// The guarded value. A guard whose value was taken away has none to
    /// give; that case is left out.
    pub fn get(&self) -> (r: &T)
        requires
            self.value() is Some,
        ensures
            *r == self.value()->0,
    {
        self.wom.data.as_ref().unwrap()
    }

    /// The guarded value, to be changed in place.
    pub fn get_mut(&mut self) -> (r: &mut T)
        requires
            old(self).wom@ is Some,
        ensures
            *r == old(self).wom@->0,
            final(self).wom@ == Some(*final(r)),
            final(final(self).wom)@ == final(old(self).wom)@,
    {
        self.wom.data.as_mut().unwrap()
    }


    /// The guarded value, for as long as the guard's borrow lasts.
    pub fn into_ref(self) -> (r: &'a T)
        requires
            self.value() is Some,
        ensures
            *r == self.value()->0,
    {
        let wom: &'a mut Wom<T> = self.wom;
        wom.data.as_ref().unwrap()
    }

    /// The guarded value, to be changed in place for as long as the guard's
    /// borrow lasts.
    pub fn into_mut(self) -> (r: &'a mut T)
        requires
            self.value() is Some,
        ensures
            *r == self.value()->0,
            final(self.wom)@ == Some(*final(r)),
    {
        let wom: &'a mut Wom<T> = self.wom;
        wom.data.as_mut().unwrap()
    }

    /// Empties the `Wom` and gives the guard up.
    pub fn clear(self)
        ensures
            final(self.wom)@ == None::<T>,
    {
        self.wom.data = None;
    }

    /// Replaces the guarded value.
    pub fn set(&mut self, data: T)
        ensures
            final(self).wom@ == Some(data),
            final(final(self).wom)@ == final(old(self).wom)@,
    {
        self.wom.data = Some(data);
    }

    /// Swaps `data` with the guarded value, if there is one; tells whether it
    /// did.
    pub fn swap(&mut self, data: &mut T) -> (r: bool)
        ensures
            r == old(self).wom@ is Some,
            r ==> final(self).wom@ == Some(*old(data)) && *final(data) == old(self).wom@->0,
            (final(self).wom@, *final(data)) == swapped(old(self).wom@, *old(data)),
            !r ==> final(self).wom@ == old(self).wom@ && *final(data) == *old(data),
            final(final(self).wom)@ == final(old(self).wom)@,
    {
        match &mut self.wom.data {
            Some(current) => {
                std::mem::swap(data, current);
                true
            },
            None => false,
        }
    }
}

} // verus!
