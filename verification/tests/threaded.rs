//! The scenarios of the blocking `Worl` and `Wom`, driven on one thread.
//!
//! A single thread cannot be woken by anyone else, so a wait ends with a
//! notification exactly when one is already buffered, and times out
//! otherwise; the drivers below run the library's steps that way.
use std::collections::HashMap;

use alopt::alo::notify::NotifyState;
use alopt::alo::thread::semaphore::{AcquireError, RwSemaphore, Signal};
use alopt::alo::thread::{next_write_phase, Wom, Worl, WritePhase, LOCKED, UNLOCKED};

struct WorlDriver {
    sem: RwSemaphore,
    worl: Worl<i8>,
    notifiers: HashMap<u64, NotifyState>,
    next: u64,
}

impl WorlDriver {
    fn new(value: i8) -> Self {
        WorlDriver {
            sem: RwSemaphore::new(),
            worl: Worl::new(value),
            notifiers: HashMap::new(),
            next: 1,
        }
    }

    fn set_timeout(&mut self, timeout: u16) {
        for n in self.sem.set_timeout(timeout) {
            self.notifiers.get_mut(&n).unwrap().set_timeout(timeout);
        }
    }

    fn send(&mut self, sigs: Vec<Signal>) {
        for sig in sigs {
            match sig {
                Signal::One(n) => self.notifiers.get_mut(&n).unwrap().notify_one(),
                Signal::Many(n, c) => self.notifiers.get_mut(&n).unwrap().notify_many(c),
                // nobody on this thread waits for room or for a release
                Signal::Available | Signal::Released => {}
            }
        }
    }

    fn acquire(&mut self, write: bool) -> Result<(), AcquireError> {
        let fresh = self.next;
        self.next += 1;
        self.notifiers.insert(fresh, NotifyState::with_timeout(self.sem.timeout()));
        let started = if write {
            self.sem.start_acquire_write(fresh)
        } else {
            self.sem.start_acquire_read(fresh)
        };
        let (n, sig) = started?;
        self.send(sig);
        let notified = self.notifiers.get_mut(&n).unwrap().begin_wait().is_none();
        let (r, sig) = self.sem.finish_acquire(n, notified);
        self.send(sig);
        r
    }

    fn release_read(&mut self) {
        let sig = self.sem.release_read();
        self.send(sig);
    }

    fn release_write(&mut self) {
        let sig = self.sem.release_write();
        self.send(sig);
    }

    /// `Worl::read`: a read-lock on the value, kept until `release_read`.
    fn read(&mut self) -> Result<i8, AcquireError> {
        self.acquire(false)?;
        let (r, sig) = self.worl.read(&mut self.sem);
        let value = r.map(|g| *g.get());
        self.send(sig);
        value
    }

    /// `*worl.read().unwrap()` and the guard dropped.
    fn read_value(&mut self) -> Result<i8, AcquireError> {
        let v = self.read()?;
        self.release_read();
        Ok(v)
    }

    /// `Worl::write`: a write-lock on the value, kept until `release_write`.
    fn write(&mut self) -> Result<(), AcquireError> {
        let mut phase = WritePhase::ReadLock;
        loop {
            let outcome = match phase {
                WritePhase::ReadLock => self.acquire(false),
                WritePhase::Check => {
                    let (r, sig) = self.worl.check_for_write(&mut self.sem);
                    self.send(sig);
                    r
                }
                WritePhase::WriteLock => self.acquire(true),
                WritePhase::Done(result) => return result,
            };
            phase = next_write_phase(phase, outcome);
        }
    }

    fn clear(&mut self) -> Result<(), AcquireError> {
        self.acquire(true)?;
        let sig = self.worl.clear(&mut self.sem);
        self.send(sig);
        Ok(())
    }

    fn set(&mut self, value: i8) -> Result<i8, AcquireError> {
        self.acquire(true)?;
        let g = self.worl.set(value);
        Ok(*g.get())
    }
}

#[test]
fn test_worl_sync() {
    let mut worl = WorlDriver::new(0);
    worl.set_timeout(500);

    assert_eq!(worl.read_value().unwrap(), 0);

    worl.write().unwrap();
    *worl.worl.write().get_mut() += 3;
    worl.release_write();
    assert_eq!(worl.read_value().unwrap(), 3);

    worl.clear().unwrap();
    assert!(worl.read().is_err());

    assert_eq!(worl.set(67).unwrap(), 67);
    worl.release_write();
    assert_eq!(worl.read_value().unwrap(), 67);

    worl.write().unwrap();
    worl.worl.write().clear();
    worl.release_write();
    assert!(worl.read().is_err());

    worl.set(-1).unwrap();
    worl.release_write();
    assert_eq!(worl.read_value().unwrap(), -1);
    worl.write().unwrap();
    worl.worl.write().set(-7);
    worl.release_write();
    assert_eq!(worl.read_value().unwrap(), -7);

    {
        let worl_guard = worl.read().unwrap();
        worl.read().unwrap();
        worl.release_read();
        assert_eq!(worl_guard, -7);
        worl.release_read();
    }

    {
        let worl_guard = worl.read().unwrap();
        assert!(worl.write().is_err());
        assert_eq!(worl_guard, -7);
        worl.release_read();
    }

    {
        worl.write().unwrap();
        assert!(worl.read().is_err());
        assert_eq!(*worl.worl.write().get(), -7);
        *worl.worl.write().get_mut() = 42;
        worl.release_write();
    }
    assert_eq!(worl.read_value().unwrap(), 42);

    {
        worl.write().unwrap();
        assert!(worl.write().is_err());
        *worl.worl.write().get_mut() = 54;
        worl.release_write();
    }
    assert_eq!(worl.read_value().unwrap(), 54);
}

/// A `Wom` with its lock word, on one thread: taking a held lock word is
/// the contended case, which `try_lock` reports.
struct WomDriver {
    word: u8,
    wom: Wom<i32>,
}

impl WomDriver {
    fn new(wom: Wom<i32>) -> Self {
        WomDriver { word: UNLOCKED, wom }
    }

    fn take_word(&mut self) -> bool {
        if self.word == UNLOCKED {
            self.word = LOCKED;
            true
        } else {
            false
        }
    }

    fn release_word(&mut self) {
        self.word = UNLOCKED;
    }

    fn lock_value(&mut self) -> Result<i32, AcquireError> {
        assert!(self.take_word());
        let r = self.wom.lock().map(|g| *g.get());
        if r.is_err() {
            self.release_word();
        }
        r
    }

    fn try_lock_value(&mut self) -> Result<i32, AcquireError> {
        let acquired = self.take_word();
        let r = self.wom.try_lock(acquired).map(|g| *g.get());
        r
    }
}

#[test]
fn test_wom_sync() {
    let mut empty_wom = WomDriver::new(Wom::<i32>::empty());
    assert!(empty_wom.wom.get_mut().is_err());
    assert!(empty_wom.lock_value().is_err());

    let mut wom = Wom::new(10);

    {
        let guard = wom.get_mut().unwrap();
        assert_eq!(*guard, 10);
    }

    {
        let guard = wom.get_mut().unwrap();
        *guard = 15;
        assert_eq!(*guard, 15);
    }
    assert_eq!(*wom.get_mut().unwrap(), 15);

    let mut wom = WomDriver::new(Wom::new(15));

    {
        assert_eq!(wom.lock_value().unwrap(), 15);
        wom.release_word();
    }

    {
        assert!(wom.take_word());
        *wom.wom.lock().unwrap().get_mut() += 5;
        wom.release_word();
    }
    assert_eq!(wom.lock_value().unwrap(), 20);
    wom.release_word();

    {
        let guard = wom.lock_value().unwrap();
        assert!(wom.try_lock_value().is_err());
        assert_eq!(guard, 20);
        wom.release_word();
    }

    {
        assert!(wom.take_word());
        let guard = wom.wom.set(54).unwrap();
        assert_eq!(*guard.get(), 54);
        guard.clear();
        wom.release_word();
    }
    assert!(wom.lock_value().is_err());

    {
        assert!(wom.take_word());
        let mut guard = wom.wom.set(63).unwrap();
        let mut val = 230;
        guard.swap(&mut val);
        assert_eq!(val, 63);
        assert_eq!(*guard.get(), 230);
        guard.set(125);
        wom.release_word();
    }
    assert_eq!(wom.lock_value().unwrap(), 125);
    wom.release_word();
}
