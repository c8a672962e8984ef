use alopt::alo::thread::semaphore::{AcquireError, RwSemaphore, Signal};
use alopt::alo::thread::{
    marks_contended, next_write_phase, spin_done, swap_took_lock, Wom, Worl, WritePhase, CONTENDED,
    LOCKED, UNLOCKED,
};

#[test]
fn read_returns_what_was_written() {
    let mut worl = Worl::new(1i32);
    {
        let mut guard = worl.write();
        guard.set(100);
    }
    let mut sem = RwSemaphore::new();
    assert_eq!(sem.start_acquire_read(1), Ok((1, vec![Signal::Many(1, 1)])));
    let (r, sig) = worl.read(&mut sem);
    assert_eq!(*r.unwrap().get(), 100);
    assert!(sig.is_empty());
}

#[test]
fn read_of_an_empty_worl_gives_the_lock_back() {
    let worl = Worl::<i32>::empty();
    let mut sem = RwSemaphore::new();
    assert_eq!(sem.start_acquire_read(1), Ok((1, vec![Signal::Many(1, 1)])));
    let (r, sig) = worl.read(&mut sem);
    assert_eq!(r.err(), Some(AcquireError::ValueNone));
    assert_eq!(sig, vec![Signal::Released, Signal::Available]);
    assert_eq!(sem.reader_count(), 0);
    assert!(sem.notifiers().is_empty());
}

#[test]
fn swap_twice_restores() {
    let mut wom = Wom::new(63);
    let mut val = 230;
    {
        let guard = wom.swap(&mut val).unwrap();
        assert_eq!(*guard.get(), 230);
    }
    assert_eq!(val, 63);
    {
        let _ = wom.swap(&mut val).unwrap();
    }
    assert_eq!(val, 230);
    assert_eq!(*wom.get_mut().unwrap(), 63);

    let mut empty = Wom::<i32>::empty();
    assert_eq!(empty.swap(&mut val).err(), Some(AcquireError::ValueNone));
    assert_eq!(val, 230);
}

#[test]
fn wom_clear_and_try_lock() {
    let mut wom = Wom::new(1);
    assert_eq!(wom.try_lock(false).err(), Some(AcquireError::WriteUnavailable));
    assert_eq!(wom.clear(), Ok(()));
    assert_eq!(wom.clear(), Err(AcquireError::ValueNone));
    assert_eq!(wom.try_lock(true).err(), Some(AcquireError::ValueNone));
    assert!(!wom.has_contents());
}

#[test]
fn worl_clear_releases_the_write_lock() {
    let mut worl = Worl::new(5u8);
    let mut sem = RwSemaphore::new();
    assert_eq!(sem.start_acquire_write(1), Ok((1, vec![Signal::One(1)])));
    assert_eq!(worl.clear(&mut sem), vec![Signal::Released, Signal::Available]);
    assert!(!worl.has_contents());
    assert!(sem.notifiers().is_empty());
    assert!(!sem.writer_held());
    assert_eq!(sem.start_acquire_read(2), Ok((2, vec![Signal::Many(2, 1)])));
    let (r, _) = worl.check_for_write(&mut sem);
    assert_eq!(r, Err(AcquireError::ValueNone));
}

#[test]
fn lock_word_decisions() {
    assert!(spin_done(UNLOCKED, 5));
    assert!(!spin_done(LOCKED, 5));
    assert!(spin_done(LOCKED, 0));
    assert!(spin_done(CONTENDED, 5));
    assert!(marks_contended(LOCKED));
    assert!(!marks_contended(CONTENDED));
    assert!(swap_took_lock(UNLOCKED));
    assert!(!swap_took_lock(LOCKED));
}

#[test]
fn worl_swap_after_write_lock() {
    let mut worl = Worl::new(7u8);
    let mut v = 9u8;
    {
        let guard = worl.swap(&mut v).unwrap();
        assert_eq!(*guard.get(), 9);
    }
    assert_eq!(v, 7);
    let mut empty = Worl::<u8>::empty();
    assert!(empty.swap(&mut v).is_err());
    assert_eq!(v, 7);
}

#[test]
fn wom_get_mut_then_lock_adds_up() {
    let mut wom = Wom::new(0);
    *wom.get_mut().unwrap() = 42;
    {
        let mut guard = wom.lock().unwrap();
        *guard.get_mut() += 100;
    }
    assert_eq!(*wom.get_mut().unwrap(), 142);
}

#[test]
fn write_fails_fast_without_a_value() {
    let p = next_write_phase(WritePhase::ReadLock, Ok(()));
    assert_eq!(p, WritePhase::Check);
    let p = next_write_phase(p, Err(AcquireError::ValueNone));
    assert_eq!(p, WritePhase::Done(Err(AcquireError::ValueNone)));
    // a finished acquisition stays finished: no write-lock is asked for
    assert_eq!(next_write_phase(p, Ok(())), p);
}

#[test]
fn write_lock_comes_after_the_check() {
    let p = next_write_phase(WritePhase::ReadLock, Ok(()));
    let p = next_write_phase(p, Ok(()));
    assert_eq!(p, WritePhase::WriteLock);
    assert_eq!(next_write_phase(p, Ok(())), WritePhase::Done(Ok(())));
    assert_eq!(
        next_write_phase(p, Err(AcquireError::WriteUnavailable)),
        WritePhase::Done(Err(AcquireError::WriteUnavailable))
    );
    assert_eq!(
        next_write_phase(WritePhase::ReadLock, Err(AcquireError::Timeout)),
        WritePhase::Done(Err(AcquireError::Timeout))
    );
}
