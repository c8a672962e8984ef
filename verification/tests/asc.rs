use alopt::alo::asc::semaphore::{AcquireError, RwSemaphore, MAX_ACQUIRES};
use alopt::alo::asc::{counter_after_release, Wom, Worl};
use alopt::alo::thread::semaphore::Signal::{Available, Many, One, Released};

#[test]
fn async_read_is_counted_once() {
    let mut sem = RwSemaphore::new();
    let (n, sigs) = sem.start_acquire_read(1).unwrap();
    assert_eq!(n, 1);
    assert_eq!(sigs, vec![Many(1, 1)]);
    assert_eq!(sem.reader_count(), 1);
    assert_eq!(sem.release_read(), vec![Released, Available]);
    assert_eq!(sem.reader_count(), 0);
    // with the reader gone, a writer is let in at once
    assert_eq!(sem.start_acquire_write(2), Some((2, vec![One(2)])));
}

#[test]
fn async_writer_excludes_the_next_writer() {
    let mut sem = RwSemaphore::new();
    assert_eq!(sem.start_acquire_write(1), Some((1, vec![One(1)])));
    // later writers join the batch of the one that holds the lock
    assert_eq!(sem.start_acquire_write(2), Some((1, vec![])));
    assert_eq!(sem.start_acquire_write(3), Some((1, vec![])));
    assert_eq!(sem.release_write(), vec![Released, One(1)]);
    assert_eq!(sem.release_write(), vec![Released, One(1)]);
    assert_eq!(sem.notifiers(), vec![1]);
    assert_eq!(sem.release_write(), vec![Released, Available]);
    assert!(sem.notifiers().is_empty());
}

#[test]
fn async_closed_or_full_refuses() {
    let mut sem = RwSemaphore::new();
    assert_eq!(sem.start_acquire_write(1), Some((1, vec![One(1)])));
    let mut id = 2;
    while sem.notifiers().len() < MAX_ACQUIRES {
        let started = if id % 2 == 0 {
            sem.start_acquire_read(id)
        } else {
            sem.start_acquire_write(id)
        };
        assert_eq!(started, Some((id, vec![])));
        id += 1;
    }
    // a full queue refuses even a request that could join the newest batch
    assert!(sem.start_acquire_read(100).is_none());
    assert!(sem.start_acquire_write(100).is_none());
    let notifiers = sem.close();
    assert_eq!(notifiers.len(), MAX_ACQUIRES);
    assert!(sem.is_closed());
    assert!(sem.start_acquire_read(101).is_none());
    assert_eq!(sem.release_write(), vec![Released]);
    sem.flip_closed();
    assert!(!sem.is_closed());
}

#[test]
fn async_wom_counts_borrows() {
    let mut empty = Wom::<i32>::empty();
    assert_eq!(empty.get_mut().err(), Some(AcquireError::ValueNone));
    assert_eq!(empty.lock().err(), Some(AcquireError::ValueNone));
    assert!(!empty.has_contents());

    let mut wom = Wom::new(5);
    assert_eq!(*wom.lock().unwrap().deref(), 5);
    assert_eq!(wom.borrow_count(), 1);
    assert_eq!(wom.get_mut().err(), Some(AcquireError::Unavailable));
    wom.lock().unwrap().release();
    assert_eq!(wom.borrow_count(), 0);
    assert_eq!(*wom.get_mut().unwrap(), 5);
    *wom.lock().unwrap().deref_mut() = 9;
    assert_eq!(wom.borrow_count(), -1);
    wom.lock().unwrap().release();
    assert_eq!(*wom.get_mut().unwrap(), 9);
    // a guard given up without any access leaves the counter below zero
    wom.lock().unwrap().release();
    assert_eq!(wom.get_mut().err(), Some(AcquireError::Unavailable));
    assert_eq!(counter_after_release(-1), 0);
    assert_eq!(counter_after_release(2), 1);
    assert_eq!(counter_after_release(0), -1);
}

#[test]
fn async_worl_slot() {
    let mut worl = Worl::new(3u8);
    assert_eq!(*worl.read().unwrap().get(), 3);
    *worl.write().unwrap().get_mut() = 4;
    assert_eq!(*worl.read().unwrap().get(), 4);
    worl.clear();
    assert_eq!(worl.read().err().map(|_| ()), Some(()));
    assert!(worl.write().is_err());
    worl.set(8);
    assert_eq!(*worl.read().unwrap().get(), 8);
    let empty = Worl::<u8>::empty();
    assert!(empty.read().is_err());
}
