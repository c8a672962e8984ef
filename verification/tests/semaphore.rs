use alopt::alo::request::AcquireType;
use alopt::alo::thread::semaphore::{
    retry_unscheduled, AcquireError, RwSemaphore, Signal, ACQUIRE_BUFFER_SIZE, MAX_READS,
};

use Signal::{Available, Many, One, Released};

#[test]
fn read_is_granted_at_once_when_nothing_is_held() {
    let mut sem = RwSemaphore::new();
    assert_eq!(sem.start_acquire_read(1), Ok((1, vec![Many(1, 1)])));
    assert_eq!(sem.reader_count(), 1);
    // a second reader joins the batch that the first one holds
    assert_eq!(sem.start_acquire_read(2), Ok((1, vec![Many(1, 1)])));
    assert_eq!(sem.reader_count(), 2);
    // the batch keeps its place while its readers hold the lock
    assert_eq!(sem.notifiers(), vec![1]);
    assert_eq!(sem.release_read(), vec![Released]);
    assert_eq!(sem.notifiers(), vec![1]);
    assert_eq!(sem.release_read(), vec![Released, Available]);
    assert_eq!(sem.reader_count(), 0);
    assert!(sem.notifiers().is_empty());
}

#[test]
fn read_requests_share_a_batch() {
    let mut sem = RwSemaphore::new();
    assert_eq!(sem.start_acquire_write(1), Ok((1, vec![One(1)])));
    assert_eq!(sem.start_acquire_read(2), Ok((2, vec![])));
    assert_eq!(sem.start_acquire_read(3), Ok((2, vec![])));
    assert_eq!(sem.notifiers(), vec![1, 2]);
    assert_eq!(sem.release_write(), vec![Released, Available, Many(2, 2)]);
    assert_eq!(sem.reader_count(), 2);
    assert_eq!(sem.notifiers(), vec![2]);
}

#[test]
fn write_requests_share_a_batch() {
    let mut sem = RwSemaphore::new();
    assert_eq!(sem.start_acquire_read(1), Ok((1, vec![Many(1, 1)])));
    assert_eq!(sem.start_acquire_write(2), Ok((2, vec![])));
    assert_eq!(sem.start_acquire_write(3), Ok((2, vec![])));
    assert_eq!(sem.notifiers(), vec![1, 2]);
    // the last reader leaves: its batch goes, one writer of the next is let in
    assert_eq!(sem.release_read(), vec![Released, Available, One(2)]);
    assert!(sem.writer_held());
    // the writer leaves: the other one is let in
    assert_eq!(sem.release_write(), vec![Released, One(2)]);
    assert!(sem.writer_held());
    assert_eq!(sem.notifiers(), vec![2]);
    // the last writer leaves, and the batch is done
    assert_eq!(sem.release_write(), vec![Released, Available]);
    assert!(!sem.writer_held());
    assert!(sem.notifiers().is_empty());
}

#[test]
fn held_writer_excludes_everyone() {
    let mut sem = RwSemaphore::new();
    assert_eq!(sem.start_acquire_write(1), Ok((1, vec![One(1)])));
    assert_eq!(sem.finish_acquire(1, true), (Ok(()), vec![]));
    assert_eq!(sem.start_acquire_read(2), Ok((2, vec![])));
    assert_eq!(sem.start_acquire_read(3), Ok((2, vec![])));
    assert_eq!(sem.start_acquire_write(4), Ok((4, vec![])));
    assert_eq!(sem.reader_count(), 0);
    assert!(sem.writer_held());
    assert_eq!(sem.notifiers(), vec![1, 2, 4]);
}

#[test]
fn writer_waits_behind_readers_and_gets_in_when_they_leave() {
    let mut sem = RwSemaphore::new();
    assert_eq!(sem.start_acquire_read(1), Ok((1, vec![Many(1, 1)])));
    assert_eq!(sem.start_acquire_write(2), Ok((2, vec![])));
    // a later reader queues behind the writer rather than overtake it
    assert_eq!(sem.start_acquire_read(3), Ok((3, vec![])));
    assert_eq!(sem.notifiers(), vec![1, 2, 3]);
    assert_eq!(sem.release_read(), vec![Released, Available, One(2)]);
    assert!(sem.writer_held());
    assert_eq!(sem.release_write(), vec![Released, Available, Many(3, 1)]);
    assert_eq!(sem.reader_count(), 1);
    assert!(!sem.writer_held());
}

/// Queues batches of alternating kinds, the first a read batch when
/// `read_first`, until the queue is full; returns the next unused id.
fn fill_queue(sem: &mut RwSemaphore, first: u64, read_first: bool) -> u64 {
    let mut id = first;
    while sem.notifiers().len() < ACQUIRE_BUFFER_SIZE {
        let read = ((id - first) % 2 == 0) == read_first;
        let started = if read { sem.start_acquire_read(id) } else { sem.start_acquire_write(id) };
        assert_eq!(started, Ok((id, vec![])));
        id += 1;
    }
    id
}

#[test]
fn full_queue_refuses_reads() {
    let mut sem = RwSemaphore::new();
    assert_eq!(sem.start_acquire_read(1), Ok((1, vec![Many(1, 1)])));
    let next = fill_queue(&mut sem, 2, false);
    assert_eq!(next, 17);
    assert_eq!(sem.start_acquire_read(17), Err(AcquireError::ReadUnavailable));
    // a write request still joins the newest batch, a write batch with room
    assert_eq!(sem.start_acquire_write(17), Ok((16, vec![])));
    assert_eq!(sem.notifiers().len(), ACQUIRE_BUFFER_SIZE);
}

#[test]
fn full_queue_refuses_writes() {
    let mut sem = RwSemaphore::new();
    assert_eq!(sem.start_acquire_write(1), Ok((1, vec![One(1)])));
    let next = fill_queue(&mut sem, 2, true);
    assert_eq!(next, 17);
    assert_eq!(sem.start_acquire_write(17), Err(AcquireError::WriteUnavailable));
    assert_eq!(sem.start_acquire_read(17), Ok((16, vec![])));
}

#[test]
fn held_batch_keeps_its_slot() {
    // a reader holds the lock and fifteen batches wait: the queue is full
    let mut sem = RwSemaphore::new();
    assert_eq!(sem.start_acquire_read(1), Ok((1, vec![Many(1, 1)])));
    assert_eq!(fill_queue(&mut sem, 2, false), 17);
    assert_eq!(sem.start_acquire_read(17), Err(AcquireError::ReadUnavailable));
    // once the reader leaves, its batch goes and there is room again
    assert_eq!(sem.release_read(), vec![Released, Available, One(2)]);
    assert_eq!(sem.notifiers().len(), ACQUIRE_BUFFER_SIZE - 1);
    assert_eq!(sem.start_acquire_read(17), Ok((17, vec![])));
}

#[test]
fn timeout_withdraws_the_request() {
    let mut sem = RwSemaphore::new();
    assert_eq!(sem.start_acquire_write(1), Ok((1, vec![One(1)])));
    assert_eq!(sem.start_acquire_read(2), Ok((2, vec![])));
    assert_eq!(sem.finish_acquire(2, false), (Err(AcquireError::Timeout), vec![]));
    assert_eq!(sem.notifiers(), vec![1, 2]);
    // once the writer leaves, both exhausted batches go
    assert_eq!(sem.release_write(), vec![Released, Available, Available]);
    assert!(sem.notifiers().is_empty());
    assert_eq!(sem.reader_count(), 0);
}

#[test]
fn granted_request_holds_the_lock() {
    let mut sem = RwSemaphore::new();
    assert_eq!(sem.start_acquire_write(7), Ok((7, vec![One(7)])));
    assert_eq!(sem.finish_acquire(7, true), (Ok(()), vec![]));
    assert_eq!(sem.release_write(), vec![Released, Available]);
    assert!(!sem.writer_held());
}

#[test]
fn closed_semaphore_refuses() {
    let mut sem = RwSemaphore::new();
    assert_eq!(sem.start_acquire_write(1), Ok((1, vec![One(1)])));
    assert_eq!(sem.start_acquire_read(2), Ok((2, vec![])));
    assert_eq!(sem.close(), vec![1, 2]);
    assert!(sem.is_closed());
    assert_eq!(sem.start_acquire_read(3), Err(AcquireError::Closed));
    assert_eq!(sem.start_acquire_write(3), Err(AcquireError::Closed));
    assert_eq!(sem.finish_acquire(2, true), (Err(AcquireError::Closed), vec![]));
    // a release on a closed semaphore is counted, and grants nothing
    assert_eq!(sem.release_write(), vec![Released]);
    assert!(!sem.writer_held());
    // closing again opens it
    assert_eq!(sem.close(), vec![1, 2]);
    assert!(!sem.is_closed());
    sem.flip_closed();
    assert!(sem.is_closed());
}

#[test]
fn unscheduled_requests_retry_only_on_a_full_queue() {
    assert!(retry_unscheduled(AcquireType::Read, &Err(AcquireError::ReadUnavailable)));
    assert!(!retry_unscheduled(AcquireType::Read, &Err(AcquireError::WriteUnavailable)));
    assert!(!retry_unscheduled(AcquireType::Read, &Err(AcquireError::Timeout)));
    assert!(retry_unscheduled(AcquireType::Write, &Err(AcquireError::WriteUnavailable)));
    assert!(!retry_unscheduled(AcquireType::Write, &Ok(())));
}

#[test]
fn timeout_applies_to_new_notifiers() {
    let mut sem = RwSemaphore::new();
    assert_eq!(sem.timeout(), 2000);
    assert_eq!(sem.start_acquire_write(1), Ok((1, vec![One(1)])));
    assert_eq!(sem.start_acquire_read(2), Ok((2, vec![])));
    assert_eq!(sem.set_timeout(500), vec![1, 2]);
    assert_eq!(sem.timeout(), 500);
}

#[test]
fn reader_limit_holds() {
    let mut sem = RwSemaphore::new();
    assert_eq!(sem.start_acquire_read(1), Ok((1, vec![Many(1, 1)])));
    for i in 2..=128u64 {
        // every reader joins the batch the first one opened
        assert_eq!(sem.start_acquire_read(i), Ok((1, vec![Many(1, 1)])));
    }
    assert_eq!(sem.reader_count(), MAX_READS);
    assert_eq!(sem.start_acquire_read(129), Ok((1, vec![])));
    assert_eq!(sem.start_acquire_read(130), Ok((1, vec![])));
    assert_eq!(sem.reader_count(), MAX_READS);
    assert_eq!(sem.release_read(), vec![Released, Many(1, 1)]);
    assert_eq!(sem.reader_count(), MAX_READS);
    assert_eq!(sem.notifiers(), vec![1]);
}

#[test]
fn full_batch_opens_a_new_one() {
    let mut sem = RwSemaphore::with_batch_limit(2);
    assert_eq!(sem.start_acquire_write(1), Ok((1, vec![One(1)])));
    assert_eq!(sem.start_acquire_read(2), Ok((2, vec![])));
    assert_eq!(sem.start_acquire_read(3), Ok((2, vec![])));
    // the waiting read batch holds two requests: the next one opens a batch
    assert_eq!(sem.start_acquire_read(4), Ok((4, vec![])));
    assert_eq!(sem.notifiers(), vec![1, 2, 4]);
    assert_eq!(sem.release_write(), vec![Released, Available, Many(2, 2)]);
    assert_eq!(sem.reader_count(), 2);
}
