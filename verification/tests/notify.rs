use alopt::alo::notify::{NotifyState, NOTIFY_TIMEOUT_DEFAULT_MILLIS};

#[test]
fn buffered_notification_is_taken_without_waiting() {
    let mut n = NotifyState::new();
    assert_eq!(n.timeout(), NOTIFY_TIMEOUT_DEFAULT_MILLIS);
    assert_eq!(n.begin_wait(), Some((0, 2000)));
    n.notify_one();
    assert_eq!(n.pending(), 1);
    assert_eq!(n.count(), 1);
    assert_eq!(n.begin_wait(), None);
    assert_eq!(n.pending(), 0);
}

#[test]
fn notification_wakes_a_waiter() {
    let mut n = NotifyState::with_timeout(10);
    let (current, timeout) = n.begin_wait().unwrap();
    assert_eq!((current, timeout), (0, 10));
    assert!(n.keep_waiting(current));
    n.notify_one();
    assert!(!n.keep_waiting(current));
    assert_eq!(n.finish_wait(false), Ok(()));
    assert_eq!(n.pending(), 0);
}

#[test]
fn notify_many_buffers_the_surplus() {
    let mut n = NotifyState::with_timeout(200);
    n.notify_many(79);
    assert_eq!(n.pending(), 79);
    let mut ready = 0;
    for _ in 0..200 {
        if n.begin_wait().is_none() {
            ready += 1;
        }
    }
    assert_eq!(ready, 79);
}

#[test]
fn notify_waiters_releases_everyone_and_clears_the_buffer() {
    let mut n = NotifyState::with_timeout(500);
    n.notify_one();
    let current = n.count();
    n.notify_waiters();
    assert!(n.get_released());
    assert_eq!(n.pending(), 0);
    assert!(!n.keep_waiting(current));
    // a later notification clears the released flag again
    n.notify_one();
    assert!(!n.get_released());
    assert_eq!(n.pending(), 1);
}

#[test]
fn timed_out_wait_fails() {
    let mut n = NotifyState::with_timeout(10);
    assert!(n.begin_wait().is_some());
    assert_eq!(n.finish_wait(true), Err(()));
}

#[test]
fn released_flag_round_trip() {
    let mut n = NotifyState::new();
    assert!(!n.get_released());
    n.set_released(true);
    assert!(n.get_released());
    n.set_released(false);
    assert!(!n.get_released());
    n.set_timeout(u16::MAX);
    assert_eq!(n.timeout(), u16::MAX);
}

#[test]
fn generation_count_wraps_on_notify() {
    let mut n = NotifyState::new();
    for _ in 0..255 {
        n.notify_many(0);
    }
    assert_eq!(n.count(), 255);
    n.notify_many(0);
    assert_eq!(n.count(), 0);
}

#[test]
fn notify_waiters_after_a_full_count() {
    let mut n = NotifyState::new();
    for _ in 0..255 {
        n.notify_one();
    }
    assert_eq!(n.pending(), 255);
    assert_eq!(n.count(), 255);
    n.notify_waiters();
    assert_eq!(n.pending(), 0);
    assert_eq!(n.count(), 0);
    assert!(!n.keep_waiting(255));
}

#[test]
fn buffered_notifications_are_taken_one_each() {
    let mut n = NotifyState::with_timeout(10);
    for _ in 0..3 {
        n.notify_one();
    }
    for _ in 0..3 {
        assert_eq!(n.begin_wait(), None);
    }
    assert_eq!(n.begin_wait(), Some((3, 10)));
}

#[test]
fn notify_many_wakes_at_most_its_count() {
    let mut n = NotifyState::with_timeout(10);
    let current = n.count();
    n.notify_many(5);
    // three waiters, woken one after another, each take one notification
    for _ in 0..3 {
        assert!(!n.keep_waiting(current));
        assert_eq!(n.finish_wait(false), Ok(()));
    }
    // the other two stay buffered
    assert_eq!(n.pending(), 2);
    // with fewer notifications than waiters, the rest keep waiting
    let mut m = NotifyState::with_timeout(10);
    let current = m.count();
    m.notify_many(2);
    for _ in 0..2 {
        assert!(!m.keep_waiting(current));
        assert_eq!(m.finish_wait(false), Ok(()));
    }
    assert!(m.keep_waiting(current));
}
