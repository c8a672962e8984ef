//! The counters behind a notifier.
//!
//! A notifier lets threads wait until another thread notifies them. Unlike a
//! bare condition variable it buffers notifications: one sent while nobody
//! waits is kept (up to 255 of them) and taken by the next waiter.
//! `notify_waiters` wakes everyone waiting and clears the buffer.
//!
//! `NotifyState` holds the counters and makes every decision; the code
//! around it keeps the state under a mutex, blocks on a condition variable
//! while `keep_waiting` holds, and wakes waiters after each notification.
use vstd::prelude::*;

verus! {

/// The timeout, in milliseconds, that a notifier starts with.
pub const NOTIFY_TIMEOUT_DEFAULT_MILLIS: u16 = 2000;

/// The bit of `flags` that records that all waiters were released.
pub const NOTIFY_FLAG_RELEASED: u32 = 7;

/// The counters of a notifier as Verus sees them.
pub struct NotifyView {
    /// bumped by every notification; a waiter waits for it to change
    pub count: u8,
    /// notifications buffered for waiters still to come
    pub pending: u8,
    /// flag bits
    pub flags: u8,
    /// how long a waiter waits, in milliseconds
    pub timeout: u16,
}

/// Whether the released bit is set in `flags`.
pub open spec fn released_in(flags: u8) -> bool {
    flags >= 128
}

/// `flags` with the released bit set to `released` and the other bits kept.
pub open spec fn with_released(flags: u8, released: bool) -> u8 {
    if released {
        (flags % 128 + 128) as u8
    } else {
        flags % 128
    }
}

/// The counters after notifying `n` waiters (`notify_one` is `n == 1`).
pub open spec fn notified_spec(v: NotifyView, n: u8) -> NotifyView {
    NotifyView {
        count: ((v.count + 1) % 256) as u8,
        pending: (v.pending + n) as u8,
        flags: with_released(v.flags, false),
        timeout: v.timeout,
    }
}

/// The counters after releasing all waiters.
pub open spec fn released_all(v: NotifyView) -> NotifyView {
    NotifyView {
        count: ((v.count + 1) % 256) as u8,
        pending: 0,
        flags: with_released(v.flags, true),
        timeout: v.timeout,
    }
}

/// The counters after a woken waiter takes a buffered notification, if
/// there is one.
pub open spec fn woke(v: NotifyView) -> NotifyView {
    NotifyView {
        pending: if v.pending > 0 {
            (v.pending - 1) as u8
        } else {
            0
        },
        ..v
    }
}

/// The counters after `j` woken waiters, one after the other, take their
/// notifications.
pub open spec fn after_wakeups(v: NotifyView, j: nat) -> NotifyView
    decreases j,
{
    if j == 0 {
        v
    } else {
        woke(after_wakeups(v, (j - 1) as nat))
    }
}

/// The counters after `k` calls of `notify_one`.
pub open spec fn notified_times(v: NotifyView, k: nat) -> NotifyView
    decreases k,
{
    if k == 0 {
        v
    } else {
        notified_spec(notified_times(v, (k - 1) as nat), 1)
    }
}

/// Whether a waiter that started waiting when the count was `current` keeps
/// waiting: as long as no notification came, or the buffer's emptiness
/// equals the released flag.
pub open spec fn waits(v: NotifyView, current: u8) -> bool {
    v.count == current || ((v.pending == 0) != released_in(v.flags))
}


/// Setting the released bit and reading it back gives what was set, and the
/// other flag bits are kept.
pub proof fn lemma_released_bit(flags: u8, released: bool)
    ensures
        released_in(with_released(flags, released)) == released,
        with_released(flags, released) % 128 == flags % 128,
{
}

/// A notification wakes the waiters that began before it: once at least one
/// waiter is notified, a waiter that saw the old count stops waiting.
pub proof fn lemma_notify_wakes_waiter(v: NotifyView, n: u8)
    requires
        0 < n,
        v.pending + n <= 255,
    ensures
        !waits(notified_spec(v, n), v.count),
{
    lemma_released_bit(v.flags, false);
}

/// `notify_waiters` wakes every waiter that began before it and empties the
/// buffer.
pub proof fn lemma_notify_waiters_releases_all(v: NotifyView)
    ensures
        !waits(released_all(v), v.count),
        released_all(v).pending == 0,
{
    lemma_released_bit(v.flags, true);
}

proof fn lemma_after_wakeups_shape(v: NotifyView, j: nat)
    ensures
        after_wakeups(v, j).count == v.count,
        after_wakeups(v, j).flags == v.flags,
        after_wakeups(v, j).pending == (if j <= v.pending {
            v.pending - j
        } else {
            0
        }),
    decreases j,
{
    if j > 0 {
        lemma_after_wakeups_shape(v, (j - 1) as nat);
    }
}

/// Up to 255 notifications are buffered: after `k` notifications with no
/// waiter, the next `k` waiters each take one without waiting, and the one
/// after them finds the buffer empty and waits.
pub proof fn lemma_buffered_notifications(v: NotifyView, k: nat)
    requires
        v.pending == 0,
        k <= 255,
    ensures
        notified_times(v, k).pending == k,
        forall|j: nat| j < k ==> #[trigger] after_wakeups(notified_times(v, k), j).pending > 0,
        after_wakeups(notified_times(v, k), k).pending == 0,
    decreases k,
{
    if k > 0 {
        lemma_buffered_notifications(v, (k - 1) as nat);
    }
    assert forall|j: nat| j < k implies #[trigger] after_wakeups(notified_times(v, k), j).pending
        > 0 by {
        lemma_after_wakeups_shape(notified_times(v, k), j);
    }
    lemma_after_wakeups_shape(notified_times(v, k), k);
}

/// `notify_many(n)` with waiters blocked and nothing buffered: of the
/// waiters, woken one after another, the first `n` stop waiting and each
/// takes a notification; any further waiter keeps waiting (until it times
/// out); when fewer than `n` waiters there are, say `k`, the other `n - k`
/// notifications stay buffered.
pub proof fn lemma_notify_many_wakes(v: NotifyView, n: u8, j: nat)
    requires
        v.pending == 0,
    ensures
        ({
            let w = after_wakeups(notified_spec(v, n), j);
            &&& j <= n ==> w.pending == n - j
            &&& j < n ==> !waits(w, v.count)
            &&& j >= n ==> waits(w, v.count)
        }),
{
    lemma_after_wakeups_shape(notified_spec(v, n), j);
    lemma_released_bit(v.flags, false);
}

/// A notification sent while nobody waits is buffered, and the next waiter
/// takes it without waiting.
pub proof fn lemma_notification_is_buffered(v: NotifyView)
    requires
        v.pending < 255,
    ensures
        notified_spec(v, 1).pending == v.pending + 1,
        notified_spec(v, 1).pending > 0,
{
}

/// A waiter keeps waiting as long as no notification came: whatever the
/// buffer and the flags hold, a waiter that began at the current count
/// waits.
pub proof fn lemma_no_notification_keeps_waiting(v: NotifyView, current: u8)
    requires
        v.count == current,
    ensures
        waits(v, current),
{
}

/// `notify_waiters` releases only those already waiting: a waiter that
/// begins after it, at the new count, with the buffer empty, waits for the
/// next notification rather than pass at once.
pub proof fn lemma_late_waiter_waits(v: NotifyView)
    ensures
        released_all(v).pending == 0,
        waits(released_all(v), released_all(v).count),
{
}

/// `notify_many(n)` buffers all `n` notifications, whatever the buffer
/// already held: the buffer grows by exactly `n`, the count moves on by
/// one, and exactly `v.pending + n` waiters pass without waiting before the
/// buffer is empty again.
pub proof fn lemma_notify_many_adds_all(v: NotifyView, n: u8)
    requires
        v.pending + n <= 255,
    ensures
        notified_spec(v, n).pending == v.pending + n,
        notified_spec(v, n).count == (v.count + 1) % 256,
        forall|j: nat| j < v.pending + n ==> #[trigger] after_wakeups(notified_spec(v, n), j).pending
            > 0,
        after_wakeups(notified_spec(v, n), (v.pending + n) as nat).pending == 0,
{
    assert forall|j: nat| j < v.pending + n implies #[trigger] after_wakeups(
        notified_spec(v, n),
        j,
    ).pending > 0 by {
        lemma_after_wakeups_shape(notified_spec(v, n), j);
    }
    lemma_after_wakeups_shape(notified_spec(v, n), (v.pending + n) as nat);
}

pub struct NotifyState {
    count: u8,
    pending: u8,
    flags: u8,
    timeout: u16,
}

impl View for NotifyState {
    type V = NotifyView;

    closed spec fn view(&self) -> NotifyView {
        NotifyView {
            count: self.count,
            pending: self.pending,
            flags: self.flags,
            timeout: self.timeout,
        }
    }
}

impl NotifyState {
    /// Fresh counters with the default timeout.
    pub fn new() -> (r: NotifyState)
        ensures
            r@ == (NotifyView {
                count: 0,
                pending: 0,
                flags: 0,
                timeout: NOTIFY_TIMEOUT_DEFAULT_MILLIS,
            }),
    {
        NotifyState { count: 0, pending: 0, flags: 0, timeout: NOTIFY_TIMEOUT_DEFAULT_MILLIS }
    }

    /// Fresh counters with the given timeout.
    pub fn with_timeout(timeout_millis: u16) -> (r: NotifyState)
        ensures
            r@ == (NotifyView { count: 0, pending: 0, flags: 0, timeout: timeout_millis }),
    {
        NotifyState { count: 0, pending: 0, flags: 0, timeout: timeout_millis }
    }

    pub fn count(&self) -> (r: u8)
        ensures
            r == self@.count,
    {
        self.count
    }

    pub fn pending(&self) -> (r: u8)
        ensures
            r == self@.pending,
    {
        self.pending
    }

    pub fn timeout(&self) -> (r: u16)
        ensures
            r == self@.timeout,
    {
        self.timeout
    }

    pub fn set_timeout(&mut self, timeout_millis: u16)
        ensures
            final(self)@ == (NotifyView { timeout: timeout_millis, ..old(self)@ }),
    {
        self.timeout = timeout_millis;
    }

    pub fn get_released(&self) -> (r: bool)
        ensures
            r == released_in(self@.flags),
    {
        let flags = self.flags;
        assert(flags & (1u8 << 7u32) > 0 <==> flags >= 128) by (bit_vector);
        self.flags & (1u8 << NOTIFY_FLAG_RELEASED) > 0
    }

    pub fn set_released(&mut self, released: bool)
        ensures
            final(self)@ == (NotifyView { flags: with_released(old(self)@.flags, released), ..old(self)@ }),
    {
        let flags = self.flags;
        let bit: u8 = if released {
            1
        } else {
            0
        };
        assert((flags & !(1u8 << 7u32)) | (1u8 << 7u32) == (flags % 128 + 128) as u8) by (bit_vector);
        assert((flags & !(1u8 << 7u32)) | (0u8 << 7u32) == flags % 128) by (bit_vector);
        self.flags = (self.flags & !(1u8 << NOTIFY_FLAG_RELEASED)) | (bit << NOTIFY_FLAG_RELEASED);
    }

    /// Notifies one waiter, or buffers the notification when none waits.
    /// The buffer cannot hold more than 255 notifications;
    /// that input is left out.
    pub fn notify_one(&mut self)
        requires
            old(self)@.pending < 255,
        ensures
            final(self)@ == notified_spec(old(self)@, 1),
    {
        if self.get_released() {
            self.set_released(false);
        } else {
            proof {
                let flags = self.flags;
                assert(flags < 128 ==> flags % 128 == flags) by (bit_vector);
            }
        }
        self.count = self.count.wrapping_add(1);
        self.pending = self.pending + 1;
    }

    /// Notifies `n` waiters; the surplus over the current waiters is
    /// buffered. Overflowing the buffer is left out.
    pub fn notify_many(&mut self, n: u8)
        requires
            old(self)@.pending + n <= 255,
        ensures
            final(self)@ == notified_spec(old(self)@, n),
    {
        if self.get_released() {
            self.set_released(false);
        } else {
            proof {
                let flags = self.flags;
                assert(flags < 128 ==> flags % 128 == flags) by (bit_vector);
            }
        }
        self.count = self.count.wrapping_add(1);
        self.pending = self.pending + n;
    }

    /// Releases every waiter and clears the buffer.
    pub fn notify_waiters(&mut self)
        ensures
            final(self)@ == released_all(old(self)@),
    {
        self.count = self.count.wrapping_add(1);
        self.pending = 0;
        self.set_released(true);
    }

    /// First step of waiting: a buffered notification is taken at once
    /// (`None`); otherwise the caller waits, with the returned timeout, for
    /// the count to move on from the returned value.
    pub fn begin_wait(&mut self) -> (r: Option<(u8, u16)>)
        ensures
            old(self)@.pending > 0 ==> r is None && final(self)@ == woke(old(self)@),
            old(self)@.pending == 0 ==> r == Some((old(self)@.count, old(self)@.timeout))
                && final(self)@ == old(self)@,
    {
        if self.pending > 0 {
            self.pending = self.pending - 1;
            None
        } else {
            Some((self.count, self.timeout))
        }
    }

    /// Whether a waiter that began when the count was `current` keeps
    /// waiting.
    pub fn keep_waiting(&self, current: u8) -> (r: bool)
        ensures
            r == waits(self@, current),
    {
        self.count == current || ((self.pending == 0) ^ self.get_released())
    }

    /// Last step of waiting: a waiter that timed out fails; one that was
    /// woken takes a buffered notification if there is one.
    pub fn finish_wait(&mut self, timed_out: bool) -> (r: Result<(), ()>)
        ensures
            timed_out ==> r is Err && final(self)@ == old(self)@,
            !timed_out ==> r is Ok && final(self)@ == woke(old(self)@),
    {
        if timed_out {
            return Err(());
        }
        if self.pending > 0 {
            self.pending = self.pending - 1;
        }
        Ok(())
    }
}

} // verus!
