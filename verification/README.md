# alopt

Arc-Lock-Option: synchronisation primitives with an `Option` inside the lock.

- `Worl<T>` stands in for `RwLock<Option<T>>`, with a queue of lock requests
  so that writers cannot be starved by readers.
- `Wom<T>` stands in for `Mutex<Option<T>>`.

## Layout

- `src/` is the verified library. It makes the decisions of the locks
  (the spinning on the `Wom`'s lock word runs in `app/`, taking its three
  decisions from `src/`):
  - `alo::request`: the request queue, a `ringbuffer::AllocRingBuffer`, and
    the contracts of the ring buffer methods it uses;
  - `alo::thread::semaphore`: the reader/writer semaphore of the blocking
    `Worl` (batching, the refusals, granting in arrival order, exclusion of
    writers, a held batch keeping its place in the queue, timeouts,
    closing), with its mutual-exclusion and progress laws;
  - `alo::notify`: the counters of a notifier that buffers notifications;
  - `alo::thread`: the values behind the blocking `Worl` and `Wom`, their
    guards, the fail-fast order of a write-lock acquisition, and the lock
    word's decisions, with a model of the lock word and its exclusion law;
  - `alo::asc`: the async semaphore (the blocking one's decisions, refusing
    on a full queue, with no cap on a batch's size), values and borrow
    counter of the async variants.
- `app/` runs the threads, mutexes, condition variables, atomics and tokio
  awaits around the library, and gives the locks their `Deref` guards that
  release on drop.
- `tests/` drives the library on one thread.
