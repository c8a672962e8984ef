//! Synchronisation primitives that carry an `Option` inside the lock.
//!
//! The verified part of the crate is the bookkeeping that decides who gets a
//! lock and what happens to the guarded value: the request queue of the
//! reader/writer semaphore, the notifier's counters, the slot behind a
//! `Wom`, and the borrow counter of the async `Wom`.
pub mod alo;

pub use alo::thread;
