//! A counting completion barrier (wait group).
//!
//! Producers register work by cloning the handle (each clone raises the
//! expected total by one) or by calling [`WaitGroup::add`]; every handle
//! emits one completion signal on a shared channel when it is dropped.
//! [`WaitGroup::wait`] blocks until as many signals have arrived as the
//! expected total demands, re-reading the total after every signal so that
//! work registered while waiting is still awaited. When every sender is gone
//! the channel disconnects and the wait ends as a defined terminal state,
//! not an error.
//!
//! The expected total lives in a verified reader-writer lock; the completion
//! channel is flume's, behind trusted declarations, and each signal counts
//! one unit of work.

use std::sync::Arc;
use vstd::prelude::*;
use vstd::rwlock::RwLock;

use crate::sync::lock::AnyState;

verus! {

/// The transmitting end of flume's channel, declared so that a handle can
/// hold one.
#[verifier::external_type_specification]
#[verifier::external_body]
#[verifier::reject_recursive_types(T)]
pub struct ExSender<T>(flume::Sender<T>);

/// The receiving end of flume's channel, declared so that a handle can hold
/// one.
#[verifier::external_type_specification]
#[verifier::external_body]
#[verifier::reject_recursive_types(T)]
pub struct ExReceiver<T>(flume::Receiver<T>);

/// Relies on `flume::unbounded`: a multi-producer multi-consumer channel
/// whose sends never block.
#[verifier::external_body]
fn signal_channel() -> (flume::Sender<()>, flume::Receiver<()>) {
    flume::unbounded()
}

/// Relies on `flume::Receiver::recv`: it blocks until a message arrives
/// (returned here as a signal) or every sender is gone (returned here as
/// nothing).
#[verifier::external_body]
fn recv_signal(r: &flume::Receiver<()>) -> Option<()> {
    match r.recv() {
        Ok(x) => Some(x),
        Err(_) => None,
    }
}

/// Relies on `flume::Sender::clone`: the clone is a handle to the very same
/// channel, so as a value it is the sender it was cloned from.
#[verifier::external_body]
fn clone_sender(s: &flume::Sender<()>) -> (r: flume::Sender<()>)
    ensures
        r == *s,
{
    s.clone()
}

/// Relies on `flume::Receiver::clone`: the clone is a handle to the very
/// same channel, so as a value it is the receiver it was cloned from.
#[verifier::external_body]
fn clone_receiver(r: &flume::Receiver<()>) -> (c: flume::Receiver<()>)
    ensures
        c == *r,
{
    r.clone()
}

/// Relies on `Arc::clone`: the clone shares the same allocation, so as a
/// value it is the very lock it was cloned from.
#[verifier::external_body]
fn share_counter(c: &Arc<RwLock<u64, AnyState>>) -> (r: Arc<RwLock<u64, AnyState>>)
    ensures
        r == *c,
{
    c.clone()
}

/// Relies on `Arc::deref`: a shared reference to the contents of the
/// allocation.
#[verifier::external_body]
fn counter_ref(c: &Arc<RwLock<u64, AnyState>>) -> (r: &RwLock<u64, AnyState>)
    ensures
        *r == **c,
{
    &**c
}

/// A counting rendezvous handle.
///
/// Cloning registers one unit of work; dropping a handle signals one
/// completion; [`Self::wait`] blocks until completions have caught up with
/// registrations. All handles of one group share one counter and one
/// channel.
pub struct WaitGroup {
    total: Arc<RwLock<u64, AnyState>>,
    send: flume::Sender<()>,
    recv: flume::Receiver<()>,
}

/// One accounting step of a wait loop: counts one received completion
/// signal (the count saturates at the largest representable value) and
/// decides, against the expected total read after the signal, whether the
/// wait is over.
pub fn wait_step(current: u64, total: u64) -> (r: (u64, bool))
    ensures
        current < u64::MAX ==> r.0 == current + 1,
        current == u64::MAX ==> r.0 == current,
        r.1 == (r.0 >= total),
{
    let next: u64 = if current < u64::MAX {
        current + 1
    } else {
        current
    };
    (next, next >= total)
}

impl WaitGroup {
    /// The shared expected-total counter.
    pub closed spec fn counter(&self) -> Arc<RwLock<u64, AnyState>> {
        self.total
    }

    /// The sending end of the shared completion channel.
    pub closed spec fn sender(&self) -> flume::Sender<()> {
        self.send
    }

    /// The receiving end of the shared completion channel.
    pub closed spec fn receiver(&self) -> flume::Receiver<()> {
        self.recv
    }

    /// Creates a group with nothing registered: a fresh counter at zero and
    /// a fresh signal channel.
    pub fn new() -> Self {
        let (send, recv) = signal_channel();
        WaitGroup { total: Arc::new(RwLock::new(0u64, Ghost(AnyState))), send, recv }
    }

    /// Registers `v` more units of work. The counter saturates at the
    /// largest representable total instead of wrapping.
    pub fn add(&self, v: u64) {
        let lock = counter_ref(&self.total);
        let (t, handle) = lock.acquire_write();
        let nt: u64 = if t <= u64::MAX - v {
            t + v
        } else {
            u64::MAX
        };
        handle.release_write(nt);
    }

    /// The expected total at the moment of the read.
    pub fn total(&self) -> u64 {
        let lock = counter_ref(&self.total);
        let handle = lock.acquire_read();
        let t = *handle.borrow();
        handle.release_read();
        t
    }

    /// A receiving end of the shared completion channel, for callers that
    /// drive the wait themselves (an async runtime, say). Every signal is
    /// consumed by exactly one receiver.
    pub fn completion_receiver(&self) -> (r: flume::Receiver<()>)
        ensures
            r == self.receiver(),
    {
        clone_receiver(&self.recv)
    }

    /// Blocks until as many completion signals have arrived as the expected
    /// total demands.
    ///
    /// Returns immediately when nothing was ever registered. Otherwise each
    /// received signal counts one completed unit, and after every signal the
    /// expected total is re-read, so work registered after the wait began is
    /// still awaited. A disconnected channel (every handle dropped) ends the
    /// wait as a defined terminal state.
    pub fn wait(&self) {
        if self.total() == 0 {
            return;
        }
        let mut current: u64 = 0;
        loop
            decreases u64::MAX - current,
        {
            match recv_signal(&self.recv) {
                Some(_) => {
                    let (next, done) = wait_step(current, self.total());
                    current = next;
                    if done {
                        break;
                    }
                },
                None => {
                    break;
                },
            }
        }
    }
}

impl Clone for WaitGroup {
    /// Registers one unit of work and hands out a handle sharing the very
    /// same counter and channel, so that dropping it delivers one signal
    /// that any waiter on this group can observe.
    fn clone(&self) -> (r: Self)
        ensures
            r.counter() == self.counter(),
            r.sender() == self.sender(),
            r.receiver() == self.receiver(),
    {
        self.add(1);
        WaitGroup {
            total: share_counter(&self.total),
            send: clone_sender(&self.send),
            recv: clone_receiver(&self.recv),
        }
    }
}

impl Drop for WaitGroup {
    /// Relies on `flume::Sender::send`: on an unbounded channel it never
    /// blocks; it delivers one completion signal unless every receiver is
    /// already gone, which the group treats as released anyway.
    #[verifier::external_body]
    fn drop(&mut self)
        opens_invariants none
        no_unwind
    {
        let _ = self.send.send(());
    }
}

} // verus!
