//! Bounded multi-producer single-consumer channels with blocking, timed and
//! non-blocking receives and a two-way select.
//!
//! The queues themselves come from the `flume` crate; this module wraps its
//! endpoints in the engine's own types and error enums. What a receive hands
//! back depends on what other threads sent, so the wrappers state only what
//! holds of every outcome.

use vstd::prelude::*;
use core::time::Duration;

verus! {

/// The sending half of a bounded channel. Cloneable: every upstream replica
/// holds its own handle to the same queue.
#[derive(Clone)]
#[verifier::reject_recursive_types(T)]
pub struct ChannelSender<T> {
    inner: flume::Sender<T>,
}

/// The receiving half of a bounded channel, owned by a single replica.
#[verifier::reject_recursive_types(T)]
pub struct ChannelReceiver<T> {
    inner: flume::Receiver<T>,
}

/// The error of a failed send: every receiver was dropped. Carries the
/// message that could not be delivered.
#[derive(Debug)]
pub struct SendError<T>(pub T);

/// The error of a blocking receive.
#[derive(Clone, Copy, Debug, PartialEq, Eq, Structural)]
pub enum RecvError {
    /// Every sender was dropped and the queue is drained.
    Disconnected,
}

/// The error of a non-blocking receive.
#[derive(Clone, Copy, Debug, PartialEq, Eq, Structural)]
pub enum TryRecvError {
    /// No message was waiting.
    Empty,
    /// Every sender was dropped and the queue is drained.
    Disconnected,
}

/// The error of a timed receive.
#[derive(Clone, Copy, Debug, PartialEq, Eq, Structural)]
pub enum RecvTimeoutError {
    /// No message arrived within the timeout.
    Timeout,
    /// Every sender was dropped and the queue is drained.
    Disconnected,
}

/// The outcome of waiting on two receivers at once: whichever side was ready
/// first, with the result of its receive.
pub enum SelectResult<A, B> {
    /// The first receiver was ready.
    A(Result<A, RecvError>),
    /// The second receiver was ready.
    B(Result<B, RecvError>),
}

/// Build a bounded channel of the given capacity.
///
/// Relies on `flume::bounded`: a FIFO queue holding at most `cap` messages;
/// senders block while it is full.
#[verifier::external_body]
pub fn bounded<T>(cap: usize) -> (ChannelSender<T>, ChannelReceiver<T>) {
    let (tx, rx) = flume::bounded(cap);
    (ChannelSender { inner: tx }, ChannelReceiver { inner: rx })
}

impl<T> ChannelSender<T> {
    /// Send a message, blocking while the channel is full.
    ///
    /// Relies on `flume::Sender::send`: fails only when every receiver was
    /// dropped, and then hands the unsent message back inside the error.
    #[verifier::external_body]
    pub fn send(&self, msg: T) -> (r: Result<(), SendError<T>>)
        ensures
            r matches Err(e) ==> e.0 == msg,
    {
        self.inner.send(msg).map_err(|e| SendError(e.0))
    }
}

impl<T> ChannelReceiver<T> {
    /// Receive a message, blocking until one arrives.
    ///
    /// Relies on `flume::Receiver::recv`: fails only when every sender was
    /// dropped and the queue is drained.
    #[verifier::external_body]
    pub fn recv(&self) -> Result<T, RecvError> {
        self.inner.recv().map_err(|_| RecvError::Disconnected)
    }

    /// Receive a message without blocking.
    ///
    /// Relies on `flume::Receiver::try_recv`: fails with `Empty` when no
    /// message is waiting, with `Disconnected` when every sender was dropped
    /// and the queue is drained.
    #[verifier::external_body]
    pub fn try_recv(&self) -> Result<T, TryRecvError> {
        self.inner.try_recv().map_err(|e| match e {
            flume::TryRecvError::Empty => TryRecvError::Empty,
            flume::TryRecvError::Disconnected => TryRecvError::Disconnected,
        })
    }

    /// Receive a message, blocking up to `timeout`.
    ///
    /// Relies on `flume::Receiver::recv_timeout`: fails with `Timeout` when
    /// the timeout elapses first, with `Disconnected` when every sender was
    /// dropped and the queue is drained.
    #[verifier::external_body]
    pub fn recv_timeout(&self, timeout: Duration) -> Result<T, RecvTimeoutError> {
        self.inner.recv_timeout(timeout).map_err(|e| match e {
            flume::RecvTimeoutError::Timeout => RecvTimeoutError::Timeout,
            flume::RecvTimeoutError::Disconnected => RecvTimeoutError::Disconnected,
        })
    }

    /// Wait on this receiver and another one; the first message of the two
    /// is returned. When both are ready the winner is unspecified, with
    /// eventual fairness.
    ///
    /// Relies on `flume::Selector`: `wait` returns the mapped outcome of
    /// whichever receive completed first.
    #[verifier::external_body]
    pub fn select<U>(&self, other: &ChannelReceiver<U>) -> SelectResult<T, U> {
        flume::Selector::new()
            .recv(&self.inner, |r| SelectResult::A(r.map_err(|_| RecvError::Disconnected)))
            .recv(&other.inner, |r| SelectResult::B(r.map_err(|_| RecvError::Disconnected)))
            .wait()
    }

    /// Same as `select`, waiting at most `timeout`.
    ///
    /// Relies on `flume::Selector::wait_timeout`: fails with `Timeout` when
    /// neither receive completed within the timeout.
    #[verifier::external_body]
    pub fn select_timeout<U>(
        &self,
        other: &ChannelReceiver<U>,
        timeout: Duration,
    ) -> Result<SelectResult<T, U>, RecvTimeoutError> {
        flume::Selector::new()
            .recv(&self.inner, |r| SelectResult::A(r.map_err(|_| RecvError::Disconnected)))
            .recv(&other.inner, |r| SelectResult::B(r.map_err(|_| RecvError::Disconnected)))
            .wait_timeout(timeout)
            .map_err(|_| RecvTimeoutError::Timeout)
    }
}

} // verus!
