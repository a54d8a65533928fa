//! The connection between two replicas: a sending handle that routes either
//! to an in-memory queue or to the remote multiplexer, and the receiving end
//! that owns the bounded queue of incoming batches.

use vstd::prelude::*;
use core::time::Duration;
use crate::channel::ChannelReceiver;
use crate::channel::ChannelSender;
use crate::channel::RecvError;
use crate::channel::RecvTimeoutError;
use crate::channel::SelectResult;
use crate::channel::SendError;
use crate::channel::TryRecvError;
use crate::channel::bounded;
use crate::coord::ReceiverEndpoint;
use crate::element::NetworkMessage;

verus! {

/// The capacity, in messages, of every queue between two replicas.
pub const CHANNEL_CAPACITY: usize = 64;

/// The error of a failed network send: the peer owning the endpoint is gone.
#[derive(Clone, Copy, Debug, PartialEq, Eq, Structural)]
pub enum NetworkSendError {
    /// The receiving end of this endpoint was dropped or its host
    /// disconnected.
    Disconnected(ReceiverEndpoint),
}

/// The receiving end of a connection between two replicas.
///
/// It owns the bounded queue of incoming batches. For a local edge the
/// upstream sender writes to the queue directly; for a remote edge the
/// multiplexer's receiver task pushes every frame addressed to this
/// endpoint.
#[verifier::reject_recursive_types(In)]
pub struct NetworkReceiver<In> {
    /// The endpoint this receiver answers for.
    pub receiver_endpoint: ReceiverEndpoint,
    /// The queue the batches arrive on.
    pub receiver: ChannelReceiver<NetworkMessage<In>>,
}

impl<In> NetworkReceiver<In> {
    /// Wrap the receiving half of a queue as the inbox of `receiver_endpoint`.
    pub fn new(
        receiver_endpoint: ReceiverEndpoint,
        receiver: ChannelReceiver<NetworkMessage<In>>,
    ) -> (r: NetworkReceiver<In>)
        ensures
            r.receiver_endpoint == receiver_endpoint,
    {
        NetworkReceiver { receiver_endpoint, receiver }
    }

    /// Receive a batch from any upstream sender, blocking until one arrives;
    /// fails only when every sender was dropped.
    pub fn recv(&self) -> Result<NetworkMessage<In>, RecvError> {
        self.receiver.recv()
    }

    /// Receive a batch from any upstream sender without blocking.
    pub fn try_recv(&self) -> Result<NetworkMessage<In>, TryRecvError> {
        self.receiver.try_recv()
    }

    /// Receive a batch from any upstream sender, blocking up to `timeout`.
    pub fn recv_timeout(&self, timeout: Duration) -> Result<NetworkMessage<In>, RecvTimeoutError> {
        self.receiver.recv_timeout(timeout)
    }

    /// Receive the first batch ready on this receiver or on `other`. When
    /// both are ready the winner is unspecified, with eventual fairness.
    pub fn select<In2>(
        &self,
        other: &NetworkReceiver<In2>,
    ) -> SelectResult<NetworkMessage<In>, NetworkMessage<In2>> {
        self.receiver.select(&other.receiver)
    }

    /// Same as `select`, waiting at most `timeout`.
    pub fn select_timeout<In2>(
        &self,
        other: &NetworkReceiver<In2>,
        timeout: Duration,
    ) -> Result<SelectResult<NetworkMessage<In>, NetworkMessage<In2>>, RecvTimeoutError> {
        self.receiver.select_timeout(&other.receiver, timeout)
    }
}

/// The handle through which a replica hands outgoing batches to the remote
/// multiplexer of its host pair.
///
/// Batches are queued as (endpoint, batch) pairs on a fan-in channel; a
/// background task of the embedding runtime serializes them, in order, onto
/// the single TCP link of the host pair.
#[verifier::reject_recursive_types(Out)]
#[derive(Clone)]
pub struct MultiplexingSender<Out> {
    sender: ChannelSender<(ReceiverEndpoint, NetworkMessage<Out>)>,
}

impl<Out> MultiplexingSender<Out> {
    /// Wrap the sending half of the multiplexer's fan-in queue.
    pub fn new(sender: ChannelSender<(ReceiverEndpoint, NetworkMessage<Out>)>) -> MultiplexingSender<Out> {
        MultiplexingSender { sender }
    }

    /// Queue a batch for the given endpoint; fails only when the multiplexer
    /// is gone, handing the undelivered pair back.
    pub fn send(
        &self,
        destination: ReceiverEndpoint,
        message: NetworkMessage<Out>,
    ) -> (r: Result<(), SendError<(ReceiverEndpoint, NetworkMessage<Out>)>>)
        ensures
            r matches Err(e) ==> e.0.0 == destination,
    {
        self.sender.send((destination, message))
    }
}

/// The generic sender that delivers a batch either locally or remotely.
#[verifier::reject_recursive_types(Out)]
#[derive(Clone)]
pub enum NetworkSenderImpl<Out> {
    /// The edge is local: write straight into the receiver's queue.
    Local(ChannelSender<NetworkMessage<Out>>),
    /// The edge is remote: hand the batch to the multiplexer.
    Remote(MultiplexingSender<Out>),
}

/// The sending part of a connection between two replicas, addressed to one
/// receiver endpoint.
#[verifier::reject_recursive_types(Out)]
#[derive(Clone)]
pub struct NetworkSender<Out> {
    /// The endpoint of the recipient.
    pub receiver_endpoint: ReceiverEndpoint,
    /// Where the batches go: a local queue or the multiplexer.
    pub sender: NetworkSenderImpl<Out>,
}

impl<Out> NetworkSender<Out> {
    /// Whether this sender writes to a local in-memory queue.
    pub open spec fn is_local(&self) -> bool {
        self.sender is Local
    }

    /// Build a sender that writes straight into the recipient's queue.
    pub fn local(
        receiver_endpoint: ReceiverEndpoint,
        sender: ChannelSender<NetworkMessage<Out>>,
    ) -> (r: NetworkSender<Out>)
        ensures
            r.receiver_endpoint == receiver_endpoint,
            r.is_local(),
    {
        NetworkSender { receiver_endpoint, sender: NetworkSenderImpl::Local(sender) }
    }

    /// Build a sender that hands batches to the remote multiplexer.
    pub fn remote(
        receiver_endpoint: ReceiverEndpoint,
        sender: MultiplexingSender<Out>,
    ) -> (r: NetworkSender<Out>)
        ensures
            r.receiver_endpoint == receiver_endpoint,
            !r.is_local(),
    {
        NetworkSender { receiver_endpoint, sender: NetworkSenderImpl::Remote(sender) }
    }

    /// Send a batch to the recipient, blocking while its queue is full.
    ///
    /// Whatever the route, a failure means the recipient is gone, and the
    /// error names exactly this sender's endpoint.
    pub fn send(&self, message: NetworkMessage<Out>) -> (r: Result<(), NetworkSendError>)
        ensures
            r matches Err(e) ==> e == NetworkSendError::Disconnected(self.receiver_endpoint),
    {
        match &self.sender {
            NetworkSenderImpl::Local(sender) => match sender.send(message) {
                Ok(()) => Ok(()),
                Err(_) => Err(NetworkSendError::Disconnected(self.receiver_endpoint)),
            },
            NetworkSenderImpl::Remote(sender) => match sender.send(self.receiver_endpoint, message) {
                Ok(()) => Ok(()),
                Err(e) => Err(NetworkSendError::Disconnected(e.0.0)),
            },
        }
    }

    /// The raw queue handle, when the edge is local.
    pub fn inner(&self) -> (r: Option<&ChannelSender<NetworkMessage<Out>>>)
        ensures
            r is Some <==> self.is_local(),
    {
        match &self.sender {
            NetworkSenderImpl::Local(inner) => Some(inner),
            NetworkSenderImpl::Remote(_) => None,
        }
    }
}

/// Build the two ends of a local edge: a sender and the receiver it feeds,
/// both addressed by the same endpoint, over a queue of
/// `CHANNEL_CAPACITY` messages.
pub fn local_channel<T>(
    receiver_endpoint: ReceiverEndpoint,
) -> (r: (NetworkSender<T>, NetworkReceiver<T>))
    ensures
        r.0.receiver_endpoint == receiver_endpoint,
        r.0.is_local(),
        r.1.receiver_endpoint == receiver_endpoint,
{
    let (tx, rx) = bounded(CHANNEL_CAPACITY);
    (
        NetworkSender::local(receiver_endpoint, tx),
        NetworkReceiver::new(receiver_endpoint, rx),
    )
}

} // verus!
