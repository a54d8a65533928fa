//! The first operator of every non-source block: it merges the batches of
//! all upstream replicas into one sequence and emits a single `End` once
//! every upstream contribution has ended. Watermarks are forwarded as they
//! arrive; the chain around the operator merges them with a
//! [`crate::watermark::WatermarkFrontier`].

use vstd::prelude::*;
use std::collections::VecDeque;
use crate::coord::Coord;
use crate::element::StreamElement;
use crate::network::NetworkReceiver;

verus! {

/// What a replica learns at setup time: its own coordinate and how many
/// upstream replicas will feed it.
#[derive(Clone, Copy, PartialEq, Eq, Debug, Structural)]
pub struct ExecutionMetadata {
    /// The coordinate of this replica.
    pub coord: Coord,
    /// The total number of upstream replicas, across all upstream blocks.
    pub num_prev: usize,
}

/// The ways pulling from upstream can fail. The stream protocol makes each
/// of them fatal for the job.
#[derive(Clone, Copy, Debug, PartialEq, Eq, Structural)]
pub enum StartError {
    /// An upstream channel closed before every `End` arrived.
    Disconnected,
    /// More `End` markers arrived than there are upstream replicas.
    UnexpectedEnd,
    /// An upstream replica sent a batch with no elements.
    EmptyMessage,
}

/// The merging operator at the head of a non-source block.
///
/// It owns one receiver fed by every upstream replica, a buffer of elements
/// already received but not yet pulled, and the count of upstream replicas
/// that have not sent their `End` yet.
#[verifier::reject_recursive_types(Out)]
pub struct StartBlock<Out> {
    /// Set once by `setup`, before the first `next`.
    pub metadata: Option<ExecutionMetadata>,
    /// The inbox all upstream replicas send to; set once by `setup`.
    pub receiver: Option<NetworkReceiver<Out>>,
    /// Elements received but not yet handed downstream, oldest first.
    pub buffer: VecDeque<StreamElement<Out>>,
    /// How many upstream replicas have not ended their stream yet.
    pub missing_ends: usize,
}

impl<Out: Clone> StartBlock<Out> {
    /// Whether `setup` has run: the operator knows its coordinate and owns
    /// its inbox.
    pub open spec fn is_set_up(self) -> bool {
        self.metadata is Some && self.receiver is Some
    }

    /// Whether the merged stream is over: every upstream replica has ended
    /// and nothing buffered is left. From this state `next` returns `End`,
    /// and only from this state.
    pub open spec fn done(self) -> bool {
        self.missing_ends == 0 && self.buffer@.len() == 0
    }

    /// A fresh operator, not yet set up.
    pub fn new() -> (r: StartBlock<Out>)
        ensures
            r.metadata is None,
            r.receiver is None,
            r.buffer@.len() == 0,
            r.missing_ends == 0,
    {
        StartBlock {
            metadata: None,
            receiver: None,
            buffer: VecDeque::new(),
            missing_ends: 0,
        }
    }

    /// Learn the replica's coordinate, take ownership of its inbox and
    /// initialize the count of pending upstream `End`s.
    pub fn setup(&mut self, metadata: ExecutionMetadata, receiver: NetworkReceiver<Out>)
        ensures
            final(self).metadata == Some(metadata),
            final(self).receiver == Some(receiver),
            final(self).missing_ends == metadata.num_prev,
            final(self).buffer@ == old(self).buffer@,
    {
        self.missing_ends = metadata.num_prev;
        self.metadata = Some(metadata);
        self.receiver = Some(receiver);
    }

    /// Pull the next element of the merged stream.
    ///
    /// Buffered elements are handed out first. An upstream `End` is never
    /// handed downstream: it decrements `missing_ends` and the pull goes on.
    /// When the buffer is empty and upstream replicas are still active, the
    /// call blocks on the inbox for the next batch. Once every upstream has
    /// ended and the buffer is drained — and only then — the operator emits
    /// its own `End`, for ever after, without touching its state again.
    pub fn next(&mut self) -> (r: Result<StreamElement<Out>, StartError>)
        requires
            old(self).is_set_up(),
        ensures
            final(self).is_set_up(),
            final(self).metadata == old(self).metadata,
            final(self).receiver == old(self).receiver,
            final(self).missing_ends <= old(self).missing_ends,
            (r matches Ok(e) && e is End) ==> final(self).done(),
            old(self).done() ==> (r matches Ok(e) && e is End) && *final(self) == *old(self),
            (r matches Err(e) && e is UnexpectedEnd) ==> final(self).missing_ends == 0,
            (old(self).buffer@.len() > 0 && !(old(self).buffer@[0] is End)) ==> r == Ok::<
                StreamElement<Out>,
                StartError,
            >(old(self).buffer@[0]) && final(self).buffer@ == old(self).buffer@.drop_first()
                && final(self).missing_ends == old(self).missing_ends,
    {
        loop
            invariant
                self.is_set_up(),
                self.metadata == old(self).metadata,
                self.receiver == old(self).receiver,
                self.missing_ends <= old(self).missing_ends,
                old(self).done() ==> *self == *old(self),
                (old(self).buffer@.len() > 0 && !(old(self).buffer@[0] is End)) ==> *self == *old(
                    self,
                ),
            decreases self.missing_ends,
        {
            if self.missing_ends == 0 && self.buffer.len() == 0 {
                // every upstream has ended and nothing is left: the merged
                // stream ends here
                return Ok(StreamElement::End);
            }
            if self.buffer.len() == 0 {
                // wait for a batch from any upstream replica
                let message = match self.receiver.as_ref().unwrap().recv() {
                    Ok(message) => message,
                    Err(_) => {
                        return Err(StartError::Disconnected);
                    },
                };
                if message.num_items() == 0 {
                    return Err(StartError::EmptyMessage);
                }
                let elements = message.elements;
                let ghost pending_before = self.missing_ends;
                let mut i: usize = 0;
                while i < elements.len()
                    invariant
                        self.is_set_up(),
                        self.metadata == old(self).metadata,
                        self.receiver == old(self).receiver,
                        self.missing_ends == pending_before,
                        self.missing_ends <= old(self).missing_ends,
                        i <= elements.len(),
                        self.buffer@.len() == i,
                    decreases elements.len() - i,
                {
                    self.buffer.push_back(elements[i].clone());
                    i += 1;
                }
            }
            // at this point at least one element is buffered
            let element = self.buffer.pop_front().unwrap();
            match element {
                StreamElement::End => {
                    if self.missing_ends == 0 {
                        // a source sent more Ends than it owns replicas
                        return Err(StartError::UnexpectedEnd);
                    }
                    self.missing_ends = self.missing_ends - 1;
                },
                other => {
                    return Ok(other);
                },
            }
        }
    }
}

} // verus!
