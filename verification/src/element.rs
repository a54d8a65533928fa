//! The tagged unit that flows through operators, and the batches of such
//! units exchanged between blocks.

use vstd::prelude::*;
use crate::coord::Coord;

verus! {

/// An event-time timestamp, in the unit the job chooses (commonly
/// milliseconds).
pub type Timestamp = i64;

/// One element of a stream: either a data record or a control marker.
///
/// Ordering obligations on a single physical channel: watermark timestamps
/// are non-decreasing, `End` appears at most once and is the last element
/// from its source, and the relative order of data records is preserved.
#[derive(Clone, Debug, PartialEq, Eq)]
pub enum StreamElement<T> {
    /// A data record.
    Item(T),
    /// A data record tagged with an event-time timestamp.
    Timestamped(T, Timestamp),
    /// A promise that no later `Timestamped` on this channel carries a
    /// timestamp less than or equal to this one.
    Watermark(Timestamp),
    /// End of a batch: forces buffered output downstream without ending the
    /// stream.
    FlushBatch,
    /// End of an iteration epoch in iterative graphs.
    FlushAndRestart,
    /// End of this upstream's contribution to the stream.
    End,
    /// Engine-wide shutdown signal.
    Terminate,
}

impl<T> StreamElement<T> {
    /// Whether this element is the `End` marker.
    pub fn is_end(&self) -> (r: bool)
        ensures
            r == (self is End),
    {
        match self {
            StreamElement::End => true,
            _ => false,
        }
    }
}

/// A batch of elements sent from one replica to a downstream inbox.
#[derive(Clone, Debug)]
pub struct NetworkMessage<T> {
    /// The replica that produced the batch.
    pub sender: Coord,
    /// The elements of the batch, in the order they were produced.
    pub elements: Vec<StreamElement<T>>,
}

impl<T> NetworkMessage<T> {
    /// Build a batch from a sender and its elements.
    pub fn new(sender: Coord, elements: Vec<StreamElement<T>>) -> (r: NetworkMessage<T>)
        ensures
            r.sender == sender,
            r.elements == elements,
    {
        NetworkMessage { sender, elements }
    }

    /// The number of elements carried by this batch.
    pub fn num_items(&self) -> (r: usize)
        ensures
            r == self.elements@.len(),
    {
        self.elements.len()
    }
}

} // verus!
