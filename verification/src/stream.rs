//! The handle a user program builds a job from: a context owning the runtime
//! configuration, and streams whose blocks carry the operators and the
//! batching policy of the edges leaving them.

use vstd::prelude::*;
use core::marker::PhantomData;
use crate::batch_mode::BatchMode;
use crate::config::RuntimeConfig;
use crate::coord::BlockId;
use crate::element::StreamElement;

verus! {

/// The pull-based interface of every operator of a chain.
pub trait Operator<Out> {
    /// The next element of this operator's output stream.
    fn next(&mut self) -> StreamElement<Out>;
}

/// An in-memory operator that replays a fixed list of elements and then
/// ends; a source for examples and tests.
pub struct FakeOperator<T> {
    /// The elements still to be handed out, in order.
    pub elements: Vec<StreamElement<T>>,
    /// How many elements were handed out already.
    pub pos: usize,
}

impl<T> FakeOperator<T> {
    /// A source that ends at once.
    pub fn empty() -> (r: FakeOperator<T>)
        ensures
            r.elements@.len() == 0,
            r.pos == 0,
    {
        FakeOperator { elements: Vec::new(), pos: 0 }
    }

    /// A source that replays `elements` and then ends.
    pub fn new(elements: Vec<StreamElement<T>>) -> (r: FakeOperator<T>)
        ensures
            r.elements == elements,
            r.pos == 0,
    {
        FakeOperator { elements, pos: 0 }
    }
}

impl<T: Clone> Operator<T> for FakeOperator<T> {
    fn next(&mut self) -> StreamElement<T> {
        if self.pos < self.elements.len() {
            let element = self.elements[self.pos].clone();
            self.pos += 1;
            element
        } else {
            StreamElement::End
        }
    }
}

/// One block of the job graph under construction: a linear chain of
/// operators, and the batching policy of the messages it sends downstream.
pub struct Block<Out, Op> {
    /// The identifier of this block, unique within the job.
    pub id: BlockId,
    /// How the block batches its outgoing elements.
    pub batch_mode: BatchMode,
    /// The tail of the block's operator chain.
    pub operator: Op,
    /// The element type the chain produces.
    pub out: PhantomData<Out>,
}

/// A stream under construction, ending in the block `block`.
pub struct Stream<Out, Op> {
    /// The block the next operator would be appended to.
    pub block: Block<Out, Op>,
}

/// The keying stage a `GroupBy` edge begins with: it carries the upstream
/// chain and the function that extracts the key the edge routes by.
pub struct KeyBy<Out, Key, Op, F> {
    /// The upstream operator chain.
    pub prev: Op,
    /// The function from element to routing key.
    pub keyer: F,
    /// The element and key types of the stage.
    pub types: PhantomData<(Out, Key)>,
}

/// A stream whose elements are grouped by a key, built by `group_by`.
pub struct KeyedStream<Out, Key, Op, F>(pub Stream<Out, KeyBy<Out, Key, Op, F>>);

/// The owner of a job under construction: the runtime configuration and the
/// source of fresh block identifiers.
pub struct StreamContext {
    /// The runtime this job will execute on.
    pub config: RuntimeConfig,
}

impl StreamContext {
    /// A context for the given runtime.
    pub fn new(config: RuntimeConfig) -> (r: StreamContext)
        ensures
            r.config == config,
    {
        StreamContext { config }
    }

    /// Begin a stream from a source operator: its block gets the first
    /// identifier and the default batch mode.
    pub fn stream<Out, Op: Operator<Out>>(&self, source: Op) -> (r: Stream<Out, Op>)
        ensures
            r.block.id == 0,
            r.block.operator == source,
            r.block.batch_mode == BatchMode::Adaptive(
                crate::batch_mode::DEFAULT_BATCH_SIZE,
                crate::batch_mode::DEFAULT_MAX_DELAY_MS,
            ),
    {
        Stream {
            block: Block {
                id: 0,
                batch_mode: BatchMode::default(),
                operator: source,
                out: PhantomData,
            },
        }
    }
}

impl<Out, Op> Stream<Out, Op> {
    /// Set the batching policy of the current block's outgoing edges.
    pub fn batch_mode(self, batch_mode: BatchMode) -> (r: Stream<Out, Op>)
        ensures
            r.block.id == self.block.id,
            r.block.batch_mode == batch_mode,
            r.block.operator == self.block.operator,
    {
        Stream {
            block: Block {
                id: self.block.id,
                batch_mode,
                operator: self.block.operator,
                out: PhantomData,
            },
        }
    }

    /// Split the stream at a `GroupBy` edge: elements are routed by the key
    /// `keyer` extracts, and the new block keeps the batching policy of the
    /// one before it.
    pub fn group_by<Key, F: Fn(&Out) -> Key>(self, keyer: F) -> (r: KeyedStream<
        Out,
        Key,
        Op,
        F,
    >)
        requires
            self.block.id < BlockId::MAX,
        ensures
            r.0.block.id == self.block.id + 1,
            r.0.block.batch_mode == self.block.batch_mode,
            r.0.block.operator.prev == self.block.operator,
            r.0.block.operator.keyer == keyer,
    {
        KeyedStream(
            Stream {
                block: Block {
                    id: self.block.id + 1,
                    batch_mode: self.block.batch_mode,
                    operator: KeyBy { prev: self.block.operator, keyer, types: PhantomData },
                    out: PhantomData,
                },
            },
        )
    }
}

} // verus!
