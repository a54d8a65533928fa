//! How many elements an `EndBlock` accumulates into one message before it
//! sends the batch downstream.

use vstd::prelude::*;

verus! {

/// The batching policy of a block's outgoing messages. Delays are engine
/// time in milliseconds.
#[derive(Clone, Copy, Debug, PartialEq, Eq, Structural)]
pub enum BatchMode {
    /// Accumulate up to the given number of elements before sending.
    Fixed(usize),
    /// Accumulate up to the given number of elements, but never hold an
    /// element back longer than the given delay, in milliseconds, after it
    /// was buffered.
    Adaptive(usize, u64),
    /// Send every element in a message of its own.
    Single,
}

/// The default upper bound on the elements of one message.
pub const DEFAULT_BATCH_SIZE: usize = 1024;

/// The default upper bound, in milliseconds, on how long an element may sit
/// in a buffer.
pub const DEFAULT_MAX_DELAY_MS: u64 = 50;

impl BatchMode {
    /// A batch mode that accumulates exactly `size` elements per message.
    pub fn fixed(size: usize) -> (r: BatchMode)
        requires
            size > 0,
        ensures
            r == BatchMode::Fixed(size),
    {
        BatchMode::Fixed(size)
    }

    /// A batch mode that accumulates up to `size` elements per message and
    /// flushes any buffered element at most `max_delay_ms` milliseconds
    /// after its arrival.
    pub fn adaptive(size: usize, max_delay_ms: u64) -> (r: BatchMode)
        requires
            size > 0,
        ensures
            r == BatchMode::Adaptive(size, max_delay_ms),
    {
        BatchMode::Adaptive(size, max_delay_ms)
    }

    /// A batch mode that sends one element per message.
    pub fn single() -> (r: BatchMode)
        ensures
            r == BatchMode::Single,
    {
        BatchMode::Single
    }

    /// The largest number of elements a message produced under this mode may
    /// carry.
    pub open spec fn spec_max_batch_size(self) -> usize {
        match self {
            BatchMode::Fixed(size) => size,
            BatchMode::Adaptive(size, _) => size,
            BatchMode::Single => 1,
        }
    }

    /// The largest number of elements a message produced under this mode may
    /// carry.
    pub fn max_batch_size(&self) -> (r: usize)
        ensures
            r == self.spec_max_batch_size(),
    {
        match self {
            BatchMode::Fixed(size) => *size,
            BatchMode::Adaptive(size, _) => *size,
            BatchMode::Single => 1,
        }
    }
}

impl Default for BatchMode {
    /// The default policy: adaptive batches of up to `DEFAULT_BATCH_SIZE`
    /// elements, held back at most `DEFAULT_MAX_DELAY_MS` milliseconds.
    fn default() -> (r: BatchMode)
        ensures
            r == BatchMode::Adaptive(DEFAULT_BATCH_SIZE, DEFAULT_MAX_DELAY_MS),
    {
        BatchMode::Adaptive(DEFAULT_BATCH_SIZE, DEFAULT_MAX_DELAY_MS)
    }
}

} // verus!
