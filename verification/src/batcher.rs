//! The buffer at the tail of a block: it accumulates outgoing elements into
//! one message according to the block's `BatchMode` and decides when that
//! message must leave.

use vstd::prelude::*;
use crate::batch_mode::BatchMode;
use crate::coord::Coord;
use crate::element::NetworkMessage;
use crate::element::StreamElement;

verus! {

/// The outgoing buffer of an `EndBlock` towards one endpoint.
///
/// Time is the engine clock in milliseconds, handed in by the caller at
/// every operation; the batcher itself never reads a clock.
pub struct Batcher<T> {
    /// The batching policy of the block.
    pub mode: BatchMode,
    /// The replica stamped as sender of every outgoing message.
    pub coord: Coord,
    /// The elements accumulated so far, oldest first.
    pub buffer: Vec<StreamElement<T>>,
    /// When the oldest buffered element arrived; `None` exactly while the
    /// buffer is empty.
    pub oldest_at: Option<u64>,
}

impl<T> Batcher<T> {
    /// The batcher is consistent: the buffer is strictly below the batch
    /// size — a full buffer always leaves as a message at once — and the
    /// arrival mark is held exactly while something is buffered.
    pub open spec fn wf(self) -> bool {
        &&& self.mode.spec_max_batch_size() > 0
        &&& self.buffer@.len() < self.mode.spec_max_batch_size()
        &&& (self.oldest_at is Some <==> self.buffer@.len() > 0)
    }

    /// Whether, at engine time `now`, the oldest buffered element has waited
    /// as long as an adaptive policy tolerates.
    pub open spec fn deadline_reached(self, now: u64) -> bool {
        match self.mode {
            BatchMode::Adaptive(_, max_delay_ms) => match self.oldest_at {
                Some(at) => now >= at + max_delay_ms,
                None => false,
            },
            _ => false,
        }
    }

    /// When the oldest buffered element will have arrived once one more
    /// element is pushed at engine time `now`.
    pub open spec fn spec_oldest_after_push(self, now: u64) -> u64 {
        match self.oldest_at {
            Some(at) => at,
            None => now,
        }
    }

    /// Whether pushing one more element at engine time `now` leaves the
    /// batcher at or past an adaptive deadline.
    pub open spec fn push_deadline_reached(self, now: u64) -> bool {
        match self.mode {
            BatchMode::Adaptive(_, max_delay_ms) => now >= self.spec_oldest_after_push(now)
                + max_delay_ms,
            _ => false,
        }
    }

    /// An empty batcher for a block with the given policy and coordinate.
    pub fn new(mode: BatchMode, coord: Coord) -> (r: Batcher<T>)
        requires
            mode.spec_max_batch_size() > 0,
        ensures
            r.mode == mode,
            r.coord == coord,
            r.buffer@.len() == 0,
            r.oldest_at is None,
            r.wf(),
    {
        Batcher { mode, coord, buffer: Vec::new(), oldest_at: None }
    }

    /// Take everything buffered as one message, whatever the policy says;
    /// forced by `FlushBatch`, `FlushAndRestart`, a watermark, `End` and
    /// `Terminate`.
    pub fn flush(&mut self) -> (r: Option<NetworkMessage<T>>)
        requires
            old(self).wf(),
        ensures
            final(self).wf(),
            final(self).mode == old(self).mode,
            final(self).coord == old(self).coord,
            final(self).buffer@.len() == 0,
            final(self).oldest_at is None,
            old(self).buffer@.len() == 0 <==> r is None,
            r matches Some(m) ==> m.sender == old(self).coord && m.elements@ == old(self).buffer@,
    {
        if self.buffer.len() == 0 {
            return None;
        }
        let mut elements: Vec<StreamElement<T>> = Vec::new();
        core::mem::swap(&mut elements, &mut self.buffer);
        self.oldest_at = None;
        Some(NetworkMessage::new(self.coord, elements))
    }

    /// Take the buffer as one message when an adaptive deadline has been
    /// reached at engine time `now`; afterwards nothing overdue is buffered.
    pub fn flush_if_due(&mut self, now: u64) -> (r: Option<NetworkMessage<T>>)
        requires
            old(self).wf(),
        ensures
            final(self).wf(),
            final(self).mode == old(self).mode,
            final(self).coord == old(self).coord,
            !final(self).deadline_reached(now),
            r is Some <==> old(self).deadline_reached(now),
            r matches Some(m) ==> m.sender == old(self).coord && m.elements@ == old(self).buffer@
                && final(self).buffer@.len() == 0,
            r is None ==> *final(self) == *old(self),
    {
        let due = match self.mode {
            BatchMode::Adaptive(_, max_delay_ms) => match self.oldest_at {
                Some(at) => {
                    // the age test, written to avoid overflow on the sum
                    now >= at && now - at >= max_delay_ms
                },
                None => false,
            },
            _ => false,
        };
        if due {
            self.flush()
        } else {
            proof {
                assert(!old(self).deadline_reached(now));
            }
            None
        }
    }

    /// Buffer one outgoing element arriving at engine time `now`, and hand
    /// back the message the policy forces out, if any: the batch is full,
    /// or an adaptive deadline has been reached. Afterwards nothing overdue
    /// is buffered, and no message ever carries more elements than the
    /// policy's batch size.
    pub fn enqueue(&mut self, element: StreamElement<T>, now: u64) -> (r: Option<NetworkMessage<T>>)
        requires
            old(self).wf(),
        ensures
            final(self).wf(),
            final(self).mode == old(self).mode,
            final(self).coord == old(self).coord,
            !final(self).deadline_reached(now),
            r matches Some(m) ==> m.sender == old(self).coord && m.elements@ == old(
                self,
            ).buffer@.push(element) && m.elements@.len() <= old(self).mode.spec_max_batch_size()
                && final(self).buffer@.len() == 0,
            r is None ==> final(self).buffer@ == old(self).buffer@.push(element),
            r is None <==> old(self).buffer@.len() + 1 < old(self).mode.spec_max_batch_size()
                && !old(self).push_deadline_reached(now),
    {
        if self.buffer.len() == 0 {
            self.oldest_at = Some(now);
        }
        self.buffer.push(element);
        let full = self.buffer.len() >= self.mode.max_batch_size();
        let due = match self.mode {
            BatchMode::Adaptive(_, max_delay_ms) => match self.oldest_at {
                Some(at) => now >= at && now - at >= max_delay_ms,
                None => false,
            },
            _ => false,
        };
        if full || due {
            let mut elements: Vec<StreamElement<T>> = Vec::new();
            core::mem::swap(&mut elements, &mut self.buffer);
            self.oldest_at = None;
            Some(NetworkMessage::new(self.coord, elements))
        } else {
            None
        }
    }
}

} // verus!
