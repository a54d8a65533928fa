//! Watermark merging for the head of a block: the operator tracks the last
//! watermark of every upstream replica and forwards a new watermark exactly
//! when the minimum over all of them strictly increases.

use vstd::prelude::*;
use crate::element::Timestamp;

verus! {

/// Whether every entry of the prefix of length `n` holds a watermark.
pub open spec fn prefix_all_seen(s: Seq<Option<Timestamp>>, n: int) -> bool {
    forall|j: int| 0 <= j < n ==> s[j] is Some
}

/// The least watermark among the first `n` entries, `i64::MAX` for an empty
/// prefix. Meaningful when the prefix is all seen.
pub open spec fn prefix_min(s: Seq<Option<Timestamp>>, n: int) -> Timestamp
    decreases n,
{
    if n <= 0 {
        i64::MAX
    } else {
        let rest = prefix_min(s, n - 1);
        let v = s[n - 1]->0;
        if v < rest {
            v
        } else {
            rest
        }
    }
}

/// The error of a watermark that moves backwards on its channel: a protocol
/// violation, fatal for the job.
#[derive(Clone, Copy, Debug, PartialEq, Eq, Structural)]
pub enum WatermarkError {
    /// The replica at this index sent a watermark below its previous one.
    Regression,
}

/// The per-replica watermark frontier of a merging operator.
pub struct WatermarkFrontier {
    /// The last watermark seen from each upstream replica, `None` until the
    /// replica has sent its first one.
    pub lasts: Vec<Option<Timestamp>>,
    /// The largest watermark forwarded downstream so far.
    pub emitted: Option<Timestamp>,
}

impl WatermarkFrontier {
    /// Whether every upstream replica has sent at least one watermark.
    pub open spec fn all_seen(self) -> bool {
        prefix_all_seen(self.lasts@, self.lasts@.len() as int)
    }

    /// The least watermark over all upstream replicas.
    pub open spec fn spec_min(self) -> Timestamp {
        prefix_min(self.lasts@, self.lasts@.len() as int)
    }

    /// The frontier is consistent: a watermark has been forwarded exactly
    /// when every replica has reported, and then it is the least reported
    /// one.
    pub open spec fn wf(self) -> bool {
        self.emitted == if self.all_seen() {
            Some(self.spec_min())
        } else {
            None::<Timestamp>
        }
    }

    /// A frontier for `num_prev` upstream replicas, none of which has sent a
    /// watermark yet.
    pub fn new(num_prev: usize) -> (r: WatermarkFrontier)
        ensures
            r.lasts@.len() == num_prev,
            forall|j: int| 0 <= j < num_prev ==> r.lasts@[j] is None,
            r.emitted is None,
            num_prev > 0 ==> r.wf(),
    {
        let mut lasts: Vec<Option<Timestamp>> = Vec::new();
        let mut i: usize = 0;
        while i < num_prev
            invariant
                i <= num_prev,
                lasts@.len() == i,
                forall|j: int| 0 <= j < i ==> lasts@[j] is None,
            decreases num_prev - i,
        {
            lasts.push(None);
            i += 1;
        }
        let r = WatermarkFrontier { lasts, emitted: None };
        proof {
            if num_prev > 0 {
                assert(r.lasts@[0] is None);
                assert(!r.all_seen());
            }
        }
        r
    }

    /// Record the watermark `ts` of upstream replica `replica`.
    ///
    /// Fails, leaving the frontier untouched, exactly when the replica's
    /// watermark moves backwards. Otherwise the entry is updated, and a
    /// watermark is forwarded exactly when after the update every replica
    /// has reported and the least reported watermark exceeds everything
    /// forwarded before; what is forwarded is that minimum. Forwarded
    /// watermarks therefore strictly increase over the life of the
    /// frontier.
    pub fn update(&mut self, replica: usize, ts: Timestamp) -> (r: Result<
        Option<Timestamp>,
        WatermarkError,
    >)
        requires
            replica < old(self).lasts@.len(),
            old(self).wf(),
        ensures
            final(self).wf(),
            final(self).lasts@.len() == old(self).lasts@.len(),
            r matches Err(e) ==> e == WatermarkError::Regression && *final(self) == *old(self)
                && (old(self).lasts@[replica as int] matches Some(prev) && ts < prev),
            r is Ok ==> (old(self).lasts@[replica as int] matches Some(prev) ==> ts >= prev)
                && final(self).lasts@ == old(self).lasts@.update(replica as int, Some(ts)),
            r matches Ok(w) ==> (w == Some(final(self).spec_min()) || w is None),
            r matches Ok(w) ==> (w matches Some(v) ==> final(self).all_seen() && v
                == final(self).spec_min() && (old(self).emitted matches Some(e) ==> v > e)
                && final(self).emitted == Some(v)),
            r matches Ok(w) ==> (w is None ==> final(self).emitted == old(self).emitted),
            (r is Ok && final(self).all_seen() && (old(self).emitted matches Some(e)
                ==> final(self).spec_min() > e))
                ==> r == Ok::<Option<Timestamp>, WatermarkError>(Some(final(self).spec_min())),
    {
        if let Some(prev) = self.lasts[replica] {
            if ts < prev {
                return Err(WatermarkError::Regression);
            }
        }
        let ghost old_lasts = self.lasts@;
        self.lasts.set(replica, Some(ts));
        proof {
            lemma_min_nondecreasing_on_raise(old_lasts, replica as int, ts);
        }
        // recompute the frontier minimum
        let n = self.lasts.len();
        let mut i: usize = 0;
        let mut min: Timestamp = i64::MAX;
        let mut all: bool = true;
        while i < n
            invariant
                n == self.lasts@.len(),
                i <= n,
                all == prefix_all_seen(self.lasts@, i as int),
                all ==> min == prefix_min(self.lasts@, i as int),
            decreases n - i,
        {
            match self.lasts[i] {
                Some(v) => {
                    if all && v < min {
                        min = v;
                    }
                },
                None => {
                    all = false;
                },
            }
            i += 1;
        }
        if all {
            let emit = match self.emitted {
                None => true,
                Some(e) => min > e,
            };
            if emit {
                self.emitted = Some(min);
                return Ok(Some(min));
            }
        }
        Ok(None)
    }
}

/// Raising one entry of the frontier, or filling an empty one, never lowers
/// the minimum of a fully seen prefix.
proof fn lemma_min_nondecreasing_on_raise(s: Seq<Option<Timestamp>>, k: int, ts: Timestamp)
    requires
        0 <= k < s.len(),
        s[k] matches Some(prev) ==> ts >= prev,
    ensures
        forall|n: int|
            0 <= n <= s.len() && prefix_all_seen(s, n) ==> prefix_min(s.update(k, Some(ts)), n)
                >= prefix_min(s, n),
    decreases s.len(),
{
    assert forall|n: int|
        0 <= n <= s.len() && prefix_all_seen(s, n) implies prefix_min(s.update(k, Some(ts)), n)
        >= prefix_min(s, n) by {
        lemma_min_nondecreasing_on_raise_upto(s, k, ts, n);
    }
}

/// The same statement for one prefix length, proved by induction on it.
proof fn lemma_min_nondecreasing_on_raise_upto(
    s: Seq<Option<Timestamp>>,
    k: int,
    ts: Timestamp,
    n: int,
)
    requires
        0 <= k < s.len(),
        s[k] matches Some(prev) ==> ts >= prev,
        0 <= n <= s.len(),
        prefix_all_seen(s, n),
    ensures
        prefix_min(s.update(k, Some(ts)), n) >= prefix_min(s, n),
    decreases n,
{
    if n > 0 {
        lemma_min_nondecreasing_on_raise_upto(s, k, ts, n - 1);
    }
}

} // verus!
