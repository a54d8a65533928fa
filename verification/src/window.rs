//! Event-time windows on a keyed stream: the windows a timestamp falls in,
//! and the accumulator of one open window.

use vstd::prelude::*;

verus! {

/// The descriptor of an event-time window family: windows
/// `[k * step, k * step + size)` for every `k >= 0`. A tumbling family has
/// `step == size`; a sliding one has `step < size`.
#[derive(Clone, Copy, Debug, PartialEq, Eq, Structural)]
pub struct EventTimeWindow {
    /// The width of every window.
    pub size: u64,
    /// The distance between the starts of two consecutive windows.
    pub step: u64,
}

impl EventTimeWindow {
    /// A meaningful descriptor: windows are not empty and consecutive ones
    /// are apart no more than one width, so that every large enough
    /// timestamp falls in some window.
    pub open spec fn wf(self) -> bool {
        0 < self.step <= self.size
    }

    /// Windows `[k * size, (k + 1) * size)`: adjacent and non-overlapping.
    pub fn tumbling(size: u64) -> (r: EventTimeWindow)
        requires
            size > 0,
        ensures
            r == (EventTimeWindow { size, step: size }),
            r.wf(),
    {
        EventTimeWindow { size, step: size }
    }

    /// Windows `[k * step, k * step + size)`: each timestamp falls in up to
    /// `size / step` of them.
    pub fn sliding(size: u64, step: u64) -> (r: EventTimeWindow)
        requires
            0 < step <= size,
        ensures
            r == (EventTimeWindow { size, step }),
            r.wf(),
    {
        EventTimeWindow { size, step }
    }

    /// Whether the window starting at `start` contains the timestamp `ts`.
    pub open spec fn spec_contains(self, start: u64, ts: u64) -> bool {
        start % self.step == 0 && start <= ts < start + self.size
    }

    /// The starts of every window the timestamp `ts` falls in, strictly
    /// ascending: exactly the multiples of `step` whose window covers `ts`.
    pub fn window_starts(&self, ts: u64) -> (r: Vec<u64>)
        requires
            self.wf(),
            ts + self.size <= u64::MAX,
        ensures
            forall|s: u64| r@.contains(s) <==> self.spec_contains(s, ts),
            forall|i: int, j: int| 0 <= i < j < r@.len() ==> r@[i] < r@[j],
    {
        let step = self.step;
        let first: u64;
        if ts < self.size {
            first = 0;
        } else {
            let q = (ts - self.size) / step;
            proof {
                assert(q * step <= ts - self.size && ts - self.size < q * step + step && (q + 1)
                    * step == q * step + step && ((q + 1) * step) % (step as int) == 0) by (nonlinear_arith)
                    requires
                        step > 0,
                        q == (ts - self.size) as u64 / step,
                        ts >= self.size,
                ;
            }
            first = (q + 1) * step;
        }
        let lastq = ts / step;
        proof {
            assert(lastq * step <= ts && ts < lastq * step + step && (lastq * step) % (step as int)
                == 0) by (nonlinear_arith)
                requires
                    step > 0,
                    lastq == ts / step,
            ;
        }
        let last: u64 = lastq * step;
        let mut r: Vec<u64> = Vec::new();
        let mut s: u64 = first;
        while s <= last
            invariant
                first <= s,
                step == self.step,
                s % step == 0,
                first % step == 0,
                s <= last + step,
                last + step <= u64::MAX,
                forall|i: int| 0 <= i < r@.len() ==> (r@[i] % step == 0 && first <= r@[i] < s),
                forall|m: u64| (m % step == 0 && first <= m && m < s) ==> r@.contains(m),
                forall|i: int, j: int| 0 <= i < j < r@.len() ==> r@[i] < r@[j],
                self.wf(),
            decreases last + step - s,
        {
            let ghost prev = r@;
            r.push(s);
            proof {
                assert forall|m: u64| (m % step == 0 && first <= m && m < s + step) implies r@
                    .contains(m) by {
                    if m < s {
                        assert(m % step == 0 && first <= m && m < s);
                        assert(prev.contains(m));
                        let i = choose|i: int| 0 <= i < prev.len() && prev[i] == m;
                        assert(r@[i] == m);
                    } else {
                        lemma_multiple_between(step, m, s);
                        assert(r@[r@.len() - 1] == m);
                    }
                }
            }
            proof {
                assert((s + step) % (step as int) == 0) by (nonlinear_arith)
                    requires
                        step > 0,
                        s % step == 0,
                ;
            }
            s += step;
        }
        proof {
            assert forall|m: u64| r@.contains(m) implies self.spec_contains(m, ts) by {
                let i = choose|i: int| 0 <= i < r@.len() && r@[i] == m;
                lemma_multiple_lt(step, m, last);
                lemma_window_membership(self.size, step, ts, first, last, m);
            }
            assert forall|m: u64| self.spec_contains(m, ts) implies r@.contains(m) by {
                lemma_window_membership(self.size, step, ts, first, last, m);
            }
        }
        r
    }
}

/// Two multiples of `step` with no other multiple strictly between them are
/// equal or apart at least `step`; here: a multiple in `[s, s + step)` is
/// `s` itself.
proof fn lemma_multiple_between(step: u64, m: u64, s: u64)
    requires
        step > 0,
        m % step == 0,
        s % step == 0,
        s <= m,
        m < s + step,
    ensures
        m == s,
{
    let k1 = m / step;
    let k2 = s / step;
    assert(m == k1 * step && s == k2 * step) by (nonlinear_arith)
        requires
            step > 0,
            m % step == 0,
            s % step == 0,
            k1 == m / step,
            k2 == s / step,
    ;
    assert(k1 == k2) by (nonlinear_arith)
        requires
            step > 0,
            m == k1 * step,
            s == k2 * step,
            s <= m,
            m < s + step,
    ;
}

/// A multiple of `step` strictly below the multiple `b + step` is at most
/// `b`.
proof fn lemma_multiple_lt(step: u64, m: u64, b: u64)
    requires
        step > 0,
        m % step == 0,
        b % step == 0,
        m < b + step,
    ensures
        m <= b,
{
    let k = m / step;
    let l = b / step;
    assert(m == k * step && b == l * step) by (nonlinear_arith)
        requires
            step > 0,
            m % step == 0,
            b % step == 0,
            k == m / step,
            l == b / step,
    ;
    assert(k <= l && k * step <= l * step) by (nonlinear_arith)
        requires
            step > 0,
            m == k * step,
            b == l * step,
            m < b + step,
    ;
}

/// A multiple of `step` lies in `[first, last]` exactly when its window of
/// width `size` covers `ts`, given that `last` is the largest multiple not
/// above `ts` and `first` the least one whose window still reaches `ts`.
proof fn lemma_window_membership(size: u64, step: u64, ts: u64, first: u64, last: u64, m: u64)
    requires
        0 < step <= size,
        ts + size <= u64::MAX,
        first % step == 0,
        last % step == 0,
        last <= ts,
        ts < last + step,
        ts < size ==> first == 0,
        ts >= size ==> ts - size < first <= ts - size + step,
        m % step == 0,
    ensures
        (first <= m && m <= last) <==> (m <= ts && ts < m + size),
{
    if m <= ts {
        lemma_multiple_lt(step, m, last);
    }
    if ts >= size && ts < m + size && m < first {
        // m would be a multiple above ts - size but below first
        assert(first >= step) by (nonlinear_arith)
            requires
                step > 0,
                first % step == 0,
                first > 0,
        ;
        assert((first - step) % (step as int) == 0) by (nonlinear_arith)
            requires
                step > 0,
                first % step == 0,
                first >= step,
        ;
        lemma_multiple_lt(step, m, (first - step) as u64);
        assert(false);
    }
}

/// Whether a sequence of accumulators stands in strictly ascending start
/// order — and so, all windows being one width, in ascending end order.
pub open spec fn windows_sorted<T>(ws: Seq<WindowAccumulator<T>>) -> bool {
    forall|i: int, j: int| 0 <= i < j < ws.len() ==> ws[i].start < ws[j].start
}

/// Put one more open window in its place among the sorted open windows of a
/// key; no window with its start may be open already.
pub fn insert_window<T>(windows: &mut Vec<WindowAccumulator<T>>, acc: WindowAccumulator<T>)
    requires
        windows_sorted(old(windows)@),
        forall|i: int| 0 <= i < old(windows)@.len() ==> old(windows)@[i].start != acc.start,
    ensures
        windows_sorted(final(windows)@),
        final(windows)@.len() == old(windows)@.len() + 1,
        final(windows)@.to_multiset() == old(windows)@.to_multiset().insert(acc),
        exists|i: int|
            0 <= i <= old(windows)@.len() && final(windows)@ == old(windows)@.insert(i, acc),
{
    let ghost prev = windows@;
    let mut i: usize = 0;
    while i < windows.len() && windows[i].start < acc.start
        invariant
            i <= windows@.len(),
            windows@ == prev,
            forall|j: int| 0 <= j < i ==> windows@[j].start < acc.start,
        decreases windows@.len() - i,
    {
        i += 1;
    }
    proof {
        // everything at or after the insertion point starts later
        assert forall|j: int| i <= j < prev.len() implies prev[j].start > acc.start by {
            if j > i {
                assert(prev[i as int].start < prev[j].start);
            }
        }
        vstd::seq_lib::to_multiset_insert(prev, i as int, acc);
    }
    windows.insert(i, acc);
    proof {
        assert(windows@ == prev.insert(i as int, acc));
    }
}

/// Split the open windows of a key at the watermark `w`: every window whose
/// end is at or below `w` leaves, in ascending end order — they stand at
/// the front — and the rest stay open, in order.
pub fn close_ready<T>(windows: &mut Vec<WindowAccumulator<T>>, size: u64, w: u64) -> (r: Vec<
    WindowAccumulator<T>,
>)
    requires
        windows_sorted(old(windows)@),
        forall|i: int| 0 <= i < old(windows)@.len() ==> old(windows)@[i].size == size,
    ensures
        windows_sorted(final(windows)@),
        r@ == old(windows)@.take(r@.len() as int),
        final(windows)@ == old(windows)@.skip(r@.len() as int),
        forall|i: int| 0 <= i < r@.len() ==> r@[i].start + size <= w,
        forall|i: int| 0 <= i < final(windows)@.len() ==> final(windows)@[i].start + size > w,
{
    let ghost prev = windows@;
    let mut r: Vec<WindowAccumulator<T>> = Vec::new();
    loop
        invariant
            prev == old(windows)@,
            r@.len() <= prev.len(),
            r@ == prev.take(r@.len() as int),
            windows@ == prev.skip(r@.len() as int),
            windows_sorted(windows@),
            forall|i: int| 0 <= i < windows@.len() ==> windows@[i].size == size,
            forall|i: int| 0 <= i < r@.len() ==> r@[i].start + size <= w,
        decreases windows@.len(),
    {
        if windows.len() == 0 {
            return r;
        }
        let first_start = windows[0].start;
        if first_start <= u64::MAX - size && first_start + size <= w {
            let ghost n = r@.len() as int;
            let acc = windows.remove(0);
            r.push(acc);
            proof {
                assert(acc == prev[n]);
                assert(r@ =~= prev.take(n + 1));
                assert(windows@ =~= prev.skip(n + 1));
            }
        } else {
            proof {
                // the first window stays, and later ones start even higher
                assert forall|i: int| 0 <= i < windows@.len() implies windows@[i].start + size
                    > w by {
                    if i > 0 {
                        assert(windows@[0].start < windows@[i].start);
                    }
                }
            }
            return r;
        }
    }
}

/// The accumulator of one open window of one key: the elements whose
/// timestamps fell in the window, in arrival order.
pub struct WindowAccumulator<T> {
    /// The start of the window.
    pub start: u64,
    /// The width of the window; its end is `start + size`.
    pub size: u64,
    /// The elements accumulated so far.
    pub elements: Vec<T>,
    /// The accumulated elements with their timestamps, for the record.
    pub inputs: Ghost<Seq<(T, u64)>>,
}

impl<T> WindowAccumulator<T> {
    /// The accumulator holds exactly the elements handed to it, in order,
    /// and every one of them carried a timestamp inside the window.
    pub open spec fn wf(self) -> bool {
        &&& self.size > 0
        &&& self.start + self.size <= u64::MAX
        &&& self.elements@.len() == self.inputs@.len()
        &&& forall|i: int|
            0 <= i < self.inputs@.len() ==> self.elements@[i] == self.inputs@[i].0
                && self.start <= self.inputs@[i].1 < self.start + self.size
    }

    /// An empty accumulator for the window `[start, start + size)`.
    pub fn new(start: u64, size: u64) -> (r: WindowAccumulator<T>)
        requires
            size > 0,
            start + size <= u64::MAX,
        ensures
            r.start == start,
            r.size == size,
            r.elements@.len() == 0,
            r.inputs@.len() == 0,
            r.wf(),
    {
        WindowAccumulator { start, size, elements: Vec::new(), inputs: Ghost(Seq::empty()) }
    }

    /// Accumulate one element whose timestamp falls in the window.
    pub fn add(&mut self, element: T, ts: u64)
        requires
            old(self).wf(),
            old(self).start <= ts < old(self).start + old(self).size,
        ensures
            final(self).wf(),
            final(self).start == old(self).start,
            final(self).size == old(self).size,
            final(self).inputs@ == old(self).inputs@.push((element, ts)),
            final(self).elements@ == old(self).elements@.push(element),
    {
        self.elements.push(element);
        proof {
            self.inputs@ = self.inputs@.push((element, ts));
        }
    }

    /// Close the window: its result is stamped with the window's end, and
    /// its elements are exactly those accumulated — every input whose
    /// timestamp fell in `[start, start + size)` — in arrival order.
    pub fn close(self) -> (r: (u64, Vec<T>))
        requires
            self.wf(),
        ensures
            r.0 == self.start + self.size,
            r.1@.len() == self.inputs@.len(),
            forall|i: int| 0 <= i < self.inputs@.len() ==> r.1@[i] == self.inputs@[i].0,
    {
        (self.start + self.size, self.elements)
    }
}

} // verus!
