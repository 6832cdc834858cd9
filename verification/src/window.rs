//! Sample Window: a bounded history of metric points for trend display.
//! When the window is full, recording a point evicts the oldest one
//! (ring-buffer discipline).

use vstd::prelude::*;

verus! {

/// What the history looks like after recording `v` into a window of capacity
/// `cap` currently holding `s`: the point is appended, and the oldest point
/// leaves if the window was full.
pub open spec fn slid(s: Seq<u64>, cap: int, v: u64) -> Seq<u64> {
    if s.len() < cap {
        s.push(v)
    } else {
        s.drop_first().push(v)
    }
}

/// A bounded history of metric points; capacity is fixed at construction.
pub struct SampleWindow {
    points: Vec<u64>,
    capacity: usize,
}

impl SampleWindow {
    /// The recorded points, oldest first.
    pub closed spec fn history(self) -> Seq<u64> {
        self.points@
    }

    /// The fixed capacity.
    pub closed spec fn cap(self) -> int {
        self.capacity as int
    }

    /// Well-formed: the history never outgrows the (positive) capacity.
    pub open spec fn wf(self) -> bool {
        self.cap() >= 1 && self.history().len() <= self.cap()
    }

    /// An empty window that will hold at most `capacity` points.
    pub fn new(capacity: usize) -> (r: SampleWindow)
        requires
            capacity >= 1,
        ensures
            r.wf(),
            r.cap() == capacity,
            r.history() == Seq::<u64>::empty(),
    {
        SampleWindow { points: Vec::new(), capacity }
    }

    /// How many points are recorded.
    pub fn len(&self) -> (r: usize)
        ensures
            r == self.history().len(),
    {
        self.points.len()
    }

    /// The point at position `i`, oldest first.
    pub fn point(&self, i: usize) -> (r: u64)
        requires
            i < self.history().len(),
        ensures
            r == self.history()[i as int],
    {
        self.points[i]
    }

    /// Records one point, evicting the oldest when the window is full.
    pub fn record(&mut self, v: u64)
        requires
            old(self).wf(),
        ensures
            final(self).wf(),
            final(self).cap() == old(self).cap(),
            final(self).history() == slid(old(self).history(), old(self).cap(), v),
    {
        if self.points.len() == self.capacity {
            self.points.remove(0);
            proof {
                assert(self.points@ =~= old(self).history().drop_first());
            }
        }
        self.points.push(v);
    }
}

} // verus!
