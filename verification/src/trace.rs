//! The trace: every point sampled since the last reset, in sampling order,
//! and the line segments that join each point to the next.
//!
//! The buffer is generic in the point type. It never inspects, reorders or
//! drops a point: its contents are exactly what was pushed since the last
//! `clear`, and repainting it means drawing `segments_of` its contents.

use vstd::prelude::*;

verus! {

/// How many line segments join the points of a polyline: one less than the
/// number of points, and none for an empty polyline.
pub open spec fn segment_count_of<P>(points: Seq<P>) -> nat {
    if points.len() == 0 {
        0
    } else {
        (points.len() - 1) as nat
    }
}

/// The line segments of a polyline: segment `i` runs from point `i` to
/// point `i + 1`.
pub open spec fn segments_of<P>(points: Seq<P>) -> Seq<(P, P)> {
    Seq::new(segment_count_of(points), |i: int| (points[i], points[i + 1]))
}

/// An append-only sequence of points that can only shrink by being cleared.
pub struct TraceBuffer<P> {
    points: Vec<P>,
}

impl<P> View for TraceBuffer<P> {
    type V = Seq<P>;

    /// The points in the order they were pushed.
    closed spec fn view(&self) -> Seq<P> {
        self.points@
    }
}

impl<P> TraceBuffer<P> {
    /// An empty trace.
    pub fn new() -> (trace: Self)
        ensures
            trace@ == Seq::<P>::empty(),
    {
        TraceBuffer { points: Vec::new() }
    }

    /// The length of a trace always fits in a machine word.
    pub proof fn lemma_len_fits(&self)
        ensures
            self@.len() <= usize::MAX,
    {
        assert(self.points@.len() == self.points.len());
    }

    /// The number of points in the trace.
    pub fn len(&self) -> (n: usize)
        ensures
            n == self@.len(),
    {
        self.points.len()
    }

    /// Whether the trace holds no point.
    pub fn is_empty(&self) -> (empty: bool)
        ensures
            empty == (self@.len() == 0),
    {
        self.points.len() == 0
    }

    /// Appends a point after all the points already in the trace.
    pub fn push(&mut self, point: P)
        ensures
            final(self)@ == old(self)@.push(point),
    {
        self.points.push(point);
    }

    /// Removes every point.
    pub fn clear(&mut self)
        ensures
            final(self)@ == Seq::<P>::empty(),
    {
        self.points.clear();
    }

    /// The points in the order they were pushed.
    pub fn as_slice(&self) -> (points: &[P])
        ensures
            points@ == self@,
    {
        self.points.as_slice()
    }

    /// The number of line segments a repaint of the trace draws.
    pub fn segment_count(&self) -> (n: usize)
        ensures
            n == segment_count_of(self@),
    {
        let len: usize = self.points.len();
        if len == 0 {
            0
        } else {
            len - 1
        }
    }
}

impl<P: Copy> TraceBuffer<P> {
    /// The `index`-th line segment of the trace, from point `index` to point
    /// `index + 1`.
    pub fn segment(&self, index: usize) -> (ends: (P, P))
        requires
            index < segment_count_of(self@),
        ensures
            ends == segments_of(self@)[index as int],
    {
        proof {
            self.lemma_len_fits();
        }
        (self.points[index], self.points[index + 1])
    }

    /// All line segments of the trace, in drawing order.
    pub fn segments(&self) -> (lines: Vec<(P, P)>)
        ensures
            lines@ == segments_of(self@),
    {
        let count: usize = self.segment_count();
        let mut lines: Vec<(P, P)> = Vec::new();
        let mut index: usize = 0;
        while index < count
            invariant
                count == segment_count_of(self@),
                index <= count,
                lines@ == segments_of(self@).subrange(0, index as int),
            decreases count - index,
        {
            let ends = self.segment(index);
            lines.push(ends);
            index = index + 1;
            assert(lines@ =~= segments_of(self@).subrange(0, index as int));
        }
        assert(lines@ =~= segments_of(self@));
        lines
    }
}

/// A polyline of `K` points has `K - 1` segments, none if it is empty, and
/// segment `i` joins point `i` to point `i + 1`; so each segment starts
/// where the one before it ends.
pub proof fn lemma_segments_join_consecutive_points<P>(points: Seq<P>)
    ensures
        points.len() == 0 ==> segments_of(points).len() == 0,
        points.len() > 0 ==> segments_of(points).len() == points.len() - 1,
        forall|i: int|
            0 <= i < segments_of(points).len() ==> #[trigger] segments_of(points)[i] == (
                points[i],
                points[i + 1],
            ),
        forall|i: int|
            0 < i < segments_of(points).len() ==> (#[trigger] segments_of(points)[i]).0
                == segments_of(points)[i - 1].1,
{
}

} // verus!
