//! Recorded flight paths.
//!
//! A trail is kept outside its boid on purpose: the whole flock is copied once
//! per frame to give the steering rules a stable snapshot, so growing a boid
//! with a position history would make that snapshot expensive. The simulation
//! instead owns one trail per boid at the same index.
//!
//! A trail is generic over the type of a recorded position; the history logic
//! does not look inside positions.

use std::collections::VecDeque;

use vstd::prelude::*;

verus! {

/// Fewest points that can describe a drawable path.
///
/// One point is a position with nothing to connect it to.
pub const MIN_DRAWABLE_POINTS: usize = 2;

/// The history after `position` is appended to `points` and the oldest points
/// beyond `trail_length` are dropped.
pub open spec fn recorded<P>(points: Seq<P>, position: P, trail_length: nat) -> Seq<P> {
    let grown = points.push(position);
    if grown.len() > trail_length {
        grown.skip(grown.len() - trail_length)
    } else {
        grown
    }
}

/// Number of line segments joining consecutive points of a history of
/// `len` points.
pub open spec fn segment_count(len: nat) -> nat {
    if len >= 1 {
        (len - 1) as nat
    } else {
        0
    }
}

/// The recent positions of a single boid.
pub struct Trail<P> {
    /// Past positions, oldest first.
    ///
    /// A deque keeps both ends cheap: new positions are pushed to the back and
    /// expired ones leave from the front.
    points: VecDeque<P>,
}

impl<P> View for Trail<P> {
    type V = Seq<P>;

    /// The recorded positions, oldest first.
    closed spec fn view(&self) -> Seq<P> {
        self.points@
    }
}

impl<P> Trail<P> {
    /// Creates a trail with no recorded history.
    pub fn new() -> (trail: Trail<P>)
        ensures
            trail@ == Seq::<P>::empty(),
    {
        Trail { points: VecDeque::new() }
    }

    /// Number of recorded positions.
    pub fn len(&self) -> (n: usize)
        ensures
            n == self@.len(),
    {
        self.points.len()
    }

    /// Whether the trail has enough points to be drawn as a path.
    pub fn is_drawable(&self) -> (r: bool)
        ensures
            r == (self@.len() >= MIN_DRAWABLE_POINTS),
    {
        self.points.len() >= MIN_DRAWABLE_POINTS
    }

    /// Appends `position` and drops points beyond `trail_length`.
    ///
    /// Shortening the trail length at runtime can leave more points stored
    /// than are wanted, so the excess is discarded here rather than only one
    /// point per call.
    pub fn record(&mut self, position: P, trail_length: usize)
        ensures
            final(self)@ == recorded(old(self)@, position, trail_length as nat),
            final(self)@.len() == if old(self)@.len() + 1 <= trail_length {
                old(self)@.len() + 1
            } else {
                trail_length as nat
            },
            trail_length > 0 ==> final(self)@.last() == position,
            forall|i: int|
                0 <= i < final(self)@.len() - 1 ==> #[trigger] final(self)@[i] == old(self)@[old(
                    self,
                )@.len() + 1 - final(self)@.len() + i],
    {
        proof {
            lemma_record_keeps_most_recent(self.points@, position, trail_length as nat);
        }
        let ghost grown = self.points@.push(position);
        self.points.push_back(position);
        while self.points.len() > trail_length
            invariant
                self.points@.len() <= grown.len(),
                self.points@ == grown.skip(grown.len() - self.points@.len()),
                self.points@.len() >= trail_length || self.points@.len() == grown.len(),
            decreases self.points@.len(),
        {
            self.points.pop_front();
            assert(self.points@ =~= grown.skip(grown.len() - self.points@.len()));
        }
    }

    /// Forgets all recorded history.
    pub fn clear(&mut self)
        ensures
            final(self)@ == Seq::<P>::empty(),
    {
        self.points.clear();
    }

    /// The segments of the path, oldest first: each joins a recorded point to
    /// the next one.
    ///
    /// Segment `i` runs from point `i` to point `i + 1`, so the last segment
    /// ends at the newest point. A trail of fewer than two points has none.
    pub fn segments(&self) -> (segs: Vec<(P, P)>)
        where P: Copy,
        ensures
            segs@.len() == segment_count(self@.len()),
            forall|i: int|
                0 <= i < segs@.len() ==> #[trigger] segs@[i] == (self@[i], self@[i + 1]),
            self@.len() == 0 ==> segs@.len() == 0,
            self@.len() >= 1 ==> segs@.len() + 1 == self@.len(),
            self@.len() >= 2 ==> segs@[0].0 == self@[0] && segs@.last().1 == self@.last(),
    {
        let mut segs: Vec<(P, P)> = Vec::new();
        let n: usize = self.points.len();
        let mut i: usize = 1;
        while i < n
            invariant
                n == self@.len(),
                1 <= i,
                i <= n || i == 1,
                segs@.len() == i - 1,
                forall|j: int| 0 <= j < segs@.len() ==> #[trigger] segs@[j] == (self@[j], self@[j + 1]),
            decreases n - i,
        {
            let from: P = self.points[i - 1];
            let to: P = self.points[i];
            segs.push((from, to));
            i = i + 1;
        }
        segs
    }
}

/// The segments of a path join all of its points: a path of `n >= 1` points
/// has exactly `n - 1` segments, the first starting at the oldest point and
/// the last ending at the newest one, and every point is the end of a segment
/// or the start of one.
pub proof fn lemma_segments_join_all_points<P>(points: Seq<P>, segs: Seq<(P, P)>)
    requires
        segs.len() == segment_count(points.len()),
        forall|i: int| 0 <= i < segs.len() ==> #[trigger] segs[i] == (points[i], points[i + 1]),
    ensures
        points.len() >= 1 ==> segs.len() + 1 == points.len(),
        points.len() <= 1 ==> segs.len() == 0,
        points.len() >= 2 ==> segs[0].0 == points[0] && segs.last().1 == points.last(),
        forall|k: int|
            0 <= k < points.len() && points.len() >= 2 ==> (k < segs.len() && #[trigger] points[k]
                == segs[k].0) || (k >= 1 && points[k] == segs[k - 1].1),
{
    assert forall|k: int|
        0 <= k < points.len() && points.len() >= 2 implies (k < segs.len() && #[trigger] points[k]
            == segs[k].0) || (k >= 1 && points[k] == segs[k - 1].1) by {
        if k < segs.len() {
            assert(segs[k] == (points[k], points[k + 1]));
        } else {
            assert(segs[k - 1] == (points[k - 1], points[k]));
        }
    }
    if points.len() >= 2 {
        assert(segs[0] == (points[0], points[1]));
        assert(segs[segs.len() - 1] == (points[segs.len() - 1], points[segs.len() as int]));
    }
}

/// A recorded trail never holds more than `trail_length` positions; it holds
/// the newest position last, and before it the most recent of the earlier
/// positions in their original order.
pub proof fn lemma_record_keeps_most_recent<P>(points: Seq<P>, position: P, trail_length: nat)
    ensures
        recorded(points, position, trail_length).len() == if points.len() + 1 <= trail_length {
            points.len() + 1
        } else {
            trail_length
        },
        trail_length > 0 ==> recorded(points, position, trail_length).last() == position,
        forall|i: int|
            0 <= i < recorded(points, position, trail_length).len() - 1 ==> #[trigger] recorded(
                points,
                position,
                trail_length,
            )[i] == points[points.len() + 1 - recorded(points, position, trail_length).len() + i],
{
}

/// Clearing a trail and then recording a position leaves exactly that
/// position, whenever the trail keeps at least one point.
pub proof fn lemma_record_after_clear<P>(position: P, trail_length: nat)
    requires
        trail_length >= 1,
    ensures
        recorded(Seq::<P>::empty(), position, trail_length) == seq![position],
{
    assert(Seq::<P>::empty().push(position) =~= seq![position]);
}

} // verus!
