//! The bounded history of positions that a ray leaves behind.

use vstd::prelude::*;

verus! {

/// A position in the plane, each coordinate the bit pattern of a binary32
/// number. The library stores and hands out points; it never reads into them.
#[derive(Clone, Copy, Debug, PartialEq, Eq, Structural)]
pub struct Point {
    pub x: u32,
    pub y: u32,
}

/// What a bounded first-in, first-out sequence holds after `p` is appended
/// under a bound of `limit` items: `p` goes to the back, and if that makes
/// one item too many, the oldest item leaves from the front.
pub open spec fn appended<T>(points: Seq<T>, limit: nat, p: T) -> Seq<T> {
    let grown = points.push(p);
    if grown.len() > limit {
        grown.skip(1)
    } else {
        grown
    }
}

/// A first-in, first-out sequence of points that never holds more than its
/// limit. Its view is the stored points, oldest first.
pub struct Trail {
    points: Vec<Point>,
    capacity: usize,
}

impl View for Trail {
    type V = Seq<Point>;

    closed spec fn view(&self) -> Seq<Point> {
        self.points@
    }
}

impl Trail {
    /// The largest number of points the trail may hold.
    pub closed spec fn limit(&self) -> nat {
        self.capacity as nat
    }

    /// The trail holds no more points than its limit.
    pub open spec fn wf(&self) -> bool {
        self@.len() <= self.limit()
    }

    /// An empty trail bounded by `capacity` points.
    pub fn new(capacity: usize) -> (trail: Trail)
        ensures
            trail.wf(),
            trail@ == Seq::<Point>::empty(),
            trail.limit() == capacity,
    {
        Trail { points: Vec::new(), capacity }
    }

    /// The bound this trail was made with.
    pub fn capacity(&self) -> (n: usize)
        ensures
            n == self.limit(),
    {
        self.capacity
    }

    /// The number of stored points.
    pub fn len(&self) -> (n: usize)
        ensures
            n == self@.len(),
    {
        self.points.len()
    }

    /// Whether no point is stored.
    pub fn is_empty(&self) -> (b: bool)
        ensures
            b == (self@.len() == 0),
    {
        self.points.len() == 0
    }

    /// The stored point at `index`, counted from the oldest, if there is one.
    pub fn get(&self, index: usize) -> (p: Option<Point>)
        ensures
            p == if index < self@.len() {
                Some(self@[index as int])
            } else {
                None
            },
    {
        if index < self.points.len() {
            Some(self.points[index])
        } else {
            None
        }
    }

    /// The newest stored point, if there is one.
    pub fn last(&self) -> (p: Option<Point>)
        ensures
            p == if self@.len() > 0 {
                Some(self@.last())
            } else {
                None
            },
    {
        let n: usize = self.points.len();
        if n > 0 {
            Some(self.points[n - 1])
        } else {
            None
        }
    }

    /// The stored points, oldest first.
    pub fn points(&self) -> (all: &Vec<Point>)
        ensures
            all@ == self@,
    {
        &self.points
    }

    /// Appends `p`, evicting the oldest point if the trail would otherwise
    /// exceed its limit.
    pub fn push(&mut self, p: Point)
        requires
            old(self).wf(),
        ensures
            final(self).wf(),
            final(self).limit() == old(self).limit(),
            final(self)@ == appended(old(self)@, old(self).limit(), p),
    {
        self.points.push(p);
        if self.points.len() > self.capacity {
            self.points.remove(0);
            assert(self.points@ =~= old(self).points@.push(p).skip(1));
        }
    }
}

/// Appending never takes a trail past its limit.
pub proof fn lemma_appended_stays_bounded<T>(points: Seq<T>, limit: nat, p: T)
    requires
        points.len() <= limit,
    ensures
        appended(points, limit, p).len() <= limit,
{
}

/// Appending keeps the stored points in their order: whatever stays is a
/// suffix of the old points, followed by the new point when the limit allows
/// one at all.
pub proof fn lemma_appended_keeps_order<T>(points: Seq<T>, limit: nat, p: T)
    requires
        points.len() <= limit,
    ensures
        limit > 0 ==> appended(points, limit, p).last() == p,
        limit > 0 ==> appended(points, limit, p).drop_last() == if points.len() == limit {
            points.skip(1)
        } else {
            points
        },
        limit == 0 ==> appended(points, limit, p) == Seq::<T>::empty(),
{
    let after = appended(points, limit, p);
    if limit > 0 {
        if points.len() == limit {
            assert(after.drop_last() =~= points.skip(1));
        } else {
            assert(after.drop_last() =~= points);
        }
    } else {
        assert(after =~= Seq::<T>::empty());
    }
}

} // verus!
