use vstd::prelude::*;

use crate::bridge::P64;
use vstd::std_specs::iter::IteratorSpec;

verus! {

/// `p` moved by `(dx, dy)`.
pub open spec fn translated_point(p: P64, dx: i64, dy: i64) -> P64 {
    P64 { x: (p.x + dx) as i64, y: (p.y + dy) as i64 }
}

/// Moving every point of `points` by `(dx, dy)` stays on the `i64` grid.
pub open spec fn can_translate(points: Seq<P64>, dx: i64, dy: i64) -> bool {
    forall|i: int|
        0 <= i < points.len() ==> i64::MIN <= #[trigger] points[i].x + dx <= i64::MAX
            && i64::MIN <= points[i].y + dy <= i64::MAX
}

/// Every point of `points` moved by `(dx, dy)`.
pub open spec fn translated(points: Seq<P64>, dx: i64, dy: i64) -> Seq<P64> {
    points.map_values(|p: P64| translated_point(p, dx, dy))
}

/// Translating moves every point, and only that: the result has as many points, and
/// point `i` is point `i` of the input moved by `(dx, dy)`.
pub proof fn lemma_translated_pointwise(points: Seq<P64>, dx: i64, dy: i64)
    requires
        can_translate(points, dx, dy),
    ensures
        translated(points, dx, dy).len() == points.len(),
        forall|i: int|
            0 <= i < points.len() ==> #[trigger] translated(points, dx, dy)[i].x == points[i].x + dx
                && translated(points, dx, dy)[i].y == points[i].y + dy,
{
    assert forall|i: int| 0 <= i < points.len() implies #[trigger] translated(points, dx, dy)[i].x
        == points[i].x + dx && translated(points, dx, dy)[i].y == points[i].y + dy by {
        assert(i64::MIN <= points[i].x + dx <= i64::MAX);
    }
}

/// Integer grid polyline / polygon ring, backed by `Vec<Point64>`.
#[derive(Debug)]
pub struct Path64(pub Vec<P64>);

impl View for Path64 {
    type V = Seq<P64>;

    open spec fn view(&self) -> Seq<P64> {
        self.0@
    }
}

impl Clone for Path64 {
    fn clone(&self) -> (r: Self)
        ensures
            r@ == self@,
    {
        self.copied()
    }
}

impl Default for Path64 {
    fn default() -> (p: Self)
        ensures
            p@ == Seq::<P64>::empty(),
    {
        Path64(Vec::new())
    }
}

impl Path64 {
    /// From an owned `Vec` of points.
    pub fn from_vec(points: Vec<P64>) -> (p: Self)
        ensures
            p@ == points@,
    {
        Path64(points)
    }

    /// From a vector of points.
    pub fn new(points: Vec<P64>) -> (p: Self)
        ensures
            p@ == points@,
    {
        Path64(points)
    }

    /// The points as a slice.
    pub fn as_slice(&self) -> (s: &[P64])
        ensures
            s@ == self@,
    {
        self.0.as_slice()
    }

    /// The points as a mutable slice; writes through it change the path.
    pub fn as_mut_slice(&mut self) -> (s: &mut [P64])
        ensures
            s@ == old(self)@,
            final(self)@ == final(s)@,
    {
        self.0.as_mut_slice()
    }

    /// Borrowing iterator over the points.
    pub fn iter(&self) -> (it: std::slice::Iter<'_, P64>)
        ensures
            it.remaining() == self@.as_ref(),
    {
        self.0.as_slice().iter()
    }

    /// `true` when the path has no point.
    pub fn is_empty(&self) -> (b: bool)
        ensures
            b == (self@.len() == 0),
    {
        self.0.is_empty()
    }

    /// Number of points.
    pub fn len(&self) -> (n: usize)
        ensures
            n == self@.len(),
    {
        self.0.len()
    }

    /// Copy of vertex `index`.
    pub fn get_point(&self, index: usize) -> (p: P64)
        requires
            index < self@.len(),
        ensures
            p == self@[index as int],
    {
        self.0[index]
    }

    /// Appends a vertex.
    pub fn add_point(&mut self, point: P64)
        ensures
            final(self)@ == old(self)@.push(point),
    {
        self.0.push(point)
    }

    /// A fresh path with the same points.
    pub(crate) fn copied(&self) -> (r: Self)
        ensures
            r@ == self@,
    {
        Path64(vstd::slice::slice_to_vec(self.0.as_slice()))
    }

    /// Translate by integer deltas.
    pub fn translate(&self, dx: i64, dy: i64) -> (t: Self)
        requires
            can_translate(self@, dx, dy),
        ensures
            t@ == translated(self@, dx, dy),
            t@.len() == self@.len(),
            forall|i: int|
                0 <= i < self@.len() ==> #[trigger] t@[i].x == self@[i].x + dx && t@[i].y
                    == self@[i].y + dy,
    {
        let n = self.0.len();
        let mut new_points: Vec<P64> = Vec::with_capacity(n);
        let mut i: usize = 0;
        while i < n
            invariant
                n == self@.len(),
                i <= n,
                can_translate(self@, dx, dy),
                new_points@ =~= translated(self@.take(i as int), dx, dy),
            decreases n - i,
        {
            let p = self.0[i];
            assert(i64::MIN <= self@[i as int].x + dx <= i64::MAX);
            new_points.push(P64 { x: p.x + dx, y: p.y + dy });
            assert(self@.take(i + 1) =~= self@.take(i as int).push(p));
            i = i + 1;
        }
        assert(self@.take(n as int) =~= self@);
        proof {
            lemma_translated_pointwise(self@, dx, dy);
        }
        Path64(new_points)
    }
}

impl<'a> IntoIterator for &'a Path64 {
    type Item = &'a P64;

    type IntoIter = std::slice::Iter<'a, P64>;

    fn into_iter(self) -> (it: std::slice::Iter<'a, P64>)
        ensures
            it.remaining() == self@.as_ref(),
    {
        self.iter()
    }
}

impl IntoIterator for Path64 {
    type Item = P64;

    type IntoIter = std::vec::IntoIter<P64>;

    fn into_iter(self) -> (it: std::vec::IntoIter<P64>)
        ensures
            it.remaining() == self@,
    {
        self.0.into_iter()
    }
}

} // verus!
