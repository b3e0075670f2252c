use vstd::prelude::*;

use crate::bridge::PD;
use vstd::std_specs::iter::IteratorSpec;

verus! {

/// Double-precision polyline / polygon, backed by `Vec<PointD>`.
#[derive(Debug)]
pub struct PathD(pub Vec<PD>);

impl View for PathD {
    type V = Seq<PD>;

    open spec fn view(&self) -> Seq<PD> {
        self.0@
    }
}

impl Clone for PathD {
    fn clone(&self) -> (r: Self)
        ensures
            r@ == self@,
    {
        self.copied()
    }
}

impl Default for PathD {
    fn default() -> (p: Self)
        ensures
            p@ == Seq::<PD>::empty(),
    {
        PathD(Vec::new())
    }
}

impl PathD {
    /// From an owned `Vec` of points.
    pub fn from_vec(points: Vec<PD>) -> (p: Self)
        ensures
            p@ == points@,
    {
        PathD(points)
    }

    /// From a vector of points.
    pub fn new(points: Vec<PD>) -> (p: Self)
        ensures
            p@ == points@,
    {
        PathD(points)
    }

    /// The points as a slice.
    pub fn as_slice(&self) -> (s: &[PD])
        ensures
            s@ == self@,
    {
        self.0.as_slice()
    }

    /// The points as a mutable slice; writes through it change the path.
    pub fn as_mut_slice(&mut self) -> (s: &mut [PD])
        ensures
            s@ == old(self)@,
            final(self)@ == final(s)@,
    {
        self.0.as_mut_slice()
    }

    /// Borrowing iterator over the points.
    pub fn iter(&self) -> (it: std::slice::Iter<'_, PD>)
        ensures
            it.remaining() == self@.as_ref(),
    {
        self.0.as_slice().iter()
    }

    /// `true` when the path has no point.
    pub fn is_empty(&self) -> (b: bool)
        ensures
            b == (self@.len() == 0),
    {
        self.0.is_empty()
    }

    /// Number of points.
    pub fn len(&self) -> (n: usize)
        ensures
            n == self@.len(),
    {
        self.0.len()
    }

    /// Copy of vertex `index`.
    pub fn get_point(&self, index: usize) -> (p: PD)
        requires
            index < self@.len(),
        ensures
            p == self@[index as int],
    {
        self.0[index]
    }

    /// Appends a vertex.
    pub fn add_point(&mut self, point: PD)
        ensures
            final(self)@ == old(self)@.push(point),
    {
        self.0.push(point)
    }

    /// A fresh path with the same points.
    pub(crate) fn copied(&self) -> (r: Self)
        ensures
            r@ == self@,
    {
        PathD(vstd::slice::slice_to_vec(self.0.as_slice()))
    }
}

impl<'a> IntoIterator for &'a PathD {
    type Item = &'a PD;

    type IntoIter = std::slice::Iter<'a, PD>;

    fn into_iter(self) -> (it: std::slice::Iter<'a, PD>)
        ensures
            it.remaining() == self@.as_ref(),
    {
        self.iter()
    }
}

impl IntoIterator for PathD {
    type Item = PD;

    type IntoIter = std::vec::IntoIter<PD>;

    fn into_iter(self) -> (it: std::vec::IntoIter<PD>)
        ensures
            it.remaining() == self@,
    {
        self.0.into_iter()
    }
}

} // verus!
