use vstd::prelude::*;

use super::path::PathD;
use crate::bridge::{PathsBlobD, PD};
use crate::paths_blob::{pathsd_from_blob, PathsBlobDIter};

verus! {

/// Owned collection of closed/open paths in double-precision space.
#[derive(Debug)]
pub struct PathsD(pub Vec<PathD>);

/// The point sequences of a vector of paths.
pub open spec fn pathsd_view(paths: Seq<PathD>) -> Seq<Seq<PD>> {
    paths.map_values(|p: PathD| p@)
}

impl View for PathsD {
    type V = Seq<Seq<PD>>;

    open spec fn view(&self) -> Seq<Seq<PD>> {
        pathsd_view(self.0@)
    }
}

impl Clone for PathsD {
    fn clone(&self) -> (r: Self)
        ensures
            r@ == self@,
    {
        PathsD(copy_paths(&self.0))
    }
}

impl Default for PathsD {
    fn default() -> (p: Self)
        ensures
            p@ == Seq::<Seq<PD>>::empty(),
    {
        let r = PathsD(Vec::new());
        assert(r@ =~= Seq::<Seq<PD>>::empty());
        r
    }
}

/// A fresh vector holding copies of `paths`.
fn copy_paths(paths: &Vec<PathD>) -> (r: Vec<PathD>)
    ensures
        pathsd_view(r@) == pathsd_view(paths@),
{
    let n = paths.len();
    let mut out: Vec<PathD> = Vec::with_capacity(n);
    let mut i: usize = 0;
    while i < n
        invariant
            n == paths@.len(),
            i <= n,
            pathsd_view(out@) =~= pathsd_view(paths@.take(i as int)),
        decreases n - i,
    {
        let p = paths[i].copied();
        out.push(p);
        assert(pathsd_view(paths@.take(i + 1)) =~= pathsd_view(paths@.take(i as int)).push(
            paths@[i as int]@,
        ));
        i = i + 1;
    }
    assert(paths@.take(n as int) =~= paths@);
    out
}

impl PathsD {
    /// Wraps a vector of paths.
    pub fn from_vec(paths: Vec<PathD>) -> (r: Self)
        ensures
            r.0@ == paths@,
    {
        PathsD(paths)
    }

    /// New collection from a vector of paths.
    pub fn new(paths: Vec<PathD>) -> (r: Self)
        ensures
            r.0@ == paths@,
    {
        PathsD(paths)
    }

    /// Slice of all paths.
    pub fn as_slice(&self) -> (s: &[PathD])
        ensures
            s@ == self.0@,
    {
        self.0.as_slice()
    }

    /// Borrow one path by index.
    pub fn path(&self, index: usize) -> (p: &PathD)
        requires
            index < self@.len(),
        ensures
            *p == self.0@[index as int],
            p@ == self@[index as int],
    {
        &self.0[index]
    }

    /// `true` if there are zero paths.
    pub fn is_empty(&self) -> (b: bool)
        ensures
            b == (self@.len() == 0),
    {
        self.0.is_empty()
    }

    /// Path count.
    pub fn len(&self) -> (n: usize)
        ensures
            n == self@.len(),
    {
        self.0.len()
    }

    /// Push one path.
    pub fn add_path(&mut self, path: PathD)
        ensures
            final(self).0@ == old(self).0@.push(path),
            final(self)@ == old(self)@.push(path@),
    {
        self.0.push(path);
        assert(self@ =~= old(self)@.push(path@));
    }

    /// Appends every path of `paths`, in order.
    pub fn add_paths(&mut self, paths: Vec<PathD>)
        ensures
            final(self).0@ == old(self).0@ + paths@,
            final(self)@ == old(self)@ + pathsd_view(paths@),
    {
        let ghost added = paths@;
        let mut paths = paths;
        self.0.append(&mut paths);
        assert(self@ =~= old(self)@ + pathsd_view(added));
    }

    /// Copies of all paths in a vector.
    pub fn to_vec(&self) -> (v: Vec<PathD>)
        ensures
            pathsd_view(v@) == self@,
    {
        copy_paths(&self.0)
    }

    /// Copy of path `index`.
    pub fn get_path(&self, index: usize) -> (p: PathD)
        requires
            index < self@.len(),
        ensures
            p@ == self@[index as int],
    {
        self.0[index].copied()
    }

    /// Copies of all paths in a vector.
    pub fn get_paths(&self) -> (v: Vec<PathD>)
        ensures
            pathsd_view(v@) == self@,
    {
        copy_paths(&self.0)
    }
}

/// Lazy view of the paths of a native `PathsBlobD` (one [`PathD`] built per step).
#[derive(Debug)]
pub struct LazyPathsD {
    blob: PathsBlobD,
}

impl LazyPathsD {
    #[verifier::type_invariant]
    spec fn inv(self) -> bool {
        self.blob.well_formed()
    }
}

impl Clone for LazyPathsD {
    fn clone(&self) -> (r: Self)
        ensures
            r@ == self@,
    {
        proof {
            use_type_invariant(self);
        }
        LazyPathsD { blob: self.blob.clone() }
    }
}

impl View for LazyPathsD {
    type V = Seq<Seq<PD>>;

    closed spec fn view(&self) -> Seq<Seq<PD>> {
        self.blob.paths()
    }
}

impl Default for LazyPathsD {
    fn default() -> (r: Self)
        ensures
            r@ == Seq::<Seq<PD>>::empty(),
    {
        let r = LazyPathsD { blob: PathsBlobD { points: Vec::new(), path_starts: Vec::new() } };
        assert(r@ =~= Seq::<Seq<PD>>::empty());
        r
    }
}

impl LazyPathsD {
    /// Wraps an owned buffer.
    pub fn from_blob(blob: PathsBlobD) -> (r: Self)
        requires
            blob.well_formed(),
        ensures
            r@ == blob.paths(),
    {
        LazyPathsD { blob }
    }

    /// Materializes the paths of a borrowed buffer by iterating over it.
    pub(crate) fn from_blob_ref(blob: &PathsBlobD) -> (r: PathsD)
        requires
            blob.well_formed(),
        ensures
            r@ == blob.paths(),
    {
        let mut it = PathsBlobDIter::new(blob);
        let mut out: Vec<PathD> = Vec::new();
        loop
            invariant
                pathsd_view(out@) + it.remaining_paths() == blob.paths(),
                it.reads_well_formed(),
            ensures
                pathsd_view(out@) == blob.paths(),
            decreases it.remaining_paths().len(),
        {
            let ghost before = it.remaining_paths();
            proof {
                it.lemma_well_formed_next_fits();
            }
            match it.next() {
                Some(p) => {
                    let ghost prev = out@;
                    out.push(p);
                    assert(pathsd_view(out@) =~= pathsd_view(prev).push(p@));
                    assert(pathsd_view(out@) + it.remaining_paths() =~= pathsd_view(prev)
                        + before);
                },
                None => {
                    assert(pathsd_view(out@) =~= blob.paths());
                    break;
                },
            }
        }
        PathsD(out)
    }

    /// Borrowing iterator over the paths.
    pub fn iter(&self) -> (it: PathsBlobDIter<'_>)
        ensures
            it.remaining_paths() == self@,
            it.reads_well_formed(),
    {
        proof {
            use_type_invariant(self);
        }
        PathsBlobDIter::new(&self.blob)
    }

    /// `true` when there is no path.
    pub fn is_empty(&self) -> (b: bool)
        ensures
            b == (self@.len() == 0),
    {
        self.blob.path_starts.len() < 2
    }

    /// Consumes and materializes all paths.
    pub fn into_paths(self) -> (r: PathsD)
        ensures
            r@ == self@,
    {
        proof {
            use_type_invariant(&self);
        }
        pathsd_from_blob(self.blob)
    }

    /// Builds all paths by iterating.
    pub fn to_paths(&self) -> (r: PathsD)
        ensures
            r@ == self@,
    {
        proof {
            use_type_invariant(self);
        }
        Self::from_blob_ref(&self.blob)
    }

    /// The first path, or an empty path when there is none.
    pub fn into_first_path(self) -> (p: PathD)
        ensures
            self@.len() > 0 ==> p@ == self@[0],
            self@.len() == 0 ==> p@ == Seq::<PD>::empty(),
    {
        let mut it = self.iter();
        proof {
            it.lemma_well_formed_next_fits();
        }
        match it.next() {
            Some(p) => p,
            None => PathD::default(),
        }
    }
}

} // verus!
