use vstd::prelude::*;

use super::path::{can_translate, lemma_translated_pointwise, translated, Path64};
use crate::bridge::{PathsBlob64, P64};
use crate::paths_blob::{paths64_from_blob, PathsBlob64Iter};

verus! {

/// Owned collection of closed/open paths in integer space.
#[derive(Debug)]
pub struct Paths64(pub Vec<Path64>);

/// The point sequences of a vector of paths.
pub open spec fn paths64_view(paths: Seq<Path64>) -> Seq<Seq<P64>> {
    paths.map_values(|p: Path64| p@)
}

impl View for Paths64 {
    type V = Seq<Seq<P64>>;

    open spec fn view(&self) -> Seq<Seq<P64>> {
        paths64_view(self.0@)
    }
}

impl Clone for Paths64 {
    fn clone(&self) -> (r: Self)
        ensures
            r@ == self@,
    {
        Paths64(copy_paths(&self.0))
    }
}

impl Default for Paths64 {
    fn default() -> (p: Self)
        ensures
            p@ == Seq::<Seq<P64>>::empty(),
    {
        let r = Paths64(Vec::new());
        assert(r@ =~= Seq::<Seq<P64>>::empty());
        r
    }
}

/// A fresh vector holding copies of `paths`.
fn copy_paths(paths: &Vec<Path64>) -> (r: Vec<Path64>)
    ensures
        paths64_view(r@) == paths64_view(paths@),
{
    let n = paths.len();
    let mut out: Vec<Path64> = Vec::with_capacity(n);
    let mut i: usize = 0;
    while i < n
        invariant
            n == paths@.len(),
            i <= n,
            paths64_view(out@) =~= paths64_view(paths@.take(i as int)),
        decreases n - i,
    {
        let p = paths[i].copied();
        out.push(p);
        assert(paths64_view(paths@.take(i + 1)) =~= paths64_view(paths@.take(i as int)).push(
            paths@[i as int]@,
        ));
        i = i + 1;
    }
    assert(paths@.take(n as int) =~= paths@);
    out
}

impl Paths64 {
    /// Wraps a vector of paths.
    pub fn from_vec(paths: Vec<Path64>) -> (r: Self)
        ensures
            r.0@ == paths@,
    {
        Paths64(paths)
    }

    /// New collection from a vector of paths.
    pub fn new(paths: Vec<Path64>) -> (r: Self)
        ensures
            r.0@ == paths@,
    {
        Paths64(paths)
    }

    /// Slice of all paths.
    pub fn as_slice(&self) -> (s: &[Path64])
        ensures
            s@ == self.0@,
    {
        self.0.as_slice()
    }

    /// Borrow one path by index.
    pub fn path(&self, index: usize) -> (p: &Path64)
        requires
            index < self@.len(),
        ensures
            *p == self.0@[index as int],
            p@ == self@[index as int],
    {
        &self.0[index]
    }

    /// `true` if there are zero paths.
    pub fn is_empty(&self) -> (b: bool)
        ensures
            b == (self@.len() == 0),
    {
        self.0.is_empty()
    }

    /// Path count.
    pub fn len(&self) -> (n: usize)
        ensures
            n == self@.len(),
    {
        self.0.len()
    }

    /// Push one path.
    pub fn add_path(&mut self, path: Path64)
        ensures
            final(self).0@ == old(self).0@.push(path),
            final(self)@ == old(self)@.push(path@),
    {
        self.0.push(path);
        assert(self@ =~= old(self)@.push(path@));
    }

    /// Appends every path of `paths`, in order.
    pub fn add_paths(&mut self, paths: Vec<Path64>)
        ensures
            final(self).0@ == old(self).0@ + paths@,
            final(self)@ == old(self)@ + paths64_view(paths@),
    {
        let ghost added = paths@;
        let mut paths = paths;
        self.0.append(&mut paths);
        assert(self@ =~= old(self)@ + paths64_view(added));
    }

    /// Copies of all paths in a vector.
    pub fn to_vec(&self) -> (v: Vec<Path64>)
        ensures
            paths64_view(v@) == self@,
    {
        copy_paths(&self.0)
    }

    /// Copy of path `index`.
    pub fn get_path(&self, index: usize) -> (p: Path64)
        requires
            index < self@.len(),
        ensures
            p@ == self@[index as int],
    {
        self.0[index].copied()
    }

    /// Copies of all paths in a vector.
    pub fn get_paths(&self) -> (v: Vec<Path64>)
        ensures
            paths64_view(v@) == self@,
    {
        copy_paths(&self.0)
    }

    /// Per-path translate with `i64` deltas.
    pub fn translate(&self, dx: i64, dy: i64) -> (t: Self)
        requires
            forall|i: int| 0 <= i < self@.len() ==> can_translate(#[trigger] self@[i], dx, dy),
        ensures
            t@ == self@.map_values(|p: Seq<P64>| translated(p, dx, dy)),
            t@.len() == self@.len(),
            forall|i: int| 0 <= i < self@.len() ==> (#[trigger] t@[i]).len() == self@[i].len(),
            forall|i: int, j: int|
                0 <= i < self@.len() && 0 <= j < self@[i].len() ==> (#[trigger] t@[i][j]).x
                    == self@[i][j].x + dx && t@[i][j].y == self@[i][j].y + dy,
    {
        let n = self.0.len();
        let mut out: Vec<Path64> = Vec::with_capacity(n);
        let mut i: usize = 0;
        while i < n
            invariant
                n == self@.len(),
                i <= n,
                forall|j: int| 0 <= j < self@.len() ==> can_translate(#[trigger] self@[j], dx, dy),
                paths64_view(out@) =~= self@.take(i as int).map_values(
                    |p: Seq<P64>| translated(p, dx, dy),
                ),
            decreases n - i,
        {
            assert(can_translate(self@[i as int], dx, dy));
            let p = self.0[i].translate(dx, dy);
            let ghost prev = out@;
            out.push(p);
            assert(paths64_view(out@) =~= paths64_view(prev).push(p@));
            assert(self@.take(i + 1) =~= self@.take(i as int).push(self@[i as int]));
            i = i + 1;
        }
        assert(self@.take(n as int) =~= self@);
        let t = Paths64(out);
        assert forall|i: int| 0 <= i < self@.len() implies (#[trigger] t@[i]).len() == self@[i].len()
            && forall|j: int|
            0 <= j < self@[i].len() ==> (#[trigger] t@[i][j]).x == self@[i][j].x + dx && t@[i][j].y
                == self@[i][j].y + dy by {
            lemma_translated_pointwise(self@[i], dx, dy);
        }
        t
    }
}

/// Lazy view of the paths of a native `PathsBlob64` (one [`Path64`] built per step).
#[derive(Debug)]
pub struct LazyPaths64 {
    blob: PathsBlob64,
}

impl LazyPaths64 {
    #[verifier::type_invariant]
    spec fn inv(self) -> bool {
        self.blob.well_formed()
    }
}

impl Clone for LazyPaths64 {
    fn clone(&self) -> (r: Self)
        ensures
            r@ == self@,
    {
        proof {
            use_type_invariant(self);
        }
        LazyPaths64 { blob: self.blob.clone() }
    }
}

impl View for LazyPaths64 {
    type V = Seq<Seq<P64>>;

    closed spec fn view(&self) -> Seq<Seq<P64>> {
        self.blob.paths()
    }
}

impl Default for LazyPaths64 {
    fn default() -> (r: Self)
        ensures
            r@ == Seq::<Seq<P64>>::empty(),
    {
        let r = LazyPaths64 { blob: PathsBlob64 { points: Vec::new(), path_starts: Vec::new() } };
        assert(r@ =~= Seq::<Seq<P64>>::empty());
        r
    }
}

impl LazyPaths64 {
    /// Wraps an owned buffer.
    pub fn from_blob(blob: PathsBlob64) -> (r: Self)
        requires
            blob.well_formed(),
        ensures
            r@ == blob.paths(),
    {
        LazyPaths64 { blob }
    }

    /// Materializes the paths of a borrowed buffer by iterating over it.
    pub(crate) fn from_blob_ref(blob: &PathsBlob64) -> (r: Paths64)
        requires
            blob.well_formed(),
        ensures
            r@ == blob.paths(),
    {
        let mut it = PathsBlob64Iter::new(blob);
        let mut out: Vec<Path64> = Vec::new();
        loop
            invariant
                paths64_view(out@) + it.remaining_paths() == blob.paths(),
                it.reads_well_formed(),
            ensures
                paths64_view(out@) == blob.paths(),
            decreases it.remaining_paths().len(),
        {
            let ghost before = it.remaining_paths();
            proof {
                it.lemma_well_formed_next_fits();
            }
            match it.next() {
                Some(p) => {
                    let ghost prev = out@;
                    out.push(p);
                    assert(paths64_view(out@) =~= paths64_view(prev).push(p@));
                    assert(paths64_view(out@) + it.remaining_paths() =~= paths64_view(prev)
                        + before);
                },
                None => {
                    assert(paths64_view(out@) =~= blob.paths());
                    break;
                },
            }
        }
        Paths64(out)
    }

    /// Borrowing iterator over the paths.
    pub fn iter(&self) -> (it: PathsBlob64Iter<'_>)
        ensures
            it.remaining_paths() == self@,
            it.reads_well_formed(),
    {
        proof {
            use_type_invariant(self);
        }
        PathsBlob64Iter::new(&self.blob)
    }

    /// `true` when there is no path.
    pub fn is_empty(&self) -> (b: bool)
        ensures
            b == (self@.len() == 0),
    {
        self.blob.path_starts.len() < 2
    }

    /// Consumes and materializes all paths.
    pub fn into_paths(self) -> (r: Paths64)
        ensures
            r@ == self@,
    {
        proof {
            use_type_invariant(&self);
        }
        paths64_from_blob(self.blob)
    }

    /// Builds all paths by iterating.
    pub fn to_paths(&self) -> (r: Paths64)
        ensures
            r@ == self@,
    {
        proof {
            use_type_invariant(self);
        }
        Self::from_blob_ref(&self.blob)
    }

    /// The first path, or an empty path when there is none.
    pub fn into_first_path(self) -> (p: Path64)
        ensures
            self@.len() > 0 ==> p@ == self@[0],
            self@.len() == 0 ==> p@ == Seq::<P64>::empty(),
    {
        let mut it = self.iter();
        proof {
            it.lemma_well_formed_next_fits();
        }
        match it.next() {
            Some(p) => p,
            None => Path64::default(),
        }
    }
}

} // verus!
