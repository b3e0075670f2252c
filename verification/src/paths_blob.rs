//! Conversions between the flat `PathsBlob*` buffers and path containers, and
//! iterators over the paths of a buffer.
//!
//! Encoding a collection concatenates its points and records, for each path, where it
//! starts, followed by the total point count; decoding takes path `i` back as
//! `points[path_starts[i]..path_starts[i + 1]]`.
use vstd::prelude::*;

use crate::bridge::{blob_paths, segment_count, starts_in_bounds, PathsBlob64, PathsBlobD, P64, PD};
use crate::clipper64::{Path64, Paths64};
use crate::clipperd::{PathD, PathsD};

verus! {

/// All points of `paths`, in order.
pub open spec fn flatten<T>(paths: Seq<Seq<T>>) -> Seq<T>
    decreases paths.len(),
{
    if paths.len() == 0 {
        Seq::empty()
    } else {
        flatten(paths.drop_last()) + paths.last()
    }
}

/// Number of points in the first `k` paths.
pub open spec fn prefix_len<T>(paths: Seq<Seq<T>>, k: int) -> nat {
    flatten(paths.take(k)).len()
}

/// The offsets that encode `paths`: where each path starts, then the total count.
pub open spec fn starts_of<T>(paths: Seq<Seq<T>>) -> Seq<usize> {
    Seq::new(paths.len() + 1, |k: int| prefix_len(paths, k) as usize)
}

/// The offsets `[0, n]` that encode a single path of `n` points.
pub open spec fn single_starts(n: nat) -> Seq<usize> {
    seq![0usize, n as usize]
}

/// The first path a buffer holds, or no point when it holds none.
pub open spec fn first_path<T>(points: Seq<T>, starts: Seq<usize>) -> Seq<T> {
    if starts.len() < 2 {
        Seq::empty()
    } else {
        points.subrange(starts[0] as int, starts[1] as int)
    }
}

/// Adding a path adds its points at the end.
pub proof fn lemma_flatten_push<T>(paths: Seq<Seq<T>>, p: Seq<T>)
    ensures
        flatten(paths.push(p)) == flatten(paths) + p,
{
    assert(paths.push(p).drop_last() =~= paths);
}

/// The points of two runs of paths are the points of the first, then of the second.
pub proof fn lemma_flatten_concat<T>(a: Seq<Seq<T>>, b: Seq<Seq<T>>)
    ensures
        flatten(a + b) == flatten(a) + flatten(b),
    decreases b.len(),
{
    if b.len() == 0 {
        assert(a + b =~= a);
        assert(flatten(a) + flatten(b) =~= flatten(a));
    } else {
        lemma_flatten_concat(a, b.drop_last());
        assert((a + b).drop_last() =~= a + b.drop_last());
        assert(flatten(a + b) == flatten(a + b.drop_last()) + b.last());
        assert(flatten(a) + flatten(b) =~= flatten(a) + flatten(b.drop_last()) + b.last());
    }
}

/// The points of the first `k + 1` paths are those of the first `k`, then path `k`.
pub proof fn lemma_prefix_step<T>(paths: Seq<Seq<T>>, k: int)
    requires
        0 <= k < paths.len(),
    ensures
        flatten(paths.take(k + 1)) == flatten(paths.take(k)) + paths[k],
        prefix_len(paths, k + 1) == prefix_len(paths, k) + paths[k].len(),
{
    assert(paths.take(k + 1) =~= paths.take(k).push(paths[k]));
    lemma_flatten_push(paths.take(k), paths[k]);
}

/// Offsets grow with the number of paths counted and stay within the flat buffer.
pub proof fn lemma_prefix_monotone<T>(paths: Seq<Seq<T>>, i: int, j: int)
    requires
        0 <= i <= j <= paths.len(),
    ensures
        prefix_len(paths, i) <= prefix_len(paths, j),
        prefix_len(paths, j) <= flatten(paths).len(),
    decreases j - i,
{
    if i < j {
        lemma_prefix_monotone(paths, i, j - 1);
        lemma_prefix_step(paths, j - 1);
    }
    let t = paths.take(j);
    let d = paths.skip(j);
    assert(paths =~= t + d);
    lemma_flatten_concat(t, d);
}

/// Path `i` sits in the flat buffer between its offset and the next.
pub proof fn lemma_segment<T>(paths: Seq<Seq<T>>, i: int)
    requires
        0 <= i < paths.len(),
    ensures
        flatten(paths).subrange(prefix_len(paths, i) as int, prefix_len(paths, i + 1) as int)
            == paths[i],
{
    let t = paths.take(i + 1);
    let d = paths.skip(i + 1);
    assert(paths =~= t + d);
    lemma_flatten_concat(t, d);
    lemma_prefix_step(paths, i);
    let f = flatten(paths);
    let a = prefix_len(paths, i) as int;
    assert(f =~= flatten(paths.take(i)) + paths[i] + flatten(d));
    assert(f.subrange(a, a + paths[i].len()) =~= paths[i]);
}

/// The encoding of `paths` describes segments within its flat buffer, and decoding it
/// gives `paths` back.
pub proof fn lemma_encode_decode<T>(paths: Seq<Seq<T>>)
    requires
        flatten(paths).len() <= usize::MAX,
    ensures
        starts_in_bounds(starts_of(paths), flatten(paths).len()),
        blob_paths(flatten(paths), starts_of(paths)) == paths,
{
    let s = starts_of(paths);
    let f = flatten(paths);
    assert forall|i: int, j: int| 0 <= i <= j < s.len() implies s[i] <= s[j] by {
        lemma_prefix_monotone(paths, i, j);
    }
    if s.len() >= 2 {
        lemma_prefix_monotone(paths, paths.len() as int, paths.len() as int);
    }
    assert forall|i: int| 0 <= i < paths.len() implies #[trigger] blob_paths(f, s)[i] == paths[i] by {
        lemma_prefix_monotone(paths, i, i + 1);
        lemma_prefix_monotone(paths, i + 1, paths.len() as int);
        lemma_segment(paths, i);
    }
    assert(blob_paths(f, s) =~= paths);
}

/// Copies `points[a..e]` into a new vector.
fn copy_segment_64(points: &[P64], a: usize, e: usize) -> (v: Vec<P64>)
    requires
        a <= e <= points@.len(),
    ensures
        v@ == points@.subrange(a as int, e as int),
{
    vstd::slice::slice_to_vec(&points[a..e])
}

/// Converts a flat point slice to [`Path64`].
pub fn path64_from_p64_slice(points: &[P64]) -> (p: Path64)
    ensures
        p@ == points@,
{
    Path64::from_vec(vstd::slice::slice_to_vec(points))
}

/// Single-path `Path64` to a buffer (`path_starts = [0, n]`).
pub fn path64_to_blob(p: &Path64) -> (b: PathsBlob64)
    ensures
        b.points@ == p@,
        b.path_starts@ == single_starts(p@.len()),
        b.well_formed(),
        b.paths() == seq![p@],
{
    let n = p.len();
    let points = vstd::slice::slice_to_vec(p.as_slice());
    let mut path_starts: Vec<usize> = Vec::new();
    path_starts.push(0);
    path_starts.push(n);
    let b = PathsBlob64 { points, path_starts };
    assert(b.path_starts@ =~= single_starts(p@.len()));
    assert(p@.subrange(0, n as int) =~= p@);
    assert(b.paths() =~= seq![p@]);
    b
}

/// Many `Path64` to one buffer.
pub fn paths64_to_blob(p: &Paths64) -> (b: PathsBlob64)
    ensures
        b.points@ == flatten(p@),
        b.path_starts@ == starts_of(p@),
        b.well_formed(),
        b.paths() == p@,
{
    let n_paths = p.len();
    let mut points: Vec<P64> = Vec::new();
    let mut path_starts: Vec<usize> = Vec::new();
    path_starts.push(0);
    let mut k: usize = 0;
    while k < n_paths
        invariant
            n_paths == p@.len(),
            k <= n_paths,
            points@ == flatten(p@.take(k as int)),
            path_starts@ =~= Seq::new((k + 1) as nat, |j: int| prefix_len(p@, j) as usize),
        decreases n_paths - k,
    {
        let path = p.path(k);
        let m = path.len();
        let ghost before = points@;
        let mut j: usize = 0;
        while j < m
            invariant
                m == path@.len(),
                j <= m,
                points@ == before + path@.take(j as int),
            decreases m - j,
        {
            points.push(path.get_point(j));
            assert(path@.take(j + 1) =~= path@.take(j as int).push(path@[j as int]));
            j = j + 1;
        }
        assert(path@.take(m as int) =~= path@);
        proof {
            lemma_prefix_step(p@, k as int);
        }
        path_starts.push(points.len());
        k = k + 1;
    }
    assert(p@.take(n_paths as int) =~= p@);
    let total = points.len();
    assert(total == flatten(p@).len());
    let b = PathsBlob64 { points, path_starts };
    proof {
        lemma_encode_decode(p@);
    }
    b
}

/// First path of a buffer as one [`Path64`]; no point when the buffer holds no path.
pub fn path64_from_single_paths_blob(b: PathsBlob64) -> (p: Path64)
    requires
        b.path_starts@.len() >= 2 ==> b.path_starts@[0] <= b.path_starts@[1] <= b.points@.len(),
    ensures
        p@ == first_path(b.points@, b.path_starts@),
        b.paths().len() > 0 ==> p@ == b.paths()[0],
{
    if b.path_starts.len() < 2 {
        return Path64::default();
    }
    let a = b.path_starts[0];
    let e = b.path_starts[1];
    Path64::from_vec(copy_segment_64(b.points.as_slice(), a, e))
}

/// Materializes all paths of a buffer.
pub fn paths64_from_blob(b: PathsBlob64) -> (r: Paths64)
    requires
        b.well_formed(),
    ensures
        r@ == b.paths(),
{
    if b.path_starts.len() < 2 {
        let r = Paths64::default();
        assert(r@ =~= b.paths());
        return r;
    }
    let n_paths = b.path_starts.len() - 1;
    let mut paths: Vec<Path64> = Vec::with_capacity(n_paths);
    let mut w: usize = 0;
    while w < n_paths
        invariant
            n_paths + 1 == b.path_starts@.len(),
            b.well_formed(),
            w <= n_paths,
            crate::clipper64::paths64_view(paths@) =~= b.paths().take(w as int),
        decreases n_paths - w,
    {
        let a = b.path_starts[w];
        let e = b.path_starts[w + 1];
        assert(b.path_starts@[w + 1] <= b.path_starts@[n_paths as int]);
        let path = Path64::from_vec(copy_segment_64(b.points.as_slice(), a, e));
        let ghost prev = paths@;
        paths.push(path);
        assert(crate::clipper64::paths64_view(paths@) =~= crate::clipper64::paths64_view(prev).push(
            path@,
        ));
        assert(b.paths().take(w + 1) =~= b.paths().take(w as int).push(b.paths()[w as int]));
        w = w + 1;
    }
    assert(b.paths().take(n_paths as int) =~= b.paths());
    Paths64::from_vec(paths)
}

/// Encoding one path as a buffer (`[0, n]`) and decoding it gives that path back, as
/// the buffer's only path and as its first path.
pub proof fn lemma_single_roundtrip<T>(p: Seq<T>)
    requires
        p.len() <= usize::MAX,
    ensures
        starts_in_bounds(single_starts(p.len()), p.len()),
        blob_paths(p, single_starts(p.len())) == seq![p],
        first_path(p, single_starts(p.len())) == p,
{
    assert(p.subrange(0, p.len() as int) =~= p);
    assert(blob_paths(p, single_starts(p.len())) =~= seq![p]);
}

/// A canonical buffer (offsets starting at `0` and ending at the point count) is what
/// encoding its paths gives back.
pub proof fn lemma_decode_encode<T>(points: Seq<T>, starts: Seq<usize>)
    requires
        starts_in_bounds(starts, points.len()),
        starts.len() >= 1,
        starts[0] == 0,
        starts.last() == points.len(),
    ensures
        flatten(blob_paths(points, starts)) == points,
        starts_of(blob_paths(points, starts)) == starts,
{
    let ps = blob_paths(points, starts);
    let n = ps.len() as int;
    assert(n == starts.len() - 1);
    assert forall|k: int| 0 <= k <= n implies flatten(#[trigger] ps.take(k)) == points.subrange(
        0,
        starts[k] as int,
    ) by {
        lemma_decode_prefix(points, starts, k);
    }
    assert(ps.take(n) =~= ps);
    assert(points.subrange(0, starts[n] as int) =~= points);
    assert(starts_of(ps) =~= starts);
}

proof fn lemma_decode_prefix<T>(points: Seq<T>, starts: Seq<usize>, k: int)
    requires
        starts_in_bounds(starts, points.len()),
        starts.len() >= 1,
        starts[0] == 0,
        0 <= k < starts.len(),
    ensures
        flatten(blob_paths(points, starts).take(k)) == points.subrange(0, starts[k] as int),
    decreases k,
{
    let ps = blob_paths(points, starts);
    if k == 0 {
        assert(ps.take(0) =~= Seq::<Seq<T>>::empty());
        assert(points.subrange(0, 0) =~= Seq::<T>::empty());
    } else {
        lemma_decode_prefix(points, starts, k - 1);
        lemma_prefix_step(ps, k - 1);
        assert(starts[k - 1] <= starts[k]);
        assert(starts[k] <= starts.last());
        assert(points.subrange(0, starts[k - 1] as int) + points.subrange(
            starts[k - 1] as int,
            starts[k] as int,
        ) =~= points.subrange(0, starts[k] as int));
    }
}

/// The paths of `points` / `starts` from segment `idx` on.
pub open spec fn paths_from<T>(points: Seq<T>, starts: Seq<usize>, idx: nat) -> Seq<Seq<T>> {
    blob_paths(points, starts).skip(idx as int)
}

/// Iterator over each path inside a `PathsBlob64` (one [`Path64`] per step).
#[derive(Clone, Copy)]
pub struct PathsBlob64Iter<'a> {
    points: &'a [P64],
    path_starts: &'a [usize],
    idx: usize,
}

impl<'a> PathsBlob64Iter<'a> {
    #[verifier::type_invariant]
    spec fn inv(self) -> bool {
        self.idx <= segment_count(self.path_starts@)
    }

    /// Every segment of the buffer the iterator reads lies within its points.
    pub closed spec fn reads_well_formed(self) -> bool {
        starts_in_bounds(self.path_starts@, self.points@.len())
    }

    /// The segment of the next path, if there is one, lies within the points.
    pub closed spec fn next_fits(self) -> bool {
        self.idx + 1 < self.path_starts@.len() ==> {
            &&& self.path_starts@[self.idx as int] <= self.path_starts@[self.idx + 1]
            &&& self.path_starts@[self.idx + 1] <= self.points@.len()
        }
    }

    /// Over a well-formed buffer, the next path can always be taken.
    pub proof fn lemma_well_formed_next_fits(self)
        requires
            self.reads_well_formed(),
        ensures
            self.next_fits(),
    {
        if self.idx + 1 < self.path_starts@.len() {
            assert(self.path_starts@[self.idx + 1] <= self.path_starts@[self.path_starts@.len() - 1]);
        }
    }

    /// The paths that the iterator has yet to yield, in order.
    pub closed spec fn remaining_paths(self) -> Seq<Seq<P64>> {
        paths_from(self.points@, self.path_starts@, self.idx as nat)
    }

    /// Iterates over the paths of `blob`.
    pub fn new(blob: &'a PathsBlob64) -> (it: Self)
        ensures
            it.remaining_paths() == blob.paths(),
            it.reads_well_formed() == blob.well_formed(),
    {
        let it = Self { points: blob.points.as_slice(), path_starts: blob.path_starts.as_slice(), idx: 0 };
        assert(blob.paths().skip(0) =~= blob.paths());
        it
    }

    /// The next path; `None` once every path was yielded, and from then on.
    pub fn next(&mut self) -> (r: Option<Path64>)
        requires
            old(self).next_fits(),
        ensures
            final(self).reads_well_formed() == old(self).reads_well_formed(),
            old(self).remaining_paths().len() == 0 ==> r is None && final(self).remaining_paths()
                == old(self).remaining_paths(),
            old(self).remaining_paths().len() > 0 ==> r is Some && r->0@ == old(
                self,
            ).remaining_paths()[0] && final(self).remaining_paths() == old(
                self,
            ).remaining_paths().drop_first(),
    {
        proof {
            use_type_invariant(&*self);
        }
        let i = self.idx;
        if i >= self.path_starts.len() || self.path_starts.len() - i < 2 {
            return None;
        }
        let a = self.path_starts[i];
        let e = self.path_starts[i + 1];
        self.idx = i + 1;
        let p = path64_from_p64_slice(&self.points[a..e]);
        assert(old(self).remaining_paths().drop_first() =~= self.remaining_paths());
        Some(p)
    }

    /// Number of paths left.
    pub fn len(&self) -> (n: usize)
        ensures
            n == self.remaining_paths().len(),
    {
        proof {
            use_type_invariant(self);
        }
        let total = self.path_starts.len().saturating_sub(1);
        total.saturating_sub(self.idx)
    }

    /// Lower and upper bound of the number of paths left, both exact.
    pub fn size_hint(&self) -> (r: (usize, Option<usize>))
        ensures
            r.0 == self.remaining_paths().len(),
            r.1 == Some(r.0),
    {
        let left = self.len();
        (left, Some(left))
    }
}

/// Copies `points[a..e]` into a new vector.
fn copy_segment_d(points: &[PD], a: usize, e: usize) -> (v: Vec<PD>)
    requires
        a <= e <= points@.len(),
    ensures
        v@ == points@.subrange(a as int, e as int),
{
    vstd::slice::slice_to_vec(&points[a..e])
}

/// Converts a flat point slice to [`PathD`].
pub fn pathd_from_pd_slice(points: &[PD]) -> (p: PathD)
    ensures
        p@ == points@,
{
    PathD::from_vec(vstd::slice::slice_to_vec(points))
}

/// Single-path `PathD` to a buffer (`path_starts = [0, n]`).
pub fn pathd_to_blob(p: &PathD) -> (b: PathsBlobD)
    ensures
        b.points@ == p@,
        b.path_starts@ == single_starts(p@.len()),
        b.well_formed(),
        b.paths() == seq![p@],
{
    let n = p.len();
    let points = vstd::slice::slice_to_vec(p.as_slice());
    let mut path_starts: Vec<usize> = Vec::new();
    path_starts.push(0);
    path_starts.push(n);
    let b = PathsBlobD { points, path_starts };
    assert(b.path_starts@ =~= single_starts(p@.len()));
    assert(p@.subrange(0, n as int) =~= p@);
    assert(b.paths() =~= seq![p@]);
    b
}

/// Many `PathD` to one buffer.
pub fn pathsd_to_blob(p: &PathsD) -> (b: PathsBlobD)
    ensures
        b.points@ == flatten(p@),
        b.path_starts@ == starts_of(p@),
        b.well_formed(),
        b.paths() == p@,
{
    let n_paths = p.len();
    let mut points: Vec<PD> = Vec::new();
    let mut path_starts: Vec<usize> = Vec::new();
    path_starts.push(0);
    let mut k: usize = 0;
    while k < n_paths
        invariant
            n_paths == p@.len(),
            k <= n_paths,
            points@ == flatten(p@.take(k as int)),
            path_starts@ =~= Seq::new((k + 1) as nat, |j: int| prefix_len(p@, j) as usize),
        decreases n_paths - k,
    {
        let path = p.path(k);
        let m = path.len();
        let ghost before = points@;
        let mut j: usize = 0;
        while j < m
            invariant
                m == path@.len(),
                j <= m,
                points@ == before + path@.take(j as int),
            decreases m - j,
        {
            points.push(path.get_point(j));
            assert(path@.take(j + 1) =~= path@.take(j as int).push(path@[j as int]));
            j = j + 1;
        }
        assert(path@.take(m as int) =~= path@);
        proof {
            lemma_prefix_step(p@, k as int);
        }
        path_starts.push(points.len());
        k = k + 1;
    }
    assert(p@.take(n_paths as int) =~= p@);
    let total = points.len();
    assert(total == flatten(p@).len());
    let b = PathsBlobD { points, path_starts };
    proof {
        lemma_encode_decode(p@);
    }
    b
}

/// First path of a buffer as one [`PathD`]; no point when the buffer holds no path.
pub fn pathd_from_single_paths_blob(b: PathsBlobD) -> (p: PathD)
    requires
        b.path_starts@.len() >= 2 ==> b.path_starts@[0] <= b.path_starts@[1] <= b.points@.len(),
    ensures
        p@ == first_path(b.points@, b.path_starts@),
        b.paths().len() > 0 ==> p@ == b.paths()[0],
{
    if b.path_starts.len() < 2 {
        return PathD::default();
    }
    let a = b.path_starts[0];
    let e = b.path_starts[1];
    PathD::from_vec(copy_segment_d(b.points.as_slice(), a, e))
}

/// Materializes all paths of a buffer.
pub fn pathsd_from_blob(b: PathsBlobD) -> (r: PathsD)
    requires
        b.well_formed(),
    ensures
        r@ == b.paths(),
{
    if b.path_starts.len() < 2 {
        let r = PathsD::default();
        assert(r@ =~= b.paths());
        return r;
    }
    let n_paths = b.path_starts.len() - 1;
    let mut paths: Vec<PathD> = Vec::with_capacity(n_paths);
    let mut w: usize = 0;
    while w < n_paths
        invariant
            n_paths + 1 == b.path_starts@.len(),
            b.well_formed(),
            w <= n_paths,
            crate::clipperd::pathsd_view(paths@) =~= b.paths().take(w as int),
        decreases n_paths - w,
    {
        let a = b.path_starts[w];
        let e = b.path_starts[w + 1];
        assert(b.path_starts@[w + 1] <= b.path_starts@[n_paths as int]);
        let path = PathD::from_vec(copy_segment_d(b.points.as_slice(), a, e));
        let ghost prev = paths@;
        paths.push(path);
        assert(crate::clipperd::pathsd_view(paths@) =~= crate::clipperd::pathsd_view(prev).push(
            path@,
        ));
        assert(b.paths().take(w + 1) =~= b.paths().take(w as int).push(b.paths()[w as int]));
        w = w + 1;
    }
    assert(b.paths().take(n_paths as int) =~= b.paths());
    PathsD::from_vec(paths)
}

/// Iterator over each path inside a `PathsBlobD` (one [`PathD`] per step).
#[derive(Clone, Copy)]
pub struct PathsBlobDIter<'a> {
    points: &'a [PD],
    path_starts: &'a [usize],
    idx: usize,
}

impl<'a> PathsBlobDIter<'a> {
    #[verifier::type_invariant]
    spec fn inv(self) -> bool {
        self.idx <= segment_count(self.path_starts@)
    }

    /// Every segment of the buffer the iterator reads lies within its points.
    pub closed spec fn reads_well_formed(self) -> bool {
        starts_in_bounds(self.path_starts@, self.points@.len())
    }

    /// The segment of the next path, if there is one, lies within the points.
    pub closed spec fn next_fits(self) -> bool {
        self.idx + 1 < self.path_starts@.len() ==> {
            &&& self.path_starts@[self.idx as int] <= self.path_starts@[self.idx + 1]
            &&& self.path_starts@[self.idx + 1] <= self.points@.len()
        }
    }

    /// Over a well-formed buffer, the next path can always be taken.
    pub proof fn lemma_well_formed_next_fits(self)
        requires
            self.reads_well_formed(),
        ensures
            self.next_fits(),
    {
        if self.idx + 1 < self.path_starts@.len() {
            assert(self.path_starts@[self.idx + 1] <= self.path_starts@[self.path_starts@.len() - 1]);
        }
    }

    /// The paths that the iterator has yet to yield, in order.
    pub closed spec fn remaining_paths(self) -> Seq<Seq<PD>> {
        paths_from(self.points@, self.path_starts@, self.idx as nat)
    }

    /// Iterates over the paths of `blob`.
    pub fn new(blob: &'a PathsBlobD) -> (it: Self)
        ensures
            it.remaining_paths() == blob.paths(),
            it.reads_well_formed() == blob.well_formed(),
    {
        let it = Self { points: blob.points.as_slice(), path_starts: blob.path_starts.as_slice(), idx: 0 };
        assert(blob.paths().skip(0) =~= blob.paths());
        it
    }

    /// The next path; `None` once every path was yielded, and from then on.
    pub fn next(&mut self) -> (r: Option<PathD>)
        requires
            old(self).next_fits(),
        ensures
            final(self).reads_well_formed() == old(self).reads_well_formed(),
            old(self).remaining_paths().len() == 0 ==> r is None && final(self).remaining_paths()
                == old(self).remaining_paths(),
            old(self).remaining_paths().len() > 0 ==> r is Some && r->0@ == old(
                self,
            ).remaining_paths()[0] && final(self).remaining_paths() == old(
                self,
            ).remaining_paths().drop_first(),
    {
        proof {
            use_type_invariant(&*self);
        }
        let i = self.idx;
        if i >= self.path_starts.len() || self.path_starts.len() - i < 2 {
            return None;
        }
        let a = self.path_starts[i];
        let e = self.path_starts[i + 1];
        self.idx = i + 1;
        let p = pathd_from_pd_slice(&self.points[a..e]);
        assert(old(self).remaining_paths().drop_first() =~= self.remaining_paths());
        Some(p)
    }

    /// Number of paths left.
    pub fn len(&self) -> (n: usize)
        ensures
            n == self.remaining_paths().len(),
    {
        proof {
            use_type_invariant(self);
        }
        let total = self.path_starts.len().saturating_sub(1);
        total.saturating_sub(self.idx)
    }

    /// Lower and upper bound of the number of paths left, both exact.
    pub fn size_hint(&self) -> (r: (usize, Option<usize>))
        ensures
            r.0 == self.remaining_paths().len(),
            r.1 == Some(r.0),
    {
        let left = self.len();
        (left, Some(left))
    }
}

} // verus!
