//! Values exchanged with the native Clipper2 engine.
//!
//! Paths cross the boundary flat, as a [`PathsBlob64`] / [`PathsBlobD`]: all points of
//! all paths in one buffer, and `path_starts` with `path_count + 1` offsets, so that path
//! `i` is `points[path_starts[i]..path_starts[i + 1]]`.
use vstd::prelude::*;

verus! {

/// Grid point for integer Clipper2 math; same layout as the native `Point64`.
#[derive(Clone, Copy, Debug, PartialEq, Eq, Structural)]
pub struct P64 {
    /// X in user integer units.
    pub x: i64,
    /// Y in user integer units.
    pub y: i64,
}

/// Double-precision point; same layout as the native `PointD`.
///
/// Each coordinate is held as the bit pattern of its IEEE-754 binary64 value
/// (`f64::to_bits`), so that the library carries it verbatim; the coordinate is
/// `f64::from_bits(x_bits)`.
#[derive(Clone, Copy, Debug)]
pub struct PD {
    /// Bit pattern of X.
    pub x_bits: u64,
    /// Bit pattern of Y.
    pub y_bits: u64,
}

impl PD {
    /// A point from the bit patterns of its two coordinates.
    pub fn from_bits(x_bits: u64, y_bits: u64) -> (p: Self)
        ensures
            p.x_bits == x_bits,
            p.y_bits == y_bits,
    {
        PD { x_bits, y_bits }
    }
}

/// `path_starts` describes segments of a buffer of `n_points` points that can all be
/// taken: the offsets never decrease, and where there is at least one segment the last
/// offset is within the buffer.
pub open spec fn starts_in_bounds(starts: Seq<usize>, n_points: nat) -> bool {
    &&& forall|i: int, j: int| 0 <= i <= j < starts.len() ==> starts[i] <= starts[j]
    &&& starts.len() >= 2 ==> starts.last() <= n_points
}

/// The number of paths that `path_starts` describes.
pub open spec fn segment_count(starts: Seq<usize>) -> nat {
    if starts.len() < 2 {
        0
    } else {
        (starts.len() - 1) as nat
    }
}

/// The paths that a flat buffer holds: path `i` is `points[starts[i]..starts[i + 1]]`;
/// fewer than two offsets hold no path.
pub open spec fn blob_paths<T>(points: Seq<T>, starts: Seq<usize>) -> Seq<Seq<T>> {
    Seq::new(
        segment_count(starts),
        |i: int| points.subrange(starts[i] as int, starts[i + 1] as int),
    )
}

/// Offsets that never decrease between neighbours never decrease at all.
proof fn lemma_sorted_from_neighbours(starts: Seq<usize>)
    requires
        forall|k: int| 0 <= k < starts.len() - 1 ==> #[trigger] starts[k] <= starts[k + 1],
    ensures
        forall|i: int, j: int| 0 <= i <= j < starts.len() ==> starts[i] <= starts[j],
{
    assert forall|i: int, j: int| 0 <= i <= j < starts.len() implies starts[i] <= starts[j] by {
        lemma_sorted_range(starts, i, j);
    }
}

proof fn lemma_sorted_range(starts: Seq<usize>, i: int, j: int)
    requires
        forall|k: int| 0 <= k < starts.len() - 1 ==> #[trigger] starts[k] <= starts[k + 1],
        0 <= i <= j < starts.len(),
    ensures
        starts[i] <= starts[j],
    decreases j - i,
{
    if i < j {
        lemma_sorted_range(starts, i, j - 1);
        assert(starts[j - 1] <= starts[j]);
    }
}

/// Checks [`starts_in_bounds`] on concrete offsets.
fn starts_fit(starts: &Vec<usize>, n_points: usize) -> (b: bool)
    ensures
        b == starts_in_bounds(starts@, n_points as nat),
{
    let n = starts.len();
    if n < 2 {
        return true;
    }
    let mut k: usize = 0;
    while k + 1 < n
        invariant
            n == starts@.len(),
            n >= 2,
            k + 1 <= n,
            forall|m: int| 0 <= m < k ==> #[trigger] starts@[m] <= starts@[m + 1],
        decreases n - k,
    {
        if starts[k] > starts[k + 1] {
            return false;
        }
        k = k + 1;
    }
    proof {
        lemma_sorted_from_neighbours(starts@);
    }
    starts[n - 1] <= n_points
}

/// Flat multi-path buffer (64-bit coordinates).
#[derive(Debug)]
pub struct PathsBlob64 {
    /// All points concatenated.
    pub points: Vec<P64>,
    /// Offsets into `points`; length = paths + 1.
    pub path_starts: Vec<usize>,
}

impl PathsBlob64 {
    /// Every segment that `path_starts` describes lies within `points`.
    pub open spec fn well_formed(&self) -> bool {
        starts_in_bounds(self.path_starts@, self.points@.len())
    }

    /// The paths that this buffer holds.
    pub open spec fn paths(&self) -> Seq<Seq<P64>> {
        blob_paths(self.points@, self.path_starts@)
    }

    /// Whether every segment that `path_starts` describes lies within `points`.
    pub fn is_well_formed(&self) -> (b: bool)
        ensures
            b == self.well_formed(),
    {
        starts_fit(&self.path_starts, self.points.len())
    }
}

/// Flat multi-path buffer (double coordinates).
#[derive(Debug)]
pub struct PathsBlobD {
    /// All points concatenated.
    pub points: Vec<PD>,
    /// Offsets into `points`; length = paths + 1.
    pub path_starts: Vec<usize>,
}

impl PathsBlobD {
    /// Every segment that `path_starts` describes lies within `points`.
    pub open spec fn well_formed(&self) -> bool {
        starts_in_bounds(self.path_starts@, self.points@.len())
    }

    /// The paths that this buffer holds.
    pub open spec fn paths(&self) -> Seq<Seq<PD>> {
        blob_paths(self.points@, self.path_starts@)
    }

    /// Whether every segment that `path_starts` describes lies within `points`.
    pub fn is_well_formed(&self) -> (b: bool)
        ensures
            b == self.well_formed(),
    {
        starts_fit(&self.path_starts, self.points.len())
    }
}

impl Clone for PathsBlob64 {
    fn clone(&self) -> (b: Self)
        ensures
            b.points@ == self.points@,
            b.path_starts@ == self.path_starts@,
    {
        PathsBlob64 {
            points: vstd::slice::slice_to_vec(self.points.as_slice()),
            path_starts: vstd::slice::slice_to_vec(self.path_starts.as_slice()),
        }
    }
}

impl Default for PathsBlob64 {
    fn default() -> (b: Self)
        ensures
            b.points@ == Seq::<P64>::empty(),
            b.path_starts@ == Seq::<usize>::empty(),
    {
        PathsBlob64 { points: Vec::new(), path_starts: Vec::new() }
    }
}

impl Clone for PathsBlobD {
    fn clone(&self) -> (b: Self)
        ensures
            b.points@ == self.points@,
            b.path_starts@ == self.path_starts@,
    {
        PathsBlobD {
            points: vstd::slice::slice_to_vec(self.points.as_slice()),
            path_starts: vstd::slice::slice_to_vec(self.path_starts.as_slice()),
        }
    }
}

impl Default for PathsBlobD {
    fn default() -> (b: Self)
        ensures
            b.points@ == Seq::<PD>::empty(),
            b.path_starts@ == Seq::<usize>::empty(),
    {
        PathsBlobD { points: Vec::new(), path_starts: Vec::new() }
    }
}

/// Closed and open solutions of an integer clip, as flat buffers.
pub struct Exec64 {
    /// Closed paths.
    pub closed: PathsBlob64,
    /// Open paths.
    pub open: PathsBlob64,
}

/// Closed and open solutions of a double clip, as flat buffers.
pub struct ExecD {
    /// Closed paths.
    pub closed: PathsBlobD,
    /// Open paths.
    pub open: PathsBlobD,
}

/// Hierarchical integer clip: native polygon-tree root handle (`0` = none) and open paths.
pub struct TreeExec64 {
    /// Opaque native root handle; `0` means there is no tree.
    pub root: usize,
    /// Open paths.
    pub open: PathsBlob64,
}

/// Hierarchical double clip: native polygon-tree root handle (`0` = none) and open paths.
pub struct TreeExecD {
    /// Opaque native root handle; `0` means there is no tree.
    pub root: usize,
    /// Open paths.
    pub open: PathsBlobD,
}

/// Native Clipper2 `ClipType`.
#[derive(Clone, Copy, Debug, PartialEq, Eq, Structural)]
pub enum ClipperClipType {
    NoClip,
    Intersection,
    Union,
    Difference,
    Xor,
}

/// Native Clipper2 `FillRule`.
#[derive(Clone, Copy, Debug, PartialEq, Eq, Structural)]
pub enum ClipperFillRule {
    EvenOdd,
    NonZero,
    Positive,
    Negative,
}

/// Native join type.
#[derive(Clone, Copy, Debug, PartialEq, Eq, Structural)]
pub enum ClipperJoinType {
    Square,
    Round,
    Miter,
}

/// Native Clipper2 `EndType`.
#[derive(Clone, Copy, Debug, PartialEq, Eq, Structural)]
pub enum ClipperEndType {
    Polygon,
    Joined,
    Butt,
    Square,
    Round,
}

/// Native `PointInPolygon` result.
#[derive(Clone, Copy, Debug, PartialEq, Eq, Structural)]
pub enum ClipperPointInPolygonResult {
    IsOn,
    IsInside,
    IsOutside,
}

} // verus!
