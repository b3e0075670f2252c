use vstd::prelude::*;

use super::paths::{LazyPaths64, Paths64};
use crate::bridge::{Exec64, PathsBlob64, TreeExec64, P64};
use crate::paths_blob::PathsBlob64Iter;
use crate::poly_path::{initial_stack, PolyCxxPreorderIter64};

verus! {

/// Result of an integer clip: closed and open solutions as native buffers.
#[derive(Debug)]
pub struct ClipSolution64 {
    closed: PathsBlob64,
    open: PathsBlob64,
}

impl Clone for ClipSolution64 {
    fn clone(&self) -> (r: Self)
        ensures
            r.closed_paths() == self.closed_paths(),
            r.open_paths() == self.open_paths(),
    {
        proof {
            use_type_invariant(self);
        }
        ClipSolution64 { closed: self.closed.clone(), open: self.open.clone() }
    }
}

impl ClipSolution64 {
    #[verifier::type_invariant]
    spec fn inv(self) -> bool {
        self.closed.well_formed() && self.open.well_formed()
    }

    /// The closed paths of the solution.
    pub closed spec fn closed_paths(&self) -> Seq<Seq<P64>> {
        self.closed.paths()
    }

    /// The open paths of the solution.
    pub closed spec fn open_paths(&self) -> Seq<Seq<P64>> {
        self.open.paths()
    }

    /// The solution that the engine's `Execute` returned.
    pub fn from_exec(out: Exec64) -> (s: Self)
        requires
            out.closed.well_formed(),
            out.open.well_formed(),
        ensures
            s.closed_paths() == out.closed.paths(),
            s.open_paths() == out.open.paths(),
    {
        ClipSolution64 { closed: out.closed, open: out.open }
    }

    /// `true` if there is no closed output.
    pub fn closed_is_empty(&self) -> (b: bool)
        ensures
            b == (self.closed_paths().len() == 0),
    {
        self.closed.path_starts.len() < 2
    }

    /// `true` if there is no open output.
    pub fn open_is_empty(&self) -> (b: bool)
        ensures
            b == (self.open_paths().len() == 0),
    {
        self.open.path_starts.len() < 2
    }

    /// Iterator over closed paths.
    pub fn iter_closed(&self) -> (it: PathsBlob64Iter<'_>)
        ensures
            it.remaining_paths() == self.closed_paths(),
            it.reads_well_formed(),
    {
        proof {
            use_type_invariant(self);
        }
        PathsBlob64Iter::new(&self.closed)
    }

    /// Iterator over open paths.
    pub fn iter_open(&self) -> (it: PathsBlob64Iter<'_>)
        ensures
            it.remaining_paths() == self.open_paths(),
            it.reads_well_formed(),
    {
        proof {
            use_type_invariant(self);
        }
        PathsBlob64Iter::new(&self.open)
    }

    /// Materializes all closed paths.
    pub fn to_closed(&self) -> (r: Paths64)
        ensures
            r@ == self.closed_paths(),
    {
        proof {
            use_type_invariant(self);
        }
        LazyPaths64::from_blob_ref(&self.closed)
    }

    /// Materializes all open paths.
    pub fn to_open(&self) -> (r: Paths64)
        ensures
            r@ == self.open_paths(),
    {
        proof {
            use_type_invariant(self);
        }
        LazyPaths64::from_blob_ref(&self.open)
    }

    /// Splits into two lazy wrappers (no extra copy of the buffers).
    pub fn into_lazy(self) -> (r: (LazyPaths64, LazyPaths64))
        ensures
            r.0@ == self.closed_paths(),
            r.1@ == self.open_paths(),
    {
        proof {
            use_type_invariant(&self);
        }
        (LazyPaths64::from_blob(self.closed), LazyPaths64::from_blob(self.open))
    }
}

/// Result of a hierarchical integer clip: optional native `PolyPath64` root + open paths.
///
/// The polygon tree is consumed through [`Self::into_open_and_poly_preorder`], whose
/// traversal hands the root over for release; [`Self::into_open_lazy`] keeps the open
/// paths only, and the root that [`Self::poly_root`] reports is then the caller's to
/// release.
#[derive(Debug)]
pub struct ClipTreeSolution64 {
    poly_root: Option<usize>,
    open: PathsBlob64,
}

impl ClipTreeSolution64 {
    #[verifier::type_invariant]
    spec fn inv(self) -> bool {
        &&& self.open.well_formed()
        &&& self.poly_root != Some(0usize)
    }

    /// The native polygon-tree root, if there is one.
    pub closed spec fn root(&self) -> Option<usize> {
        self.poly_root
    }

    /// The open paths of the solution.
    pub closed spec fn open_paths(&self) -> Seq<Seq<P64>> {
        self.open.paths()
    }

    /// The solution that the engine's tree `Execute` returned (root `0` = no tree).
    pub fn from_tree_exec(te: TreeExec64) -> (s: Self)
        requires
            te.open.well_formed(),
        ensures
            s.root() == (if te.root == 0 { None } else { Some(te.root) }),
            s.open_paths() == te.open.paths(),
    {
        ClipTreeSolution64 { poly_root: if te.root == 0 { None } else { Some(te.root) }, open: te.open }
    }

    /// The native root handle, if any (`Some` is never `0`).
    pub fn poly_root(&self) -> (r: Option<usize>)
        ensures
            r == self.root(),
            r != Some(0usize),
    {
        proof {
            use_type_invariant(self);
        }
        self.poly_root
    }

    /// `true` if a non-null polygon tree root exists.
    pub fn has_poly_tree(&self) -> (b: bool)
        ensures
            b == (self.root() is Some),
    {
        proof {
            use_type_invariant(self);
        }
        match self.poly_root {
            Some(r) => r != 0,
            None => false,
        }
    }

    /// `true` when there is no open path.
    pub fn open_is_empty(&self) -> (b: bool)
        ensures
            b == (self.open_paths().len() == 0),
    {
        self.open.path_starts.len() < 2
    }

    /// Open-path iterator.
    pub fn iter_open(&self) -> (it: PathsBlob64Iter<'_>)
        ensures
            it.remaining_paths() == self.open_paths(),
            it.reads_well_formed(),
    {
        proof {
            use_type_invariant(self);
        }
        PathsBlob64Iter::new(&self.open)
    }

    /// Collects open paths.
    pub fn to_open(&self) -> (r: Paths64)
        ensures
            r@ == self.open_paths(),
    {
        proof {
            use_type_invariant(self);
        }
        LazyPaths64::from_blob_ref(&self.open)
    }

    /// Keeps the open paths only; the polygon tree is dropped from the solution.
    pub fn into_open_lazy(self) -> (r: LazyPaths64)
        ensures
            r@ == self.open_paths(),
    {
        proof {
            use_type_invariant(&self);
        }
        LazyPaths64::from_blob(self.open)
    }

    /// Lazy open paths + preorder traversal of the native `PolyPath64` tree, which owns
    /// the root from then on.
    pub fn into_open_and_poly_preorder(self) -> (r: (LazyPaths64, PolyCxxPreorderIter64))
        ensures
            r.0@ == self.open_paths(),
            r.1.pending() == initial_stack(
                match self.root() {
                    Some(x) => x,
                    None => 0usize,
                },
            ),
            r.1.owned_root() == self.root(),
    {
        proof {
            use_type_invariant(&self);
        }
        let root = match self.poly_root {
            Some(r) => r,
            None => 0,
        };
        let iter = PolyCxxPreorderIter64::new(root);
        (LazyPaths64::from_blob(self.open), iter)
    }
}

} // verus!
