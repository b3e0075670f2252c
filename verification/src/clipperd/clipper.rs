use vstd::prelude::*;

use super::paths::{LazyPathsD, PathsD};
use crate::bridge::{ExecD, PathsBlobD, TreeExecD, PD};
use crate::paths_blob::PathsBlobDIter;
use crate::poly_path::{initial_stack, PolyCxxPreorderIterD};

verus! {

/// Result of a double clip: closed and open solutions as native buffers.
#[derive(Debug)]
pub struct ClipSolutionD {
    closed: PathsBlobD,
    open: PathsBlobD,
}

impl Clone for ClipSolutionD {
    fn clone(&self) -> (r: Self)
        ensures
            r.closed_paths() == self.closed_paths(),
            r.open_paths() == self.open_paths(),
    {
        proof {
            use_type_invariant(self);
        }
        ClipSolutionD { closed: self.closed.clone(), open: self.open.clone() }
    }
}

impl ClipSolutionD {
    #[verifier::type_invariant]
    spec fn inv(self) -> bool {
        self.closed.well_formed() && self.open.well_formed()
    }

    /// The closed paths of the solution.
    pub closed spec fn closed_paths(&self) -> Seq<Seq<PD>> {
        self.closed.paths()
    }

    /// The open paths of the solution.
    pub closed spec fn open_paths(&self) -> Seq<Seq<PD>> {
        self.open.paths()
    }

    /// The solution that the engine's `Execute` returned.
    pub fn from_exec(out: ExecD) -> (s: Self)
        requires
            out.closed.well_formed(),
            out.open.well_formed(),
        ensures
            s.closed_paths() == out.closed.paths(),
            s.open_paths() == out.open.paths(),
    {
        ClipSolutionD { closed: out.closed, open: out.open }
    }

    /// `true` if there is no closed output.
    pub fn closed_is_empty(&self) -> (b: bool)
        ensures
            b == (self.closed_paths().len() == 0),
    {
        self.closed.path_starts.len() < 2
    }

    /// `true` if there is no open output.
    pub fn open_is_empty(&self) -> (b: bool)
        ensures
            b == (self.open_paths().len() == 0),
    {
        self.open.path_starts.len() < 2
    }

    /// Iterator over closed paths.
    pub fn iter_closed(&self) -> (it: PathsBlobDIter<'_>)
        ensures
            it.remaining_paths() == self.closed_paths(),
            it.reads_well_formed(),
    {
        proof {
            use_type_invariant(self);
        }
        PathsBlobDIter::new(&self.closed)
    }

    /// Iterator over open paths.
    pub fn iter_open(&self) -> (it: PathsBlobDIter<'_>)
        ensures
            it.remaining_paths() == self.open_paths(),
            it.reads_well_formed(),
    {
        proof {
            use_type_invariant(self);
        }
        PathsBlobDIter::new(&self.open)
    }

    /// Materializes all closed paths.
    pub fn to_closed(&self) -> (r: PathsD)
        ensures
            r@ == self.closed_paths(),
    {
        proof {
            use_type_invariant(self);
        }
        LazyPathsD::from_blob_ref(&self.closed)
    }

    /// Materializes all open paths.
    pub fn to_open(&self) -> (r: PathsD)
        ensures
            r@ == self.open_paths(),
    {
        proof {
            use_type_invariant(self);
        }
        LazyPathsD::from_blob_ref(&self.open)
    }

    /// Splits into two lazy wrappers (no extra copy of the buffers).
    pub fn into_lazy(self) -> (r: (LazyPathsD, LazyPathsD))
        ensures
            r.0@ == self.closed_paths(),
            r.1@ == self.open_paths(),
    {
        proof {
            use_type_invariant(&self);
        }
        (LazyPathsD::from_blob(self.closed), LazyPathsD::from_blob(self.open))
    }
}

/// Result of a hierarchical double clip: optional native `PolyPathD` root + open paths.
///
/// The polygon tree is consumed through [`Self::into_open_and_poly_preorder`], whose
/// traversal hands the root over for release; [`Self::into_open_lazy`] keeps the open
/// paths only, and the root that [`Self::poly_root`] reports is then the caller's to
/// release.
#[derive(Debug)]
pub struct ClipTreeSolutionD {
    poly_root: Option<usize>,
    open: PathsBlobD,
}

impl ClipTreeSolutionD {
    #[verifier::type_invariant]
    spec fn inv(self) -> bool {
        &&& self.open.well_formed()
        &&& self.poly_root != Some(0usize)
    }

    /// The native polygon-tree root, if there is one.
    pub closed spec fn root(&self) -> Option<usize> {
        self.poly_root
    }

    /// The open paths of the solution.
    pub closed spec fn open_paths(&self) -> Seq<Seq<PD>> {
        self.open.paths()
    }

    /// The solution that the engine's tree `Execute` returned (root `0` = no tree).
    pub fn from_tree_exec(te: TreeExecD) -> (s: Self)
        requires
            te.open.well_formed(),
        ensures
            s.root() == (if te.root == 0 { None } else { Some(te.root) }),
            s.open_paths() == te.open.paths(),
    {
        ClipTreeSolutionD { poly_root: if te.root == 0 { None } else { Some(te.root) }, open: te.open }
    }

    /// The native root handle, if any (`Some` is never `0`).
    pub fn poly_root(&self) -> (r: Option<usize>)
        ensures
            r == self.root(),
            r != Some(0usize),
    {
        proof {
            use_type_invariant(self);
        }
        self.poly_root
    }

    /// `true` if a non-null polygon tree root exists.
    pub fn has_poly_tree(&self) -> (b: bool)
        ensures
            b == (self.root() is Some),
    {
        proof {
            use_type_invariant(self);
        }
        match self.poly_root {
            Some(r) => r != 0,
            None => false,
        }
    }

    /// `true` when there is no open path.
    pub fn open_is_empty(&self) -> (b: bool)
        ensures
            b == (self.open_paths().len() == 0),
    {
        self.open.path_starts.len() < 2
    }

    /// Open-path iterator.
    pub fn iter_open(&self) -> (it: PathsBlobDIter<'_>)
        ensures
            it.remaining_paths() == self.open_paths(),
            it.reads_well_formed(),
    {
        proof {
            use_type_invariant(self);
        }
        PathsBlobDIter::new(&self.open)
    }

    /// Collects open paths.
    pub fn to_open(&self) -> (r: PathsD)
        ensures
            r@ == self.open_paths(),
    {
        proof {
            use_type_invariant(self);
        }
        LazyPathsD::from_blob_ref(&self.open)
    }

    /// Keeps the open paths only; the polygon tree is dropped from the solution.
    pub fn into_open_lazy(self) -> (r: LazyPathsD)
        ensures
            r@ == self.open_paths(),
    {
        proof {
            use_type_invariant(&self);
        }
        LazyPathsD::from_blob(self.open)
    }

    /// Lazy open paths + preorder traversal of the native `PolyPathD` tree, which owns
    /// the root from then on.
    pub fn into_open_and_poly_preorder(self) -> (r: (LazyPathsD, PolyCxxPreorderIterD))
        ensures
            r.0@ == self.open_paths(),
            r.1.pending() == initial_stack(
                match self.root() {
                    Some(x) => x,
                    None => 0usize,
                },
            ),
            r.1.owned_root() == self.root(),
    {
        proof {
            use_type_invariant(&self);
        }
        let root = match self.poly_root {
            Some(r) => r,
            None => 0,
        };
        let iter = PolyCxxPreorderIterD::new(root);
        (LazyPathsD::from_blob(self.open), iter)
    }
}

} // verus!
