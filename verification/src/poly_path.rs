//! Preorder traversal of a native polygon tree (`PolyPath64` / `PolyPathD`) without
//! building the tree in Rust.
//!
//! The traversal keeps a stack of pending `(node handle, depth)` entries. Each step takes
//! the top entry; the caller reads that node (hole flag, contour, children) from the
//! native tree and hands the children back, which are queued so that they come out
//! next, first child first, one level deeper. The traversal owns the native root and
//! tells the caller, once, which root to release.
use vstd::prelude::*;

use crate::clipper64::Path64;
use crate::clipperd::PathD;

verus! {

/// One node while traversing a native `PolyPath64` in preorder.
#[derive(Debug)]
pub struct PolyCxxNode64 {
    /// Depth from tree root (0 = root).
    pub depth: usize,
    /// Hole flag reported by Clipper.
    pub is_hole: bool,
    /// Single contour for this node.
    pub path: Path64,
}

/// One node while traversing a native `PolyPathD` in preorder.
#[derive(Debug)]
pub struct PolyCxxNodeD {
    /// Depth from root.
    pub depth: usize,
    /// Hole flag.
    pub is_hole: bool,
    /// Bit pattern of the node's `f64` scale (`f64::to_bits`).
    pub scale_bits: u64,
    /// Contour geometry.
    pub path: PathD,
}

impl Clone for PolyCxxNode64 {
    fn clone(&self) -> (r: Self)
        ensures
            r.depth == self.depth,
            r.is_hole == self.is_hole,
            r.path@ == self.path@,
    {
        PolyCxxNode64 { depth: self.depth, is_hole: self.is_hole, path: self.path.clone() }
    }
}

impl Clone for PolyCxxNodeD {
    fn clone(&self) -> (r: Self)
        ensures
            r.depth == self.depth,
            r.is_hole == self.is_hole,
            r.scale_bits == self.scale_bits,
            r.path@ == self.path@,
    {
        PolyCxxNodeD {
            depth: self.depth,
            is_hole: self.is_hole,
            scale_bits: self.scale_bits,
            path: self.path.clone(),
        }
    }
}

/// The entries that queuing `children` of a node at `depth` adds on top of the stack:
/// the last child lowest, so that the first child is taken first.
pub open spec fn queued_children(children: Seq<usize>, depth: usize) -> Seq<(usize, usize)> {
    children.reverse().map_values(|c: usize| (c, (depth + 1) as usize))
}

/// The pending entries of a fresh traversal from `root` (`0` = no tree).
pub open spec fn initial_stack(root: usize) -> Seq<(usize, usize)> {
    if root == 0 {
        Seq::empty()
    } else {
        seq![(root, 0usize)]
    }
}

/// After a node's children are queued on `before`, they are taken first, in their
/// order, each one level deeper than the node; the entries pending before come after.
pub proof fn lemma_children_taken_first(
    before: Seq<(usize, usize)>,
    children: Seq<usize>,
    depth: usize,
)
    requires
        depth < usize::MAX,
    ensures
        ({
            let after = before + queued_children(children, depth);
            &&& after.len() == before.len() + children.len()
            &&& forall|k: int|
                0 <= k < children.len() ==> #[trigger] after[after.len() - 1 - k] == (
                    children[k],
                    (depth + 1) as usize,
                )
            &&& after.take(before.len() as int) == before
        }),
{
    let after = before + queued_children(children, depth);
    assert(after.take(before.len() as int) =~= before);
}

/// A node's children all rank below it, so that a tree described by `tree` (children of
/// each node, in order) and `rank` has no cycle through that node.
pub open spec fn children_ranked(
    tree: spec_fn(usize) -> Seq<usize>,
    rank: spec_fn(usize) -> nat,
    node: usize,
) -> bool {
    forall|i: int| 0 <= i < tree(node).len() ==> rank(#[trigger] tree(node)[i]) < rank(node)
}

/// Preorder of the subtree at `node`, `node` at `depth`: the node, then the preorder of
/// each child in turn, one level deeper. Children that do not rank below their parent
/// are not descended into.
pub open spec fn preorder_node(
    tree: spec_fn(usize) -> Seq<usize>,
    rank: spec_fn(usize) -> nat,
    node: usize,
    depth: usize,
) -> Seq<(usize, usize)>
    decreases rank(node), 1nat, 0nat,
{
    seq![(node, depth)] + preorder_forest(tree, rank, tree(node), rank(node), (depth + 1) as usize)
}

/// Preorder of the subtrees at `nodes`, in order, each node at `depth`; only nodes that
/// rank below `bound` are descended into.
pub open spec fn preorder_forest(
    tree: spec_fn(usize) -> Seq<usize>,
    rank: spec_fn(usize) -> nat,
    nodes: Seq<usize>,
    bound: nat,
    depth: usize,
) -> Seq<(usize, usize)>
    decreases bound, 0nat, nodes.len(),
{
    if nodes.len() == 0 {
        Seq::empty()
    } else if rank(nodes[0]) < bound {
        preorder_node(tree, rank, nodes[0], depth) + preorder_forest(
            tree,
            rank,
            nodes.drop_first(),
            bound,
            depth,
        )
    } else {
        Seq::empty()
    }
}

/// The nodes that a traversal with `pending` entries still emits: the preorder of the
/// subtree of each entry, the entry taken next first.
pub open spec fn preorder_pending(
    tree: spec_fn(usize) -> Seq<usize>,
    rank: spec_fn(usize) -> nat,
    pending: Seq<(usize, usize)>,
) -> Seq<(usize, usize)>
    decreases pending.len(),
{
    if pending.len() == 0 {
        Seq::empty()
    } else {
        preorder_node(tree, rank, pending.last().0, pending.last().1) + preorder_pending(
            tree,
            rank,
            pending.drop_last(),
        )
    }
}

proof fn lemma_preorder_pending_concat(
    tree: spec_fn(usize) -> Seq<usize>,
    rank: spec_fn(usize) -> nat,
    a: Seq<(usize, usize)>,
    b: Seq<(usize, usize)>,
)
    ensures
        preorder_pending(tree, rank, a + b) == preorder_pending(tree, rank, b) + preorder_pending(
            tree,
            rank,
            a,
        ),
    decreases b.len(),
{
    if b.len() == 0 {
        assert(a + b =~= a);
        assert(preorder_pending(tree, rank, b) + preorder_pending(tree, rank, a)
            =~= preorder_pending(tree, rank, a));
    } else {
        lemma_preorder_pending_concat(tree, rank, a, b.drop_last());
        assert((a + b).drop_last() =~= a + b.drop_last());
        assert((a + b).last() == b.last());
        assert(preorder_pending(tree, rank, a + b) =~= preorder_pending(tree, rank, b)
            + preorder_pending(tree, rank, a));
    }
}

proof fn lemma_preorder_queued(
    tree: spec_fn(usize) -> Seq<usize>,
    rank: spec_fn(usize) -> nat,
    children: Seq<usize>,
    bound: nat,
    depth: usize,
)
    requires
        forall|i: int| 0 <= i < children.len() ==> rank(#[trigger] children[i]) < bound,
    ensures
        preorder_pending(tree, rank, queued_children(children, depth)) == preorder_forest(
            tree,
            rank,
            children,
            bound,
            (depth + 1) as usize,
        ),
    decreases children.len(),
{
    if children.len() == 0 {
        assert(queued_children(children, depth) =~= Seq::<(usize, usize)>::empty());
    } else {
        let rest = children.drop_first();
        lemma_preorder_queued(tree, rank, rest, bound, depth);
        let q = queued_children(children, depth);
        assert(q.drop_last() =~= queued_children(rest, depth));
        assert(q.last() == (children[0], (depth + 1) as usize));
    }
}

/// The traversal emits the preorder of the tree: taking the next entry `(n, d)` and
/// queuing the children of `n` (all ranked below `n`) emits `(n, d)` first, and the
/// preorder of what is then pending is the rest of the preorder pending before.
pub proof fn lemma_preorder_step(
    tree: spec_fn(usize) -> Seq<usize>,
    rank: spec_fn(usize) -> nat,
    pending: Seq<(usize, usize)>,
)
    requires
        pending.len() > 0,
        pending.last().1 < usize::MAX,
        children_ranked(tree, rank, pending.last().0),
    ensures
        preorder_pending(tree, rank, pending) == seq![pending.last()] + preorder_pending(
            tree,
            rank,
            pending.drop_last() + queued_children(tree(pending.last().0), pending.last().1),
        ),
{
    let (n, d) = pending.last();
    let q = queued_children(tree(n), d);
    lemma_preorder_pending_concat(tree, rank, pending.drop_last(), q);
    lemma_preorder_queued(tree, rank, tree(n), rank(n), d);
    assert(preorder_pending(tree, rank, pending) =~= seq![pending.last()] + preorder_pending(
        tree,
        rank,
        pending.drop_last() + q,
    ));
}

/// A traversal started from `root` emits the preorder of the tree at `root`, the root
/// first at depth `0`; from `0` (no tree) it emits nothing.
pub proof fn lemma_preorder_start(
    tree: spec_fn(usize) -> Seq<usize>,
    rank: spec_fn(usize) -> nat,
    root: usize,
)
    ensures
        root == 0 ==> preorder_pending(tree, rank, initial_stack(root)) == Seq::<(usize, usize)>::empty(),
        root != 0 ==> preorder_pending(tree, rank, initial_stack(root)) == preorder_node(
            tree,
            rank,
            root,
            0,
        ),
        root != 0 ==> preorder_pending(tree, rank, initial_stack(root))[0] == (root, 0usize),
{
    if root != 0 {
        let s = initial_stack(root);
        assert(s.drop_last() =~= Seq::<(usize, usize)>::empty());
        assert(preorder_pending(tree, rank, s.drop_last()) =~= Seq::<(usize, usize)>::empty());
        assert(preorder_pending(tree, rank, s) =~= preorder_node(tree, rank, root, 0));
    }
}

/// Preorder traversal state over a native `PolyPath64`.
pub struct PolyCxxPreorderIter64 {
    stack: Vec<(usize, usize)>,
    root_to_free: Option<usize>,
}

impl PolyCxxPreorderIter64 {
    /// Pending `(node, depth)` entries; the last one is taken next.
    pub closed spec fn pending(&self) -> Seq<(usize, usize)> {
        self.stack@
    }

    /// The native root that the traversal still owns.
    pub closed spec fn owned_root(&self) -> Option<usize> {
        self.root_to_free
    }

    /// `root` is the opaque native pointer as `usize`; `0` means empty.
    pub fn new(root: usize) -> (it: Self)
        ensures
            it.pending() == initial_stack(root),
            it.owned_root() == (if root == 0 { None } else { Some(root) }),
    {
        if root == 0 {
            return Self { stack: Vec::new(), root_to_free: None };
        }
        let mut stack: Vec<(usize, usize)> = Vec::new();
        stack.push((root, 0));
        let it = Self { stack, root_to_free: Some(root) };
        assert(it.pending() =~= initial_stack(root));
        it
    }

    /// Takes the next `(node, depth)` entry; `None` once the traversal is done.
    pub fn next_entry(&mut self) -> (r: Option<(usize, usize)>)
        ensures
            old(self).pending().len() == 0 ==> r is None && final(self).pending() == old(
                self,
            ).pending(),
            old(self).pending().len() > 0 ==> r == Some(old(self).pending().last())
                && final(self).pending() == old(self).pending().drop_last(),
            final(self).owned_root() == old(self).owned_root(),
    {
        self.stack.pop()
    }

    /// Queues the children of the node just taken at `depth`, so that they come out
    /// next, first child first.
    pub fn push_children(&mut self, children: &Vec<usize>, depth: usize)
        requires
            depth < usize::MAX,
        ensures
            final(self).pending() == old(self).pending() + queued_children(children@, depth),
            final(self).owned_root() == old(self).owned_root(),
    {
        let n = children.len();
        let mut i: usize = n;
        while i > 0
            invariant
                n == children@.len(),
                i <= n,
                depth < usize::MAX,
                self.stack@ =~= old(self).stack@ + queued_children(children@, depth).take(
                    (n - i) as int,
                ),
                self.root_to_free == old(self).root_to_free,
            decreases i,
        {
            i = i - 1;
            let ghost prev = self.stack@;
            self.stack.push((children[i], depth + 1));
            assert(queued_children(children@, depth).take((n - i) as int) =~= queued_children(
                children@,
                depth,
            ).take((n - i - 1) as int).push((children@[i as int], (depth + 1) as usize)));
        }
        assert(queued_children(children@, depth).take(n as int) =~= queued_children(
            children@,
            depth,
        ));
    }

    /// Hands over the native root to release: `Some` the first time, `None` after.
    pub fn take_root_to_free(&mut self) -> (r: Option<usize>)
        ensures
            r == old(self).owned_root(),
            final(self).owned_root() is None,
            final(self).pending() == old(self).pending(),
    {
        self.root_to_free.take()
    }
}

/// Preorder traversal state over a native `PolyPathD`.
pub struct PolyCxxPreorderIterD {
    stack: Vec<(usize, usize)>,
    root_to_free: Option<usize>,
}

impl PolyCxxPreorderIterD {
    /// Pending `(node, depth)` entries; the last one is taken next.
    pub closed spec fn pending(&self) -> Seq<(usize, usize)> {
        self.stack@
    }

    /// The native root that the traversal still owns.
    pub closed spec fn owned_root(&self) -> Option<usize> {
        self.root_to_free
    }

    /// `root` is the opaque native pointer as `usize`; `0` means empty.
    pub fn new(root: usize) -> (it: Self)
        ensures
            it.pending() == initial_stack(root),
            it.owned_root() == (if root == 0 { None } else { Some(root) }),
    {
        if root == 0 {
            return Self { stack: Vec::new(), root_to_free: None };
        }
        let mut stack: Vec<(usize, usize)> = Vec::new();
        stack.push((root, 0));
        let it = Self { stack, root_to_free: Some(root) };
        assert(it.pending() =~= initial_stack(root));
        it
    }

    /// Takes the next `(node, depth)` entry; `None` once the traversal is done.
    pub fn next_entry(&mut self) -> (r: Option<(usize, usize)>)
        ensures
            old(self).pending().len() == 0 ==> r is None && final(self).pending() == old(
                self,
            ).pending(),
            old(self).pending().len() > 0 ==> r == Some(old(self).pending().last())
                && final(self).pending() == old(self).pending().drop_last(),
            final(self).owned_root() == old(self).owned_root(),
    {
        self.stack.pop()
    }

    /// Queues the children of the node just taken at `depth`, so that they come out
    /// next, first child first.
    pub fn push_children(&mut self, children: &Vec<usize>, depth: usize)
        requires
            depth < usize::MAX,
        ensures
            final(self).pending() == old(self).pending() + queued_children(children@, depth),
            final(self).owned_root() == old(self).owned_root(),
    {
        let n = children.len();
        let mut i: usize = n;
        while i > 0
            invariant
                n == children@.len(),
                i <= n,
                depth < usize::MAX,
                self.stack@ =~= old(self).stack@ + queued_children(children@, depth).take(
                    (n - i) as int,
                ),
                self.root_to_free == old(self).root_to_free,
            decreases i,
        {
            i = i - 1;
            self.stack.push((children[i], depth + 1));
            assert(queued_children(children@, depth).take((n - i) as int) =~= queued_children(
                children@,
                depth,
            ).take((n - i - 1) as int).push((children@[i as int], (depth + 1) as usize)));
        }
        assert(queued_children(children@, depth).take(n as int) =~= queued_children(
            children@,
            depth,
        ));
    }

    /// Hands over the native root to release: `Some` the first time, `None` after.
    pub fn take_root_to_free(&mut self) -> (r: Option<usize>)
        ensures
            r == old(self).owned_root(),
            final(self).owned_root() is None,
            final(self).pending() == old(self).pending(),
    {
        self.root_to_free.take()
    }
}

} // verus!
