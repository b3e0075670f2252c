use vstd::prelude::*;

use super::path::PathD;
use super::paths::{pathsd_view, PathsD};
use crate::bridge::PD;

verus! {

/// Polygon hierarchy of a double clip, held in Rust: each node has a contour, a hole
/// flag, the bit pattern of its `f64` scale, and its child nodes.
#[derive(Debug)]
pub struct PolyTreeD {
    pub(crate) childs: Vec<PolyTreeD>,
    pub(crate) is_hole: bool,
    pub(crate) polygon: PathD,
    pub(crate) scale_bits: u64,
}

/// The contours of the nodes in `nodes` that are holes, in order.
pub open spec fn hole_contours_d(nodes: Seq<PolyTreeD>) -> Seq<Seq<PD>> {
    nodes.filter(|c: PolyTreeD| c.hole()).map_values(|c: PolyTreeD| c.contour())
}

/// The hole contours of `nodes` are, in order, the contours of exactly the nodes that
/// are holes: `idx` lists the positions of the hole nodes, increasing, every hole node's
/// position is listed, and entry `j` is the contour of the node at `idx[j]`.
pub proof fn lemma_hole_contours_select(nodes: Seq<PolyTreeD>) -> (idx: Seq<int>)
    ensures
        idx.len() == hole_contours_d(nodes).len(),
        forall|j: int|
            0 <= j < idx.len() ==> 0 <= #[trigger] idx[j] < nodes.len() && nodes[idx[j]].hole()
                && hole_contours_d(nodes)[j] == nodes[idx[j]].contour(),
        forall|j: int, k: int| 0 <= j < k < idx.len() ==> idx[j] < idx[k],
        forall|i: int| 0 <= i < nodes.len() && (#[trigger] nodes[i]).hole() ==> idx.contains(i),
    decreases nodes.len(),
{
    let pred = |c: PolyTreeD| c.hole();
    if nodes.len() == 0 {
        assert(nodes.filter(pred) =~= Seq::<PolyTreeD>::empty()) by {
            reveal_with_fuel(Seq::filter, 1);
        }
        Seq::empty()
    } else {
        let rest = nodes.drop_last();
        let last = nodes.last();
        let n = nodes.len() - 1;
        let prev = lemma_hole_contours_select(rest);
        assert(nodes.filter(pred) == if last.hole() {
            rest.filter(pred).push(last)
        } else {
            rest.filter(pred)
        }) by {
            reveal_with_fuel(Seq::filter, 1);
        }
        if last.hole() {
            assert(hole_contours_d(nodes) =~= hole_contours_d(rest).push(last.contour()));
            let idx = prev.push(n);
            assert forall|i: int| 0 <= i < nodes.len() && (#[trigger] nodes[i]).hole() implies idx.contains(i) by {
                if i == n {
                    assert(idx[idx.len() - 1] == i);
                } else {
                    assert(rest[i] == nodes[i]);
                    assert(prev.contains(i));
                    let j = choose|j: int| 0 <= j < prev.len() && prev[j] == i;
                    assert(idx[j] == i);
                }
            }
            assert forall|j: int| 0 <= j < idx.len() implies 0 <= #[trigger] idx[j] < nodes.len()
                && nodes[idx[j]].hole() && hole_contours_d(nodes)[j] == nodes[idx[j]].contour() by {
                if j < prev.len() {
                    assert(idx[j] == prev[j]);
                    assert(rest[prev[j]] == nodes[prev[j]]);
                }
            }
            idx
        } else {
            assert(hole_contours_d(nodes) =~= hole_contours_d(rest));
            assert forall|i: int| 0 <= i < nodes.len() && (#[trigger] nodes[i]).hole() implies prev.contains(i) by {
                assert(i != n);
                assert(rest[i] == nodes[i]);
            }
            assert forall|j: int| 0 <= j < prev.len() implies 0 <= #[trigger] prev[j] < nodes.len()
                && nodes[prev[j]].hole() && hole_contours_d(nodes)[j] == nodes[prev[j]].contour() by {
                assert(rest[prev[j]] == nodes[prev[j]]);
            }
            prev
        }
    }
}

impl PolyTreeD {
    /// The child nodes.
    pub closed spec fn children(&self) -> Seq<PolyTreeD> {
        self.childs@
    }

    /// Whether this node is a hole.
    pub closed spec fn hole(&self) -> bool {
        self.is_hole
    }

    /// The contour of this node.
    pub closed spec fn contour(&self) -> Seq<PD> {
        self.polygon@
    }

    /// Bit pattern of this node's scale.
    pub closed spec fn scale_pattern(&self) -> u64 {
        self.scale_bits
    }

    /// A node with the given contour, hole flag, scale bit pattern and children.
    pub fn new(polygon: PathD, is_hole: bool, scale_bits: u64, childs: Vec<PolyTreeD>) -> (t: Self)
        ensures
            t.contour() == polygon@,
            t.hole() == is_hole,
            t.scale_pattern() == scale_bits,
            t.children() == childs@,
    {
        PolyTreeD { childs, is_hole, polygon, scale_bits }
    }

    /// Bit pattern of this node's `f64` scale (`f64::to_bits`).
    pub fn scale_bits(&self) -> (b: u64)
        ensures
            b == self.scale_pattern(),
    {
        self.scale_bits
    }

    /// Mutable access to the child nodes.
    pub fn get_childs(&mut self) -> (r: &mut Vec<Self>)
        ensures
            r@ == old(self).children(),
            final(self).children() == final(r)@,
            final(self).hole() == old(self).hole(),
            final(self).contour() == old(self).contour(),
            final(self).scale_pattern() == old(self).scale_pattern(),
    {
        &mut self.childs
    }

    /// Whether this node is a hole.
    pub fn is_hole(&self) -> (b: bool)
        ensures
            b == self.hole(),
    {
        self.is_hole
    }

    /// The contours of the direct children that are holes, in order.
    pub fn get_hole_paths(&self) -> (r: PathsD)
        ensures
            r@ == hole_contours_d(self.children()),
            exists|idx: Seq<int>|
                #![trigger idx.len()]
                {
                    &&& idx.len() == r@.len()
                    &&& forall|j: int|
                        0 <= j < idx.len() ==> 0 <= #[trigger] idx[j] < self.children().len()
                            && self.children()[idx[j]].hole() && r@[j]
                            == self.children()[idx[j]].contour()
                    &&& forall|j: int, k: int| 0 <= j < k < idx.len() ==> idx[j] < idx[k]
                    &&& forall|i: int|
                        0 <= i < self.children().len() && (#[trigger] self.children()[i]).hole()
                            ==> idx.contains(i)
                },
    {
        let n = self.childs.len();
        let mut out: Vec<PathD> = Vec::new();
        let mut i: usize = 0;
        while i < n
            invariant
                n == self.childs@.len(),
                i <= n,
                pathsd_view(out@) =~= hole_contours_d(self.childs@.take(i as int)),
            decreases n - i,
        {
            let child = &self.childs[i];
            let ghost prefix = self.childs@.take(i as int);
            let ghost next = self.childs@.take(i + 1);
            assert(next.drop_last() =~= prefix);
            assert(next.last() == *child);
            if child.is_hole {
                let ghost prev = out@;
                out.push(child.polygon.copied());
                assert(pathsd_view(out@) =~= pathsd_view(prev).push(child.polygon@));
            }
            let ghost pred = |c: PolyTreeD| c.hole();
            assert(next.filter(pred) == if child.is_hole {
                prefix.filter(pred).push(*child)
            } else {
                prefix.filter(pred)
            }) by {
                reveal_with_fuel(Seq::filter, 1);
            }
            assert(hole_contours_d(next) =~= if child.is_hole {
                hole_contours_d(prefix).push(child.polygon@)
            } else {
                hole_contours_d(prefix)
            });
            i = i + 1;
        }
        assert(self.childs@.take(n as int) =~= self.childs@);
        let r = PathsD::from_vec(out);
        proof {
            let idx = lemma_hole_contours_select(self.children());
            assert(idx.len() == r@.len());
        }
        r
    }

    /// Copy of this node's contour.
    pub fn get_polygon(&self) -> (p: PathD)
        ensures
            p@ == self.contour(),
    {
        self.polygon.copied()
    }
}

} // verus!
