//! The shape of the bounding-volume hierarchy.
//!
//! The tree is built over a list of objects that has already been sorted by
//! the centroid of each object's bounding box along the widest axis; those
//! sort keys are floating-point work and live in the application around this
//! crate. What is decided here is everything after the sort: how the sorted
//! list is partitioned into a binary tree. A single object becomes a leaf;
//! a longer list is split at its midpoint and each half built recursively,
//! so the recursion terminates at size one. The contract pins the whole
//! outcome: read left to right, the leaves are exactly the input positions
//! in order - no object is lost, duplicated or reordered, and the tree holds
//! exactly as many leaves as there are objects. Building from an empty list
//! is a construction-time fatal error, which the precondition rules out.

use vstd::prelude::*;

verus! {

/// The shape of one BVH subtree over a contiguous run of the sorted object
/// list: a leaf names the position of its object, a node holds the two
/// halves of the run.
pub enum BvhShape {
    Leaf(usize),
    Node { left: Box<BvhShape>, right: Box<BvhShape> },
}

impl BvhShape {
    /// The leaf positions of this subtree, left to right.
    pub open spec fn leaves(&self) -> Seq<int>
        decreases self,
    {
        match self {
            BvhShape::Leaf(i) => seq![*i as int],
            BvhShape::Node { left, right } => left.leaves() + right.leaves(),
        }
    }

    /// Every node splits its run at the midpoint: the left child holds the
    /// first half (rounded down), the right child the rest. Together with
    /// the leaf sequence this pins the tree shape completely, and bounds its
    /// depth logarithmically in the number of objects.
    pub open spec fn well_split(&self) -> bool
        decreases self,
    {
        match self {
            BvhShape::Leaf(_) => true,
            BvhShape::Node { left, right } => {
                let n = self.leaves().len();
                &&& left.leaves().len() == n / 2
                &&& right.leaves().len() == n - n / 2
                &&& left.well_split()
                &&& right.well_split()
            },
        }
    }
}

/// The tree shape over the run of `n` sorted objects that starts at
/// position `lo`: a leaf for a single object, else the two halves of the
/// median split, first half left. Its leaves are exactly the run, in order.
pub fn build_shape(lo: usize, n: usize) -> (s: BvhShape)
    requires
        1 <= n,
        lo + n <= usize::MAX,
    ensures
        s.leaves() == Seq::new(n as nat, |k: int| lo + k),
        s.well_split(),
    decreases n,
{
    if n == 1 {
        let s = BvhShape::Leaf(lo);
        proof {
            assert(s.leaves() =~= Seq::new(n as nat, |k: int| lo + k));
        }
        s
    } else {
        let half = n / 2;
        let left = build_shape(lo, half);
        let right = build_shape(lo + half, n - half);
        let s = BvhShape::Node { left: Box::new(left), right: Box::new(right) };
        proof {
            assert(s.leaves() =~= Seq::new(n as nat, |k: int| lo + k));
        }
        s
    }
}

} // verus!
