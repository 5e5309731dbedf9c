//! Surface-side bookkeeping for intersection records.
//!
//! Every hit record carries a tag saying whether the surface was met from its
//! geometric outside or from its inside. The tag decides how the normal is
//! oriented (it must always oppose the incoming ray) and which relative
//! refractive index a dielectric uses.

use vstd::prelude::*;

verus! {

/// Which side of a surface a ray meets: the geometric outside or the inside.
#[derive(Clone, Copy, Debug, PartialEq, Eq, Structural)]
pub enum Side {
    Outside,
    Inside,
}

/// The side opposite to `s`.
pub open spec fn opposite(s: Side) -> Side {
    match s {
        Side::Outside => Side::Inside,
        Side::Inside => Side::Outside,
    }
}

impl Side {
    /// The opposite tag. Normal-flipping wrappers invert the side of every
    /// hit they pass through, so that an interior-facing surface registers
    /// with the orientation its light source expects.
    pub fn not(self) -> (r: Side)
        ensures
            r == opposite(self),
    {
        match self {
            Side::Outside => Side::Inside,
            Side::Inside => Side::Outside,
        }
    }
}

/// Orientation rule for hit normals: a hit is tagged `Inside` exactly when
/// the incoming ray points the same way as the outward surface normal, that
/// is, when their dot product is positive. In that case the caller flips the
/// normal, so the reported normal always opposes the incoming ray.
pub fn face_side(ray_along_outward_normal: bool) -> (r: Side)
    ensures
        r == (if ray_along_outward_normal {
            Side::Inside
        } else {
            Side::Outside
        }),
{
    if ray_along_outward_normal {
        Side::Inside
    } else {
        Side::Outside
    }
}

/// Flipping a side twice gives the side back.
pub proof fn lemma_opposite_involutive(s: Side)
    ensures
        opposite(opposite(s)) == s,
{
}

} // verus!
