//! Ray and shape intersection tests for a pinhole camera: the records of a
//! scene and the decisions that turn the products of an intersection solver
//! into a hit or a miss.
//!
//! Every number is a [`scalar::Scalar`]: an IEEE 754 binary32 number held by
//! its bit pattern. The comparisons on it are exact, so each decision below is
//! stated for every bit pattern, the infinities and the NaNs included. The
//! sums, products, quotients and roots that a solver needs are rounded
//! arithmetic and are the caller's to compute.

use vstd::prelude::*;

pub mod object;
pub mod ray;
pub mod scalar;
pub mod shapes;
pub mod vector;

use crate::scalar::Scalar;
use crate::shapes::triangle::TriangleProducts;

verus! {

/// Whether `value` lies within `epsilon` of zero: `|value| <= epsilon`. No
/// NaN does.
pub open spec fn near_zero(value: Scalar, epsilon: Scalar) -> bool {
    value.spec_abs().spec_le(epsilon)
}

/// Tests whether `value` lies within the tolerance `epsilon` of zero.
pub fn is_zero(value: Scalar, epsilon: Scalar) -> (r: bool)
    requires
        epsilon.gt_zero(),
    ensures
        r == near_zero(value, epsilon),
        r == (!value.nan() && -epsilon.value() <= value.value() <= epsilon.value()),
{
    let size = value.abs();
    size.le(&epsilon)
}

/// A wider tolerance accepts whatever a narrower one accepts.
pub proof fn lemma_near_zero_widens(value: Scalar, narrow: Scalar, wide: Scalar)
    requires
        narrow.spec_le(wide),
        near_zero(value, narrow),
    ensures
        near_zero(value, wide),
{
}

/// The distances at which one ray meets the triangles of a mesh, in the
/// order of the mesh: what each triangle's products give at tolerance
/// `epsilon`, the misses left out.
pub open spec fn spec_mesh_intersections(mesh: Seq<TriangleProducts>, epsilon: Scalar) -> Seq<
    Scalar,
>
    decreases mesh.len(),
{
    if mesh.len() == 0 {
        Seq::empty()
    } else {
        let before = spec_mesh_intersections(mesh.drop_last(), epsilon);
        match mesh.last().hit(epsilon) {
            Some(distance) => before.push(distance),
            None => before,
        }
    }
}

/// Collects the distances at which one ray meets the triangles of a mesh.
pub fn ray_mesh_intersections(mesh: &[TriangleProducts], epsilon: Scalar) -> (r: Vec<Scalar>)
    requires
        epsilon.gt_zero(),
    ensures
        r@ == spec_mesh_intersections(mesh@, epsilon),
{
    let mut found: Vec<Scalar> = Vec::new();
    let mut i: usize = 0;
    while i < mesh.len()
        invariant
            i <= mesh@.len(),
            epsilon.gt_zero(),
            found@ == spec_mesh_intersections(mesh@.take(i as int), epsilon),
        decreases mesh@.len() - i,
    {
        proof {
            assert(mesh@.take(i + 1).drop_last() == mesh@.take(i as int));
            assert(mesh@.take(i + 1).last() == mesh@[i as int]);
        }
        match mesh[i].ray_intersection(epsilon) {
            Some(distance) => {
                found.push(distance);
            },
            None => {},
        }
        i += 1;
    }
    proof {
        assert(mesh@.take(i as int) == mesh@);
    }
    found
}

} // verus!
