//! A rigid object made of triangles.

use vstd::prelude::*;

use crate::ray_mesh_intersections;
use crate::scalar::Scalar;
use crate::shapes::Traceable;
use crate::shapes::triangle::Triangle;
use crate::shapes::triangle::TriangleProducts;
use crate::spec_mesh_intersections;

verus! {

/// An ordered mesh of triangles with the colour and the optical constants of
/// its material. The constants are carried along; no decision reads them.
#[derive(Debug)]
pub struct CompositeObject {
    mesh: Vec<Triangle>,
    color: [u8; 3],
    refractive_index: Scalar,
    extinction_coefficient: Scalar,
}

impl CompositeObject {
    pub closed spec fn spec_mesh(self) -> Seq<Triangle> {
        self.mesh@
    }

    pub closed spec fn spec_color(self) -> [u8; 3] {
        self.color
    }

    pub closed spec fn spec_refractive_index(self) -> Scalar {
        self.refractive_index
    }

    pub closed spec fn spec_extinction_coefficient(self) -> Scalar {
        self.extinction_coefficient
    }

    pub fn new(
        mesh: Vec<Triangle>,
        color: [u8; 3],
        refractive_index: Scalar,
        extinction_coefficient: Scalar,
    ) -> (r: Self)
        ensures
            r.spec_mesh() == mesh@,
            r.spec_color() == color,
            r.spec_refractive_index() == refractive_index,
            r.spec_extinction_coefficient() == extinction_coefficient,
    {
        CompositeObject { mesh, color, refractive_index, extinction_coefficient }
    }

    pub fn color(&self) -> (r: &[u8; 3])
        ensures
            *r == self.spec_color(),
    {
        &self.color
    }

    pub fn refractive_index(&self) -> (r: Scalar)
        ensures
            r == self.spec_refractive_index(),
    {
        self.refractive_index
    }

    pub fn extinction_coefficient(&self) -> (r: Scalar)
        ensures
            r == self.spec_extinction_coefficient(),
    {
        self.extinction_coefficient
    }

    /// The member triangles, in their order.
    pub fn mesh(&self) -> (r: &Vec<Triangle>)
        ensures
            r@ == self.spec_mesh(),
    {
        &self.mesh
    }

    /// Puts each member triangle where a transform has moved it: `moved[i]`
    /// is what the transform made of triangle `i`. The object stays the one
    /// it was: as many triangles, the same colour and optical constants.
    pub fn transform_in_place(&mut self, moved: Vec<Triangle>)
        requires
            moved@.len() == old(self).spec_mesh().len(),
        ensures
            final(self).spec_mesh() == moved@,
            final(self).spec_color() == old(self).spec_color(),
            final(self).spec_refractive_index() == old(self).spec_refractive_index(),
            final(self).spec_extinction_coefficient() == old(self).spec_extinction_coefficient(),
    {
        self.mesh = moved;
    }
}

/// The nearest of the distances that are at least zero, by the total order
/// of bit patterns; none where no distance is at least zero.
pub open spec fn nearest_forward(distances: Seq<Scalar>) -> Option<Scalar>
    decreases distances.len(),
{
    if distances.len() == 0 {
        None
    } else {
        let before = nearest_forward(distances.drop_last());
        let candidate = distances.last();
        if !candidate.ge_zero() {
            before
        } else {
            match before {
                Some(best) => if best.spec_total_le(candidate) {
                    Some(best)
                } else {
                    Some(candidate)
                },
                None => Some(candidate),
            }
        }
    }
}

/// What `nearest_forward` picks: nothing exactly where no distance is at
/// least zero, else one of the distances, itself at least zero and no
/// greater than any other that is.
pub proof fn lemma_nearest_forward(distances: Seq<Scalar>)
    ensures
        nearest_forward(distances) is None <==> forall|i: int|
            0 <= i < distances.len() ==> !(#[trigger] distances[i]).ge_zero(),
        nearest_forward(distances) matches Some(best) ==> {
            &&& best.ge_zero()
            &&& exists|i: int| 0 <= i < distances.len() && #[trigger] distances[i] == best
            &&& forall|i: int|
                0 <= i < distances.len() && (#[trigger] distances[i]).ge_zero()
                    ==> best.spec_total_le(distances[i]) && best.spec_le(distances[i])
        },
    decreases distances.len(),
{
    if distances.len() > 0 {
        let front = distances.drop_last();
        let candidate = distances.last();
        lemma_nearest_forward(front);
        assert(forall|i: int| 0 <= i < front.len() ==> front[i] == distances[i]);
        match nearest_forward(distances) {
            Some(best) => {
                if nearest_forward(front) == Some(best) {
                    let i = choose|i: int| 0 <= i < front.len() && #[trigger] front[i] == best;
                    assert(distances[i] == best);
                } else {
                    assert(distances[distances.len() - 1] == best);
                }
                assert forall|i: int|
                    0 <= i < distances.len() && (#[trigger] distances[i]).ge_zero() implies (
                best.spec_total_le(distances[i]) && best.spec_le(distances[i])) by {
                    if i < front.len() {
                        assert(front[i].ge_zero());
                    }
                    best.lemma_rank_orders_as_value(distances[i]);
                }
            },
            None => {
                assert forall|i: int| 0 <= i < distances.len() implies !(
                #[trigger] distances[i]).ge_zero() by {
                    if i < front.len() {
                        assert(!front[i].ge_zero());
                    }
                }
            },
        }
        if forall|i: int| 0 <= i < distances.len() ==> !(#[trigger] distances[i]).ge_zero() {
            assert(!distances[distances.len() - 1].ge_zero());
            assert forall|i: int| 0 <= i < front.len() implies !(#[trigger] front[i]).ge_zero() by {
                assert(!distances[i].ge_zero());
            }
        }
    }
}

/// Picks the nearest of the distances that are at least zero.
pub fn nearest_hit(distances: &[Scalar]) -> (r: Option<Scalar>)
    ensures
        r == nearest_forward(distances@),
        r is None <==> forall|i: int|
            0 <= i < distances@.len() ==> !(#[trigger] distances@[i]).ge_zero(),
        r matches Some(best) ==> {
            &&& best.ge_zero()
            &&& exists|i: int| 0 <= i < distances@.len() && #[trigger] distances@[i] == best
            &&& forall|i: int|
                0 <= i < distances@.len() && (#[trigger] distances@[i]).ge_zero()
                    ==> best.spec_total_le(distances@[i]) && best.spec_le(distances@[i])
        },
{
    let mut best: Option<Scalar> = None;
    let mut i: usize = 0;
    while i < distances.len()
        invariant
            i <= distances@.len(),
            best == nearest_forward(distances@.take(i as int)),
        decreases distances@.len() - i,
    {
        let candidate = distances[i];
        proof {
            assert(distances@.take(i + 1).drop_last() == distances@.take(i as int));
            assert(distances@.take(i + 1).last() == candidate);
        }
        if candidate.is_ge_zero() {
            best = match best {
                Some(held) => {
                    if held.total_le(&candidate) {
                        Some(held)
                    } else {
                        Some(candidate)
                    }
                },
                None => Some(candidate),
            };
        }
        i += 1;
    }
    proof {
        assert(distances@.take(i as int) == distances@);
        lemma_nearest_forward(distances@);
    }
    best
}

/// The distances of a mesh are the hits of its triangles: a distance is
/// among them exactly where some triangle is met at it.
pub proof fn lemma_mesh_intersections_are_triangle_hits(
    mesh: Seq<TriangleProducts>,
    epsilon: Scalar,
    distance: Scalar,
)
    ensures
        spec_mesh_intersections(mesh, epsilon).contains(distance) <==> exists|i: int|
            0 <= i < mesh.len() && (#[trigger] mesh[i]).hit(epsilon) == Some(distance),
    decreases mesh.len(),
{
    let found = spec_mesh_intersections(mesh, epsilon);
    if mesh.len() > 0 {
        let front = mesh.drop_last();
        let before = spec_mesh_intersections(front, epsilon);
        lemma_mesh_intersections_are_triangle_hits(front, epsilon, distance);
        assert(forall|i: int| 0 <= i < front.len() ==> front[i] == mesh[i]);
        if found.contains(distance) {
            let k = choose|k: int| 0 <= k < found.len() && found[k] == distance;
            if k < before.len() {
                assert(before[k] == distance);
                let i = choose|i: int|
                    0 <= i < front.len() && (#[trigger] front[i]).hit(epsilon) == Some(distance);
                assert(mesh[i].hit(epsilon) == Some(distance));
            } else {
                assert(mesh[mesh.len() - 1].hit(epsilon) == Some(distance));
            }
        }
        if exists|i: int|
            0 <= i < mesh.len() && (#[trigger] mesh[i]).hit(epsilon) == Some(distance) {
            let i = choose|i: int|
                0 <= i < mesh.len() && (#[trigger] mesh[i]).hit(epsilon) == Some(distance);
            if i < front.len() {
                assert(front[i].hit(epsilon) == Some(distance));
                let k = choose|k: int| 0 <= k < before.len() && before[k] == distance;
                assert(found[k] == distance);
            } else {
                assert(found[before.len() as int] == distance);
            }
        }
    }
}

/// What the scan of a mesh finds: nothing exactly where no triangle is met
/// at a distance of at least zero, else the distance at which some triangle
/// is met, no greater than the distance of any triangle that is met at a
/// distance of at least zero.
pub proof fn lemma_mesh_hit_is_nearest_triangle(mesh: MeshProducts, epsilon: Scalar)
    ensures
        mesh.forward_hit(epsilon) is None <==> forall|i: int|
            0 <= i < mesh.triangles@.len() ==> (#[trigger] mesh.triangles@[i]).forward_hit(
                epsilon,
            ) is None,
        mesh.forward_hit(epsilon) matches Some(best) ==> {
            &&& exists|i: int|
                0 <= i < mesh.triangles@.len() && (#[trigger] mesh.triangles@[i]).forward_hit(
                    epsilon,
                ) == Some(best)
            &&& forall|i: int|
                0 <= i < mesh.triangles@.len() ==> (
                (#[trigger] mesh.triangles@[i]).forward_hit(epsilon) matches Some(distance)
                    ==> best.spec_total_le(distance) && best.spec_le(distance))
        },
{
    let triangles = mesh.triangles@;
    let found = spec_mesh_intersections(triangles, epsilon);
    lemma_nearest_forward(found);
    assert forall|i: int| 0 <= i < triangles.len() implies (
    (#[trigger] triangles[i]).forward_hit(epsilon) matches Some(distance) ==> found.contains(
        distance,
    )) by {
        if let Some(distance) = triangles[i].forward_hit(epsilon) {
            assert(triangles[i].hit(epsilon) == Some(distance));
            lemma_mesh_intersections_are_triangle_hits(triangles, epsilon, distance);
        }
    }
    match nearest_forward(found) {
        Some(best) => {
            assert(found.contains(best));
            lemma_mesh_intersections_are_triangle_hits(triangles, epsilon, best);
            let i = choose|i: int|
                0 <= i < triangles.len() && (#[trigger] triangles[i]).hit(epsilon) == Some(best);
            assert(triangles[i].forward_hit(epsilon) == Some(best));
            assert forall|i: int| 0 <= i < triangles.len() implies (
            (#[trigger] triangles[i]).forward_hit(epsilon) matches Some(distance)
                ==> best.spec_total_le(distance) && best.spec_le(distance)) by {
                if let Some(distance) = triangles[i].forward_hit(epsilon) {
                    let k = choose|k: int| 0 <= k < found.len() && found[k] == distance;
                    assert(found[k].ge_zero());
                }
            }
        },
        None => {
            assert forall|i: int| 0 <= i < triangles.len() implies (
            #[trigger] triangles[i]).forward_hit(epsilon) is None by {
                if let Some(distance) = triangles[i].forward_hit(epsilon) {
                    let k = choose|k: int| 0 <= k < found.len() && found[k] == distance;
                    assert(!found[k].ge_zero());
                }
            }
        },
    }
    if forall|i: int|
        0 <= i < triangles.len() ==> (#[trigger] triangles[i]).forward_hit(epsilon) is None {
        assert forall|k: int| 0 <= k < found.len() implies !(#[trigger] found[k]).ge_zero() by {
            assert(found.contains(found[k]));
            lemma_mesh_intersections_are_triangle_hits(triangles, epsilon, found[k]);
            let i = choose|i: int|
                0 <= i < triangles.len() && (#[trigger] triangles[i]).hit(epsilon) == Some(
                    found[k],
                );
            assert(triangles[i].forward_hit(epsilon) is None);
        }
    }
}

/// A wider tolerance makes no hit of a mesh's miss.
pub proof fn lemma_wider_tolerance_keeps_mesh_miss(
    mesh: MeshProducts,
    narrow: Scalar,
    wide: Scalar,
)
    requires
        narrow.gt_zero(),
        narrow.spec_le(wide),
        mesh.forward_hit(narrow) is None,
    ensures
        mesh.forward_hit(wide) is None,
{
    lemma_mesh_hit_is_nearest_triangle(mesh, narrow);
    lemma_mesh_hit_is_nearest_triangle(mesh, wide);
    assert forall|i: int| 0 <= i < mesh.triangles@.len() implies (
    #[trigger] mesh.triangles@[i]).forward_hit(wide) is None by {
        assert(mesh.triangles@[i].forward_hit(narrow) is None);
    }
}

/// What a solver has computed of one ray and each triangle of a mesh, in
/// the order of the mesh.
#[derive(Debug)]
pub struct MeshProducts {
    pub triangles: Vec<TriangleProducts>,
}

impl MeshProducts {
    /// The distances at which the ray meets member triangles, in the order
    /// of the mesh. A triangle that is not met adds nothing.
    pub fn ray_intersection(&self, epsilon: Scalar) -> (r: Vec<Scalar>)
        requires
            epsilon.gt_zero(),
        ensures
            r@ == spec_mesh_intersections(self.triangles@, epsilon),
    {
        ray_mesh_intersections(self.triangles.as_slice(), epsilon)
    }

}

impl Traceable for MeshProducts {
    open spec fn forward_hit(&self, epsilon: Scalar) -> Option<Scalar> {
        nearest_forward(spec_mesh_intersections(self.triangles@, epsilon))
    }

    /// Traces the ray to the nearest member triangle that it meets at a
    /// distance of at least zero, by scanning them all.
    fn trace(&self, epsilon: Scalar) -> (r: Option<Scalar>)
        ensures
            r is None <==> forall|i: int|
                0 <= i < self.triangles@.len() ==> (#[trigger] self.triangles@[i]).forward_hit(
                    epsilon,
                ) is None,
            r matches Some(best) ==> {
                &&& exists|i: int|
                    0 <= i < self.triangles@.len() && (#[trigger] self.triangles@[i]).forward_hit(
                        epsilon,
                    ) == Some(best)
                &&& forall|i: int|
                    0 <= i < self.triangles@.len() ==> (
                    (#[trigger] self.triangles@[i]).forward_hit(epsilon) matches Some(distance)
                        ==> best.spec_total_le(distance) && best.spec_le(distance))
            },
    {
        proof {
            lemma_mesh_hit_is_nearest_triangle(*self, epsilon);
        }
        let distances = self.ray_intersection(epsilon);
        nearest_hit(distances.as_slice())
    }
}

} // verus!
