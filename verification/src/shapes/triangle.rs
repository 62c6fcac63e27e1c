//! The triangle.

use vstd::prelude::*;

use crate::is_zero;
use crate::near_zero;
use crate::scalar::Scalar;
use crate::scalar::ONE_BITS;
use crate::shapes::Traceable;
use crate::vector::Vector3;

verus! {

/// Three corners. No winding is asked for: a ray hits either face.
#[derive(Clone, Copy, Debug)]
pub struct Triangle {
    a: Vector3,
    b: Vector3,
    c: Vector3,
}

impl Triangle {
    pub closed spec fn spec_a(self) -> Vector3 {
        self.a
    }

    pub closed spec fn spec_b(self) -> Vector3 {
        self.b
    }

    pub closed spec fn spec_c(self) -> Vector3 {
        self.c
    }

    pub fn new(a: Vector3, b: Vector3, c: Vector3) -> (r: Self)
        ensures
            r.spec_a() == a,
            r.spec_b() == b,
            r.spec_c() == c,
    {
        Triangle { a, b, c }
    }

    pub fn a(&self) -> (r: &Vector3)
        ensures
            *r == self.spec_a(),
    {
        &self.a
    }

    pub fn b(&self) -> (r: &Vector3)
        ensures
            *r == self.spec_b(),
    {
        &self.b
    }

    pub fn c(&self) -> (r: &Vector3)
        ensures
            *r == self.spec_c(),
    {
        &self.c
    }
}

/// Cuts the quadrilateral `a b c d` along the diagonal from `a` to `c`.
pub fn quad_to_triangles(a: Vector3, b: Vector3, c: Vector3, d: Vector3) -> (r: [Triangle; 2])
    ensures
        r[0].spec_a() == a,
        r[0].spec_b() == b,
        r[0].spec_c() == c,
        r[1].spec_a() == c,
        r[1].spec_b() == d,
        r[1].spec_c() == a,
{
    [Triangle::new(a, b, c), Triangle::new(c, d, a)]
}

/// What a solver has computed of one ray and one triangle `a b c`, by the
/// determinant method: a point `a + u * (b - a) + v * (c - a)` of the
/// triangle's plane is sought at distance `t` along the ray.
#[derive(Clone, Copy, Debug)]
pub struct TriangleProducts {
    /// The determinant of the system: `b - a` dotted with the cross product
    /// of the ray's direction and `c - a`.
    pub determinant: Scalar,
    /// The weight of corner `b`.
    pub u: Scalar,
    /// The weight of corner `c`.
    pub v: Scalar,
    /// `u + v`.
    pub sum: Scalar,
    /// The distance `t` along the ray.
    pub distance: Scalar,
}

impl TriangleProducts {
    /// Whether the weights place the point inside the triangle or on its
    /// edge, as far as the tests on them go: `u` is in `0..=1`, `v` is not
    /// below zero and `u + v` is not above one. A NaN `u` fails; a NaN `v` or
    /// sum passes.
    pub open spec fn inside(self) -> bool {
        &&& self.u.ge_zero()
        &&& self.u.spec_le(Scalar { bits: ONE_BITS })
        &&& !self.v.lt_zero()
        &&& !self.sum.spec_gt(Scalar { bits: ONE_BITS })
    }

    /// The distance at which the ray meets the triangle, if it does: the
    /// determinant is not within `epsilon` of zero, the point is inside, and
    /// the distance is not below zero.
    pub open spec fn hit(self, epsilon: Scalar) -> Option<Scalar> {
        if !near_zero(self.determinant, epsilon) && self.inside() && !self.distance.lt_zero() {
            Some(self.distance)
        } else {
            None
        }
    }

    /// Decides whether the ray meets the triangle. A determinant within
    /// `epsilon` of zero means a ray along the triangle's plane: no hit.
    /// Weights outside the triangle and a distance below zero give no hit
    /// either.
    pub fn ray_intersection(&self, epsilon: Scalar) -> (r: Option<Scalar>)
        requires
            epsilon.gt_zero(),
        ensures
            r == self.hit(epsilon),
            r matches Some(distance) ==> distance == self.distance && !distance.lt_zero(),
    {
        if is_zero(self.determinant, epsilon) {
            return None;
        }
        let zero = Scalar::zero();
        let one = Scalar::one();
        if !(zero.le(&self.u) && self.u.le(&one)) {
            return None;
        }
        if self.v.lt(&zero) || self.sum.gt(&one) {
            return None;
        }
        if self.distance.lt(&zero) {
            None
        } else {
            Some(self.distance)
        }
    }

}

impl Traceable for TriangleProducts {
    /// The hit as a distance of at least zero: a NaN distance is no hit.
    open spec fn forward_hit(&self, epsilon: Scalar) -> Option<Scalar> {
        match self.hit(epsilon) {
            Some(distance) => if distance.ge_zero() {
                Some(distance)
            } else {
                None
            },
            None => None,
        }
    }

    /// Traces the ray to its point on the triangle, at a distance of at
    /// least zero.
    fn trace(&self, epsilon: Scalar) -> (r: Option<Scalar>) {
        match self.ray_intersection(epsilon) {
            Some(distance) => {
                if distance.is_ge_zero() {
                    Some(distance)
                } else {
                    None
                }
            },
            None => None,
        }
    }
}

/// A wider tolerance makes no hit of a miss: it only takes more rays for
/// rays along the triangle's plane.
pub proof fn lemma_wider_tolerance_keeps_triangle_miss(
    products: TriangleProducts,
    narrow: Scalar,
    wide: Scalar,
)
    requires
        narrow.gt_zero(),
        narrow.spec_le(wide),
        products.hit(narrow) is None,
    ensures
        products.hit(wide) is None,
        products.forward_hit(wide) is None,
{
}

} // verus!
