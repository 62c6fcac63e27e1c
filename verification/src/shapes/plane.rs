//! The unbounded plane.

use vstd::prelude::*;

use crate::is_zero;
use crate::near_zero;
use crate::scalar::Scalar;
use crate::shapes::Traceable;
use crate::vector::UnitVector3;
use crate::vector::Vector3;

verus! {

/// How a ray lies to a plane.
#[derive(Clone, Copy, Debug)]
pub enum PlaneIntersection {
    /// The ray's line crosses the plane at this signed distance.
    Intersection(Scalar),
    /// The ray runs inside the plane.
    Contained,
    /// The ray runs beside the plane and never meets it.
    Miss,
}

/// The plane through `origin` at right angles to `normal`.
#[derive(Clone, Copy, Debug)]
pub struct Plane {
    origin: Vector3,
    normal: UnitVector3,
}

impl Plane {
    pub closed spec fn spec_origin(self) -> Vector3 {
        self.origin
    }

    pub closed spec fn spec_normal(self) -> Vector3 {
        self.normal.coordinates()
    }

    pub fn new(origin: Vector3, normal: UnitVector3) -> (r: Self)
        ensures
            r.spec_origin() == origin,
            r.spec_normal() == normal.coordinates(),
    {
        Plane { origin, normal }
    }

    pub fn origin(&self) -> (r: &Vector3)
        ensures
            *r == self.spec_origin(),
    {
        &self.origin
    }

    pub fn normal(&self) -> (r: &Vector3)
        ensures
            *r == self.spec_normal(),
    {
        self.normal.as_vector()
    }
}

/// What a solver has computed of one ray and one plane.
#[derive(Clone, Copy, Debug)]
pub struct PlaneProducts {
    /// The plane's origin less the ray's origin, dotted with the normal.
    pub numerator: Scalar,
    /// The ray's direction dotted with the normal.
    pub denominator: Scalar,
    /// `numerator / denominator`, whatever the division gave.
    pub quotient: Scalar,
}

impl PlaneProducts {
    /// The case that the products fall under at tolerance `epsilon`.
    pub open spec fn classify(self, epsilon: Scalar) -> PlaneIntersection {
        if near_zero(self.denominator, epsilon) {
            if near_zero(self.numerator, epsilon) {
                PlaneIntersection::Contained
            } else {
                PlaneIntersection::Miss
            }
        } else {
            PlaneIntersection::Intersection(self.quotient)
        }
    }

    /// Decides how the ray lies to the plane. A denominator within `epsilon`
    /// of zero means a ray along the plane: inside it where the numerator is
    /// within `epsilon` of zero too, beside it otherwise. Any other
    /// denominator gives a crossing at the quotient.
    pub fn ray_intersection(&self, epsilon: Scalar) -> (r: PlaneIntersection)
        requires
            epsilon.gt_zero(),
        ensures
            r == self.classify(epsilon),
    {
        if is_zero(self.denominator, epsilon) {
            if is_zero(self.numerator, epsilon) {
                PlaneIntersection::Contained
            } else {
                PlaneIntersection::Miss
            }
        } else {
            PlaneIntersection::Intersection(self.quotient)
        }
    }
}

impl PlaneIntersection {
    /// The first point of the ray on the plane, as a distance of at least
    /// zero: the crossing where it lies ahead, zero for a ray inside the
    /// plane.
    pub open spec fn forward_hit(self) -> Option<Scalar> {
        match self {
            PlaneIntersection::Intersection(distance) => if distance.ge_zero() {
                Some(distance)
            } else {
                None
            },
            PlaneIntersection::Contained => Some(Scalar { bits: 0 }),
            PlaneIntersection::Miss => None,
        }
    }

    /// Reduces the case to the nearest hit ahead of the ray's origin.
    pub fn first_hit(&self) -> (r: Option<Scalar>)
        ensures
            r == self.forward_hit(),
            r matches Some(distance) ==> distance.ge_zero(),
    {
        match self {
            PlaneIntersection::Intersection(distance) => {
                if distance.is_ge_zero() {
                    Some(*distance)
                } else {
                    None
                }
            },
            PlaneIntersection::Contained => Some(Scalar::zero()),
            PlaneIntersection::Miss => None,
        }
    }
}

impl Traceable for PlaneProducts {
    open spec fn forward_hit(&self, epsilon: Scalar) -> Option<Scalar> {
        self.classify(epsilon).forward_hit()
    }

    /// Traces the ray to its first point on the plane: a crossing at a
    /// distance of at least zero, or the ray's own origin where the ray runs
    /// inside the plane. Both faces of the plane can be hit.
    fn trace(&self, epsilon: Scalar) -> (r: Option<Scalar>) {
        self.ray_intersection(epsilon).first_hit()
    }
}

/// A ray that runs exactly along a plane without lying in it never meets
/// the plane: with a denominator of zero and a numerator beyond the
/// tolerance, the case is a miss and no hit is traced.
pub proof fn lemma_parallel_ray_misses(products: PlaneProducts, epsilon: Scalar)
    requires
        epsilon.gt_zero(),
        !products.denominator.nan(),
        products.denominator.value() == 0,
        !near_zero(products.numerator, epsilon),
    ensures
        products.classify(epsilon) == PlaneIntersection::Miss,
        products.forward_hit(epsilon) is None,
{
}

/// A wider tolerance makes no hit of a miss, as long as the numerator stays
/// beyond the tolerance: the plane is then well away from the ray's origin.
pub proof fn lemma_wider_tolerance_keeps_plane_miss(
    products: PlaneProducts,
    narrow: Scalar,
    wide: Scalar,
)
    requires
        narrow.gt_zero(),
        narrow.spec_le(wide),
        !near_zero(products.numerator, wide),
        products.forward_hit(narrow) is None,
    ensures
        products.forward_hit(wide) is None,
{
}

} // verus!
