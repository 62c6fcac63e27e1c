//! The sphere.

use vstd::prelude::*;

use crate::is_zero;
use crate::near_zero;
use crate::scalar::Scalar;
use crate::shapes::Traceable;
use crate::vector::Vector3;

verus! {

/// Where a ray's line meets a sphere, as signed distances along the ray.
#[derive(Clone, Copy, Debug)]
pub enum SphereIntersection {
    /// The line passes through the sphere: the far and the near crossing.
    Two(Scalar, Scalar),
    /// The line touches the sphere.
    One(Scalar),
    /// The line passes the sphere by.
    Miss,
}

/// The sphere of the given radius about `origin`. The radius is at least
/// zero and no NaN.
#[derive(Clone, Copy, Debug)]
pub struct Sphere {
    origin: Vector3,
    radius: Scalar,
}

impl Sphere {
    #[verifier::type_invariant]
    spec fn well_formed(self) -> bool {
        self.radius.ge_zero()
    }

    pub closed spec fn spec_origin(self) -> Vector3 {
        self.origin
    }

    pub closed spec fn spec_radius(self) -> Scalar {
        self.radius
    }

    pub fn new(origin: Vector3, radius: Scalar) -> (r: Self)
        requires
            radius.ge_zero(),
        ensures
            r.spec_origin() == origin,
            r.spec_radius() == radius,
    {
        Sphere { origin, radius }
    }

    pub fn origin(&self) -> (r: &Vector3)
        ensures
            *r == self.spec_origin(),
    {
        &self.origin
    }

    pub fn radius(&self) -> (r: Scalar)
        ensures
            r == self.spec_radius(),
            r.ge_zero(),
    {
        proof {
            use_type_invariant(self);
        }
        self.radius
    }
}

/// What a solver has computed of one ray and one sphere. With `L` the ray's
/// origin less the sphere's centre and `b` the ray's direction dotted with
/// `L`, the distances `t` of the crossings solve `t * t + 2 * b * t + c = 0`,
/// where `c` is `L` dotted with itself less the square of the radius.
#[derive(Clone, Copy, Debug)]
pub struct SphereProducts {
    /// `b * b - c`.
    pub discriminant: Scalar,
    /// `-b`, the distance at which a tangent line touches.
    pub tangent: Scalar,
    /// `-b` plus the square root of the discriminant.
    pub far: Scalar,
    /// `-b` less the square root of the discriminant.
    pub near: Scalar,
}

impl SphereProducts {
    /// The crossings that the roots stand for at tolerance `epsilon`.
    pub open spec fn classify(self, epsilon: Scalar) -> SphereIntersection {
        if self.discriminant.lt_zero() {
            SphereIntersection::Miss
        } else if near_zero(self.discriminant, epsilon) {
            SphereIntersection::One(self.tangent)
        } else {
            SphereIntersection::Two(self.far, self.near)
        }
    }

    /// Decides how many crossings there are. A discriminant below zero gives
    /// none; one within `epsilon` of zero gives the tangent point; any other
    /// gives the far and the near crossing, in this order.
    pub fn ray_intersection(&self, epsilon: Scalar) -> (r: SphereIntersection)
        requires
            epsilon.gt_zero(),
        ensures
            r == self.classify(epsilon),
    {
        if self.discriminant.is_lt_zero() {
            return SphereIntersection::Miss;
        }
        if is_zero(self.discriminant, epsilon) {
            return SphereIntersection::One(self.tangent);
        }
        SphereIntersection::Two(self.far, self.near)
    }
}

/// The smaller of two numbers, the first where neither is below the other.
pub open spec fn smaller(first: Scalar, second: Scalar) -> Scalar {
    if second.spec_lt(first) {
        second
    } else {
        first
    }
}

impl SphereIntersection {
    /// The first point of the ray on the sphere, as a distance of at least
    /// zero: the smaller of the crossings that lie ahead.
    pub open spec fn forward_hit(self) -> Option<Scalar> {
        match self {
            SphereIntersection::Two(far, near) => if far.ge_zero() && near.ge_zero() {
                Some(smaller(far, near))
            } else if far.ge_zero() {
                Some(far)
            } else if near.ge_zero() {
                Some(near)
            } else {
                None
            },
            SphereIntersection::One(distance) => if distance.ge_zero() {
                Some(distance)
            } else {
                None
            },
            SphereIntersection::Miss => None,
        }
    }

    /// Reduces the crossings to the nearest hit ahead of the ray's origin.
    /// With the origin inside the sphere one crossing lies behind it and the
    /// other is the hit.
    pub fn first_hit(&self) -> (r: Option<Scalar>)
        ensures
            r == self.forward_hit(),
            r matches Some(distance) ==> distance.ge_zero(),
            r is None <==> (match *self {
                SphereIntersection::Two(far, near) => !far.ge_zero() && !near.ge_zero(),
                SphereIntersection::One(distance) => !distance.ge_zero(),
                SphereIntersection::Miss => true,
            }),
            r matches Some(distance) ==> (match *self {
                SphereIntersection::Two(far, near) => (far.ge_zero() ==> distance.spec_le(far))
                    && (near.ge_zero() ==> distance.spec_le(near)),
                SphereIntersection::One(only) => distance == only,
                SphereIntersection::Miss => false,
            }),
    {
        match self {
            SphereIntersection::Two(far, near) => {
                let far_ahead = far.is_ge_zero();
                let near_ahead = near.is_ge_zero();
                if far_ahead && near_ahead {
                    if near.lt(far) {
                        Some(*near)
                    } else {
                        Some(*far)
                    }
                } else if far_ahead {
                    Some(*far)
                } else if near_ahead {
                    Some(*near)
                } else {
                    None
                }
            },
            SphereIntersection::One(distance) => {
                if distance.is_ge_zero() {
                    Some(*distance)
                } else {
                    None
                }
            },
            SphereIntersection::Miss => None,
        }
    }
}

impl Traceable for SphereProducts {
    open spec fn forward_hit(&self, epsilon: Scalar) -> Option<Scalar> {
        self.classify(epsilon).forward_hit()
    }

    /// Traces the ray to its first point on the sphere: the smaller of the
    /// crossings at a distance of at least zero.
    fn trace(&self, epsilon: Scalar) -> (r: Option<Scalar>) {
        self.ray_intersection(epsilon).first_hit()
    }
}

/// A wider tolerance makes no hit of a miss, as long as the discriminant
/// stays beyond the tolerance: the line is then well away from touching.
pub proof fn lemma_wider_tolerance_keeps_sphere_miss(
    products: SphereProducts,
    narrow: Scalar,
    wide: Scalar,
)
    requires
        narrow.gt_zero(),
        narrow.spec_le(wide),
        !near_zero(products.discriminant, wide),
        products.forward_hit(narrow) is None,
    ensures
        products.forward_hit(wide) is None,
{
}

} // verus!
