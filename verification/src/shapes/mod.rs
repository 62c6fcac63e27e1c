//! The shapes that a ray can meet.

use vstd::prelude::*;

pub mod composite;
pub mod plane;
pub mod sphere;
pub mod triangle;

use crate::scalar::Scalar;

verus! {

/// What can be traced: the products of a solver for one ray and one shape,
/// from which the ray's first point on the shape is read off.
pub trait Traceable {
    /// The distance from the ray's origin to its first point on the shape,
    /// where there is one ahead of the origin.
    spec fn forward_hit(&self, epsilon: Scalar) -> Option<Scalar>;

    /// Traces the ray to the first intersection in its own direction. The
    /// distance that comes back is at least zero and no NaN.
    fn trace(&self, epsilon: Scalar) -> (r: Option<Scalar>)
        requires
            epsilon.gt_zero(),
        ensures
            r == self.forward_hit(epsilon),
            r matches Some(distance) ==> distance.ge_zero(),
    ;
}

/// Any one of the shapes.
#[derive(Debug)]
pub enum Shape {
    Composite(composite::CompositeObject),
    Plane(plane::Plane),
    Sphere(sphere::Sphere),
    Triangle(triangle::Triangle),
}

/// The products of a solver for one ray and any one of the shapes.
#[derive(Debug)]
pub enum ShapeProducts {
    Composite(composite::MeshProducts),
    Plane(plane::PlaneProducts),
    Sphere(sphere::SphereProducts),
    Triangle(triangle::TriangleProducts),
}

impl Traceable for ShapeProducts {
    open spec fn forward_hit(&self, epsilon: Scalar) -> Option<Scalar> {
        match self {
            ShapeProducts::Composite(products) => products.forward_hit(epsilon),
            ShapeProducts::Plane(products) => products.forward_hit(epsilon),
            ShapeProducts::Sphere(products) => products.forward_hit(epsilon),
            ShapeProducts::Triangle(products) => products.forward_hit(epsilon),
        }
    }

    /// Traces the ray against whichever shape the products are of.
    fn trace(&self, epsilon: Scalar) -> (r: Option<Scalar>) {
        match self {
            ShapeProducts::Composite(products) => products.trace(epsilon),
            ShapeProducts::Plane(products) => products.trace(epsilon),
            ShapeProducts::Sphere(products) => products.trace(epsilon),
            ShapeProducts::Triangle(products) => products.trace(epsilon),
        }
    }
}

} // verus!
