//! A shape with the colour it is drawn in.

use vstd::prelude::*;

use crate::scalar::Scalar;
use crate::shapes::Traceable;

verus! {

/// A shape of any kind and its colour.
pub struct Object<T> {
    color: [u8; 3],
    shape: T,
}

impl<T> Object<T> {
    pub closed spec fn spec_color(self) -> [u8; 3] {
        self.color
    }

    pub closed spec fn spec_shape(self) -> T {
        self.shape
    }

    pub fn new(shape: T, color: [u8; 3]) -> (r: Self)
        ensures
            r.spec_shape() == shape,
            r.spec_color() == color,
    {
        Object { color, shape }
    }

    pub fn color(&self) -> (r: [u8; 3])
        ensures
            r == self.spec_color(),
    {
        self.color
    }

    /// The shape, for whoever traces a ray against it.
    pub fn shape(&self) -> (r: &T)
        ensures
            *r == self.spec_shape(),
    {
        &self.shape
    }
}

impl<T: Traceable> Object<T> {
    /// The distance to the nearest point of the shape ahead of the ray's
    /// origin: whatever the shape's own trace gives.
    pub fn closest_ray_intersection(&self, epsilon: Scalar) -> (r: Option<Scalar>)
        requires
            epsilon.gt_zero(),
        ensures
            r == self.spec_shape().forward_hit(epsilon),
            r matches Some(distance) ==> distance.ge_zero(),
    {
        self.shape.trace(epsilon)
    }
}

} // verus!
