//! Points and directions in space.

use vstd::prelude::*;

use crate::scalar::Scalar;

verus! {

/// Three coordinates: a point, or a displacement between two points.
#[derive(Clone, Copy, Debug)]
pub struct Vector3 {
    pub x: Scalar,
    pub y: Scalar,
    pub z: Scalar,
}

impl Vector3 {
    pub fn new(x: Scalar, y: Scalar, z: Scalar) -> (r: Self)
        ensures
            r.x == x,
            r.y == y,
            r.z == z,
    {
        Vector3 { x, y, z }
    }
}

/// A direction that its maker has scaled to length one. The length is a
/// rounded quantity, so nothing here tests it: the wrapper records the
/// promise and hands the coordinates back unchanged.
#[derive(Clone, Copy, Debug)]
pub struct UnitVector3 {
    inner: Vector3,
}

impl UnitVector3 {
    /// The coordinates under the wrapper.
    pub closed spec fn coordinates(self) -> Vector3 {
        self.inner
    }

    /// Wraps coordinates that already have length one.
    pub fn new_unchecked(coordinates: Vector3) -> (r: Self)
        ensures
            r.coordinates() == coordinates,
    {
        UnitVector3 { inner: coordinates }
    }

    pub fn into_inner(self) -> (r: Vector3)
        ensures
            r == self.coordinates(),
    {
        self.inner
    }

    pub fn as_vector(&self) -> (r: &Vector3)
        ensures
            *r == self.coordinates(),
    {
        &self.inner
    }
}

} // verus!
