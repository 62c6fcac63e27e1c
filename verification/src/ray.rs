//! A half-line from a point along a direction.

use vstd::prelude::*;

use crate::vector::UnitVector3;
use crate::vector::Vector3;

verus! {

/// Where a ray starts and which way it points.
#[derive(Clone, Copy, Debug)]
pub struct Ray {
    origin: Vector3,
    direction: UnitVector3,
}

impl Ray {
    pub closed spec fn spec_origin(self) -> Vector3 {
        self.origin
    }

    pub closed spec fn spec_direction(self) -> Vector3 {
        self.direction.coordinates()
    }

    pub fn new(origin: Vector3, direction: UnitVector3) -> (r: Self)
        ensures
            r.spec_origin() == origin,
            r.spec_direction() == direction.coordinates(),
    {
        Ray { origin, direction }
    }

    pub fn origin(&self) -> (r: &Vector3)
        ensures
            *r == self.spec_origin(),
    {
        &self.origin
    }

    pub fn direction(&self) -> (r: &Vector3)
        ensures
            *r == self.spec_direction(),
    {
        self.direction.as_vector()
    }
}

} // verus!
