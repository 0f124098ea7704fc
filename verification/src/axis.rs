//! Coordinate axes, used to pick the split direction when building the
//! bounding volume hierarchy.

use vstd::prelude::*;

use crate::fixed::Fixed;
use crate::rng_float::RngGen;
use crate::vec3::Vec3;

verus! {

#[derive(Clone, Copy, PartialEq, Eq, Structural, Debug)]
pub enum Axis {
    X,
    Y,
    Z,
}

impl Axis {
    /// A uniformly drawn axis.
    pub fn rand(rng: &mut RngGen) -> (r: Axis) {
        let k = rng.below(3);
        if k == 0 {
            Axis::X
        } else if k == 1 {
            Axis::Y
        } else {
            Axis::Z
        }
    }
}

/// The component of a vector selected by an axis.
pub open spec fn axis_component(v: Vec3, axis: Axis) -> Fixed {
    match axis {
        Axis::X => v.x,
        Axis::Y => v.y,
        Axis::Z => v.z,
    }
}

impl Vec3 {
    pub fn axis(&self, axis: &Axis) -> (r: Fixed)
        ensures
            r == axis_component(*self, *axis),
    {
        match axis {
            Axis::X => self.x,
            Axis::Y => self.y,
            Axis::Z => self.z,
        }
    }
}

} // verus!
