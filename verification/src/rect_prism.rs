//! A rectangular prism: the six axis-aligned rectangles that bound a box,
//! kept in a flat list, with the box's own corners as its bounding box.

use vstd::prelude::*;

use crate::aarect::{XyRect, YzRect, ZxRect};
use crate::fixed::Fixed;
use crate::hittable::Hittable;
use crate::hittable_list::HittableList;
use crate::vec3::Vec3;

verus! {

pub type Point3 = Vec3;

/// The six faces of the box spanned by two opposite corners.
pub open spec fn prism_sides(p0: Vec3, p1: Vec3, mat: int) -> Seq<Hittable> {
    seq![
        Hittable::XyRect(XyRect { x0: p0.x, x1: p1.x, y0: p0.y, y1: p1.y, k: p1.z, mat: mat as usize }),
        Hittable::XyRect(XyRect { x0: p0.x, x1: p1.x, y0: p0.y, y1: p1.y, k: p0.z, mat: mat as usize }),
        Hittable::ZxRect(ZxRect { z0: p0.z, z1: p1.z, x0: p0.x, x1: p1.x, k: p1.y, mat: mat as usize }),
        Hittable::ZxRect(ZxRect { z0: p0.z, z1: p1.z, x0: p0.x, x1: p1.x, k: p0.y, mat: mat as usize }),
        Hittable::YzRect(YzRect { y0: p0.y, y1: p1.y, z0: p0.z, z1: p1.z, k: p1.x, mat: mat as usize }),
        Hittable::YzRect(YzRect { y0: p0.y, y1: p1.y, z0: p0.z, z1: p1.z, k: p0.x, mat: mat as usize }),
    ]
}

#[derive(Debug)]
pub struct RectPrism {
    pub box_min: Point3,
    pub box_max: Point3,
    pub sides: HittableList,
}

impl RectPrism {
    /// Build the prism from two opposite corners and one material for all
    /// six faces.
    pub fn new(p0: &Point3, p1: &Point3, mat: usize) -> (r: RectPrism)
        ensures
            r.box_min == *p0,
            r.box_max == *p1,
            r.sides.objects@ == prism_sides(*p0, *p1, mat as int),
    {
        let box_min = p0.copy();
        let box_max = p1.copy();
        let mut sides = HittableList::new();
        sides.add(Hittable::XyRect(XyRect::new(p0.x, p1.x, p0.y, p1.y, p1.z, mat)));
        sides.add(Hittable::XyRect(XyRect::new(p0.x, p1.x, p0.y, p1.y, p0.z, mat)));
        sides.add(Hittable::ZxRect(ZxRect::new(p0.z, p1.z, p0.x, p1.x, p1.y, mat)));
        sides.add(Hittable::ZxRect(ZxRect::new(p0.z, p1.z, p0.x, p1.x, p0.y, mat)));
        sides.add(Hittable::YzRect(YzRect::new(p0.y, p1.y, p0.z, p1.z, p1.x, mat)));
        sides.add(Hittable::YzRect(YzRect::new(p0.y, p1.y, p0.z, p1.z, p0.x, mat)));
        proof {
            assert(sides.objects@ =~= prism_sides(*p0, *p1, mat as int));
        }
        RectPrism { box_min, box_max, sides }
    }
}

} // verus!
