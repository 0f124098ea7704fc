//! A decorator that offsets a child primitive: rays are expressed in the
//! child's frame and the interaction is carried back to world space.

use vstd::prelude::*;

use crate::hittable::Hittable;
use crate::vec3::Vec3;

verus! {

#[derive(Debug)]
pub struct Translate {
    pub source: Box<Hittable>,
    pub offset: Vec3,
}

impl Translate {
    pub fn new(source: Box<Hittable>, offset: Vec3) -> (r: Translate)
        ensures
            r.source == source,
            r.offset == offset,
    {
        Translate { source, offset }
    }
}

} // verus!
