//! A flat list of primitives: intersection keeps the closest hit over a
//! linear scan, and the bounding box is the union of the children's boxes.

use vstd::prelude::*;

use crate::hittable::Hittable;

verus! {

#[derive(Debug)]
pub struct HittableList {
    pub objects: Vec<Hittable>,
}

impl HittableList {
    pub fn new() -> (r: HittableList)
        ensures
            r.objects@.len() == 0,
    {
        HittableList { objects: Vec::new() }
    }

    pub fn clear(&mut self)
        ensures
            final(self).objects@.len() == 0,
    {
        self.objects.clear();
    }

    pub fn add(&mut self, object: Hittable)
        ensures
            final(self).objects@ == old(self).objects@.push(object),
    {
        self.objects.push(object);
    }

    pub fn objects(&self) -> (r: &Vec<Hittable>)
        ensures
            r@ == self.objects@,
    {
        &self.objects
    }

    pub fn len(&self) -> (r: usize)
        ensures
            r == self.objects@.len(),
    {
        self.objects.len()
    }
}

} // verus!
