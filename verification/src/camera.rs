//! The camera: builds an orthonormal lens basis from the look parameters
//! and maps normalized image-plane coordinates to sampled rays with
//! thin-lens depth of field and a shutter interval.

use vstd::prelude::*;

use crate::fixed::{fx_div, fx_mul, Fixed, SCALE};
use crate::ray::Ray;
use crate::rng_float::RngGen;
use crate::trig::{sp_tan, RAD_PER_DEG_RAW};
use crate::vec3::{v3, vadd, vcross, vec3f, vdiv, vlen2, vscale, vsub, vunit, Vec3};

verus! {

pub type Point3 = Vec3;

#[derive(Clone, Copy, PartialEq, Eq, Structural, Debug)]
pub struct Camera {
    pub origin: Point3,
    pub lower_left_corner: Point3,
    pub horizontal: Vec3,
    pub vertical: Vec3,
    pub u: Vec3,
    pub v: Vec3,
    pub w: Vec3,
    pub lens_radius: Fixed,
    pub shutter_open_time: Fixed,
    pub shutter_close_time: Fixed,
}

#[derive(Clone, Copy, PartialEq, Eq, Structural, Debug)]
pub struct CameraBuilder {
    pub lookfrom: Point3,
    pub lookat: Point3,
    pub view_up: Vec3,
    pub vertical_fov: Fixed,
    pub aspect_ratio: Fixed,
    pub aperture: Fixed,
    pub focus_dist: Fixed,
    pub shutter_open_time: Fixed,
    pub shutter_close_time: Fixed,
}

/// The camera derived from the builder's parameters: viewport size from
/// the field of view and aspect ratio, the orthonormal basis from the look
/// direction, and the plane vectors scaled by the focus distance.
pub open spec fn camera_from(b: CameraBuilder) -> Camera {
    let theta = fx_mul(b.vertical_fov.raw as int, RAD_PER_DEG_RAW as int);
    let h = sp_tan(fx_mul(theta, 0x2000_0000));
    let viewport_height = fx_mul(2 * SCALE, h);
    let viewport_width = fx_mul(b.aspect_ratio.raw as int, viewport_height);
    let w = vunit(vsub(v3(b.lookfrom), v3(b.lookat)));
    let u = vunit(vcross(v3(b.view_up), w));
    let v = vcross(w, u);
    let origin = v3(b.lookfrom);
    let horizontal = vscale(fx_mul(b.focus_dist.raw as int, viewport_width), u);
    let vertical = vscale(fx_mul(b.focus_dist.raw as int, viewport_height), v);
    let half_h = vdiv(horizontal, 2 * SCALE);
    let half_v = vdiv(vertical, 2 * SCALE);
    let lower_left_corner = vsub(
        vsub(vsub(origin, half_h), half_v),
        vscale(b.focus_dist.raw as int, w),
    );
    Camera {
        origin: vec3f(origin),
        lower_left_corner: vec3f(lower_left_corner),
        horizontal: vec3f(horizontal),
        vertical: vec3f(vertical),
        u: vec3f(u),
        v: vec3f(v),
        w: vec3f(w),
        lens_radius: crate::fixed::fxf(fx_div(b.aperture.raw as int, 2 * SCALE)),
        shutter_open_time: b.shutter_open_time,
        shutter_close_time: b.shutter_close_time,
    }
}

/// The origin offset of a lens sample: the disk draw scaled by the lens
/// radius and expressed in the camera's (u, v) basis.
pub open spec fn lens_offset(cam: Camera, sv: (int, int, int)) -> (int, int, int) {
    let rd = vscale(cam.lens_radius.raw as int, sv);
    vadd(vscale(rd.0, v3(cam.u)), vscale(rd.1, v3(cam.v)))
}

/// The direction of the ray through image-plane coordinates (s, t) from a
/// lens offset.
pub open spec fn camera_ray_dir(cam: Camera, s: int, t: int, offset: (int, int, int)) -> (
    int,
    int,
    int,
) {
    vsub(
        vsub(
            vadd(
                vadd(v3(cam.lower_left_corner), vscale(s, v3(cam.horizontal))),
                vscale(t, v3(cam.vertical)),
            ),
            v3(cam.origin),
        ),
        offset,
    )
}

impl CameraBuilder {
    /// The default configuration: a wide-open lens at (3, 3, 2) looking
    /// at (0, 0, -1), a 20 degree field of view at 16:9, focused on the
    /// look-at point, with a closed shutter interval.
    pub fn new() -> (r: CameraBuilder)
        ensures
            r.lookfrom == vec3f((3 * SCALE, 3 * SCALE, 2 * SCALE)),
            r.lookat == vec3f((0, 0, -1 * SCALE)),
            r.view_up == vec3f((0, SCALE as int, 0)),
            r.vertical_fov.raw == 20 * SCALE,
            r.aspect_ratio.raw as int == crate::fixed::sat64(crate::fixed::sdiv(16 * SCALE, 9)),
            r.aperture.raw == 2 * SCALE,
            r.focus_dist.raw as int == crate::vec3::vlen(vsub(v3(r.lookfrom), v3(r.lookat))),
            r.shutter_open_time.raw == 0,
            r.shutter_close_time.raw == 0,
    {
        let lookfrom = Vec3::new(Fixed::from_int(3), Fixed::from_int(3), Fixed::from_int(2));
        let lookat = Vec3::new(Fixed::zero(), Fixed::zero(), Fixed::from_int(-1));
        let view_up = Vec3::new(Fixed::zero(), Fixed::one(), Fixed::zero());
        let vertical_fov = Fixed::from_int(20);
        let aspect_ratio = Fixed::from_ratio(16, 9);
        let aperture = Fixed::from_int(2);
        let focus_dist = lookfrom.minus(&lookat).length();
        CameraBuilder {
            lookfrom,
            lookat,
            view_up,
            vertical_fov,
            aspect_ratio,
            aperture,
            focus_dist,
            shutter_open_time: Fixed::zero(),
            shutter_close_time: Fixed::zero(),
        }
    }

    pub fn lookfrom(self, lookfrom: Point3) -> (r: CameraBuilder)
        ensures
            r == (CameraBuilder { lookfrom, ..self }),
    {
        CameraBuilder { lookfrom, ..self }
    }

    pub fn lookat(self, lookat: Point3) -> (r: CameraBuilder)
        ensures
            r == (CameraBuilder { lookat, ..self }),
    {
        CameraBuilder { lookat, ..self }
    }

    pub fn view_up(self, view_up: Vec3) -> (r: CameraBuilder)
        ensures
            r == (CameraBuilder { view_up, ..self }),
    {
        CameraBuilder { view_up, ..self }
    }

    pub fn vertical_fov(self, vertical_fov: Fixed) -> (r: CameraBuilder)
        ensures
            r == (CameraBuilder { vertical_fov, ..self }),
    {
        CameraBuilder { vertical_fov, ..self }
    }

    pub fn aspect_ratio(self, aspect_ratio: Fixed) -> (r: CameraBuilder)
        ensures
            r == (CameraBuilder { aspect_ratio, ..self }),
    {
        CameraBuilder { aspect_ratio, ..self }
    }

    pub fn aperture(self, aperture: Fixed) -> (r: CameraBuilder)
        ensures
            r == (CameraBuilder { aperture, ..self }),
    {
        CameraBuilder { aperture, ..self }
    }

    pub fn focus_dist(self, focus_dist: Fixed) -> (r: CameraBuilder)
        ensures
            r == (CameraBuilder { focus_dist, ..self }),
    {
        CameraBuilder { focus_dist, ..self }
    }

    pub fn shutter_open_time(self, shutter_open_time: Fixed) -> (r: CameraBuilder)
        ensures
            r == (CameraBuilder { shutter_open_time, ..self }),
    {
        CameraBuilder { shutter_open_time, ..self }
    }

    pub fn shutter_close_time(self, shutter_close_time: Fixed) -> (r: CameraBuilder)
        ensures
            r == (CameraBuilder { shutter_close_time, ..self }),
    {
        CameraBuilder { shutter_close_time, ..self }
    }

    pub fn build(&self) -> (r: Camera)
        ensures
            r == camera_from(*self),
    {
        Camera::new(self)
    }
}

impl Camera {
    #[verifier::rlimit(100)]
    fn new(data: &CameraBuilder) -> (r: Camera)
        ensures
            r == camera_from(*data),
    {
        let theta = data.vertical_fov.to_radians();
        let h = theta.times(Fixed::from_raw(0x2000_0000)).tan();
        let viewport_height = Fixed::from_int(2).times(h);
        let viewport_width = data.aspect_ratio.times(viewport_height);
        let w = data.lookfrom.minus(&data.lookat).unit_vector();
        let u = Vec3::cross(&data.view_up, &w).unit_vector();
        let v = Vec3::cross(&w, &u);
        let origin = data.lookfrom.copy();
        let horizontal = u.scale(data.focus_dist.times(viewport_width));
        let vertical = v.scale(data.focus_dist.times(viewport_height));
        let two = Fixed::from_int(2);
        let lower_left_corner = origin.minus(&horizontal.div_scalar(two)).minus(
            &vertical.div_scalar(two),
        ).minus(&w.scale(data.focus_dist));
        let lens_radius = data.aperture.div_by(two);
        Camera {
            origin,
            lower_left_corner,
            horizontal,
            vertical,
            u,
            v,
            w,
            lens_radius,
            shutter_open_time: data.shutter_open_time,
            shutter_close_time: data.shutter_close_time,
        }
    }

    fn get_ray_dir(&self, s: Fixed, t: Fixed, offset: &Vec3) -> (r: Vec3)
        ensures
            v3(r) == camera_ray_dir(*self, s.raw as int, t.raw as int, v3(*offset)),
    {
        self.lower_left_corner.plus(&self.horizontal.scale(s)).plus(&self.vertical.scale(t)).minus(
            &self.origin,
        ).minus(offset)
    }

    /// The sampled ray through image-plane coordinates (s, t): the origin
    /// is jittered on the lens disk, the time drawn from the shutter
    /// interval.  With a closed lens (radius zero) the ray is the exact
    /// pinhole ray.
    pub fn get_ray(&self, s: Fixed, t: Fixed, rng: &mut RngGen) -> (r: Ray)
        ensures
            exists|sv: (int, int, int)|
                {
                    &&& vlen2(sv) < SCALE
                    &&& sv.2 == 0
                    &&& r.orig == vec3f(vadd(v3(self.origin), #[trigger] lens_offset(*self, sv)))
                    &&& v3(r.dir) == camera_ray_dir(
                        *self,
                        s.raw as int,
                        t.raw as int,
                        lens_offset(*self, sv),
                    )
                },
            self.shutter_open_time.raw <= self.shutter_close_time.raw
                ==> self.shutter_open_time.raw <= r.time.raw <= self.shutter_close_time.raw,
            self.lens_radius.raw == 0 ==> r.orig == self.origin && v3(r.dir) == camera_ray_dir(
                *self,
                s.raw as int,
                t.raw as int,
                (0int, 0int, 0int),
            ),
    {
        let sample = Vec3::random_unit_xy(rng);
        let rd: Vec3 = sample.scale(self.lens_radius);
        let offset: Vec3 = self.u.scale(rd.x).plus(&self.v.scale(rd.y));
        let orig = self.origin.plus(&offset);
        let dir = self.get_ray_dir(s, t, &offset);
        let time = rng.range(self.shutter_open_time, self.shutter_close_time);
        proof {
            assert(v3(offset) == lens_offset(*self, v3(sample)));
            assert(orig == vec3f(vadd(v3(self.origin), lens_offset(*self, v3(sample)))));
            assert(vlen2(v3(sample)) < SCALE && v3(sample).2 == 0 && orig == vec3f(
                vadd(v3(self.origin), lens_offset(*self, v3(sample))),
            ) && v3(dir) == camera_ray_dir(
                *self,
                s.raw as int,
                t.raw as int,
                lens_offset(*self, v3(sample)),
            ));
            if self.lens_radius.raw == 0 {
                crate::vec3::lemma_vscale_zero(v3(Vec3 { x: rd.x, y: rd.y, z: rd.z }));
                assert(v3(rd) == (0int, 0int, 0int));
                crate::vec3::lemma_vscale_zero(v3(self.u));
                crate::vec3::lemma_vscale_zero(v3(self.v));
                assert(v3(offset) == (0int, 0int, 0int));
                assert(orig == self.origin);
            }
        }
        Ray { orig, dir, time }
    }
}

} // verus!
