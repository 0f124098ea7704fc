//! The light-transport integrator and the render driver: recursive
//! radiance estimation bounded by a bounce budget, against a sky model.

use vstd::prelude::*;

use crate::camera::{Camera, CameraBuilder};
use crate::color::Color;
use crate::fixed::{fx_add, fx_mul, Fixed};
use crate::hittable::{det_hit, deterministic, Hittable};
use crate::hittable_list::HittableList;
use crate::material::{material_wf, Material, Scatter};
use crate::pixel_buffer::PixelBuffer;
use crate::ray::Ray;
use crate::rng_float::RngGen;
use crate::vec3::{v3, vlerp, vunit, Vec3};

verus! {

/// The intersection lower bound that avoids self-intersection with the
/// previous bounce's surface, about 0.001.
pub const T_MIN_RAW: i64 = 1073741;

/// The background model: a vertical gradient or a flat color.
#[derive(Debug)]
pub enum Sky {
    Gradient(Color, Color),
    SolidColor(Color),
}

/// The radiance a missing ray receives from the sky: the gradient blended
/// by the normalized direction's height, or the flat color.
pub open spec fn sky_color(s: Sky, dir: (int, int, int)) -> (int, int, int) {
    match s {
        Sky::Gradient(c1, c2) => {
            let unit = vunit(dir);
            let t = fx_mul(0x2000_0000, fx_add(unit.1, crate::fixed::SCALE as int));
            vlerp(v3(c1), v3(c2), t)
        },
        Sky::SolidColor(c) => v3(c),
    }
}

pub open spec fn all_materials_wf(ms: Seq<Material>) -> bool {
    forall|i: int| 0 <= i < ms.len() ==> material_wf(#[trigger] ms[i])
}

/// One radiance estimate along a ray: black once the bounce budget is
/// spent; on a hit, the material's attenuation folded into the recursive
/// estimate (or black on absorption); on a miss, the sky.  An interaction
/// whose material handle lies outside the scene's materials absorbs.
/// Emitted radiance is deliberately not accumulated along the path:
/// emissive surfaces act as absorbers here and expose their radiance
/// only through the explicit emission query.
pub fn ray_color(
    this: &Ray,
    world: &Hittable,
    materials: &Vec<Material>,
    sky: &Sky,
    bounces_left: i32,
    rng: &mut RngGen,
) -> (c: Color)
    requires
        all_materials_wf(materials@),
    ensures
        bounces_left <= 0 ==> v3(c) == (0int, 0int, 0int),
        (bounces_left > 0 && deterministic(*world) && det_hit(
            *world,
            v3(this.orig),
            v3(this.dir),
            this.time.raw as int,
            T_MIN_RAW as int,
            i64::MAX as int,
        ) is None) ==> v3(c) == sky_color(*sky, v3(this.dir)),
        (bounces_left > 0 && deterministic(*world) && (match det_hit(
            *world,
            v3(this.orig),
            v3(this.dir),
            this.time.raw as int,
            T_MIN_RAW as int,
            i64::MAX as int,
        ) {
            Some(h) => h.mat >= materials@.len() || materials@[h.mat as int] is DiffuseLight
                || materials@[h.mat as int] is Null,
            None => false,
        })) ==> v3(c) == (0int, 0int, 0int),
    decreases bounces_left,
{
    if bounces_left <= 0 {
        return Vec3::zero();
    }
    match world.hit(this, Fixed::from_raw(T_MIN_RAW), Fixed::infinity(), rng) {
        Some(hit) => {
            if hit.mat() < materials.len() {
                match materials[hit.mat()].scatter(this, &hit, rng) {
                    Scatter::Scattered(scatter_ray, scatter_color) => {
                        let rec = ray_color(&scatter_ray, world, materials, sky, bounces_left - 1, rng);
                        scatter_color.hadamard(&rec)
                    },
                    Scatter::Absorbed => Vec3::zero(),
                }
            } else {
                Vec3::zero()
            }
        },
        None => {
            match sky {
                Sky::Gradient(c1, c2) => {
                    let unit_direction = this.direction().unit_vector();
                    let t = Fixed::from_raw(0x2000_0000).times(unit_direction.y.plus(Fixed::one()));
                    Vec3::lerp(c1, c2, t)
                },
                Sky::SolidColor(c) => c.copy(),
            }
        },
    }
}

/// Whether a stored pixel is the packed form of some accumulated color at
/// the given sample count.
pub open spec fn cell_done(p: u32, samples: int) -> bool {
    exists|col: (int, int, int)| p as int == #[trigger] crate::color::packed_pixel(col, samples)
}

/// Everything a render pass needs: the camera, the scene's primitive tree
/// and material arena, the sky, and the target dimensions.
#[derive(Debug)]
pub struct RenderInfo {
    pub camera: Camera,
    pub sky: Sky,
    pub world: Hittable,
    pub materials: Vec<Material>,
    pub image_width: usize,
    pub image_height: usize,
}

impl RenderInfo {
    /// A render setup over the given target size; the camera takes its
    /// aspect ratio from the target and the scene starts empty.
    pub fn new(image_width: usize, image_height: usize, cam_settings: CameraBuilder) -> (r:
        RenderInfo)
        requires
            0 < image_height <= i64::MAX,
            image_width <= i64::MAX,
        ensures
            r.image_width == image_width,
            r.image_height == image_height,
            r.world is List,
            r.materials@.len() == 0,
            r.camera == crate::camera::camera_from(
                (CameraBuilder {
                    aspect_ratio: crate::fixed::fxf(
                        crate::fixed::sat64(
                            crate::fixed::sdiv(
                                image_width * crate::fixed::SCALE,
                                image_height as int,
                            ),
                        ),
                    ),
                    ..cam_settings
                }),
            ),
    {
        #[verifier::truncate]
        let w = image_width as i64;
        #[verifier::truncate]
        let h = image_height as i64;
        let aspect = Fixed::from_ratio(w, h);
        let camera = cam_settings.aspect_ratio(aspect).build();
        RenderInfo {
            camera,
            sky: Sky::Gradient(
                Vec3::one(),
                Vec3::new(Fixed::from_ratio(1, 2), Fixed::from_ratio(7, 10), Fixed::one()),
            ),
            world: Hittable::List(HittableList::new()),
            materials: Vec::new(),
            image_width,
            image_height,
        }
    }

    pub fn sky(&mut self, sky: Sky)
        ensures
            *final(self) == (RenderInfo { sky, ..*old(self) }),
    {
        self.sky = sky;
    }

    /// Install the scene: its primitive tree and the material arena the
    /// tree's handles index.
    pub fn world(&mut self, world: Hittable, materials: Vec<Material>)
        ensures
            final(self).world == world,
            final(self).materials == materials,
            final(self).camera == old(self).camera,
            final(self).sky == old(self).sky,
            final(self).image_width == old(self).image_width,
            final(self).image_height == old(self).image_height,
    {
        self.world = world;
        self.materials = materials;
    }

    /// Render into the buffer: for every pixel, average the radiance of
    /// jittered camera rays and store the packed result.
    pub fn render(
        &self,
        buffer: &mut PixelBuffer,
        samples_per_pixel: i32,
        max_bounces: i32,
        rng: &mut RngGen,
    )
        requires
            old(buffer).wf(),
            old(buffer).width == self.image_width,
            old(buffer).height == self.image_height,
            old(buffer).width >= 1,
            old(buffer).height >= 1,
            all_materials_wf(self.materials@),
            0 <= samples_per_pixel < i32::MAX,
            max_bounces < i32::MAX,
        ensures
            final(buffer).wf(),
            final(buffer).width == old(buffer).width,
            final(buffer).height == old(buffer).height,
            forall|k: int|
                0 <= k < final(buffer).buff@.len() ==> cell_done(
                    #[trigger] final(buffer).buff@[k],
                    samples_per_pixel as int,
                ),
    {
        let height = self.image_height;
        let width = self.image_width;
        let mut jj: usize = 0;
        while jj < height
            invariant
                buffer.wf(),
                buffer.width == self.image_width,
                buffer.height == self.image_height,
                width == self.image_width,
                height == self.image_height,
                jj <= height,
                width >= 1,
                height >= 1,
                jj * width <= buffer.buff@.len(),
                forall|k: int|
                    0 <= k < jj * width ==> cell_done(
                        #[trigger] buffer.buff@[k],
                        samples_per_pixel as int,
                    ),
                all_materials_wf(self.materials@),
                0 <= samples_per_pixel < i32::MAX,
                max_bounces < i32::MAX,
            decreases height - jj,
        {
            let j = height - 1 - jj;
            let mut i: usize = 0;
            while i < width
                invariant
                    buffer.wf(),
                    buffer.width == self.image_width,
                    buffer.height == self.image_height,
                    width == self.image_width,
                    height == self.image_height,
                    jj < height,
                    j == height - 1 - jj,
                    i <= width,
                    width >= 1,
                    height >= 1,
                    jj * width + i <= buffer.buff@.len(),
                    forall|k: int|
                        0 <= k < jj * width + i ==> cell_done(
                            #[trigger] buffer.buff@[k],
                            samples_per_pixel as int,
                        ),
                    all_materials_wf(self.materials@),
                    0 <= samples_per_pixel < i32::MAX,
                    max_bounces < i32::MAX,
                decreases width - i,
            {
                let mut pixel_color = Vec3::zero();
                let mut s: i32 = 0;
                while s < samples_per_pixel + 1
                    invariant
                        all_materials_wf(self.materials@),
                        0 <= samples_per_pixel < i32::MAX,
                        max_bounces < i32::MAX,
                        0 <= s,
                        i < width,
                        j < height,
                        width >= 1,
                        height >= 1,
                        width == self.image_width,
                        height == self.image_height,
                    decreases samples_per_pixel + 1 - s,
                {
                    #[verifier::truncate]
                    let iw = i as i64;
                    #[verifier::truncate]
                    let jw = j as i64;
                    #[verifier::truncate]
                    let w1 = (width - 1) as i64;
                    #[verifier::truncate]
                    let h1 = (height - 1) as i64;
                    let u = Fixed::from_int(iw).plus(rng.get()).div_by(Fixed::from_int(w1));
                    let v = Fixed::from_int(jw).plus(rng.get()).div_by(Fixed::from_int(h1));
                    let r: Ray = self.camera.get_ray(u, v, rng);
                    let sample = ray_color(
                        &r,
                        &self.world,
                        &self.materials,
                        &self.sky,
                        max_bounces + 1,
                        rng,
                    );
                    pixel_color = pixel_color.plus(&sample);
                    s = s + 1;
                }
                buffer.set_pixel(i, height - j - 1, &pixel_color, samples_per_pixel);
                proof {
                    assert(cell_done(buffer.buff@[jj * width + i], samples_per_pixel as int)) by {
                        assert(buffer.buff@[i + width * jj] as int == crate::color::packed_pixel(
                            crate::vec3::v3(pixel_color),
                            samples_per_pixel as int,
                        ));
                    }
                    vstd::arithmetic::mul::lemma_mul_is_distributive_add_other_way(
                        width as int,
                        jj as int,
                        1,
                    );
                    vstd::arithmetic::mul::lemma_mul_basics(width as int);
                    vstd::arithmetic::mul::lemma_mul_inequality(
                        jj as int + 1,
                        height as int,
                        width as int,
                    );
                    vstd::arithmetic::mul::lemma_mul_is_commutative(height as int, width as int);
                }
                i = i + 1;
            }
            proof {
                vstd::arithmetic::mul::lemma_mul_is_distributive_add_other_way(
                    width as int,
                    jj as int,
                    1,
                );
                vstd::arithmetic::mul::lemma_mul_basics(width as int);
                assert((jj + 1) * width == jj * width + width);
            }
            jj = jj + 1;
        }
        proof {
            vstd::arithmetic::mul::lemma_mul_is_commutative(
                buffer.height as int,
                buffer.width as int,
            );
            assert(jj * width == buffer.buff@.len());
        }
    }
}

} // verus!
