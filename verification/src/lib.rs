//! A Monte Carlo path tracer with a verified core.
//!
//! All geometry, sampling and light-transport arithmetic is carried out in a
//! saturating Q30 fixed-point scalar ([`fixed::Fixed`]), so every numeric step
//! has an exact, machine-checked specification.

pub mod aabb;
pub mod aarect;
pub mod bvh;
pub mod camera;
pub mod convex_constant_medium;
pub mod default_scenes;
pub mod hittable;
pub mod hittable_list;
pub mod moving_sphere;
pub mod rect_prism;
pub mod renderer;
pub mod rotate_y;
pub mod sphere;
pub mod texture;
pub mod translate;
pub mod axis;
pub mod checker_texture;
pub mod color;
pub mod dielectric;
pub mod diffuse_light;
pub mod image_texture;
pub mod isotropic;
pub mod lambertian;
pub mod laws;
pub mod material;
pub mod metal;
pub mod noise_texture;
pub mod perlin;
pub mod pixel_buffer;
pub mod fixed;
pub mod ray;
pub mod rng_float;
pub mod trig;
pub mod vec3;
