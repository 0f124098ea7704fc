//! The catalog of stock scenes: which camera settings and sky model each
//! one uses.  Scene geometry itself is assembled by the driver around the
//! library.

use vstd::prelude::*;

use crate::camera::CameraBuilder;
use crate::color::Color;
use crate::fixed::Fixed;
use crate::renderer::Sky;
use crate::vec3::Vec3;

verus! {

pub type Point3 = Vec3;

#[derive(Clone, Copy, PartialEq, Eq, Structural, Debug)]
pub enum DefaultScene {
    RandomScene,
    TwoSpheres,
    PerlinSpheres,
    Earth,
    SimpleLight,
    CornellBox,
    CornellSmoke,
    FinalSceneBook2,
}

fn random_scene_cam() -> CameraBuilder {
    CameraBuilder::new().lookfrom(
        Vec3::new(Fixed::from_int(12), Fixed::from_int(2), Fixed::from_int(3)),
    ).lookat(Vec3::zero()).vertical_fov(Fixed::from_int(20)).focus_dist(
        Fixed::from_int(10),
    ).aperture(Fixed::from_ratio(1, 10)).shutter_open_time(Fixed::zero()).shutter_close_time(
        Fixed::one(),
    )
}

fn two_spheres_cam() -> CameraBuilder {
    CameraBuilder::new().lookfrom(
        Vec3::new(Fixed::from_int(13), Fixed::from_int(2), Fixed::from_int(3)),
    ).lookat(Vec3::zero()).vertical_fov(Fixed::from_int(20)).focus_dist(
        Fixed::from_int(10),
    ).aperture(Fixed::zero()).shutter_open_time(Fixed::zero()).shutter_close_time(Fixed::one())
}

fn perlin_spheres_cam() -> CameraBuilder {
    two_spheres_cam()
}

fn earth_cam() -> CameraBuilder {
    two_spheres_cam()
}

fn simple_light_cam() -> CameraBuilder {
    perlin_spheres_cam().lookfrom(
        Vec3::new(Fixed::from_int(26), Fixed::from_int(3), Fixed::from_int(6)),
    ).lookat(Vec3::new(Fixed::zero(), Fixed::from_int(2), Fixed::zero())).vertical_fov(
        Fixed::from_int(20),
    )
}

fn cornell_box_cam() -> CameraBuilder {
    CameraBuilder::new().lookfrom(
        Vec3::new(Fixed::from_int(278), Fixed::from_int(278), Fixed::from_int(-800)),
    ).lookat(Vec3::new(Fixed::from_int(278), Fixed::from_int(278), Fixed::zero())).aperture(
        Fixed::zero(),
    ).vertical_fov(Fixed::from_int(40))
}

fn final_scene_book2_cam() -> CameraBuilder {
    CameraBuilder::new().lookfrom(
        Vec3::new(Fixed::from_int(478), Fixed::from_int(278), Fixed::from_int(-600)),
    ).lookat(Vec3::new(Fixed::from_int(278), Fixed::from_int(278), Fixed::zero())).aperture(
        Fixed::zero(),
    ).vertical_fov(Fixed::from_int(40)).shutter_open_time(Fixed::zero()).shutter_close_time(
        Fixed::one(),
    )
}

/// The camera configuration each stock scene renders with.
pub fn select_default_scene_cam_settings(scene: &DefaultScene) -> CameraBuilder {
    match scene {
        DefaultScene::RandomScene => random_scene_cam(),
        DefaultScene::TwoSpheres => two_spheres_cam(),
        DefaultScene::PerlinSpheres => perlin_spheres_cam(),
        DefaultScene::Earth => earth_cam(),
        DefaultScene::SimpleLight => simple_light_cam(),
        DefaultScene::CornellBox => cornell_box_cam(),
        DefaultScene::CornellSmoke => cornell_box_cam(),
        DefaultScene::FinalSceneBook2 => final_scene_book2_cam(),
    }
}

/// The sky model each stock scene renders under: the daytime gradient for
/// the open-air scenes, black for the enclosed and lit ones.
pub fn select_default_scene_sky(scene: &DefaultScene) -> (s: Sky)
    ensures
        (*scene is RandomScene || *scene is TwoSpheres || *scene is Earth || *scene
            is PerlinSpheres) ==> s is Gradient,
        !(*scene is RandomScene || *scene is TwoSpheres || *scene is Earth || *scene
            is PerlinSpheres) ==> (s matches Sky::SolidColor(c) && crate::vec3::v3(c) == (
        0int,
        0int,
        0int,
        )),
{
    match scene {
        DefaultScene::RandomScene | DefaultScene::TwoSpheres | DefaultScene::Earth
            | DefaultScene::PerlinSpheres => Sky::Gradient(
            Color::one(),
            Vec3::new(Fixed::from_ratio(1, 2), Fixed::from_ratio(7, 10), Fixed::one()),
        ),
        DefaultScene::SimpleLight | DefaultScene::FinalSceneBook2 | DefaultScene::CornellSmoke
            | DefaultScene::CornellBox => Sky::SolidColor(Color::zero()),
    }
}

} // verus!
