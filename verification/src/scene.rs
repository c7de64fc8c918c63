//! Scene-facing data types and the scene capability: lights, surface
//! hits, materials, the camera, and the trait through which the tracer
//! queries geometry without knowing how it is stored.

use vstd::prelude::*;
use crate::color::LinearRgb;
use crate::fixed::Fx;
use crate::vec3::Vec3x;

verus! {

/// A half-line: origin and direction. Directions are produced by
/// normalization and are unit-length up to fixed-point rounding.
#[derive(Clone, Copy, Debug, PartialEq, Eq, Structural)]
pub struct Ray {
    pub origin: Vec3x,
    pub direction: Vec3x,
}

/// How a surface responds to light.
#[derive(Clone, Copy, Debug, PartialEq, Eq, Structural)]
pub enum Material {
    Diffuse { albedo: LinearRgb },
    Reflective { albedo: LinearRgb, reflectivity: Fx },
    Refractive { albedo: LinearRgb, index: Fx, transparency: Fx },
}

/// The nearest surface met by a ray.
#[derive(Clone, Copy, Debug, PartialEq, Eq, Structural)]
pub struct RayHit {
    pub material: Material,
    pub position: Vec3x,
    pub normal: Vec3x,
    pub distance: Fx,
}

/// A light source.
#[derive(Clone, Copy, Debug, PartialEq, Eq, Structural)]
pub enum Light {
    Ambient { color: LinearRgb, intensity: Fx },
    Directional { direction: Vec3x, color: LinearRgb, intensity: Fx },
    Point { position: Vec3x, color: LinearRgb, intensity: Fx },
}

/// The virtual camera. `half_fov_tan` holds the tangent of half the
/// vertical field of view, the one trigonometric quantity the viewport
/// derivation needs.
#[derive(Clone, Copy, Debug, PartialEq, Eq, Structural)]
pub struct Camera {
    pub translation: Vec3x,
    pub direction: Vec3x,
    pub up: Vec3x,
    pub half_fov_tan: Fx,
    pub background: LinearRgb,
}

/// The capability the tracer consumes: a finite ordered sequence of
/// lights, and nearest-hit ray queries. Geometry storage stays behind
/// this trait.
pub trait Scene: Sized {
    /// The lights, in evaluation order.
    spec fn lights_seq(&self) -> Seq<Light>;

    /// The nearest surface met by `ray`, if any. `max_distance` bounds
    /// the search where the scene honors it; a scene may also search
    /// its whole extent regardless.
    spec fn hit_of(&self, ray: Ray, max_distance: Fx) -> Option<RayHit>;

    fn lights(&self) -> (r: &Vec<Light>)
        ensures
            r@ == self.lights_seq(),
    ;

    fn cast_ray(&self, ray: Ray, max_distance: Fx) -> (r: Option<RayHit>)
        ensures
            r == self.hit_of(ray, max_distance),
    ;
}

/// A degenerate scene in which every ray meets the same surface (or
/// none). It stands in for hand-made geometry — a surrounding mirror,
/// an unobstructed plane — when driving the tracer directly.
pub struct UniformScene {
    pub lights: Vec<Light>,
    pub surface: Option<RayHit>,
}

impl UniformScene {
    pub fn new(lights: Vec<Light>, surface: Option<RayHit>) -> (r: UniformScene)
        ensures
            r.lights == lights,
            r.surface == surface,
    {
        UniformScene { lights, surface }
    }
}

impl Scene for UniformScene {
    open spec fn lights_seq(&self) -> Seq<Light> {
        self.lights@
    }

    open spec fn hit_of(&self, ray: Ray, max_distance: Fx) -> Option<RayHit> {
        self.surface
    }

    fn lights(&self) -> (r: &Vec<Light>) {
        &self.lights
    }

    fn cast_ray(&self, ray: Ray, max_distance: Fx) -> (r: Option<RayHit>) {
        self.surface
    }
}

} // verus!
