use lux::color::LinearRgb;
use lux::fixed::{Fx, FX_SCALE};
use lux::render::Renderer;
use lux::scene::{Camera, Light, Material, Ray, RayHit, UniformScene};
use lux::tracer::fresnel;
use lux::vec3::Vec3x;

fn p(x: i64, y: i64, z: i64) -> Vec3x {
    Vec3x { x: Fx { bits: x }, y: Fx { bits: y }, z: Fx { bits: z } }
}

fn rgb(r: i64, g: i64, b: i64) -> LinearRgb {
    LinearRgb { red: Fx { bits: r }, green: Fx { bits: g }, blue: Fx { bits: b } }
}

const ONE: i64 = FX_SCALE;
const HALF: i64 = 32768;

fn sky_renderer() -> Renderer {
    Renderer::init(
        Camera {
            translation: p(0, 0, 0),
            direction: p(0, 0, -ONE),
            up: p(0, ONE, 0),
            half_fov_tan: Fx { bits: ONE },
            background: rgb(100, 200, 300),
        },
        4,
        4,
    )
}

fn forward_ray() -> Ray {
    Ray { origin: p(0, 0, 0), direction: p(0, 0, -ONE) }
}

fn surface(material: Material) -> RayHit {
    RayHit { material, position: p(0, 0, -2 * ONE), normal: p(0, 0, ONE), distance: Fx { bits: 2 * ONE } }
}

#[test]
fn ambient_light_contributes_albedo_times_color_times_intensity() {
    // A diffuse surface under one ambient light: exactly
    // albedo * color * intensity per channel, no shadow test.
    let albedo = rgb(HALF, ONE / 4, ONE);
    let color = rgb(HALF, ONE, ONE);
    let lights = vec![Light::Ambient { color, intensity: Fx { bits: 2 * ONE } }];
    let scene = UniformScene::new(lights, Some(surface(Material::Diffuse { albedo })));
    let shaded = sky_renderer().cast_ray(&scene, forward_ray(), 0);
    assert_eq!(shaded, rgb(HALF, HALF, 2 * ONE));
}

#[test]
fn occluded_directional_light_contributes_nothing() {
    // In a uniform scene every shadow ray hits, so the one directional
    // light is always blocked and the diffuse shade is black.
    let albedo = rgb(ONE, ONE, ONE);
    let lights = vec![Light::Directional {
        direction: p(0, -ONE, 0),
        color: rgb(ONE, ONE, ONE),
        intensity: Fx { bits: 4 * ONE },
    }];
    let scene = UniformScene::new(lights, Some(surface(Material::Diffuse { albedo })));
    let shaded = sky_renderer().cast_ray(&scene, forward_ray(), 0);
    assert_eq!(shaded, rgb(0, 0, 0));
}

#[test]
fn zero_reflectivity_equals_diffuse_of_same_albedo() {
    let albedo = rgb(HALF, ONE / 4, 3 * ONE / 4);
    let lights = vec![Light::Ambient { color: rgb(ONE, HALF, ONE), intensity: Fx { bits: ONE } }];
    let renderer = sky_renderer();
    let mirror0 = UniformScene::new(
        lights.clone(),
        Some(surface(Material::Reflective { albedo, reflectivity: Fx { bits: 0 } })),
    );
    let diffuse = UniformScene::new(
        lights,
        Some(surface(Material::Diffuse { albedo })),
    );
    assert_eq!(
        renderer.cast_ray(&mirror0, forward_ray(), 0),
        renderer.cast_ray(&diffuse, forward_ray(), 0),
    );
}

#[test]
fn full_reflectivity_ignores_the_local_shade() {
    // Mutually facing mirrors: every ray hits a perfect mirror, so the
    // trace runs to the recursion ceiling and returns the background,
    // with no trace of the local (ambient-lit) shade.
    let albedo = rgb(ONE, ONE, ONE);
    let lights = vec![Light::Ambient { color: rgb(ONE, ONE, ONE), intensity: Fx { bits: ONE } }];
    let renderer = sky_renderer();
    let mirrors = UniformScene::new(
        lights,
        Some(surface(Material::Reflective { albedo, reflectivity: Fx { bits: ONE } })),
    );
    let traced = renderer.cast_ray(&mirrors, forward_ray(), 0);
    assert_eq!(traced, rgb(100, 200, 300));
}

#[test]
fn mirror_hall_returns_background_from_any_depth() {
    let mirrors = UniformScene::new(
        Vec::new(),
        Some(surface(Material::Reflective { albedo: rgb(ONE, ONE, ONE), reflectivity: Fx { bits: ONE } })),
    );
    let renderer = sky_renderer();
    let mut depth: u32 = 0;
    while depth <= 10 {
        assert_eq!(renderer.cast_ray(&mirrors, forward_ray(), depth), rgb(100, 200, 300));
        depth += 1;
    }
}

#[test]
fn depth_ceiling_returns_background_even_with_a_diffuse_hit() {
    let lights = vec![Light::Ambient { color: rgb(ONE, ONE, ONE), intensity: Fx { bits: ONE } }];
    let scene = UniformScene::new(
        lights,
        Some(surface(Material::Diffuse { albedo: rgb(ONE, ONE, ONE) })),
    );
    let renderer = sky_renderer();
    assert_eq!(renderer.cast_ray(&scene, forward_ray(), 10), rgb(100, 200, 300));
    assert_eq!(renderer.cast_ray(&scene, forward_ray(), 99), rgb(100, 200, 300));
}

#[test]
fn missing_geometry_returns_background() {
    let scene = UniformScene::new(Vec::new(), None);
    assert_eq!(sky_renderer().cast_ray(&scene, forward_ray(), 0), rgb(100, 200, 300));
}

#[test]
fn fresnel_reports_total_internal_reflection_as_one() {
    // Leaving glass (index 1.5) at 45 degrees exceeds the critical
    // angle, so the reflectance is exactly one.
    let direction = p(46341, 46341, 0);
    let normal = p(0, ONE, 0);
    let kr = fresnel(direction, normal, Fx { bits: 3 * ONE / 2 });
    assert_eq!(kr, Fx { bits: ONE });
}

#[test]
fn fresnel_at_normal_incidence_is_small() {
    // Head-on against glass: the true reflectance is about 0.04.
    let direction = p(0, -ONE, 0);
    let normal = p(0, ONE, 0);
    let kr = fresnel(direction, normal, Fx { bits: 3 * ONE / 2 });
    assert!(kr.bits >= 0 && kr.bits < ONE / 10, "kr {}", kr.bits);
}

#[test]
fn refractive_surface_blends_toward_the_background() {
    // A refractive pane in a uniform scene: both secondary rays hit the
    // pane again and the recursion bottoms out at the background; the
    // result must be a Fresnel mix of background-lit terms, and with a
    // black background it is black.
    let renderer = Renderer::init(
        Camera {
            translation: p(0, 0, 0),
            direction: p(0, 0, -ONE),
            up: p(0, ONE, 0),
            half_fov_tan: Fx { bits: ONE },
            background: rgb(0, 0, 0),
        },
        4,
        4,
    );
    let pane = UniformScene::new(
        Vec::new(),
        Some(surface(Material::Refractive {
            albedo: rgb(ONE, ONE, ONE),
            index: Fx { bits: 3 * ONE / 2 },
            transparency: Fx { bits: ONE },
        })),
    );
    assert_eq!(renderer.cast_ray(&pane, forward_ray(), 0), rgb(0, 0, 0));
}
