use lux::color::LinearRgb;
use lux::fixed::{Fx, FX_SCALE};
use lux::render::Renderer;
use lux::scene::{Camera, Light, Material, RayHit, UniformScene};
use lux::vec3::Vec3x;

fn q(x: i64, y: i64, z: i64) -> Vec3x {
    Vec3x { x: Fx { bits: x }, y: Fx { bits: y }, z: Fx { bits: z } }
}

fn shade(r: i64, g: i64, b: i64) -> LinearRgb {
    LinearRgb { red: Fx { bits: r }, green: Fx { bits: g }, blue: Fx { bits: b } }
}

const ONE: i64 = FX_SCALE;

fn small_renderer() -> Renderer {
    Renderer::init(
        Camera {
            translation: q(0, 0, 0),
            direction: q(0, 0, -ONE),
            up: q(0, ONE, 0),
            half_fov_tan: Fx { bits: ONE },
            background: shade(1, 2, 3),
        },
        5,
        3,
    )
}

fn lit_scene() -> UniformScene {
    let lights = vec![Light::Ambient {
        color: shade(ONE, ONE, ONE),
        intensity: Fx { bits: ONE / 2 },
    }];
    let hit = RayHit {
        material: Material::Diffuse { albedo: shade(ONE, ONE / 2, ONE / 4) },
        position: q(0, 0, -2 * ONE),
        normal: q(0, 0, ONE),
        distance: Fx { bits: 2 * ONE },
    };
    UniformScene::new(lights, Some(hit))
}

fn sentinel_buffer(len: usize) -> Vec<LinearRgb> {
    vec![shade(-77, -77, -77); len]
}

#[test]
fn render_into_writes_every_element_for_one_worker() {
    let renderer = small_renderer();
    let scene = lit_scene();
    let mut pixels = sentinel_buffer(15);
    renderer.render_into(&scene, &mut pixels, 1);
    assert_eq!(pixels.len(), 15);
    for (i, px) in pixels.iter().enumerate() {
        let x = (i % 5) as u32;
        let y = (i / 5) as u32;
        assert_eq!(*px, renderer.render_pixel(&scene, x, y), "pixel {}", i);
        assert_ne!(px.red.bits, -77, "pixel {} left unwritten", i);
    }
}

#[test]
fn render_into_writes_every_element_for_two_workers() {
    let renderer = small_renderer();
    let scene = lit_scene();
    let mut one = sentinel_buffer(15);
    let mut two = sentinel_buffer(15);
    renderer.render_into(&scene, &mut one, 1);
    renderer.render_into(&scene, &mut two, 2);
    assert_eq!(one, two);
    for px in &two {
        assert_ne!(px.red.bits, -77);
    }
}

#[test]
fn render_into_writes_every_element_when_workers_exceed_rows() {
    // More chunks than rows (and than pixels): leading chunks are
    // empty and the last chunk folds in the whole remainder.
    let renderer = small_renderer();
    let scene = lit_scene();
    let mut reference = sentinel_buffer(15);
    let mut many = sentinel_buffer(15);
    renderer.render_into(&scene, &mut reference, 1);
    renderer.render_into(&scene, &mut many, 100);
    assert_eq!(reference, many);
    for px in &many {
        assert_ne!(px.red.bits, -77);
    }
}

#[test]
fn render_allocates_and_fills_the_buffer() {
    let renderer = small_renderer();
    let scene = lit_scene();
    let rendered = renderer.render(&scene);
    assert_eq!(rendered.len(), 15);
    let mut manual = sentinel_buffer(15);
    renderer.render_into(&scene, &mut manual, 2);
    assert_eq!(rendered, manual);
}

#[test]
fn render_chunk_touches_only_its_own_range() {
    let renderer = small_renderer();
    let scene = lit_scene();
    let mut pixels = sentinel_buffer(15);
    // Chunk 1 of 3 covers indexes 5..10.
    renderer.render_chunk(&scene, &mut pixels, 1, 3);
    for (i, px) in pixels.iter().enumerate() {
        if (5..10).contains(&i) {
            let x = (i % 5) as u32;
            let y = (i / 5) as u32;
            assert_eq!(*px, renderer.render_pixel(&scene, x, y));
        } else {
            assert_eq!(px.red.bits, -77, "pixel {} must be untouched", i);
        }
    }
}
