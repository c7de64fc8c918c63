use lux::color::LinearRgb;
use lux::fixed::{Fx, FX_SCALE};
use lux::render::Renderer;
use lux::scene::Camera;
use lux::vec3::Vec3x;

fn v(x: i64, y: i64, z: i64) -> Vec3x {
    Vec3x { x: Fx { bits: x }, y: Fx { bits: y }, z: Fx { bits: z } }
}

fn origin_camera() -> Camera {
    Camera {
        translation: v(0, 0, 0),
        direction: v(0, 0, -FX_SCALE),
        up: v(0, FX_SCALE, 0),
        // 90 degrees of vertical field of view: tan(45 deg) = 1.
        half_fov_tan: Fx { bits: FX_SCALE },
        background: LinearRgb {
            red: Fx { bits: 0 },
            green: Fx { bits: 0 },
            blue: Fx { bits: 0 },
        },
    }
}

fn expected_component(value: f64) -> i64 {
    (value * FX_SCALE as f64).round() as i64
}

fn assert_close(actual: i64, expected: i64) {
    assert!(
        (actual - expected).abs() <= 4,
        "component {} not within tolerance of {}",
        actual,
        expected
    );
}

#[test]
fn corner_rays_of_two_by_two_point_into_their_quadrants() {
    // Camera at the origin facing -Z with up = +Y and a 90-degree fov:
    // the four pixel centers of a 2x2 image look toward the four
    // quadrant corners, at (+-0.5, +-0.5, -1) normalized.
    let renderer = Renderer::init(origin_camera(), 2, 2);
    let mag_xy = expected_component(0.5 / 1.5f64.sqrt());
    let mag_z = expected_component(1.0 / 1.5f64.sqrt());

    let top_left = renderer.primary_ray(0, 0).direction;
    assert!(top_left.x.bits < 0 && top_left.y.bits > 0 && top_left.z.bits < 0);
    assert_close(top_left.x.bits, -mag_xy);
    assert_close(top_left.y.bits, mag_xy);
    assert_close(top_left.z.bits, -mag_z);

    let top_right = renderer.primary_ray(1, 0).direction;
    assert!(top_right.x.bits > 0 && top_right.y.bits > 0 && top_right.z.bits < 0);
    assert_close(top_right.x.bits, mag_xy);
    assert_close(top_right.y.bits, mag_xy);
    assert_close(top_right.z.bits, -mag_z);

    let bottom_left = renderer.primary_ray(0, 1).direction;
    assert!(bottom_left.x.bits < 0 && bottom_left.y.bits < 0 && bottom_left.z.bits < 0);
    assert_close(bottom_left.x.bits, -mag_xy);
    assert_close(bottom_left.y.bits, -mag_xy);
    assert_close(bottom_left.z.bits, -mag_z);

    let bottom_right = renderer.primary_ray(1, 1).direction;
    assert!(bottom_right.x.bits > 0 && bottom_right.y.bits < 0 && bottom_right.z.bits < 0);
    assert_close(bottom_right.x.bits, mag_xy);
    assert_close(bottom_right.y.bits, -mag_xy);
    assert_close(bottom_right.z.bits, -mag_z);
}

#[test]
fn rays_start_at_the_camera() {
    let renderer = Renderer::init(origin_camera(), 2, 2);
    let ray = renderer.primary_ray(1, 0);
    assert_eq!(ray.origin, v(0, 0, 0));
}
