use lux::fixed::{Fx, FX_SCALE};
use lux::vec3::{vadd, vcross, vdist, vdot, vfloor, vlength, vneg, vnormalize, vscale, vsub, Vec3x};

fn vx(x: i64, y: i64, z: i64) -> Vec3x {
    Vec3x { x: Fx { bits: x }, y: Fx { bits: y }, z: Fx { bits: z } }
}

const ONE: i64 = FX_SCALE;

#[test]
fn dot_and_cross_of_unit_axes() {
    let ex = vx(ONE, 0, 0);
    let ey = vx(0, ONE, 0);
    let ez = vx(0, 0, ONE);
    assert_eq!(vdot(ex, ex).bits, ONE);
    assert_eq!(vdot(ex, ey).bits, 0);
    assert_eq!(vcross(ex, ey), ez);
    assert_eq!(vcross(ey, ez), ex);
    assert_eq!(vcross(ez, ex), ey);
    assert_eq!(vcross(ey, ex), vneg(ez));
}

#[test]
fn length_and_distance_of_integer_triangles() {
    // A 3-4-5 triangle comes out exactly.
    let v = vx(3 * ONE, 4 * ONE, 0);
    assert_eq!(vlength(v).bits, 5 * ONE);
    let a = vx(ONE, 2 * ONE, 2 * ONE);
    let b = vx(ONE, 2 * ONE, 2 * ONE);
    assert_eq!(vdist(a, b).bits, 0);
    assert_eq!(vdist(vx(0, 0, 0), vx(0, 3 * ONE, 4 * ONE)).bits, 5 * ONE);
}

#[test]
fn normalize_rescales_to_unit_length() {
    let v = vnormalize(vx(3 * ONE, 4 * ONE, 0));
    // 3/5 and 4/5 exactly.
    assert_eq!(v.x.bits, 3 * ONE / 5);
    assert_eq!(v.y.bits, 4 * ONE / 5);
    assert_eq!(v.z.bits, 0);
    // The zero vector stays zero rather than dividing by zero.
    assert_eq!(vnormalize(vx(0, 0, 0)), vx(0, 0, 0));
}

#[test]
fn floor_rounds_toward_negative_infinity_componentwise() {
    let f = vfloor(vx(3 * ONE / 2, -3 * ONE / 2, -2 * ONE));
    assert_eq!(f.x, 1);
    assert_eq!(f.y, -2);
    assert_eq!(f.z, -2);
}

#[test]
fn add_sub_scale_are_componentwise() {
    let a = vx(ONE, -2 * ONE, 3 * ONE);
    let b = vx(4 * ONE, 5 * ONE, -6 * ONE);
    assert_eq!(vadd(a, b), vx(5 * ONE, 3 * ONE, -3 * ONE));
    assert_eq!(vsub(a, b), vx(-3 * ONE, -7 * ONE, 9 * ONE));
    assert_eq!(vscale(a, Fx { bits: ONE / 2 }), vx(ONE / 2, -ONE, 3 * ONE / 2));
}
