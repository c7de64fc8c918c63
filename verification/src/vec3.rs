//! Fixed-point 3-vectors: the geometry carrier for rays, normals,
//! camera bases and positions.

use vstd::prelude::*;
use crate::fixed::{
    Fx, fx_add, fx_add_v, fx_div, fx_div_v, fx_floor, fx_floor_v, fx_mul, fx_mul_v, fx_neg,
    fx_neg_v, fx_sqrt, fx_sqrt_v, fx_sub, fx_sub_v,
};

verus! {

/// A 3-vector of fixed-point components.
#[derive(Clone, Copy, Debug, PartialEq, Eq, Structural)]
pub struct Vec3x {
    pub x: Fx,
    pub y: Fx,
    pub z: Fx,
}

/// A 2-vector of fixed-point components, for face-local UV coordinates.
#[derive(Clone, Copy, Debug, PartialEq, Eq, Structural)]
pub struct Vec2x {
    pub x: Fx,
    pub y: Fx,
}

/// An integer-addressed cell coordinate in the voxel grid.
#[derive(Clone, Copy, Debug, PartialEq, Eq, Structural)]
pub struct GridPos {
    pub x: i64,
    pub y: i64,
    pub z: i64,
}

pub open spec fn vadd_v(a: Vec3x, b: Vec3x) -> Vec3x {
    Vec3x { x: fx_add_v(a.x, b.x), y: fx_add_v(a.y, b.y), z: fx_add_v(a.z, b.z) }
}

pub open spec fn vsub_v(a: Vec3x, b: Vec3x) -> Vec3x {
    Vec3x { x: fx_sub_v(a.x, b.x), y: fx_sub_v(a.y, b.y), z: fx_sub_v(a.z, b.z) }
}

pub open spec fn vneg_v(a: Vec3x) -> Vec3x {
    Vec3x { x: fx_neg_v(a.x), y: fx_neg_v(a.y), z: fx_neg_v(a.z) }
}

pub open spec fn vscale_v(a: Vec3x, s: Fx) -> Vec3x {
    Vec3x { x: fx_mul_v(a.x, s), y: fx_mul_v(a.y, s), z: fx_mul_v(a.z, s) }
}

pub open spec fn vdiv_v(a: Vec3x, s: Fx) -> Vec3x {
    Vec3x { x: fx_div_v(a.x, s), y: fx_div_v(a.y, s), z: fx_div_v(a.z, s) }
}

pub open spec fn vdot_v(a: Vec3x, b: Vec3x) -> Fx {
    fx_add_v(fx_add_v(fx_mul_v(a.x, b.x), fx_mul_v(a.y, b.y)), fx_mul_v(a.z, b.z))
}

pub open spec fn vcross_v(a: Vec3x, b: Vec3x) -> Vec3x {
    Vec3x {
        x: fx_sub_v(fx_mul_v(a.y, b.z), fx_mul_v(a.z, b.y)),
        y: fx_sub_v(fx_mul_v(a.z, b.x), fx_mul_v(a.x, b.z)),
        z: fx_sub_v(fx_mul_v(a.x, b.y), fx_mul_v(a.y, b.x)),
    }
}

pub open spec fn vlength_v(a: Vec3x) -> Fx {
    fx_sqrt_v(vdot_v(a, a))
}

/// The vector rescaled by its own length; all zero when the length
/// rounds to zero.
pub open spec fn vnormalize_v(a: Vec3x) -> Vec3x {
    vdiv_v(a, vlength_v(a))
}

pub open spec fn vdist_v(a: Vec3x, b: Vec3x) -> Fx {
    vlength_v(vsub_v(a, b))
}

pub open spec fn vfloor_v(a: Vec3x) -> GridPos {
    GridPos {
        x: fx_floor_v(a.x) as i64,
        y: fx_floor_v(a.y) as i64,
        z: fx_floor_v(a.z) as i64,
    }
}

impl Vec3x {
    pub fn new(x: Fx, y: Fx, z: Fx) -> (r: Vec3x)
        ensures
            r == (Vec3x { x, y, z }),
    {
        Vec3x { x, y, z }
    }

    pub fn zero() -> (r: Vec3x)
        ensures
            r == (Vec3x { x: Fx { bits: 0 }, y: Fx { bits: 0 }, z: Fx { bits: 0 } }),
    {
        Vec3x { x: Fx { bits: 0 }, y: Fx { bits: 0 }, z: Fx { bits: 0 } }
    }
}

pub fn vadd(a: Vec3x, b: Vec3x) -> (r: Vec3x)
    ensures
        r == vadd_v(a, b),
{
    Vec3x { x: fx_add(a.x, b.x), y: fx_add(a.y, b.y), z: fx_add(a.z, b.z) }
}

pub fn vsub(a: Vec3x, b: Vec3x) -> (r: Vec3x)
    ensures
        r == vsub_v(a, b),
{
    Vec3x { x: fx_sub(a.x, b.x), y: fx_sub(a.y, b.y), z: fx_sub(a.z, b.z) }
}

pub fn vneg(a: Vec3x) -> (r: Vec3x)
    ensures
        r == vneg_v(a),
{
    Vec3x { x: fx_neg(a.x), y: fx_neg(a.y), z: fx_neg(a.z) }
}

pub fn vscale(a: Vec3x, s: Fx) -> (r: Vec3x)
    ensures
        r == vscale_v(a, s),
{
    Vec3x { x: fx_mul(a.x, s), y: fx_mul(a.y, s), z: fx_mul(a.z, s) }
}

pub fn vdiv(a: Vec3x, s: Fx) -> (r: Vec3x)
    ensures
        r == vdiv_v(a, s),
{
    Vec3x { x: fx_div(a.x, s), y: fx_div(a.y, s), z: fx_div(a.z, s) }
}

pub fn vdot(a: Vec3x, b: Vec3x) -> (r: Fx)
    ensures
        r == vdot_v(a, b),
{
    fx_add(fx_add(fx_mul(a.x, b.x), fx_mul(a.y, b.y)), fx_mul(a.z, b.z))
}

pub fn vcross(a: Vec3x, b: Vec3x) -> (r: Vec3x)
    ensures
        r == vcross_v(a, b),
{
    Vec3x {
        x: fx_sub(fx_mul(a.y, b.z), fx_mul(a.z, b.y)),
        y: fx_sub(fx_mul(a.z, b.x), fx_mul(a.x, b.z)),
        z: fx_sub(fx_mul(a.x, b.y), fx_mul(a.y, b.x)),
    }
}

pub fn vlength(a: Vec3x) -> (r: Fx)
    ensures
        r == vlength_v(a),
{
    fx_sqrt(vdot(a, a))
}

pub fn vnormalize(a: Vec3x) -> (r: Vec3x)
    ensures
        r == vnormalize_v(a),
{
    let len = vlength(a);
    vdiv(a, len)
}

pub fn vdist(a: Vec3x, b: Vec3x) -> (r: Fx)
    ensures
        r == vdist_v(a, b),
{
    vlength(vsub(a, b))
}

pub fn vfloor(a: Vec3x) -> (r: GridPos)
    ensures
        r == vfloor_v(a),
{
    GridPos { x: fx_floor(a.x), y: fx_floor(a.y), z: fx_floor(a.z) }
}

} // verus!
