//! Per-block textures: flat arrays of linear texels, sampled by
//! nearest neighbor at a wrapped, clamped UV coordinate. Which texture
//! answers depends on the block kind and, for grass, on the face.

use vstd::prelude::*;
use vstd::arithmetic::mul::lemma_mul_inequality;
use crate::color::LinearRgb;
use crate::fixed::{
    Fx, fx_floor, fx_floor_v, fx_max, fx_max_v, fx_min, fx_min_v, fx_mul, fx_mul_v, fx_sub,
    fx_sub_v, fx_from_int_v,
};
use crate::vec3::Vec2x;
use crate::world::Block;

verus! {

/// A texture face: one flat, row-major array of `width * height`
/// linear-color texels.
#[derive(Debug)]
pub struct BlockTexture {
    pub width: u32,
    pub height: u32,
    pub data: Vec<LinearRgb>,
}

impl BlockTexture {
    /// Positive extent on both axes, one texel per cell.
    pub open spec fn wf(self) -> bool {
        self.width > 0 && self.height > 0 && self.data@.len() == (self.width as int) * (
        self.height as int)
    }

    pub fn new(width: u32, height: u32, data: Vec<LinearRgb>) -> (r: BlockTexture)
        requires
            width > 0,
            height > 0,
            data@.len() == (width as int) * (height as int),
        ensures
            r == (BlockTexture { width, height, data }),
            r.wf(),
    {
        BlockTexture { width, height, data }
    }
}

/// The fractional part of a coordinate: the value with its floor taken
/// away, always in [0, 1).
pub open spec fn fract_v(a: Fx) -> Fx {
    fx_sub_v(a, fx_from_int_v(fx_floor_v(a)))
}

/// The texel column (or row) of a wrapped UV coordinate against an
/// extent: scale the fractional part by the extent, clamp into
/// [0, extent - 1], and round down.
pub open spec fn texel_index_v(a: Fx, extent: u32) -> int {
    fx_floor_v(
        fx_max_v(
            fx_min_v(fx_mul_v(fract_v(a), fx_from_int_v(extent as int)), fx_from_int_v(
                extent as int - 1,
            )),
            Fx { bits: 0 },
        ),
    )
}

/// Nearest-neighbor sampling of one texture at a UV coordinate.
pub open spec fn tex_sample_v(tex: BlockTexture, uv: Vec2x) -> LinearRgb {
    let u = texel_index_v(uv.x, tex.width);
    let v = texel_index_v(uv.y, tex.height);
    tex.data@[v * (tex.width as int) + u]
}

impl BlockTexture {
    /// Samples the texel nearest to the wrapped UV coordinate.
    pub fn sample(&self, uv: Vec2x) -> (r: LinearRgb)
        requires
            self.wf(),
        ensures
            r == tex_sample_v(*self, uv),
    {
        let u = texel_coord(uv.x, self.width);
        let v = texel_coord(uv.y, self.height);
        let n = self.data.len();
        proof {
            lemma_mul_inequality(v as int, self.height as int - 1, self.width as int);
            assert((self.height as int - 1) * (self.width as int) + (self.width as int) == (
            self.height as int) * (self.width as int)) by (nonlinear_arith);
            assert((self.height as int) * (self.width as int) == (self.width as int) * (
            self.height as int)) by (nonlinear_arith);
        }
        self.data[v * (self.width as usize) + u]
    }
}

/// The texel index along one axis, in executable form.
fn texel_coord(a: Fx, extent: u32) -> (r: usize)
    requires
        extent > 0,
    ensures
        r as int == texel_index_v(a, extent),
        r < extent,
{
    let floor = fx_floor(a);
    let fract = fx_sub(a, Fx::from_int(floor));
    let scaled = fx_mul(fract, Fx::from_int(extent as i64));
    let clamped = fx_max(fx_min(scaled, Fx::from_int(extent as i64 - 1)), Fx { bits: 0 });
    let idx = fx_floor(clamped);
    idx as usize
}

/// The set of per-block textures the intersector samples from, in
/// block-kind order: dirt, stone, sand, grass side, grass top, wood,
/// leaves, water.
#[derive(Debug)]
pub struct BlockTextures {
    pub textures: Vec<BlockTexture>,
}

/// The texture index a block and face resolve to.
pub open spec fn texture_slot_v(block: Block, face_is_top: bool, face_is_bottom: bool) -> int {
    match block {
        Block::Air => 0,
        Block::Dirt => 0,
        Block::Stone => 1,
        Block::Sand => 2,
        Block::Grass => if face_is_top {
            4
        } else if face_is_bottom {
            0
        } else {
            3
        },
        Block::Wood => 5,
        Block::Leaves => 6,
        Block::Water => 7,
    }
}

impl BlockTextures {
    /// One texture per slot, each well formed.
    pub open spec fn wf(self) -> bool {
        self.textures@.len() == 8 && forall|i: int| 0 <= i < 8 ==> (#[trigger] self.textures@[i]).wf()
    }

    pub fn new(textures: Vec<BlockTexture>) -> (r: BlockTextures)
        ensures
            r == (BlockTextures { textures }),
    {
        BlockTextures { textures }
    }
}

} // verus!
