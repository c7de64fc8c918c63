//! The voxel scene intersector: answers nearest-hit ray queries
//! against the cubic grid by marching the ray cell boundary by cell
//! boundary, always advancing along the axis whose next boundary is
//! nearest, resolving the struck face, its outward normal and a
//! face-local UV, and rejecting back faces.

use vstd::prelude::*;
use crate::fixed::{
    FX_SCALE, Fx, fx_add, fx_add_v, fx_div, fx_div_v, fx_from_int_v, fx_abs, fx_abs_v, fx_max,
    fx_max_v, fx_min, fx_min_v, fx_neg, fx_neg_v, fx_sub, fx_sub_v,
};
use crate::scene::{Light, Material, Ray, RayHit, Scene};
use crate::texture::{BlockTextures, tex_sample_v, texture_slot_v};
use crate::vec3::{
    GridPos, Vec2x, Vec3x, vadd, vadd_v, vdist, vdist_v, vdot, vdot_v, vfloor, vfloor_v, vscale,
    vscale_v, vsub, vsub_v,
};
use crate::world::{Block, BloxScene, in_grid, WORLD_SIZE};

verus! {

/// The world's extent as a fixed-point coordinate (15.0).
pub const WORLD_EXTENT_BITS: i64 = 983040;

/// Offset added after clamping a ray origin onto the world boundary,
/// guarding the subsequent floor against landing one cell short.
pub const ENTRY_EPSILON_BITS: i64 = 66;

/// Upper bound on traversal steps. Each step advances exactly one axis
/// by one cell, monotonically, so a ray crosses the 15-cell cube in at
/// most 45 in-grid steps; the budget is slack above that.
pub const TRAVERSAL_BUDGET: u64 = 64;

/// A face of a unit cell, named by its outward axis direction.
#[derive(Clone, Copy, Debug, PartialEq, Eq, Structural)]
pub enum Face {
    XNeg,
    XPos,
    YNeg,
    YPos,
    ZNeg,
    ZPos,
}

/// The outward unit normal of a cell face.
pub open spec fn face_normal_v(face: Face) -> Vec3x {
    match face {
        Face::XNeg => Vec3x { x: Fx { bits: -65536i64 }, y: Fx { bits: 0 }, z: Fx { bits: 0 } },
        Face::XPos => Vec3x { x: Fx { bits: 65536 }, y: Fx { bits: 0 }, z: Fx { bits: 0 } },
        Face::YNeg => Vec3x { x: Fx { bits: 0 }, y: Fx { bits: -65536i64 }, z: Fx { bits: 0 } },
        Face::YPos => Vec3x { x: Fx { bits: 0 }, y: Fx { bits: 65536 }, z: Fx { bits: 0 } },
        Face::ZNeg => Vec3x { x: Fx { bits: 0 }, y: Fx { bits: 0 }, z: Fx { bits: -65536i64 } },
        Face::ZPos => Vec3x { x: Fx { bits: 0 }, y: Fx { bits: 0 }, z: Fx { bits: 65536 } },
    }
}

impl Face {
    pub fn normal(&self) -> (r: Vec3x)
        ensures
            r == face_normal_v(*self),
    {
        match self {
            Face::XNeg => Vec3x { x: Fx { bits: -65536 }, y: Fx { bits: 0 }, z: Fx { bits: 0 } },
            Face::XPos => Vec3x { x: Fx { bits: 65536 }, y: Fx { bits: 0 }, z: Fx { bits: 0 } },
            Face::YNeg => Vec3x { x: Fx { bits: 0 }, y: Fx { bits: -65536 }, z: Fx { bits: 0 } },
            Face::YPos => Vec3x { x: Fx { bits: 0 }, y: Fx { bits: 65536 }, z: Fx { bits: 0 } },
            Face::ZNeg => Vec3x { x: Fx { bits: 0 }, y: Fx { bits: 0 }, z: Fx { bits: -65536 } },
            Face::ZPos => Vec3x { x: Fx { bits: 0 }, y: Fx { bits: 0 }, z: Fx { bits: 65536 } },
        }
    }
}

/// The material a block face answers with: its texture slot sampled at
/// the face-local UV.
pub open spec fn sample_v(textures: BlockTextures, block: Block, face: Face, uv: Vec2x) -> Material {
    let slot = texture_slot_v(block, face == Face::YPos, face == Face::YNeg);
    Material::Diffuse { albedo: tex_sample_v(textures.textures@[slot], uv) }
}

impl BlockTextures {
    /// Resolves a non-air block face to its material.
    pub fn sample(&self, block: Block, face: Face, uv: Vec2x) -> (r: Material)
        requires
            self.wf(),
            block != Block::Air,
        ensures
            r == sample_v(*self, block, face, uv),
    {
        let albedo = match block {
            Block::Air => self.textures[0].sample(uv),
            Block::Dirt => self.textures[0].sample(uv),
            Block::Stone => self.textures[1].sample(uv),
            Block::Sand => self.textures[2].sample(uv),
            Block::Grass => match face {
                Face::YPos => self.textures[4].sample(uv),
                Face::YNeg => self.textures[0].sample(uv),
                _ => self.textures[3].sample(uv),
            },
            Block::Wood => self.textures[5].sample(uv),
            Block::Leaves => self.textures[6].sample(uv),
            Block::Water => self.textures[7].sample(uv),
        };
        Material::Diffuse { albedo }
    }
}

/// The parameter interval over which a ray coordinate stays inside the
/// world slab on one axis, or `None` when it never does. A zero-speed
/// axis is always in range if its origin coordinate is, and never
/// otherwise.
pub open spec fn interval_v(start: Fx, speed: Fx) -> Option<(Fx, Fx)> {
    if (start.bits < 0 && speed.bits <= 0) || (start.bits > WORLD_EXTENT_BITS && speed.bits >= 0) {
        None
    } else if speed.bits == 0 {
        if start.bits >= 0 && start.bits < WORLD_EXTENT_BITS {
            Some((Fx { bits: i64::MIN }, Fx { bits: i64::MAX }))
        } else {
            None
        }
    } else {
        let t1 = fx_div_v(fx_neg_v(start), speed);
        let t2 = fx_div_v(fx_sub_v(Fx { bits: WORLD_EXTENT_BITS }, start), speed);
        let lo = if t1.bits < t2.bits {
            t1
        } else {
            t2
        };
        let hi = if t1.bits < t2.bits {
            t2
        } else {
            t1
        };
        Some((fx_max_v(lo, Fx { bits: 0 }), hi))
    }
}

/// Where the traversal starts: the ray origin itself when it lies in
/// the world, else the entry point of the ray into the world (plus a
/// small epsilon), or `None` when the ray misses the world entirely.
pub open spec fn clamp_origin_v(ray: Ray) -> Option<Vec3x> {
    if ray.origin.x.bits >= 0 && ray.origin.x.bits < WORLD_EXTENT_BITS && ray.origin.y.bits >= 0
        && ray.origin.y.bits < WORLD_EXTENT_BITS && ray.origin.z.bits >= 0
        && ray.origin.z.bits < WORLD_EXTENT_BITS {
        Some(ray.origin)
    } else {
        match (interval_v(ray.origin.x, ray.direction.x), interval_v(
            ray.origin.y,
            ray.direction.y,
        ), interval_v(ray.origin.z, ray.direction.z)) {
            (Some(ix), Some(iy), Some(iz)) => {
                let lo = fx_max_v(fx_max_v(ix.0, iy.0), iz.0);
                let hi = fx_min_v(fx_min_v(ix.1, iy.1), iz.1);
                if lo.bits <= hi.bits {
                    Some(
                        vadd_v(
                            vadd_v(ray.origin, vscale_v(ray.direction, lo)),
                            Vec3x {
                                x: Fx { bits: ENTRY_EPSILON_BITS },
                                y: Fx { bits: ENTRY_EPSILON_BITS },
                                z: Fx { bits: ENTRY_EPSILON_BITS },
                            },
                        ),
                    )
                } else {
                    None
                }
            },
            _ => None,
        }
    }
}

/// The entry cell: the floored start position, capped at the last
/// valid index per axis to guard boundary rounding.
pub open spec fn entry_cell_v(pos: Vec3x) -> GridPos {
    let f = vfloor_v(pos);
    GridPos {
        x: if f.x > 14 {
            14i64
        } else {
            f.x
        },
        y: if f.y > 14 {
            14i64
        } else {
            f.y
        },
        z: if f.z > 14 {
            14i64
        } else {
            f.z
        },
    }
}

/// Time until the ray coordinate reaches the next cell boundary on one
/// axis, with the signed unit step it would take; a zero-speed axis
/// never reaches one.
pub open spec fn time_to_edge_v(pos: Fx, cell: i64, speed: Fx) -> (Fx, i64) {
    if speed.bits > 0 {
        (fx_div_v(fx_sub_v(fx_from_int_v(cell + 1), pos), speed), 1i64)
    } else if speed.bits < 0 {
        (fx_div_v(fx_sub_v(fx_from_int_v(cell as int), pos), speed), -1i64)
    } else {
        (Fx { bits: i64::MAX }, 0)
    }
}

/// The face of the current cell nearest to a position, with its
/// face-local UV; ties go to the earlier axis in X, Y, Z order, the
/// negative side first.
pub open spec fn face_and_uv_v(pos: Vec3x, cell: GridPos) -> (Face, Vec2x) {
    let rel = vsub_v(
        pos,
        Vec3x {
            x: fx_from_int_v(cell.x as int),
            y: fx_from_int_v(cell.y as int),
            z: fx_from_int_v(cell.z as int),
        },
    );
    let one = Fx { bits: FX_SCALE };
    let d_xpos = fx_abs_v(fx_sub_v(one, rel.x));
    let d_yneg = fx_abs_v(rel.y);
    let d_ypos = fx_abs_v(fx_sub_v(one, rel.y));
    let d_zneg = fx_abs_v(rel.z);
    let d_zpos = fx_abs_v(fx_sub_v(one, rel.z));
    let f0 = Face::XNeg;
    let b0 = fx_abs_v(rel.x);
    let f1 = if d_xpos.bits < b0.bits {
        Face::XPos
    } else {
        f0
    };
    let b1 = if d_xpos.bits < b0.bits {
        d_xpos
    } else {
        b0
    };
    let f2 = if d_yneg.bits < b1.bits {
        Face::YNeg
    } else {
        f1
    };
    let b2 = if d_yneg.bits < b1.bits {
        d_yneg
    } else {
        b1
    };
    let f3 = if d_ypos.bits < b2.bits {
        Face::YPos
    } else {
        f2
    };
    let b3 = if d_ypos.bits < b2.bits {
        d_ypos
    } else {
        b2
    };
    let f4 = if d_zneg.bits < b3.bits {
        Face::ZNeg
    } else {
        f3
    };
    let b4 = if d_zneg.bits < b3.bits {
        d_zneg
    } else {
        b3
    };
    let face = if d_zpos.bits < b4.bits {
        Face::ZPos
    } else {
        f4
    };
    let uv = match face {
        Face::XNeg => Vec2x { x: fx_sub_v(one, rel.z), y: fx_sub_v(one, rel.y) },
        Face::XPos => Vec2x { x: rel.z, y: fx_sub_v(one, rel.y) },
        Face::YNeg => Vec2x { x: rel.x, y: rel.z },
        Face::YPos => Vec2x { x: rel.x, y: fx_sub_v(one, rel.z) },
        Face::ZNeg => Vec2x { x: fx_sub_v(one, rel.x), y: fx_sub_v(one, rel.y) },
        Face::ZPos => Vec2x { x: rel.x, y: fx_sub_v(one, rel.y) },
    };
    (face, uv)
}

/// One traversal step: advance to the nearest cell boundary over the
/// three axes (ties to the earlier axis), accumulate the distance, and
/// walk on with one less unit of budget.
pub open spec fn walk_step_v(
    grid: BloxScene,
    textures: BlockTextures,
    ray: Ray,
    pos: Vec3x,
    cell: GridPos,
    dist: Fx,
    fuel: nat,
) -> Option<RayHit>
    decreases fuel, 0int,
{
    if fuel == 0 {
        None
    } else {
        let (tx, sx) = time_to_edge_v(pos.x, cell.x, ray.direction.x);
        let (ty, sy) = time_to_edge_v(pos.y, cell.y, ray.direction.y);
        let (tz, sz) = time_to_edge_v(pos.z, cell.z, ray.direction.z);
        let t1 = if ty.bits < tx.bits {
            ty
        } else {
            tx
        };
        let d1 = if ty.bits < tx.bits {
            (0i64, sy, 0i64)
        } else {
            (sx, 0i64, 0i64)
        };
        let t2 = if tz.bits < t1.bits {
            tz
        } else {
            t1
        };
        let d2 = if tz.bits < t1.bits {
            (0i64, 0i64, sz)
        } else {
            d1
        };
        walk_v(
            grid,
            textures,
            ray,
            vadd_v(pos, vscale_v(ray.direction, t2)),
            GridPos {
                x: (cell.x + d2.0) as i64,
                y: (cell.y + d2.1) as i64,
                z: (cell.z + d2.2) as i64,
            },
            fx_add_v(dist, t2),
            (fuel - 1) as nat,
        )
    }
}

/// The grid march: stop with `None` once the cell leaves the world (or
/// the budget runs out); at a non-air cell, accept the nearest face if
/// the ray runs against its normal, else step on.
pub open spec fn walk_v(
    grid: BloxScene,
    textures: BlockTextures,
    ray: Ray,
    pos: Vec3x,
    cell: GridPos,
    dist: Fx,
    fuel: nat,
) -> Option<RayHit>
    decreases fuel, 1int,
{
    if fuel == 0 {
        None
    } else if !in_grid(cell.x as int, cell.y as int, cell.z as int) {
        None
    } else {
        let block = grid.block_at(cell.x as int, cell.y as int, cell.z as int);
        if block != Block::Air {
            let (face, uv) = face_and_uv_v(pos, cell);
            let normal = face_normal_v(face);
            if vdot_v(normal, ray.direction).bits < 0 {
                Some(
                    RayHit {
                        material: sample_v(textures, block, face, uv),
                        position: pos,
                        normal,
                        distance: dist,
                    },
                )
            } else {
                walk_step_v(grid, textures, ray, pos, cell, dist, fuel)
            }
        } else {
            walk_step_v(grid, textures, ray, pos, cell, dist, fuel)
        }
    }
}

/// The whole query: clamp the origin into the world, floor it to the
/// entry cell, and march.
pub open spec fn voxel_cast_v(grid: BloxScene, textures: BlockTextures, ray: Ray) -> Option<
    RayHit,
> {
    match clamp_origin_v(ray) {
        None => None,
        Some(pos) => walk_v(
            grid,
            textures,
            ray,
            pos,
            entry_cell_v(pos),
            vdist_v(ray.origin, pos),
            TRAVERSAL_BUDGET as nat,
        ),
    }
}

/// A scene stored as the cubic voxel grid, its per-block textures, and
/// its lights.
#[derive(Debug)]
pub struct VoxelScene {
    grid: BloxScene,
    textures: BlockTextures,
    lights: Vec<Light>,
}

impl VoxelScene {
    #[verifier::type_invariant]
    spec fn type_inv(self) -> bool {
        self.grid.wf() && self.textures.wf()
    }

    /// The grid this scene reads.
    pub closed spec fn grid_v(self) -> BloxScene {
        self.grid
    }

    /// The texture set this scene samples.
    pub closed spec fn textures_v(self) -> BlockTextures {
        self.textures
    }

    pub fn new(grid: BloxScene, textures: BlockTextures, lights: Vec<Light>) -> (r: VoxelScene)
        requires
            grid.wf(),
            textures.wf(),
        ensures
            r.grid_v() == grid,
            r.textures_v() == textures,
            r.lights_seq() == lights@,
    {
        VoxelScene { grid, textures, lights }
    }
}

impl Scene for VoxelScene {
    closed spec fn lights_seq(&self) -> Seq<Light> {
        self.lights@
    }

    open spec fn hit_of(&self, ray: Ray, max_distance: Fx) -> Option<RayHit> {
        voxel_cast_v(self.grid_v(), self.textures_v(), ray)
    }

    fn lights(&self) -> (r: &Vec<Light>) {
        &self.lights
    }

    fn cast_ray(&self, ray: Ray, max_distance: Fx) -> (r: Option<RayHit>) {
        proof {
            use_type_invariant(self);
        }
        let pos = match clamp_origin(ray) {
            Some(pos) => pos,
            None => {
                return None;
            },
        };
        let f = vfloor(pos);
        let cell = GridPos {
            x: if f.x > 14 {
                14
            } else {
                f.x
            },
            y: if f.y > 14 {
                14
            } else {
                f.y
            },
            z: if f.z > 14 {
                14
            } else {
                f.z
            },
        };
        let dist = vdist(ray.origin, pos);
        walk(&self.grid, &self.textures, ray, pos, cell, dist, TRAVERSAL_BUDGET)
    }
}

/// Executable slab-interval computation for one axis.
fn interval(start: Fx, speed: Fx) -> (r: Option<(Fx, Fx)>)
    ensures
        r == interval_v(start, speed),
{
    if (start.bits < 0 && speed.bits <= 0) || (start.bits > WORLD_EXTENT_BITS && speed.bits >= 0) {
        None
    } else if speed.bits == 0 {
        if start.bits >= 0 && start.bits < WORLD_EXTENT_BITS {
            Some((Fx { bits: i64::MIN }, Fx { bits: i64::MAX }))
        } else {
            None
        }
    } else {
        let t1 = fx_div(fx_neg(start), speed);
        let t2 = fx_div(fx_sub(Fx { bits: WORLD_EXTENT_BITS }, start), speed);
        let (lo, hi) = if t1.bits < t2.bits {
            (t1, t2)
        } else {
            (t2, t1)
        };
        Some((fx_max(lo, Fx { bits: 0 }), hi))
    }
}

/// Executable origin clamping.
fn clamp_origin(ray: Ray) -> (r: Option<Vec3x>)
    ensures
        r == clamp_origin_v(ray),
{
    if ray.origin.x.bits >= 0 && ray.origin.x.bits < WORLD_EXTENT_BITS && ray.origin.y.bits >= 0
        && ray.origin.y.bits < WORLD_EXTENT_BITS && ray.origin.z.bits >= 0
        && ray.origin.z.bits < WORLD_EXTENT_BITS {
        return Some(ray.origin);
    }
    let ix = match interval(ray.origin.x, ray.direction.x) {
        Some(i) => i,
        None => {
            return None;
        },
    };
    let iy = match interval(ray.origin.y, ray.direction.y) {
        Some(i) => i,
        None => {
            return None;
        },
    };
    let iz = match interval(ray.origin.z, ray.direction.z) {
        Some(i) => i,
        None => {
            return None;
        },
    };
    let lo = fx_max(fx_max(ix.0, iy.0), iz.0);
    let hi = fx_min(fx_min(ix.1, iy.1), iz.1);
    if lo.bits <= hi.bits {
        Some(
            vadd(
                vadd(ray.origin, vscale(ray.direction, lo)),
                Vec3x {
                    x: Fx { bits: ENTRY_EPSILON_BITS },
                    y: Fx { bits: ENTRY_EPSILON_BITS },
                    z: Fx { bits: ENTRY_EPSILON_BITS },
                },
            ),
        )
    } else {
        None
    }
}

/// Executable time-to-boundary for one axis.
fn time_to_edge(pos: Fx, cell: i64, speed: Fx) -> (r: (Fx, i64))
    requires
        -1 <= cell < WORLD_SIZE as i64,
    ensures
        r == time_to_edge_v(pos, cell, speed),
{
    if speed.bits > 0 {
        (fx_div(fx_sub(Fx::from_int(cell + 1), pos), speed), 1)
    } else if speed.bits < 0 {
        (fx_div(fx_sub(Fx::from_int(cell), pos), speed), -1)
    } else {
        (Fx { bits: i64::MAX }, 0)
    }
}

/// Executable face and UV resolution.
fn face_and_uv(pos: Vec3x, cell: GridPos) -> (r: (Face, Vec2x))
    requires
        0 <= cell.x < WORLD_SIZE as i64,
        0 <= cell.y < WORLD_SIZE as i64,
        0 <= cell.z < WORLD_SIZE as i64,
    ensures
        r == face_and_uv_v(pos, cell),
{
    let rel = vsub(
        pos,
        Vec3x {
            x: Fx::from_int(cell.x),
            y: Fx::from_int(cell.y),
            z: Fx::from_int(cell.z),
        },
    );
    let one = Fx { bits: FX_SCALE };
    let mut face = Face::XNeg;
    let mut best = fx_abs(rel.x);
    let d_xpos = fx_abs(fx_sub(one, rel.x));
    if d_xpos.bits < best.bits {
        face = Face::XPos;
        best = d_xpos;
    }
    let d_yneg = fx_abs(rel.y);
    if d_yneg.bits < best.bits {
        face = Face::YNeg;
        best = d_yneg;
    }
    let d_ypos = fx_abs(fx_sub(one, rel.y));
    if d_ypos.bits < best.bits {
        face = Face::YPos;
        best = d_ypos;
    }
    let d_zneg = fx_abs(rel.z);
    if d_zneg.bits < best.bits {
        face = Face::ZNeg;
        best = d_zneg;
    }
    let d_zpos = fx_abs(fx_sub(one, rel.z));
    if d_zpos.bits < best.bits {
        face = Face::ZPos;
        best = d_zpos;
    }
    let uv = match face {
        Face::XNeg => Vec2x { x: fx_sub(one, rel.z), y: fx_sub(one, rel.y) },
        Face::XPos => Vec2x { x: rel.z, y: fx_sub(one, rel.y) },
        Face::YNeg => Vec2x { x: rel.x, y: rel.z },
        Face::YPos => Vec2x { x: rel.x, y: fx_sub(one, rel.z) },
        Face::ZNeg => Vec2x { x: fx_sub(one, rel.x), y: fx_sub(one, rel.y) },
        Face::ZPos => Vec2x { x: rel.x, y: fx_sub(one, rel.y) },
    };
    (face, uv)
}

/// Executable grid march, stepping the spec walk one cell at a time.
fn walk(
    grid: &BloxScene,
    textures: &BlockTextures,
    ray: Ray,
    pos: Vec3x,
    cell: GridPos,
    dist: Fx,
    fuel: u64,
) -> (r: Option<RayHit>)
    requires
        grid.wf(),
        textures.wf(),
    ensures
        r == walk_v(*grid, *textures, ray, pos, cell, dist, fuel as nat),
    decreases fuel,
{
    if fuel == 0 {
        return None;
    }
    let block = match grid.block(cell) {
        Some(block) => block,
        None => {
            return None;
        },
    };
    if block != Block::Air {
        let (face, uv) = face_and_uv(pos, cell);
        let normal = face.normal();
        if vdot(normal, ray.direction).bits < 0 {
            return Some(
                RayHit {
                    material: textures.sample(block, face, uv),
                    position: pos,
                    normal,
                    distance: dist,
                },
            );
        }
    }
    let (tx, sx) = time_to_edge(pos.x, cell.x, ray.direction.x);
    let (ty, sy) = time_to_edge(pos.y, cell.y, ray.direction.y);
    let (tz, sz) = time_to_edge(pos.z, cell.z, ray.direction.z);
    let mut time = tx;
    let mut delta = (sx, 0i64, 0i64);
    if ty.bits < time.bits {
        time = ty;
        delta = (0, sy, 0);
    }
    if tz.bits < time.bits {
        time = tz;
        delta = (0, 0, sz);
    }
    let next_pos = vadd(pos, vscale(ray.direction, time));
    let next_cell = GridPos { x: cell.x + delta.0, y: cell.y + delta.1, z: cell.z + delta.2 };
    let next_dist = fx_add(dist, time);
    walk(grid, textures, ray, next_pos, next_cell, next_dist, fuel - 1)
}

/// No accepted hit ever faces away from the ray: the march only
/// accepts a face whose normal runs against the ray direction.
pub proof fn lemma_walk_no_back_face(
    grid: BloxScene,
    textures: BlockTextures,
    ray: Ray,
    pos: Vec3x,
    cell: GridPos,
    dist: Fx,
    fuel: nat,
)
    ensures
        walk_v(grid, textures, ray, pos, cell, dist, fuel) matches Some(h) ==> vdot_v(
            h.normal,
            ray.direction,
        ).bits < 0,
    decreases fuel,
{
    if fuel == 0 {
    } else {
        let (tx, sx) = time_to_edge_v(pos.x, cell.x, ray.direction.x);
        let (ty, sy) = time_to_edge_v(pos.y, cell.y, ray.direction.y);
        let (tz, sz) = time_to_edge_v(pos.z, cell.z, ray.direction.z);
        let t1 = if ty.bits < tx.bits {
            ty
        } else {
            tx
        };
        let d1 = if ty.bits < tx.bits {
            (0i64, sy, 0i64)
        } else {
            (sx, 0i64, 0i64)
        };
        let t2 = if tz.bits < t1.bits {
            tz
        } else {
            t1
        };
        let d2 = if tz.bits < t1.bits {
            (0i64, 0i64, sz)
        } else {
            d1
        };
        lemma_walk_no_back_face(
            grid,
            textures,
            ray,
            vadd_v(pos, vscale_v(ray.direction, t2)),
            GridPos {
                x: (cell.x + d2.0) as i64,
                y: (cell.y + d2.1) as i64,
                z: (cell.z + d2.2) as i64,
            },
            fx_add_v(dist, t2),
            (fuel - 1) as nat,
        );
    }
}

/// No accepted hit of the voxel intersector ever faces away from the
/// ray.
pub proof fn lemma_voxel_no_back_face(grid: BloxScene, textures: BlockTextures, ray: Ray)
    ensures
        voxel_cast_v(grid, textures, ray) matches Some(h) ==> vdot_v(
            h.normal,
            ray.direction,
        ).bits < 0,
{
    match clamp_origin_v(ray) {
        None => {},
        Some(pos) => {
            lemma_walk_no_back_face(
                grid,
                textures,
                ray,
                pos,
                entry_cell_v(pos),
                vdist_v(ray.origin, pos),
                TRAVERSAL_BUDGET as nat,
            );
        },
    }
}

/// A hit produced by the march always has a source: some in-grid cell
/// holds a non-air block.
proof fn lemma_walk_hit_has_block(
    grid: BloxScene,
    textures: BlockTextures,
    ray: Ray,
    pos: Vec3x,
    cell: GridPos,
    dist: Fx,
    fuel: nat,
)
    ensures
        walk_v(grid, textures, ray, pos, cell, dist, fuel) is Some ==> exists|x: int, y: int, z: int|
            in_grid(x, y, z) && #[trigger] grid.block_at(x, y, z) != Block::Air,
    decreases fuel,
{
    if fuel == 0 {
    } else {
        let (tx, sx) = time_to_edge_v(pos.x, cell.x, ray.direction.x);
        let (ty, sy) = time_to_edge_v(pos.y, cell.y, ray.direction.y);
        let (tz, sz) = time_to_edge_v(pos.z, cell.z, ray.direction.z);
        let t1 = if ty.bits < tx.bits {
            ty
        } else {
            tx
        };
        let d1 = if ty.bits < tx.bits {
            (0i64, sy, 0i64)
        } else {
            (sx, 0i64, 0i64)
        };
        let t2 = if tz.bits < t1.bits {
            tz
        } else {
            t1
        };
        let d2 = if tz.bits < t1.bits {
            (0i64, 0i64, sz)
        } else {
            d1
        };
        lemma_walk_hit_has_block(
            grid,
            textures,
            ray,
            vadd_v(pos, vscale_v(ray.direction, t2)),
            GridPos {
                x: (cell.x + d2.0) as i64,
                y: (cell.y + d2.1) as i64,
                z: (cell.z + d2.2) as i64,
            },
            fx_add_v(dist, t2),
            (fuel - 1) as nat,
        );
    }
}

/// The voxel intersector reports a hit only when some in-grid cell
/// holds a non-air block: empty space yields none.
pub proof fn lemma_voxel_hit_has_block(grid: BloxScene, textures: BlockTextures, ray: Ray)
    ensures
        voxel_cast_v(grid, textures, ray) is Some ==> exists|x: int, y: int, z: int|
            in_grid(x, y, z) && #[trigger] grid.block_at(x, y, z) != Block::Air,
{
    match clamp_origin_v(ray) {
        None => {},
        Some(pos) => {
            lemma_walk_hit_has_block(
                grid,
                textures,
                ray,
                pos,
                entry_cell_v(pos),
                vdist_v(ray.origin, pos),
                TRAVERSAL_BUDGET as nat,
            );
        },
    }
}

/// Marching an all-air grid never yields a hit.
proof fn lemma_walk_all_air(
    grid: BloxScene,
    textures: BlockTextures,
    ray: Ray,
    pos: Vec3x,
    cell: GridPos,
    dist: Fx,
    fuel: nat,
)
    requires
        forall|x: int, y: int, z: int| grid.block_at(x, y, z) == Block::Air,
    ensures
        walk_v(grid, textures, ray, pos, cell, dist, fuel) is None,
    decreases fuel,
{
    if fuel == 0 {
    } else {
        let (tx, sx) = time_to_edge_v(pos.x, cell.x, ray.direction.x);
        let (ty, sy) = time_to_edge_v(pos.y, cell.y, ray.direction.y);
        let (tz, sz) = time_to_edge_v(pos.z, cell.z, ray.direction.z);
        let t1 = if ty.bits < tx.bits {
            ty
        } else {
            tx
        };
        let d1 = if ty.bits < tx.bits {
            (0i64, sy, 0i64)
        } else {
            (sx, 0i64, 0i64)
        };
        let t2 = if tz.bits < t1.bits {
            tz
        } else {
            t1
        };
        let d2 = if tz.bits < t1.bits {
            (0i64, 0i64, sz)
        } else {
            d1
        };
        lemma_walk_all_air(
            grid,
            textures,
            ray,
            vadd_v(pos, vscale_v(ray.direction, t2)),
            GridPos {
                x: (cell.x + d2.0) as i64,
                y: (cell.y + d2.1) as i64,
                z: (cell.z + d2.2) as i64,
            },
            fx_add_v(dist, t2),
            (fuel - 1) as nat,
        );
    }
}

/// A ray cast into an all-air grid returns no hit.
pub proof fn lemma_all_air_no_hit(grid: BloxScene, textures: BlockTextures, ray: Ray)
    requires
        forall|x: int, y: int, z: int| grid.block_at(x, y, z) == Block::Air,
    ensures
        voxel_cast_v(grid, textures, ray) is None,
{
    match clamp_origin_v(ray) {
        None => {},
        Some(pos) => {
            lemma_walk_all_air(
                grid,
                textures,
                ray,
                pos,
                entry_cell_v(pos),
                vdist_v(ray.origin, pos),
                TRAVERSAL_BUDGET as nat,
            );
        },
    }
}

} // verus!
