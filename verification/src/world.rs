//! The voxel world: a fixed cube of integer-addressed cells, each
//! holding a block kind. Coordinates outside the cube hold no data.

use vstd::prelude::*;
use crate::vec3::GridPos;

verus! {

/// Side length of the cubic world, in cells.
pub const WORLD_SIZE: usize = 15;

/// Cells in the whole cube.
pub const WORLD_BLOCK_COUNT: usize = WORLD_SIZE * WORLD_SIZE * WORLD_SIZE;

/// A block kind: air, or one of several solid or fluid kinds.
#[derive(Clone, Copy, Debug, PartialEq, Eq, Hash, Structural)]
pub enum Block {
    Air,
    Dirt,
    Stone,
    Sand,
    Grass,
    Wood,
    Leaves,
    Water,
}

/// Whether a block kind is opaque solid matter (leaves and water let
/// light and sight through; air is empty).
pub open spec fn block_solid_v(b: Block) -> bool {
    match b {
        Block::Air | Block::Leaves | Block::Water => false,
        Block::Dirt | Block::Stone | Block::Sand | Block::Grass | Block::Wood => true,
    }
}

impl Default for Block {
    /// The default block is empty space.
    fn default() -> (r: Block)
        ensures
            r == Block::Air,
    {
        Block::Air
    }
}

impl Block {
    pub fn is_solid(&self) -> (r: bool)
        ensures
            r == block_solid_v(*self),
    {
        match self {
            Block::Air | Block::Leaves | Block::Water => false,
            Block::Dirt | Block::Stone | Block::Sand | Block::Grass | Block::Wood => true,
        }
    }
}

/// Whether an integer coordinate lies inside the cube.
pub open spec fn in_grid(x: int, y: int, z: int) -> bool {
    0 <= x < WORLD_SIZE && 0 <= y < WORLD_SIZE && 0 <= z < WORLD_SIZE
}

/// The row-major cell index of an in-grid coordinate.
pub open spec fn linearize_v(x: int, y: int, z: int) -> int {
    x + y * (WORLD_SIZE as int) + z * (WORLD_SIZE as int) * (WORLD_SIZE as int)
}

/// The cubic grid of blocks.
#[derive(Debug)]
pub struct BloxScene {
    blocks: Vec<Block>,
}

impl BloxScene {
    /// The grid holds exactly one block per cell.
    pub closed spec fn wf(self) -> bool {
        self.blocks@.len() == WORLD_BLOCK_COUNT
    }

    /// The block stored at a coordinate; air outside the cube.
    pub closed spec fn block_at(self, x: int, y: int, z: int) -> Block {
        if in_grid(x, y, z) {
            self.blocks@[linearize_v(x, y, z)]
        } else {
            Block::Air
        }
    }

    /// An all-air grid.
    pub fn empty() -> (r: BloxScene)
        ensures
            r.wf(),
            forall|x: int, y: int, z: int| r.block_at(x, y, z) == Block::Air,
    {
        let mut blocks: Vec<Block> = Vec::new();
        while blocks.len() < WORLD_BLOCK_COUNT
            invariant
                blocks@.len() <= WORLD_BLOCK_COUNT,
                forall|i: int| 0 <= i < blocks@.len() ==> blocks@[i] == Block::Air,
            decreases WORLD_BLOCK_COUNT - blocks@.len(),
        {
            blocks.push(Block::Air);
        }
        BloxScene { blocks }
    }

    /// The block at `pos`, or `None` outside the cube.
    pub fn block(&self, pos: GridPos) -> (r: Option<Block>)
        requires
            self.wf(),
        ensures
            r == if in_grid(pos.x as int, pos.y as int, pos.z as int) {
                Some(self.block_at(pos.x as int, pos.y as int, pos.z as int))
            } else {
                None::<Block>
            },
    {
        let size = WORLD_SIZE as i64;
        if 0 <= pos.x && pos.x < size && 0 <= pos.y && pos.y < size && 0 <= pos.z && pos.z
            < size {
            let i = (pos.x + pos.y * size + pos.z * size * size) as usize;
            Some(self.blocks[i])
        } else {
            None
        }
    }

    /// Stores `block` at `pos`; coordinates outside the cube are ignored.
    pub fn set_block(&mut self, pos: GridPos, block: Block)
        requires
            old(self).wf(),
        ensures
            final(self).wf(),
            forall|x: int, y: int, z: int|
                final(self).block_at(x, y, z) == if in_grid(
                    pos.x as int,
                    pos.y as int,
                    pos.z as int,
                ) && x == pos.x as int && y == pos.y as int && z == pos.z as int {
                    block
                } else {
                    old(self).block_at(x, y, z)
                },
    {
        let size = WORLD_SIZE as i64;
        if 0 <= pos.x && pos.x < size && 0 <= pos.y && pos.y < size && 0 <= pos.z && pos.z
            < size {
            let i = (pos.x + pos.y * size + pos.z * size * size) as usize;
            self.blocks[i] = block;
            proof {
                lemma_linearize_injective();
            }
        }
    }
}

/// Distinct in-grid coordinates linearize to distinct indexes, and the
/// index always lies inside the cube's cell count.
proof fn lemma_linearize_injective()
    ensures
        forall|x: int, y: int, z: int|
            in_grid(x, y, z) ==> 0 <= #[trigger] linearize_v(x, y, z) < WORLD_BLOCK_COUNT,
        forall|x1: int, y1: int, z1: int, x2: int, y2: int, z2: int|
            in_grid(x1, y1, z1) && in_grid(x2, y2, z2) && #[trigger] linearize_v(x1, y1, z1)
                == #[trigger] linearize_v(x2, y2, z2) ==> x1 == x2 && y1 == y2 && z1 == z2,
{
}

/// The block pattern of the default world, before the sand pillar: a
/// stone floor, a grass layer with a square pond, and a wooden rim.
pub open spec fn base_block_v(x: int, y: int, z: int) -> Block {
    if !in_grid(x, y, z) {
        Block::Air
    } else if y == 0 {
        Block::Stone
    } else if y == 1 {
        if 6 <= x <= 8 && 6 <= z <= 8 {
            Block::Water
        } else {
            Block::Grass
        }
    } else if y == 2 && (x == 0 || x == WORLD_SIZE as int - 1 || z == 0 || z == WORLD_SIZE as int
        - 1) {
        Block::Wood
    } else {
        Block::Air
    }
}

/// The default world: the base pattern plus a two-block sand pillar.
pub open spec fn default_block_v(x: int, y: int, z: int) -> Block {
    if in_grid(x, y, z) && x == 9 && z == 5 && (y == 2 || y == 3) {
        Block::Sand
    } else {
        base_block_v(x, y, z)
    }
}

/// Builds the default world, cell for cell as `default_block_v` lays
/// it out.
pub fn default_scene() -> (r: BloxScene)
    ensures
        r.wf(),
        forall|x: int, y: int, z: int| r.block_at(x, y, z) == default_block_v(x, y, z),
{
    let mut scene = BloxScene::empty();
    let size = WORLD_SIZE as i64;
    let mut x: i64 = 0;
    while x < size
        invariant
            0 <= x <= size,
            size == WORLD_SIZE as i64,
            scene.wf(),
            forall|a: int, b: int, c: int|
                scene.block_at(a, b, c) == if a < x {
                    base_block_v(a, b, c)
                } else {
                    Block::Air
                },
        decreases size - x,
    {
        let mut z: i64 = 0;
        while z < size
            invariant
                0 <= x < size,
                0 <= z <= size,
                size == WORLD_SIZE as i64,
                scene.wf(),
                forall|a: int, b: int, c: int|
                    scene.block_at(a, b, c) == if a < x || (a == x && c < z) {
                        base_block_v(a, b, c)
                    } else {
                        Block::Air
                    },
            decreases size - z,
        {
            scene.set_block(GridPos { x, y: 0, z }, Block::Stone);
            scene.set_block(
                GridPos { x, y: 1, z },
                if 6 <= x && x <= 8 && 6 <= z && z <= 8 {
                    Block::Water
                } else {
                    Block::Grass
                },
            );
            if x == 0 || x == size - 1 || z == 0 || z == size - 1 {
                scene.set_block(GridPos { x, y: 2, z }, Block::Wood);
            }
            z = z + 1;
        }
        x = x + 1;
    }
    scene.set_block(GridPos { x: 9, y: 2, z: 5 }, Block::Sand);
    scene.set_block(GridPos { x: 9, y: 3, z: 5 }, Block::Sand);
    scene
}

} // verus!
