use lux::color::LinearRgb;
use lux::fixed::{Fx, FX_SCALE};
use lux::render::Renderer;
use lux::scene::{Camera, Light, Material, Ray, Scene};
use lux::texture::{BlockTexture, BlockTextures};
use lux::vec3::{GridPos, Vec2x, Vec3x};
use lux::voxel::{Face, VoxelScene};
use lux::world::{default_scene, Block, BloxScene};

fn w(x: i64, y: i64, z: i64) -> Vec3x {
    Vec3x { x: Fx { bits: x }, y: Fx { bits: y }, z: Fx { bits: z } }
}

fn gray(level: i64) -> LinearRgb {
    LinearRgb { red: Fx { bits: level }, green: Fx { bits: level }, blue: Fx { bits: level } }
}

/// Eight one-texel textures whose red channel encodes the slot index.
fn slot_textures() -> BlockTextures {
    let mut textures = Vec::new();
    let mut slot: i64 = 0;
    while slot < 8 {
        textures.push(BlockTexture::new(1, 1, vec![gray(slot)]));
        slot += 1;
    }
    BlockTextures::new(textures)
}

const ONE: i64 = FX_SCALE;

#[test]
fn all_air_grid_returns_no_hit() {
    let scene = VoxelScene::new(BloxScene::empty(), slot_textures(), Vec::new());
    let ray = Ray { origin: w(ONE / 2, ONE / 2, -3 * ONE), direction: w(0, 0, ONE) };
    assert!(scene.cast_ray(ray, Fx { bits: i64::MAX }).is_none());
    let inside = Ray { origin: w(7 * ONE, 7 * ONE, 7 * ONE), direction: w(ONE, 0, 0) };
    assert!(scene.cast_ray(inside, Fx { bits: i64::MAX }).is_none());
}

#[test]
fn ray_misses_the_world_entirely() {
    let scene = VoxelScene::new(BloxScene::empty(), slot_textures(), Vec::new());
    // Behind the world, walking away from it.
    let ray = Ray { origin: w(0, 0, -3 * ONE), direction: w(0, 0, -ONE) };
    assert!(scene.cast_ray(ray, Fx { bits: i64::MAX }).is_none());
}

#[test]
fn single_block_face_hit_matches_analytic_distance_and_normal() {
    let mut grid = BloxScene::empty();
    grid.set_block(GridPos { x: 7, y: 3, z: 5 }, Block::Stone);
    let scene = VoxelScene::new(grid, slot_textures(), Vec::new());
    // From (7.5, 3.5, -3) straight along +Z: the block's near face lies
    // in the plane z = 5, at an analytic distance of 8.
    let ray = Ray {
        origin: w(7 * ONE + ONE / 2, 3 * ONE + ONE / 2, -3 * ONE),
        direction: w(0, 0, ONE),
    };
    let hit = scene.cast_ray(ray, Fx { bits: i64::MAX }).expect("the block must be hit");
    assert_eq!(hit.normal, w(0, 0, -ONE));
    assert!((hit.distance.bits - 8 * ONE).abs() <= 200, "distance {}", hit.distance.bits);
    // Never a back face: the normal runs against the ray.
    assert!(hit.normal.z.bits * ray.direction.z.bits < 0);
    // Stone resolves to texture slot 1.
    match hit.material {
        Material::Diffuse { albedo } => assert_eq!(albedo, gray(1)),
        _ => panic!("voxel faces are diffuse"),
    }
}

#[test]
fn back_faces_are_rejected_in_favor_of_the_far_block() {
    // Two blocks; a ray between them moving +Z must hit the far one's
    // -Z face, never the near one's +Z back face.
    let mut grid = BloxScene::empty();
    grid.set_block(GridPos { x: 7, y: 3, z: 2 }, Block::Stone);
    grid.set_block(GridPos { x: 7, y: 3, z: 9 }, Block::Stone);
    let scene = VoxelScene::new(grid, slot_textures(), Vec::new());
    let ray = Ray {
        origin: w(7 * ONE + ONE / 2, 3 * ONE + ONE / 2, 4 * ONE),
        direction: w(0, 0, ONE),
    };
    let hit = scene.cast_ray(ray, Fx { bits: i64::MAX }).expect("the far block must be hit");
    assert_eq!(hit.normal, w(0, 0, -ONE));
    assert!((hit.distance.bits - 5 * ONE).abs() <= 200);
}

#[test]
fn grass_faces_pick_top_bottom_and_side_textures() {
    let mut grid = BloxScene::empty();
    grid.set_block(GridPos { x: 7, y: 3, z: 5 }, Block::Grass);
    let scene = VoxelScene::new(grid, slot_textures(), Vec::new());
    let from_above = Ray {
        origin: w(7 * ONE + ONE / 2, 8 * ONE, 5 * ONE + ONE / 2),
        direction: w(0, -ONE, 0),
    };
    let top = scene.cast_ray(from_above, Fx { bits: i64::MAX }).expect("top face");
    assert_eq!(top.normal, w(0, ONE, 0));
    match top.material {
        Material::Diffuse { albedo } => assert_eq!(albedo, gray(4)),
        _ => panic!("voxel faces are diffuse"),
    }
    let from_side = Ray {
        origin: w(ONE, 3 * ONE + ONE / 2, 5 * ONE + ONE / 2),
        direction: w(ONE, 0, 0),
    };
    let side = scene.cast_ray(from_side, Fx { bits: i64::MAX }).expect("side face");
    assert_eq!(side.normal, w(-ONE, 0, 0));
    match side.material {
        Material::Diffuse { albedo } => assert_eq!(albedo, gray(3)),
        _ => panic!("voxel faces are diffuse"),
    }
}

#[test]
fn texture_sampling_is_nearest_neighbor() {
    let texels = vec![gray(10), gray(11), gray(12), gray(13)];
    let tex = BlockTexture::new(2, 2, texels);
    // (0.25, 0.75) lands in column 0, row 1 of the 2x2 grid.
    let sample = tex.sample(Vec2x { x: Fx { bits: ONE / 4 }, y: Fx { bits: 3 * ONE / 4 } });
    assert_eq!(sample, gray(12));
    // UVs wrap by their fractional part.
    let wrapped = tex.sample(Vec2x { x: Fx { bits: ONE / 4 + 2 * ONE }, y: Fx { bits: 3 * ONE / 4 - ONE } });
    assert_eq!(wrapped, gray(12));
}

#[test]
fn face_normals_are_the_outward_axes() {
    assert_eq!(Face::XNeg.normal(), w(-ONE, 0, 0));
    assert_eq!(Face::XPos.normal(), w(ONE, 0, 0));
    assert_eq!(Face::YNeg.normal(), w(0, -ONE, 0));
    assert_eq!(Face::YPos.normal(), w(0, ONE, 0));
    assert_eq!(Face::ZNeg.normal(), w(0, 0, -ONE));
    assert_eq!(Face::ZPos.normal(), w(0, 0, ONE));
}

#[test]
fn block_solidity_matches_kinds() {
    assert!(!Block::Air.is_solid());
    assert!(!Block::Leaves.is_solid());
    assert!(!Block::Water.is_solid());
    assert!(Block::Dirt.is_solid());
    assert!(Block::Stone.is_solid());
    assert!(Block::Sand.is_solid());
    assert!(Block::Grass.is_solid());
    assert!(Block::Wood.is_solid());
}

#[test]
fn default_scene_lays_out_floor_pond_rim_and_pillar() {
    let scene = default_scene();
    assert_eq!(scene.block(GridPos { x: 7, y: 0, z: 7 }), Some(Block::Stone));
    assert_eq!(scene.block(GridPos { x: 7, y: 1, z: 7 }), Some(Block::Water));
    assert_eq!(scene.block(GridPos { x: 3, y: 1, z: 3 }), Some(Block::Grass));
    assert_eq!(scene.block(GridPos { x: 0, y: 2, z: 4 }), Some(Block::Wood));
    assert_eq!(scene.block(GridPos { x: 14, y: 2, z: 7 }), Some(Block::Wood));
    assert_eq!(scene.block(GridPos { x: 9, y: 2, z: 5 }), Some(Block::Sand));
    assert_eq!(scene.block(GridPos { x: 9, y: 3, z: 5 }), Some(Block::Sand));
    assert_eq!(scene.block(GridPos { x: 5, y: 5, z: 5 }), Some(Block::Air));
    assert_eq!(scene.block(GridPos { x: -1, y: 0, z: 0 }), None);
    assert_eq!(scene.block(GridPos { x: 0, y: 15, z: 0 }), None);
}

#[test]
fn rendering_the_default_world_is_chunk_count_independent() {
    let lights = vec![Light::Ambient {
        color: gray(ONE),
        intensity: Fx { bits: ONE / 2 },
    }];
    let scene = VoxelScene::new(default_scene(), slot_textures(), lights);
    let camera = Camera {
        translation: w(-4 * ONE, 10 * ONE, -6 * ONE),
        direction: lux::vec3::vnormalize(w(11 * ONE, -8 * ONE, 13 * ONE)),
        up: w(0, ONE, 0),
        half_fov_tan: Fx { bits: ONE / 2 },
        background: gray(99),
    };
    let renderer = Renderer::init(camera, 6, 4);
    let rendered = renderer.render(&scene);
    assert_eq!(rendered.len(), 24);
    let mut again: Vec<LinearRgb> = vec![gray(-1); 24];
    renderer.render_into(&scene, &mut again, 5);
    assert_eq!(rendered, again);
    // At least one ray must strike the world and one must miss it.
    assert!(rendered.iter().any(|px| *px == gray(99)));
    assert!(rendered.iter().any(|px| *px != gray(99)));
}

#[test]
fn set_block_ignores_out_of_range_positions() {
    let mut grid = BloxScene::empty();
    grid.set_block(GridPos { x: -1, y: 3, z: 5 }, Block::Stone);
    grid.set_block(GridPos { x: 2, y: 15, z: 5 }, Block::Stone);
    let scene = VoxelScene::new(grid, slot_textures(), Vec::new());
    let ray = Ray { origin: w(7 * ONE, 7 * ONE, 7 * ONE), direction: w(ONE, 0, 0) };
    assert!(scene.cast_ray(ray, Fx { bits: i64::MAX }).is_none());
}
