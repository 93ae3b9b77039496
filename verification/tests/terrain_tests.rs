use chunkmesh::chunk::{CHUNK_SIZE, Chunk};
use chunkmesh::geom::IVec3;
use chunkmesh::terrain::{TerrainParams, generate};
use noise::{NoiseFn, Perlin};

const GRASS: usize = 0;
const DIRT: usize = 1;
const STONE: usize = 2;

fn params() -> TerrainParams {
    TerrainParams { grass: GRASS, dirt: DIRT, stone: STONE }
}

/// The height field the host application samples for one chunk: the noise
/// value of each column's chunk-space coordinates, scaled and rounded.
fn sample_heights(origin: IVec3, seed: u32) -> Vec<i32> {
    let perlin = Perlin::new(seed);
    let scale = 0.015;
    let amplitude = 64.0;
    let mut heights = Vec::with_capacity(CHUNK_SIZE * CHUNK_SIZE);
    for x in 0..CHUNK_SIZE {
        for z in 0..CHUNK_SIZE {
            let nx = (origin.x as f64 + x as f64) * scale;
            let nz = (origin.z as f64 + z as f64) * scale;
            heights.push((perlin.get([nx, nz]) * amplitude).round() as i32);
        }
    }
    heights
}

#[test]
fn layers_follow_depth_below_the_surface() {
    // Every column's surface sits at height 10; the chunk spans world
    // heights 0..16.
    let heights = vec![10; 256];
    let c = generate(IVec3::new(0, 0, 0), &heights, params());
    for x in 0..16 {
        for z in 0..16 {
            assert_eq!(c.at(x, 10, z), Some(GRASS));
            assert_eq!(c.at(x, 9, z), Some(DIRT));
            assert_eq!(c.at(x, 8, z), Some(DIRT));
            assert_eq!(c.at(x, 7, z), Some(STONE));
            assert_eq!(c.at(x, 0, z), Some(STONE));
            assert_eq!(c.at(x, 11, z), None);
            assert_eq!(c.at(x, 15, z), None);
        }
    }
}

#[test]
fn chunk_origin_shifts_the_depth_reckoning() {
    // With the chunk one step up (origin.y == 16), the same surface height
    // of 18 puts grass at local y == 2.
    let heights = vec![18; 256];
    let c = generate(IVec3::new(3, 16, -2), &heights, params());
    assert_eq!(c.origin, IVec3::new(3, 16, -2));
    assert_eq!(c.at(0, 2, 0), Some(GRASS));
    assert_eq!(c.at(0, 1, 0), Some(DIRT));
    assert_eq!(c.at(0, 0, 0), Some(DIRT));
    assert_eq!(c.at(0, 3, 0), None);
}

#[test]
fn per_column_heights_are_respected() {
    let mut heights = vec![-100; 256];
    heights[5 * 16 + 7] = 3; // column (x=5, z=7)
    let c = generate(IVec3::new(0, 0, 0), &heights, params());
    assert_eq!(c.at(5, 3, 7), Some(GRASS));
    assert_eq!(c.at(5, 2, 7), Some(DIRT));
    assert_eq!(c.at(5, 0, 7), Some(STONE));
    assert_eq!(c.at(4, 3, 7), None);
    assert_eq!(c.at(5, 3, 8), None);
    assert!(!c.is_empty());
}

#[test]
fn chunk_above_the_surface_is_all_air() {
    let heights = vec![-1; 256];
    let c = generate(IVec3::new(0, 0, 0), &heights, params());
    assert!(c.is_empty());
}

#[test]
fn generation_is_deterministic() {
    let origin = IVec3::new(-7, 0, 12);
    let seed = 123456;
    let h1 = sample_heights(origin, seed);
    let h2 = sample_heights(origin, seed);
    assert_eq!(h1, h2);
    let c1 = generate(origin, &h1, params());
    let c2 = generate(origin, &h2, params());
    for x in 0..16 {
        for y in 0..16 {
            for z in 0..16 {
                assert_eq!(c1.at(x, y, z), c2.at(x, y, z));
            }
        }
    }
    assert_eq!(c1.origin, c2.origin);
}
