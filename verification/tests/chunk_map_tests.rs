use chunkmesh::block::Block;
use chunkmesh::chunk_map::ChunkMap;
use chunkmesh::geom::{IVec3, UVRect};
use chunkmesh::terrain::TerrainParams;

fn blocks() -> Vec<Block> {
    let r = UVRect::new(0, 0, 100, 100);
    vec![Block::new(r, r, r, r, r, r); 3]
}

fn params() -> TerrainParams {
    TerrainParams { grass: 0, dirt: 1, stone: 2 }
}

#[test]
fn ensure_loaded_generates_meshes_and_reports_once() {
    let mut map = ChunkMap::new();
    let coord = IVec3::new(2, 0, -1);
    let heights = vec![5; 256];
    let ev = map.ensure_loaded(coord, &heights, params(), &blocks());
    let ev = ev.expect("first load of a non-empty chunk must emit an event");
    assert_eq!(ev.coord, coord);
    assert_eq!(ev.transform, (32, 0, -16));
    // World heights 0..=5 are solid in every column: like a solid slab six
    // cells high, only its outer shell is meshed.
    assert!(ev.mesh.positions.len() > 0);
    assert_eq!(ev.mesh.positions.len() % 4, 0);
    let quads = ev.mesh.positions.len() / 4;
    // top 16*16 + bottom 16*16 + 4 sides of 16*6
    assert_eq!(quads, 256 + 256 + 4 * 16 * 6);
    assert_eq!(map.len(), 1);

    // Loading the same coordinate again: no event, nothing changes, the
    // same chunk stays resident.
    let again = map.ensure_loaded(coord, &heights, params(), &blocks());
    assert!(again.is_none());
    assert_eq!(map.len(), 1);
}

#[test]
fn both_loads_observe_the_same_resident_chunk() {
    let mut map = ChunkMap::new();
    let coord = IVec3::new(0, 0, 0);
    let heights = vec![3; 256];
    map.ensure_loaded(coord, &heights, params(), &blocks());
    let first: Vec<Option<usize>> = {
        let c = map.chunk_at(coord).expect("resident after load");
        let mut v = Vec::new();
        for x in 0..16 {
            for y in 0..16 {
                for z in 0..16 {
                    v.push(c.at(x, y, z));
                }
            }
        }
        v
    };
    // Different heights on the second call must not regenerate the chunk.
    let other_heights = vec![9; 256];
    map.ensure_loaded(coord, &other_heights, params(), &blocks());
    let c = map.chunk_at(coord).expect("still resident");
    let mut k = 0;
    for x in 0..16 {
        for y in 0..16 {
            for z in 0..16 {
                assert_eq!(c.at(x, y, z), first[k]);
                k += 1;
            }
        }
    }
}

#[test]
fn all_air_chunk_emits_no_event_but_becomes_resident() {
    let mut map = ChunkMap::new();
    // Depth is reckoned from origin.y + y, so an origin far above the
    // surface height leaves every cell empty.
    let coord = IVec3::new(0, 30, 0);
    let heights = vec![5; 256];
    let ev = map.ensure_loaded(coord, &heights, params(), &blocks());
    assert!(ev.is_none());
    assert_eq!(map.len(), 1);
    assert!(map.chunk_at(coord).expect("resident").is_empty());
    assert!(map.chunk_at(IVec3::new(1, 0, 0)).is_none());
}

#[test]
fn missing_coords_scans_the_horizontal_square_in_row_order() {
    let mut map = ChunkMap::new();
    let obs = IVec3::new(10, 3, -5);
    let missing = map.missing_coords(obs, 1);
    assert_eq!(missing.len(), 9);
    let mut expect = Vec::new();
    for dx in -1..=1 {
        for dz in -1..=1 {
            expect.push(IVec3::new(10 + dx, 3, -5 + dz));
        }
    }
    assert_eq!(missing, expect);

    // Radius zero: just the observer's own coordinate.
    assert_eq!(map.missing_coords(obs, 0), vec![obs]);

    // Once a coordinate is resident it is no longer reported.
    let heights = vec![0; 256];
    map.ensure_loaded(IVec3::new(10, 3, -5), &heights, params(), &blocks());
    let missing = map.missing_coords(obs, 1);
    assert_eq!(missing.len(), 8);
    assert!(!missing.contains(&IVec3::new(10, 3, -5)));
}

#[test]
fn streaming_loop_loads_everything_in_radius_once() {
    let mut map = ChunkMap::new();
    let obs = IVec3::new(0, 0, 0);
    let heights = vec![4; 256];
    let mut events = 0;
    for coord in map.missing_coords(obs, 2) {
        if map
            .ensure_loaded(coord, &heights, params(), &blocks())
            .is_some()
        {
            events += 1;
        }
    }
    assert_eq!(map.len(), 25);
    assert_eq!(events, 25); // surface height 4 crosses every y==0 chunk
    assert!(map.missing_coords(obs, 2).is_empty());
    // A second sweep finds nothing to do.
    assert!(map.ensure_loaded(obs, &heights, params(), &blocks()).is_none());
    assert_eq!(map.len(), 25);
}

#[test]
fn default_map_is_empty() {
    let map = ChunkMap::default();
    assert_eq!(map.len(), 0);
}
