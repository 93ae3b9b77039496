use chunkmesh::block::Block;
use chunkmesh::chunk::Chunk;
use chunkmesh::geom::{IVec3, UVRect};
use chunkmesh::mesh::Mesh;

/// A block whose six faces carry six recognizably different rectangles.
fn test_block() -> Block {
    Block::new(
        UVRect::new(0, 0, 100, 100),
        UVRect::new(100, 0, 200, 100),
        UVRect::new(200, 0, 300, 100),
        UVRect::new(300, 0, 400, 100),
        UVRect::new(400, 0, 500, 100),
        UVRect::new(500, 0, 600, 100),
    )
}

fn blocks() -> Vec<Block> {
    vec![test_block()]
}

fn quad_count(m: &Mesh) -> usize {
    assert_eq!(m.positions.len() % 4, 0);
    assert_eq!(m.normals.len(), m.positions.len());
    assert_eq!(m.uvs.len(), m.positions.len());
    assert_eq!(m.indices.len(), (m.positions.len() / 4) * 6);
    m.positions.len() / 4
}

fn assert_canonical_indices(m: &Mesh) {
    for q in 0..m.positions.len() / 4 {
        let b = (4 * q) as u32;
        assert_eq!(
            &m.indices[6 * q..6 * q + 6],
            &[b, b + 1, b + 2, b + 2, b + 3, b]
        );
    }
}

#[test]
fn solid_chunk_yields_outer_shell_only() {
    let mut c = Chunk::new(IVec3::new(0, 0, 0));
    for x in 0..16 {
        for y in 0..16 {
            for z in 0..16 {
                c.set_at(x, y, z, Some(0));
            }
        }
    }
    let m = c.build(&blocks());
    assert_eq!(quad_count(&m), 6 * 16 * 16);
    assert_eq!(m.indices.len(), 6 * 1536);
    assert_canonical_indices(&m);
}

#[test]
fn two_adjacent_cells_share_a_culled_face() {
    // Along each axis, in both orders, anywhere: always ten quads.
    let cases: [((i32, i32, i32), (i32, i32, i32)); 4] = [
        ((3, 4, 5), (4, 4, 5)),
        ((3, 4, 5), (3, 5, 5)),
        ((3, 4, 5), (3, 4, 6)),
        ((0, 0, 0), (0, 0, 1)),
    ];
    for (a, b) in cases {
        let mut c = Chunk::new(IVec3::new(0, 0, 0));
        c.set_at(a.0, a.1, a.2, Some(0));
        c.set_at(b.0, b.1, b.2, Some(0));
        let m = c.build(&blocks());
        assert_eq!(quad_count(&m), 10);
        assert_canonical_indices(&m);
    }
}

#[test]
fn single_cell_yields_six_quads_anywhere() {
    for (x, y, z) in [(0, 0, 0), (8, 8, 8), (15, 7, 0), (15, 15, 15), (0, 9, 15)] {
        let mut c = Chunk::new(IVec3::new(0, 0, 0));
        c.set_at(x, y, z, Some(0));
        let m = c.build(&blocks());
        assert_eq!(quad_count(&m), 6);
        assert_canonical_indices(&m);
    }
}

#[test]
fn single_cell_face_geometry_matches_the_tables() {
    let mut c = Chunk::new(IVec3::new(0, 0, 0));
    c.set_at(0, 0, 0, Some(0));
    let m = c.build(&blocks());
    assert_eq!(quad_count(&m), 6);

    // Cell (0,0,0) is centred at -15 half-blocks on each axis: the cube
    // spans -16 .. -14.
    let (lo, hi) = (-16, -14);
    let p = |x: i32, y: i32, z: i32| IVec3::new(x, y, z);

    // Quad 0: front (+Z).
    assert_eq!(
        &m.positions[0..4],
        &[p(lo, lo, hi), p(hi, lo, hi), p(hi, hi, hi), p(lo, hi, hi)]
    );
    assert_eq!(m.normals[0], p(0, 0, 1));
    let uv = |u: u32, v: u32| chunkmesh::geom::UV { u, v };
    // front rect is (0,0)-(100,100): corners (umin,vmax),(umax,vmax),(umax,vmin),(umin,vmin)
    assert_eq!(&m.uvs[0..4], &[uv(0, 100), uv(100, 100), uv(100, 0), uv(0, 0)]);

    // Quad 1: back (-Z).
    assert_eq!(
        &m.positions[4..8],
        &[p(lo, hi, lo), p(hi, hi, lo), p(hi, lo, lo), p(lo, lo, lo)]
    );
    assert_eq!(m.normals[4], p(0, 0, -1));
    // back rect (100,0)-(200,100): (umax,vmin),(umin,vmin),(umin,vmax),(umax,vmax)
    assert_eq!(&m.uvs[4..8], &[uv(200, 0), uv(100, 0), uv(100, 100), uv(200, 100)]);

    // Quad 2: right (+X).
    assert_eq!(
        &m.positions[8..12],
        &[p(hi, lo, lo), p(hi, hi, lo), p(hi, hi, hi), p(hi, lo, hi)]
    );
    assert_eq!(m.normals[8], p(1, 0, 0));
    // right rect (300,0)-(400,100): (umax,vmax),(umax,vmin),(umin,vmin),(umin,vmax)
    assert_eq!(&m.uvs[8..12], &[uv(400, 100), uv(400, 0), uv(300, 0), uv(300, 100)]);

    // Quad 3: left (-X).
    assert_eq!(
        &m.positions[12..16],
        &[p(lo, lo, hi), p(lo, hi, hi), p(lo, hi, lo), p(lo, lo, lo)]
    );
    assert_eq!(m.normals[12], p(-1, 0, 0));
    // left rect (200,0)-(300,100): (umax,vmax),(umax,vmin),(umin,vmin),(umin,vmax)
    assert_eq!(&m.uvs[12..16], &[uv(300, 100), uv(300, 0), uv(200, 0), uv(200, 100)]);

    // Quad 4: top (+Y).
    assert_eq!(
        &m.positions[16..20],
        &[p(hi, hi, lo), p(lo, hi, lo), p(lo, hi, hi), p(hi, hi, hi)]
    );
    assert_eq!(m.normals[16], p(0, 1, 0));
    // top rect (400,0)-(500,100): (umax,vmin),(umin,vmin),(umin,vmax),(umax,vmax)
    assert_eq!(&m.uvs[16..20], &[uv(500, 0), uv(400, 0), uv(400, 100), uv(500, 100)]);

    // Quad 5: bottom (-Y).
    assert_eq!(
        &m.positions[20..24],
        &[p(hi, lo, hi), p(lo, lo, hi), p(lo, lo, lo), p(hi, lo, lo)]
    );
    assert_eq!(m.normals[20], p(0, -1, 0));
    // bottom rect (500,0)-(600,100): (umax,vmax),(umin,vmax),(umin,vmin),(umax,vmin)
    assert_eq!(&m.uvs[20..24], &[uv(600, 100), uv(500, 100), uv(500, 0), uv(600, 0)]);
}

#[test]
fn hidden_interior_face_is_culled_on_both_sides() {
    // Two cells along +X: neither emits the shared face, so among the 10
    // quads there is no +X face at the left cell nor -X face at the right.
    let mut c = Chunk::new(IVec3::new(0, 0, 0));
    c.set_at(3, 4, 5, Some(0));
    c.set_at(4, 4, 5, Some(0));
    let m = c.build(&blocks());
    // Cell (3,4,5) spans -10..-8 in x; cell (4,4,5) spans -8..-6.
    // A +X face of the left cell would be a quad whose vertices all have
    // x == -8 with normal (1,0,0); a -X face of the right cell the same
    // plane with normal (-1,0,0). Neither may appear.
    for q in 0..quad_count(&m) {
        let n = m.normals[4 * q];
        let all_on_shared_plane = (0..4).all(|k| m.positions[4 * q + k].x == -8);
        if all_on_shared_plane {
            assert!(
                !(n == IVec3::new(1, 0, 0) || n == IVec3::new(-1, 0, 0)),
                "shared interior face was emitted"
            );
        }
    }
}

#[test]
fn block_build_emits_all_six_faces_at_origin() {
    let b = test_block();
    let m = b.build();
    assert_eq!(quad_count(&m), 6);
    assert_canonical_indices(&m);
    // Centred at the origin: the cube spans -1 .. 1 in half-block units.
    assert_eq!(
        &m.positions[0..4],
        &[
            IVec3::new(-1, -1, 1),
            IVec3::new(1, -1, 1),
            IVec3::new(1, 1, 1),
            IVec3::new(-1, 1, 1)
        ]
    );
    let single = b.build_front_face();
    assert_eq!(&m.positions[0..4], &single.positions[..]);
    assert_eq!(&m.uvs[0..4], &single.uvs[..]);
}

#[test]
fn meshing_is_reproducible() {
    let mut c = Chunk::new(IVec3::new(0, 0, 0));
    for x in 0..16 {
        for z in 0..16 {
            c.set_at(x, 3, z, Some(0));
            if (x + z) % 3 == 0 {
                c.set_at(x, 4, z, Some(0));
            }
        }
    }
    let m1 = c.build(&blocks());
    let m2 = c.build(&blocks());
    assert_eq!(m1.positions, m2.positions);
    assert_eq!(m1.normals, m2.normals);
    assert_eq!(m1.uvs, m2.uvs);
    assert_eq!(m1.indices, m2.indices);
}

#[test]
fn mesh_merge_concatenates_and_rebases() {
    let b = test_block();
    let mut m = b.build_front_face();
    let other = b.build_top_face();
    m.merge(&other);
    assert_eq!(quad_count(&m), 2);
    assert_canonical_indices(&m);
    assert_eq!(&m.positions[4..8], &other.positions[..]);
    assert_eq!(&m.uvs[4..8], &other.uvs[..]);
    assert_eq!(&m.normals[4..8], &other.normals[..]);
}
