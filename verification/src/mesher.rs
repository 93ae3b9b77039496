//! Surface extraction: walk every cell of a chunk and emit a quad for each
//! face whose neighbour (bounds-safe, so chunk boundaries count as exposed)
//! is empty. Cells are visited in flat index order (x-major, then y, then z)
//! and faces of one cell in the fixed direction order, so the output is fully
//! determined by the grid and the block table.

use crate::block::{Block, FaceDir, dir_vec, quad_is_face};
use crate::chunk::{CHUNK_SIZE, Chunk, cell_index, grid_at, grid_in_bounds, grid_solid, grid_wf};
use crate::geom::IVec3;
use crate::mesh::{Mesh, VERTEX_LIMIT};
use vstd::prelude::*;

verus! {

/// A face to emit: the cell it belongs to and its direction.
pub type CellFace = (int, int, int, FaceDir);

/// Every block ID stored in the grid indexes into a table of `n` blocks.
pub open spec fn grid_ids_valid(g: Seq<Option<usize>>, n: int) -> bool {
    forall|i: int|
        0 <= i < g.len() ==> match #[trigger] g[i] {
            Some(id) => id < n,
            None => true,
        }
}

/// The fixed per-cell emission order of the six face directions.
pub open spec fn dir_of(k: int) -> FaceDir {
    if k == 0 {
        FaceDir::Front
    } else if k == 1 {
        FaceDir::Back
    } else if k == 2 {
        FaceDir::Right
    } else if k == 3 {
        FaceDir::Left
    } else if k == 4 {
        FaceDir::Top
    } else {
        FaceDir::Bottom
    }
}

/// Face `d` of cell `(x, y, z)` is emitted: the cell is solid and the
/// neighbouring cell it faces is empty (or outside the chunk).
pub open spec fn face_visible(g: Seq<Option<usize>>, x: int, y: int, z: int, d: FaceDir) -> bool {
    let (dx, dy, dz) = dir_vec(d);
    grid_solid(g, x, y, z) && !grid_solid(g, x + dx, y + dy, z + dz)
}

/// The faces of cell `(x, y, z)` among the first `k` directions of the
/// emission order, in order.
pub open spec fn cell_faces_upto(
    g: Seq<Option<usize>>,
    x: int,
    y: int,
    z: int,
    k: int,
) -> Seq<CellFace>
    decreases k,
{
    if k <= 0 {
        Seq::empty()
    } else {
        cell_faces_upto(g, x, y, z, k - 1) + if face_visible(g, x, y, z, dir_of(k - 1)) {
            seq![(x, y, z, dir_of(k - 1))]
        } else {
            Seq::empty()
        }
    }
}

/// All visible faces of cell `(x, y, z)`, in emission order.
pub open spec fn cell_faces(g: Seq<Option<usize>>, x: int, y: int, z: int) -> Seq<CellFace> {
    cell_faces_upto(g, x, y, z, 6)
}

/// Faces of the cells `(x, y, 0) .. (x, y, nz)`, in emission order.
pub open spec fn faces_z(g: Seq<Option<usize>>, x: int, y: int, nz: int) -> Seq<CellFace>
    decreases nz,
{
    if nz <= 0 {
        Seq::empty()
    } else {
        faces_z(g, x, y, nz - 1) + cell_faces(g, x, y, nz - 1)
    }
}

/// Faces of the cells `(x, 0, 0) .. (x, ny, CHUNK_SIZE)`, in emission order.
pub open spec fn faces_y(g: Seq<Option<usize>>, x: int, ny: int) -> Seq<CellFace>
    decreases ny,
{
    if ny <= 0 {
        Seq::empty()
    } else {
        faces_y(g, x, ny - 1) + faces_z(g, x, ny - 1, CHUNK_SIZE as int)
    }
}

/// Faces of the cells with `x`-coordinate below `nx`, in emission order.
pub open spec fn faces_x(g: Seq<Option<usize>>, nx: int) -> Seq<CellFace>
    decreases nx,
{
    if nx <= 0 {
        Seq::empty()
    } else {
        faces_x(g, nx - 1) + faces_y(g, nx - 1, CHUNK_SIZE as int)
    }
}

/// Every visible face of the whole grid, in emission order.
pub open spec fn chunk_faces(g: Seq<Option<usize>>) -> Seq<CellFace> {
    faces_x(g, CHUNK_SIZE as int)
}

/// Centre of cell `(x, y, z)` in half-block units: the chunk is centred on
/// its own origin, so cell centres run from `-(CHUNK_SIZE - 1)` to
/// `CHUNK_SIZE - 1` in steps of two.
pub open spec fn cell_shift(x: int, y: int, z: int) -> (int, int, int) {
    (2 * x - (CHUNK_SIZE - 1), 2 * y - (CHUNK_SIZE - 1), 2 * z - (CHUNK_SIZE - 1))
}

/// The block ID stored in cell `(x, y, z)` (zero for an empty cell; only
/// applied to solid cells).
pub open spec fn cell_block_id(g: Seq<Option<usize>>, x: int, y: int, z: int) -> int {
    match grid_at(g, x, y, z) {
        Some(id) => id as int,
        None => 0,
    }
}

/// Quad `q` of mesh `m` renders face `f`: the right corner positions, the
/// face's outward normal, and the texture rectangle that the owning cell's
/// block assigns to that face direction.
pub open spec fn face_quad_ok(
    m: Mesh,
    q: int,
    f: CellFace,
    g: Seq<Option<usize>>,
    blocks: Seq<Block>,
) -> bool {
    quad_is_face(m, q, cell_shift(f.0, f.1, f.2), f.3, blocks[cell_block_id(g, f.0, f.1, f.2)].rect(f.3))
}

/// Mesh `m` consists of exactly the quads of the face list `fs`, in order.
pub open spec fn mesh_matches_faces(
    m: Mesh,
    fs: Seq<CellFace>,
    g: Seq<Option<usize>>,
    blocks: Seq<Block>,
) -> bool {
    &&& m.wf()
    &&& m.quad_count() == fs.len()
    &&& forall|q: int| 0 <= q < fs.len() ==> #[trigger] face_quad_ok(m, q, fs[q], g, blocks)
}

/// A cell has at most `k` faces among the first `k` directions.
pub proof fn lemma_cell_faces_upto_len(g: Seq<Option<usize>>, x: int, y: int, z: int, k: int)
    ensures
        cell_faces_upto(g, x, y, z, k).len() <= if k <= 0 {
            0
        } else {
            k
        },
    decreases k,
{
    if k > 0 {
        lemma_cell_faces_upto_len(g, x, y, z, k - 1);
    }
}

/// An empty cell emits no faces.
pub proof fn lemma_cell_faces_empty(g: Seq<Option<usize>>, x: int, y: int, z: int, k: int)
    requires
        !grid_solid(g, x, y, z),
    ensures
        cell_faces_upto(g, x, y, z, k) =~= Seq::<CellFace>::empty(),
    decreases k,
{
    if k > 0 {
        lemma_cell_faces_empty(g, x, y, z, k - 1);
    }
}

/// A row of `nz` cells emits at most `6 * nz` faces.
pub proof fn lemma_faces_z_len(g: Seq<Option<usize>>, x: int, y: int, nz: int)
    ensures
        faces_z(g, x, y, nz).len() <= if nz <= 0 {
            0
        } else {
            6 * nz
        },
    decreases nz,
{
    if nz > 0 {
        lemma_faces_z_len(g, x, y, nz - 1);
        lemma_cell_faces_upto_len(g, x, y, nz - 1, 6);
    }
}

/// A plane of `ny` rows emits at most `96 * ny` faces.
pub proof fn lemma_faces_y_len(g: Seq<Option<usize>>, x: int, ny: int)
    ensures
        faces_y(g, x, ny).len() <= if ny <= 0 {
            0
        } else {
            96 * ny
        },
    decreases ny,
{
    if ny > 0 {
        lemma_faces_y_len(g, x, ny - 1);
        lemma_faces_z_len(g, x, ny - 1, CHUNK_SIZE as int);
    }
}

/// `nx` planes emit at most `1536 * nx` faces.
pub proof fn lemma_faces_x_len(g: Seq<Option<usize>>, nx: int)
    ensures
        faces_x(g, nx).len() <= if nx <= 0 {
            0
        } else {
            1536 * nx
        },
    decreases nx,
{
    if nx > 0 {
        lemma_faces_x_len(g, nx - 1);
        lemma_faces_y_len(g, nx - 1, CHUNK_SIZE as int);
    }
}

/// Appending the single-quad mesh of face `(x, y, z, d)` to a mesh that
/// matches the face list `fs` yields a mesh that matches `fs` with that face
/// appended.
proof fn lemma_emit_face(
    m_prev: Mesh,
    fm: Mesh,
    m: Mesh,
    fs: Seq<CellFace>,
    x: int,
    y: int,
    z: int,
    d: FaceDir,
    g: Seq<Option<usize>>,
    blocks: Seq<Block>,
)
    requires
        mesh_matches_faces(m_prev, fs, g, blocks),
        fm.wf(),
        fm.quad_count() == 1,
        quad_is_face(fm, 0, cell_shift(x, y, z), d, blocks[cell_block_id(g, x, y, z)].rect(d)),
        m.wf(),
        m.positions@ == m_prev.positions@ + fm.positions@,
        m.normals@ == m_prev.normals@ + fm.normals@,
        m.uvs@ == m_prev.uvs@ + fm.uvs@,
        m.quad_count() == m_prev.quad_count() + 1,
    ensures
        mesh_matches_faces(m, fs + seq![(x, y, z, d)], g, blocks),
{
    let fs2 = fs + seq![(x, y, z, d)];
    assert(m_prev.positions@.len() == 4 * fs.len());
    assert(fm.positions@.len() == 4);
    assert forall|q: int| 0 <= q < fs2.len() implies #[trigger] face_quad_ok(
        m,
        q,
        fs2[q],
        g,
        blocks,
    ) by {
        if q < fs.len() {
            assert(face_quad_ok(m_prev, q, fs[q], g, blocks));
            assert(fs2[q] == fs[q]);
            assert(m.positions@[4 * q] == m_prev.positions@[4 * q]);
            assert(m.positions@[4 * q + 1] == m_prev.positions@[4 * q + 1]);
            assert(m.positions@[4 * q + 2] == m_prev.positions@[4 * q + 2]);
            assert(m.positions@[4 * q + 3] == m_prev.positions@[4 * q + 3]);
            assert(m.normals@[4 * q] == m_prev.normals@[4 * q]);
            assert(m.normals@[4 * q + 1] == m_prev.normals@[4 * q + 1]);
            assert(m.normals@[4 * q + 2] == m_prev.normals@[4 * q + 2]);
            assert(m.normals@[4 * q + 3] == m_prev.normals@[4 * q + 3]);
            assert(m.uvs@[4 * q] == m_prev.uvs@[4 * q]);
            assert(m.uvs@[4 * q + 1] == m_prev.uvs@[4 * q + 1]);
            assert(m.uvs@[4 * q + 2] == m_prev.uvs@[4 * q + 2]);
            assert(m.uvs@[4 * q + 3] == m_prev.uvs@[4 * q + 3]);
        } else {
            assert(q == fs.len());
            assert(fs2[q] == (x, y, z, d));
            assert(m.positions@[4 * q] == fm.positions@[0]);
            assert(m.positions@[4 * q + 1] == fm.positions@[1]);
            assert(m.positions@[4 * q + 2] == fm.positions@[2]);
            assert(m.positions@[4 * q + 3] == fm.positions@[3]);
            assert(m.normals@[4 * q] == fm.normals@[0]);
            assert(m.normals@[4 * q + 1] == fm.normals@[1]);
            assert(m.normals@[4 * q + 2] == fm.normals@[2]);
            assert(m.normals@[4 * q + 3] == fm.normals@[3]);
            assert(m.uvs@[4 * q] == fm.uvs@[0]);
            assert(m.uvs@[4 * q + 1] == fm.uvs@[1]);
            assert(m.uvs@[4 * q + 2] == fm.uvs@[2]);
            assert(m.uvs@[4 * q + 3] == fm.uvs@[3]);
        }
    }
}

/// A cell whose right-hand neighbour is empty emits at least one face.
proof fn lemma_visible_right_has_face(g: Seq<Option<usize>>, x: int, y: int, z: int)
    requires
        face_visible(g, x, y, z, FaceDir::Right),
    ensures
        cell_faces(g, x, y, z).len() >= 1,
{
    reveal_with_fuel(cell_faces_upto, 8);
}

/// Rightward from any solid cell there is a cell whose right face is
/// visible: the rightmost solid cell of the run ends at empty space or at
/// the chunk boundary.
proof fn lemma_find_visible_right(g: Seq<Option<usize>>, x: int, y: int, z: int)
    requires
        grid_in_bounds(x, y, z),
        grid_solid(g, x, y, z),
    ensures
        exists|x2: int|
            x <= x2 < CHUNK_SIZE && #[trigger] face_visible(g, x2, y, z, FaceDir::Right),
    decreases CHUNK_SIZE - x,
{
    if !grid_solid(g, x + 1, y, z) {
        assert(face_visible(g, x, y, z, FaceDir::Right));
    } else {
        lemma_find_visible_right(g, x + 1, y, z);
    }
}

/// A row's face list is no shorter than any one of its cells' lists.
proof fn lemma_faces_z_ge(g: Seq<Option<usize>>, x: int, y: int, z: int, n: int)
    requires
        0 <= z < n,
    ensures
        faces_z(g, x, y, n).len() >= cell_faces(g, x, y, z).len(),
    decreases n,
{
    if z < n - 1 {
        lemma_faces_z_ge(g, x, y, z, n - 1);
    }
}

/// A plane's face list is no shorter than any one of its rows' lists.
proof fn lemma_faces_y_ge(g: Seq<Option<usize>>, x: int, y: int, n: int)
    requires
        0 <= y < n,
    ensures
        faces_y(g, x, n).len() >= faces_z(g, x, y, CHUNK_SIZE as int).len(),
    decreases n,
{
    if y < n - 1 {
        lemma_faces_y_ge(g, x, y, n - 1);
    }
}

/// The grid's face list is no shorter than any one of its planes' lists.
proof fn lemma_faces_x_ge(g: Seq<Option<usize>>, x: int, n: int)
    requires
        0 <= x < n,
    ensures
        faces_x(g, n).len() >= faces_y(g, x, CHUNK_SIZE as int).len(),
    decreases n,
{
    if x < n - 1 {
        lemma_faces_x_ge(g, x, n - 1);
    }
}

/// A chunk with at least one solid cell always has at least one visible
/// face: a zero-quad mesh can only come from an all-air chunk, which is
/// never meshed in the first place.
pub proof fn lemma_nonempty_chunk_has_faces(g: Seq<Option<usize>>)
    requires
        grid_wf(g),
        !crate::chunk::grid_empty(g),
    ensures
        chunk_faces(g).len() >= 1,
{
    let i = choose|i: int| 0 <= i < g.len() && !(g[i] is None);
    crate::chunk::lemma_cell_pos_inverse(i);
    let (x, y, z) = crate::chunk::cell_pos(i);
    assert(grid_solid(g, x, y, z));
    lemma_find_visible_right(g, x, y, z);
    let x2 = choose|x2: int|
        x <= x2 < CHUNK_SIZE && #[trigger] face_visible(g, x2, y, z, FaceDir::Right);
    lemma_visible_right_has_face(g, x2, y, z);
    lemma_faces_z_ge(g, x2, y, z, CHUNK_SIZE as int);
    lemma_faces_y_ge(g, x2, y, CHUNK_SIZE as int);
    lemma_faces_x_ge(g, x2, CHUNK_SIZE as int);
}

/// Append the quad of face `d` of the solid cell `(x, y, z)` to `m`.
fn emit_face(
    m: &mut Mesh,
    block: &Block,
    d: FaceDir,
    shift: IVec3,
    Ghost(x): Ghost<int>,
    Ghost(y): Ghost<int>,
    Ghost(z): Ghost<int>,
    Ghost(fs): Ghost<Seq<CellFace>>,
    Ghost(g): Ghost<Seq<Option<usize>>>,
    Ghost(blocks): Ghost<Seq<Block>>,
)
    requires
        mesh_matches_faces(*old(m), fs, g, blocks),
        crate::block::shift_in_range(shift),
        shift@ == cell_shift(x, y, z),
        0 <= cell_block_id(g, x, y, z) < blocks.len(),
        *block == blocks[cell_block_id(g, x, y, z)],
        4 * fs.len() + 4 <= VERTEX_LIMIT,
    ensures
        mesh_matches_faces(*final(m), fs + seq![(x, y, z, d)], g, blocks),
{
    let ghost m0 = *m;
    let fm = block.build_face_shifted(d, shift);
    m.merge(&fm);
    proof {
        lemma_emit_face(m0, fm, *m, fs, x, y, z, d, g, blocks);
    }
}

impl Chunk {
    /// The merged mesh of every visible face of this chunk, against the block
    /// table `blocks`: one quad per solid-cell face whose neighbour is empty
    /// or outside the chunk, in cell index order and fixed direction order.
    ///
    /// Requesting a mesh for an all-air chunk is a caller error; the chunk
    /// map checks `is_empty` first and skips mesh creation entirely.
    #[verifier::rlimit(60)]
    pub fn build(&self, blocks: &Vec<Block>) -> (m: Mesh)
        requires
            self.wf(),
            !self.spec_is_empty(),
            grid_ids_valid(self@, blocks@.len() as int),
        ensures
            mesh_matches_faces(m, chunk_faces(self@), self@, blocks@),
            m.quad_count() >= 1,
    {
        let ghost g = self@;
        let mut m = Mesh::new();
        let ghost mut fs: Seq<CellFace> = Seq::empty();
        proof {
            assert(fs =~= faces_x(g, 0));
        }
        let mut x: usize = 0;
        while x < CHUNK_SIZE
            invariant
                self.wf(),
                g == self@,
                grid_ids_valid(g, blocks@.len() as int),
                x <= CHUNK_SIZE,
                mesh_matches_faces(m, fs, g, blocks@),
                fs == faces_x(g, x as int),
            decreases CHUNK_SIZE - x,
        {
            let ghost fsx = fs;
            proof {
                assert(fs =~= fsx + faces_y(g, x as int, 0));
            }
            let mut y: usize = 0;
            while y < CHUNK_SIZE
                invariant
                    self.wf(),
                    g == self@,
                    grid_ids_valid(g, blocks@.len() as int),
                    x < CHUNK_SIZE,
                    y <= CHUNK_SIZE,
                    mesh_matches_faces(m, fs, g, blocks@),
                    fsx == faces_x(g, x as int),
                    fs == fsx + faces_y(g, x as int, y as int),
                decreases CHUNK_SIZE - y,
            {
                let ghost fsy = fs;
                proof {
                    assert(fs =~= fsy + faces_z(g, x as int, y as int, 0));
                }
                let mut z: usize = 0;
                while z < CHUNK_SIZE
                    invariant
                        self.wf(),
                        g == self@,
                        grid_ids_valid(g, blocks@.len() as int),
                        x < CHUNK_SIZE,
                        y < CHUNK_SIZE,
                        z <= CHUNK_SIZE,
                        mesh_matches_faces(m, fs, g, blocks@),
                        fsx == faces_x(g, x as int),
                        fsy == fsx + faces_y(g, x as int, y as int),
                        fs == fsy + faces_z(g, x as int, y as int, z as int),
                    decreases CHUNK_SIZE - z,
                {
                    let ghost cell0 = fs;
                    let ghost (cx, cy, cz) = (x as int, y as int, z as int);
                    proof {
                        lemma_faces_x_len(g, cx);
                        lemma_faces_y_len(g, cx, cy);
                        lemma_faces_z_len(g, cx, cy, cz);
                        assert(fs.len() <= 1536 * 15 + 96 * 15 + 6 * 15);
                    }
                    let xi = x as i32;
                    let yi = y as i32;
                    let zi = z as i32;
                    let cell = self.at(xi, yi, zi);
                    if let Some(id) = cell {
                        let shift = IVec3::new(2 * xi - 15, 2 * yi - 15, 2 * zi - 15);
                        let block = blocks[id];
                        proof {
                            assert(block == blocks@[cell_block_id(g, cx, cy, cz)]);
                        }
                        if !self.check_at(xi, yi, zi + 1) {
                            emit_face(
                                &mut m, &block, FaceDir::Front, shift,
                                Ghost(cx), Ghost(cy), Ghost(cz),
                                Ghost(fs), Ghost(g), Ghost(blocks@),
                            );
                            proof {
                                fs = fs + seq![(cx, cy, cz, FaceDir::Front)];
                            }
                        }
                        proof {
                            reveal_with_fuel(cell_faces_upto, 8);
                            assert(fs =~= cell0 + cell_faces_upto(g, cx, cy, cz, 1));
                        }
                        if !self.check_at(xi, yi, zi - 1) {
                            emit_face(
                                &mut m, &block, FaceDir::Back, shift,
                                Ghost(cx), Ghost(cy), Ghost(cz),
                                Ghost(fs), Ghost(g), Ghost(blocks@),
                            );
                            proof {
                                fs = fs + seq![(cx, cy, cz, FaceDir::Back)];
                            }
                        }
                        proof {
                            reveal_with_fuel(cell_faces_upto, 8);
                            assert(fs =~= cell0 + cell_faces_upto(g, cx, cy, cz, 2));
                        }
                        if !self.check_at(xi + 1, yi, zi) {
                            emit_face(
                                &mut m, &block, FaceDir::Right, shift,
                                Ghost(cx), Ghost(cy), Ghost(cz),
                                Ghost(fs), Ghost(g), Ghost(blocks@),
                            );
                            proof {
                                fs = fs + seq![(cx, cy, cz, FaceDir::Right)];
                            }
                        }
                        proof {
                            reveal_with_fuel(cell_faces_upto, 8);
                            assert(fs =~= cell0 + cell_faces_upto(g, cx, cy, cz, 3));
                        }
                        if !self.check_at(xi - 1, yi, zi) {
                            emit_face(
                                &mut m, &block, FaceDir::Left, shift,
                                Ghost(cx), Ghost(cy), Ghost(cz),
                                Ghost(fs), Ghost(g), Ghost(blocks@),
                            );
                            proof {
                                fs = fs + seq![(cx, cy, cz, FaceDir::Left)];
                            }
                        }
                        proof {
                            reveal_with_fuel(cell_faces_upto, 8);
                            assert(fs =~= cell0 + cell_faces_upto(g, cx, cy, cz, 4));
                        }
                        if !self.check_at(xi, yi + 1, zi) {
                            emit_face(
                                &mut m, &block, FaceDir::Top, shift,
                                Ghost(cx), Ghost(cy), Ghost(cz),
                                Ghost(fs), Ghost(g), Ghost(blocks@),
                            );
                            proof {
                                fs = fs + seq![(cx, cy, cz, FaceDir::Top)];
                            }
                        }
                        proof {
                            reveal_with_fuel(cell_faces_upto, 8);
                            assert(fs =~= cell0 + cell_faces_upto(g, cx, cy, cz, 5));
                        }
                        if !self.check_at(xi, yi - 1, zi) {
                            emit_face(
                                &mut m, &block, FaceDir::Bottom, shift,
                                Ghost(cx), Ghost(cy), Ghost(cz),
                                Ghost(fs), Ghost(g), Ghost(blocks@),
                            );
                            proof {
                                fs = fs + seq![(cx, cy, cz, FaceDir::Bottom)];
                            }
                        }
                        proof {
                            reveal_with_fuel(cell_faces_upto, 8);
                            assert(fs =~= cell0 + cell_faces(g, cx, cy, cz));
                        }
                    } else {
                        proof {
                            lemma_cell_faces_empty(g, cx, cy, cz, 6);
                            assert(fs =~= cell0 + cell_faces(g, cx, cy, cz));
                        }
                    }
                    proof {
                        assert(fs =~= fsy + faces_z(g, cx, cy, cz + 1));
                    }
                    z = z + 1;
                }
                proof {
                    assert(fs =~= fsx + faces_y(g, x as int, y as int + 1));
                }
                y = y + 1;
            }
            proof {
                assert(fs =~= faces_x(g, x as int + 1));
            }
            x = x + 1;
        }
        proof {
            lemma_nonempty_chunk_has_faces(g);
        }
        m
    }
}


/// In an everywhere-solid grid, a cell is solid exactly when it is in
/// bounds.
proof fn lemma_all_solid_at(g: Seq<Option<usize>>, x: int, y: int, z: int)
    requires
        grid_wf(g),
        forall|i: int| 0 <= i < g.len() ==> g[i] is Some,
    ensures
        grid_solid(g, x, y, z) <==> grid_in_bounds(x, y, z),
{
    if grid_in_bounds(x, y, z) {
        crate::chunk::lemma_cell_index_bijective(x, y, z);
    }
}

/// In an everywhere-solid grid, a cell's visible faces are exactly those
/// looking out of the chunk.
proof fn lemma_solid_cell_faces_len(g: Seq<Option<usize>>, x: int, y: int, z: int)
    requires
        grid_wf(g),
        forall|i: int| 0 <= i < g.len() ==> g[i] is Some,
        grid_in_bounds(x, y, z),
    ensures
        cell_faces(g, x, y, z).len() == (if z == 15 { 1int } else { 0 }) + (if z == 0 { 1int } else { 0 })
            + (if x == 15 { 1int } else { 0 }) + (if x == 0 { 1int } else { 0 })
            + (if y == 15 { 1int } else { 0 }) + (if y == 0 { 1int } else { 0 }),
{
    lemma_all_solid_at(g, x, y, z);
    lemma_all_solid_at(g, x, y, z + 1);
    lemma_all_solid_at(g, x, y, z - 1);
    lemma_all_solid_at(g, x + 1, y, z);
    lemma_all_solid_at(g, x - 1, y, z);
    lemma_all_solid_at(g, x, y + 1, z);
    lemma_all_solid_at(g, x, y - 1, z);
    reveal_with_fuel(cell_faces_upto, 8);
}

/// Row sums for an everywhere-solid grid.
proof fn lemma_solid_faces_z_len(g: Seq<Option<usize>>, x: int, y: int, n: int)
    requires
        grid_wf(g),
        forall|i: int| 0 <= i < g.len() ==> g[i] is Some,
        grid_in_bounds(x, y, 0),
        0 <= n <= 16,
    ensures
        faces_z(g, x, y, n).len() == (if x == 15 { n } else { 0 }) + (if x == 0 { n } else { 0 })
            + (if y == 15 { n } else { 0 }) + (if y == 0 { n } else { 0 })
            + (if n >= 1 { 1int } else { 0 }) + (if n == 16 { 1int } else { 0 }),
    decreases n,
{
    if n > 0 {
        lemma_solid_faces_z_len(g, x, y, n - 1);
        lemma_solid_cell_faces_len(g, x, y, n - 1);
    }
}

/// Plane sums for an everywhere-solid grid.
proof fn lemma_solid_faces_y_len(g: Seq<Option<usize>>, x: int, n: int)
    requires
        grid_wf(g),
        forall|i: int| 0 <= i < g.len() ==> g[i] is Some,
        grid_in_bounds(x, 0, 0),
        0 <= n <= 16,
    ensures
        faces_y(g, x, n).len() == (if x == 15 { 16 * n } else { 0 }) + (if x == 0 { 16 * n } else { 0 })
            + (if n >= 1 { 16int } else { 0 }) + (if n == 16 { 16int } else { 0 }) + 2 * n,
    decreases n,
{
    if n > 0 {
        lemma_solid_faces_y_len(g, x, n - 1);
        lemma_solid_faces_z_len(g, x, n - 1, 16);
    }
}

/// Whole-grid sums for an everywhere-solid grid.
proof fn lemma_solid_faces_x_len(g: Seq<Option<usize>>, n: int)
    requires
        grid_wf(g),
        forall|i: int| 0 <= i < g.len() ==> g[i] is Some,
        0 <= n <= 16,
    ensures
        faces_x(g, n).len() == (if n >= 1 { 256int } else { 0 }) + (if n == 16 { 256int } else { 0 })
            + 64 * n,
    decreases n,
{
    if n > 0 {
        lemma_solid_faces_x_len(g, n - 1);
        lemma_solid_faces_y_len(g, n - 1, 16);
    }
}

/// A chunk whose every cell is solid meshes to exactly `6 * CHUNK_SIZE *
/// CHUNK_SIZE` quads: the whole outer shell and nothing inside.
pub proof fn lemma_solid_chunk_quad_count(g: Seq<Option<usize>>)
    requires
        grid_wf(g),
        forall|i: int| 0 <= i < g.len() ==> g[i] is Some,
    ensures
        chunk_faces(g).len() == 6 * CHUNK_SIZE * CHUNK_SIZE,
{
    lemma_solid_faces_x_len(g, 16);
}

/// Row sums for a grid whose only solid cells are `p1` and, when distinct
/// from it, `p2`, emitting `k1` and `k2` faces respectively.
proof fn lemma_two_faces_z_len(
    g: Seq<Option<usize>>,
    x: int,
    y: int,
    n: int,
    p1: (int, int, int),
    k1: int,
    p2: (int, int, int),
    k2: int,
)
    requires
        p1 != p2,
        0 <= n <= 16,
        forall|z: int|
            0 <= z < n ==> #[trigger] cell_faces(g, x, y, z).len() == (if (x, y, z) == p1 {
                k1
            } else if (x, y, z) == p2 {
                k2
            } else {
                0
            }),
    ensures
        faces_z(g, x, y, n).len() == (if p1.0 == x && p1.1 == y && 0 <= p1.2 < n {
            k1
        } else {
            0
        }) + (if p2.0 == x && p2.1 == y && 0 <= p2.2 < n {
            k2
        } else {
            0
        }),
    decreases n,
{
    if n > 0 {
        lemma_two_faces_z_len(g, x, y, n - 1, p1, k1, p2, k2);
    }
}

/// Plane sums for a grid whose only solid cells are `p1` and `p2`.
proof fn lemma_two_faces_y_len(
    g: Seq<Option<usize>>,
    x: int,
    n: int,
    p1: (int, int, int),
    k1: int,
    p2: (int, int, int),
    k2: int,
)
    requires
        p1 != p2,
        0 <= n <= 16,
        forall|y: int|
            0 <= y < n ==> #[trigger] faces_z(g, x, y, 16).len() == (if p1.0 == x && p1.1 == y
                && 0 <= p1.2 < 16 {
                k1
            } else {
                0
            }) + (if p2.0 == x && p2.1 == y && 0 <= p2.2 < 16 {
                k2
            } else {
                0
            }),
    ensures
        faces_y(g, x, n).len() == (if p1.0 == x && 0 <= p1.1 < n && 0 <= p1.2 < 16 {
            k1
        } else {
            0
        }) + (if p2.0 == x && 0 <= p2.1 < n && 0 <= p2.2 < 16 {
            k2
        } else {
            0
        }),
    decreases n,
{
    if n > 0 {
        lemma_two_faces_y_len(g, x, n - 1, p1, k1, p2, k2);
    }
}

/// Whole-grid sums for a grid whose only solid cells are `p1` and `p2`.
proof fn lemma_two_faces_x_len(
    g: Seq<Option<usize>>,
    n: int,
    p1: (int, int, int),
    k1: int,
    p2: (int, int, int),
    k2: int,
)
    requires
        p1 != p2,
        0 <= n <= 16,
        forall|x: int|
            0 <= x < n ==> #[trigger] faces_y(g, x, 16).len() == (if p1.0 == x && 0 <= p1.1 < 16
                && 0 <= p1.2 < 16 {
                k1
            } else {
                0
            }) + (if p2.0 == x && 0 <= p2.1 < 16 && 0 <= p2.2 < 16 {
                k2
            } else {
                0
            }),
    ensures
        faces_x(g, n).len() == (if 0 <= p1.0 < n && 0 <= p1.1 < 16 && 0 <= p1.2 < 16 {
            k1
        } else {
            0
        }) + (if 0 <= p2.0 < n && 0 <= p2.1 < 16 && 0 <= p2.2 < 16 {
            k2
        } else {
            0
        }),
    decreases n,
{
    if n > 0 {
        lemma_two_faces_x_len(g, n - 1, p1, k1, p2, k2);
    }
}

/// A grid whose solid cells are exactly `p1` and `p2` (as seen through
/// `grid_solid`) has a known face count for each distinguished cell and an
/// empty face list everywhere else; the chunk total is their sum.
proof fn lemma_two_cells_total(
    g: Seq<Option<usize>>,
    p1: (int, int, int),
    k1: int,
    p2: (int, int, int),
    k2: int,
)
    requires
        p1 != p2,
        grid_in_bounds(p1.0, p1.1, p1.2),
        cell_faces(g, p1.0, p1.1, p1.2).len() == k1,
        forall|a: int, b: int, c: int|
            #[trigger] grid_solid(g, a, b, c) <==> ((a, b, c) == p1 || ((a, b, c) == p2
                && grid_in_bounds(p2.0, p2.1, p2.2))),
        (if grid_in_bounds(p2.0, p2.1, p2.2) {
            cell_faces(g, p2.0, p2.1, p2.2).len() == k2
        } else {
            k2 == 0
        }),
    ensures
        chunk_faces(g).len() == k1 + (if grid_in_bounds(p2.0, p2.1, p2.2) {
            k2
        } else {
            0
        }),
{
    let k2eff: int = if grid_in_bounds(p2.0, p2.1, p2.2) {
        k2
    } else {
        0
    };
    assert forall|x: int, y: int, z: int|
        grid_in_bounds(x, y, z) implies #[trigger] cell_faces(g, x, y, z).len() == (if (x, y, z)
        == p1 {
        k1
    } else if (x, y, z) == p2 {
        k2eff
    } else {
        0
    }) by {
        if (x, y, z) == p1 {
        } else if (x, y, z) == p2 {
        } else {
            lemma_cell_faces_empty(g, x, y, z, 6);
        }
    }
    assert forall|x: int, y: int| 0 <= x < 16 && 0 <= y < 16 implies #[trigger] faces_z(
        g,
        x,
        y,
        16,
    ).len() == (if p1.0 == x && p1.1 == y && 0 <= p1.2 < 16 {
        k1
    } else {
        0
    }) + (if p2.0 == x && p2.1 == y && 0 <= p2.2 < 16 {
        k2eff
    } else {
        0
    }) by {
        lemma_two_faces_z_len(g, x, y, 16, p1, k1, p2, k2eff);
    }
    assert forall|x: int| 0 <= x < 16 implies #[trigger] faces_y(g, x, 16).len() == (if p1.0 == x
        && 0 <= p1.1 < 16 && 0 <= p1.2 < 16 {
        k1
    } else {
        0
    }) + (if p2.0 == x && 0 <= p2.1 < 16 && 0 <= p2.2 < 16 {
        k2eff
    } else {
        0
    }) by {
        lemma_two_faces_y_len(g, x, 16, p1, k1, p2, k2eff);
    }
    lemma_two_faces_x_len(g, 16, p1, k1, p2, k2eff);
}

/// A chunk holding exactly one solid cell meshes to exactly six quads,
/// wherever that cell sits -- including on a chunk boundary.
pub proof fn lemma_single_cell_quad_count(g: Seq<Option<usize>>, x: int, y: int, z: int)
    requires
        grid_wf(g),
        grid_in_bounds(x, y, z),
        g[cell_index(x, y, z)] is Some,
        forall|i: int| 0 <= i < g.len() && i != cell_index(x, y, z) ==> g[i] is None,
    ensures
        chunk_faces(g).len() == 6,
{
    let p1 = (x, y, z);
    let p2 = (-1int, -1int, -1int);
    assert forall|a: int, b: int, c: int|
        #[trigger] grid_solid(g, a, b, c) <==> ((a, b, c) == p1 || ((a, b, c) == p2
            && grid_in_bounds(p2.0, p2.1, p2.2))) by {
        if grid_in_bounds(a, b, c) {
            crate::chunk::lemma_cell_index_bijective(a, b, c);
            crate::chunk::lemma_cell_index_bijective(x, y, z);
        }
    }
    assert(cell_faces(g, x, y, z).len() == 6) by {
        reveal_with_fuel(cell_faces_upto, 8);
        assert(grid_solid(g, x, y, z));
        assert(!grid_solid(g, x, y, z + 1));
        assert(!grid_solid(g, x, y, z - 1));
        assert(!grid_solid(g, x + 1, y, z));
        assert(!grid_solid(g, x - 1, y, z));
        assert(!grid_solid(g, x, y + 1, z));
        assert(!grid_solid(g, x, y - 1, z));
    }
    lemma_two_cells_total(g, p1, 6, p2, 0);
}

/// A chunk holding exactly two solid cells that share a face -- the second
/// one step along direction `d` from the first -- meshes to exactly ten
/// quads: the shared face is suppressed on both sides.
pub proof fn lemma_adjacent_pair_quad_count(g: Seq<Option<usize>>, x: int, y: int, z: int, d: FaceDir)
    requires
        grid_wf(g),
        grid_in_bounds(x, y, z),
        grid_in_bounds(x + dir_vec(d).0, y + dir_vec(d).1, z + dir_vec(d).2),
        g[cell_index(x, y, z)] is Some,
        g[cell_index(x + dir_vec(d).0, y + dir_vec(d).1, z + dir_vec(d).2)] is Some,
        forall|i: int|
            0 <= i < g.len() && i != cell_index(x, y, z) && i != cell_index(
                x + dir_vec(d).0,
                y + dir_vec(d).1,
                z + dir_vec(d).2,
            ) ==> g[i] is None,
    ensures
        chunk_faces(g).len() == 10,
{
    let (dx, dy, dz) = dir_vec(d);
    let p1 = (x, y, z);
    let p2 = (x + dx, y + dy, z + dz);
    assert(p1 != p2);
    assert forall|a: int, b: int, c: int|
        #[trigger] grid_solid(g, a, b, c) <==> ((a, b, c) == p1 || ((a, b, c) == p2
            && grid_in_bounds(p2.0, p2.1, p2.2))) by {
        if grid_in_bounds(a, b, c) {
            crate::chunk::lemma_cell_index_bijective(a, b, c);
            crate::chunk::lemma_cell_index_bijective(p1.0, p1.1, p1.2);
            crate::chunk::lemma_cell_index_bijective(p2.0, p2.1, p2.2);
        }
    }
    assert(cell_faces(g, p1.0, p1.1, p1.2).len() == 5) by {
        reveal_with_fuel(cell_faces_upto, 8);
    }
    assert(cell_faces(g, p2.0, p2.1, p2.2).len() == 5) by {
        reveal_with_fuel(cell_faces_upto, 8);
    }
    lemma_two_cells_total(g, p1, 5, p2, 5);
}

} // verus!
