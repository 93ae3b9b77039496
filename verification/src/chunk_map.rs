//! The spatial chunk cache: an append-only map from chunk coordinate to the
//! chunk generated there, with on-demand generation and meshing.
//!
//! Loading a coordinate that is already resident is a no-op; loading a new
//! one generates the chunk from its column heights, meshes it unless it is
//! all air, and reports a "chunk ready" event carrying the mesh and the
//! world transform (the origin scaled by the chunk edge length). The host
//! application drives streaming: it asks for the coordinates missing around
//! the observer, samples their column heights, and loads each one.

use crate::block::Block;
use crate::chunk::{CHUNK_SIZE, Chunk, grid_empty};
use crate::geom::IVec3;
use crate::mesh::Mesh;
use crate::mesher::{chunk_faces, mesh_matches_faces};
use crate::terrain::{TerrainParams, generate, lemma_terrain_ids_valid, terrain_grid};
use vstd::prelude::*;

verus! {

/// One resident chunk and the coordinate it was generated for.
#[derive(Debug)]
pub struct LoadedChunk {
    pub coord: IVec3,
    pub chunk: Chunk,
}

/// What the renderer receives when a chunk becomes resident and is not all
/// air: its mesh and its world-space transform.
#[derive(Debug)]
pub struct ChunkReadyEvent {
    pub coord: IVec3,
    pub transform: (i64, i64, i64),
    pub mesh: Mesh,
}

/// Coordinate `coord` is resident in the model `v`.
pub open spec fn resident(v: Seq<(IVec3, Seq<Option<usize>>)>, coord: IVec3) -> bool {
    exists|i: int| 0 <= i < v.len() && v[i].0 == coord
}

/// The model after `ensure_loaded(coord)`: unchanged when `coord` is
/// resident, else extended with the terrain generated there.
pub open spec fn after_load(
    v: Seq<(IVec3, Seq<Option<usize>>)>,
    coord: IVec3,
    heights: Seq<i32>,
    p: TerrainParams,
) -> Seq<(IVec3, Seq<Option<usize>>)> {
    if resident(v, coord) {
        v
    } else {
        v.push((coord, terrain_grid(coord.y as int, heights, p)))
    }
}

/// `ensure_loaded(coord)` emits a chunk-ready event exactly when the
/// coordinate was not yet resident and its terrain is not all air.
pub open spec fn load_emits(
    v: Seq<(IVec3, Seq<Option<usize>>)>,
    coord: IVec3,
    heights: Seq<i32>,
    p: TerrainParams,
) -> bool {
    !resident(v, coord) && !grid_empty(terrain_grid(coord.y as int, heights, p))
}

/// Loading a coordinate twice in a row is the same as loading it once: the
/// second call finds it resident, changes nothing and emits no event.
pub proof fn lemma_ensure_loaded_idempotent(
    v: Seq<(IVec3, Seq<Option<usize>>)>,
    coord: IVec3,
    heights: Seq<i32>,
    p: TerrainParams,
)
    ensures
        resident(after_load(v, coord, heights, p), coord),
        after_load(after_load(v, coord, heights, p), coord, heights, p) == after_load(
            v,
            coord,
            heights,
            p,
        ),
        !load_emits(after_load(v, coord, heights, p), coord, heights, p),
{
    if !resident(v, coord) {
        let v2 = v.push((coord, terrain_grid(coord.y as int, heights, p)));
        assert(v2[v.len() as int].0 == coord);
    }
}

/// The chunk cache. Owns every chunk it has generated; append-only.
#[derive(Debug)]
pub struct ChunkMap {
    pub entries: Vec<LoadedChunk>,
}

impl View for ChunkMap {
    type V = Seq<(IVec3, Seq<Option<usize>>)>;

    open spec fn view(&self) -> Seq<(IVec3, Seq<Option<usize>>)> {
        self.entries@.map(|i: int, e: LoadedChunk| (e.coord, e.chunk@))
    }
}

impl ChunkMap {
    /// Coordinates are distinct and every stored chunk is well-formed and
    /// sits at the coordinate it is filed under.
    pub open spec fn wf(self) -> bool {
        &&& forall|i: int, j: int|
            0 <= i < j < self.entries@.len() ==> self.entries@[i].coord != self.entries@[j].coord
        &&& forall|i: int|
            0 <= i < self.entries@.len() ==> (#[trigger] self.entries@[i].chunk).wf()
                && self.entries@[i].chunk.origin == self.entries@[i].coord
    }

    /// An empty cache.
    pub fn new() -> (m: ChunkMap)
        ensures
            m.wf(),
            m@ =~= Seq::<(IVec3, Seq<Option<usize>>)>::empty(),
    {
        ChunkMap { entries: Vec::new() }
    }

    /// Number of resident chunks.
    pub fn len(&self) -> (n: usize)
        ensures
            n == self@.len(),
    {
        self.entries.len()
    }

    /// The position of `coord` among the resident entries, if any.
    fn find(&self, coord: IVec3) -> (r: Option<usize>)
        ensures
            match r {
                Some(i) => i < self.entries@.len() && self.entries@[i as int].coord == coord,
                None => !resident(self@, coord),
            },
    {
        let mut i: usize = 0;
        while i < self.entries.len()
            invariant
                i <= self.entries@.len(),
                forall|j: int| 0 <= j < i ==> self.entries@[j].coord != coord,
            decreases self.entries@.len() - i,
        {
            if self.entries[i].coord == coord {
                return Some(i);
            }
            i = i + 1;
        }
        proof {
            assert forall|j: int| 0 <= j < self@.len() implies self@[j].0 != coord by {
                assert(self@[j].0 == self.entries@[j].coord);
            }
        }
        None
    }

    /// The resident chunk at `coord`, if any.
    pub fn chunk_at(&self, coord: IVec3) -> (r: Option<&Chunk>)
        requires
            self.wf(),
        ensures
            match r {
                Some(c) => c.wf() && c.origin == coord && exists|i: int|
                    0 <= i < self@.len() && self@[i] == (coord, c@),
                None => !resident(self@, coord),
            },
    {
        match self.find(coord) {
            Some(i) => {
                let c = &self.entries[i].chunk;
                proof {
                    assert(self@[i as int] == (coord, c@));
                }
                Some(c)
            },
            None => None,
        }
    }

    /// Make `coord` resident: a no-op when it already is, else generate its
    /// chunk from the column heights, mesh it against `blocks` unless it is
    /// all air, and hand back the chunk-ready event for the renderer.
    pub fn ensure_loaded(
        &mut self,
        coord: IVec3,
        heights: &Vec<i32>,
        params: TerrainParams,
        blocks: &Vec<Block>,
    ) -> (ev: Option<ChunkReadyEvent>)
        requires
            old(self).wf(),
            heights@.len() == CHUNK_SIZE * CHUNK_SIZE,
            params.grass < blocks@.len(),
            params.dirt < blocks@.len(),
            params.stone < blocks@.len(),
        ensures
            final(self).wf(),
            final(self)@ == after_load(old(self)@, coord, heights@, params),
            ev is Some <==> load_emits(old(self)@, coord, heights@, params),
            match ev {
                Some(e) => {
                    &&& e.coord == coord
                    &&& e.transform.0 as int == coord.x as int * CHUNK_SIZE
                    &&& e.transform.1 as int == coord.y as int * CHUNK_SIZE
                    &&& e.transform.2 as int == coord.z as int * CHUNK_SIZE
                    &&& mesh_matches_faces(
                        e.mesh,
                        chunk_faces(terrain_grid(coord.y as int, heights@, params)),
                        terrain_grid(coord.y as int, heights@, params),
                        blocks@,
                    )
                    &&& e.mesh.quad_count() >= 1
                },
                None => true,
            },
    {
        if let Some(i) = self.find(coord) {
            proof {
                assert(self@[i as int].0 == coord);
                assert(resident(self@, coord));
            }
            return None;
        }
        let chunk = generate(coord, heights, params);
        let ev = if chunk.is_empty() {
            None
        } else {
            proof {
                lemma_terrain_ids_valid(coord.y as int, heights@, params, blocks@.len() as int);
            }
            let mesh = chunk.build(blocks);
            Some(
                ChunkReadyEvent {
                    coord,
                    transform: (
                        (coord.x as i64) * 16,
                        (coord.y as i64) * 16,
                        (coord.z as i64) * 16,
                    ),
                    mesh,
                },
            )
        };
        let ghost old_entries = self.entries@;
        self.entries.push(LoadedChunk { coord, chunk });
        proof {
            assert forall|i: int, j: int|
                0 <= i < j < self.entries@.len() implies self.entries@[i].coord
                != self.entries@[j].coord by {
                if j == self.entries@.len() - 1 {
                    assert(old(self)@[i].0 == old_entries[i].coord);
                }
            }
            assert(self@ =~= after_load(old(self)@, coord, heights@, params));
        }
        ev
    }
}

/// The coordinate at horizontal offset `(dx, dz)` from the observer: the
/// observer's vertical layer is kept, so streaming covers a horizontal
/// square only.
pub open spec fn square_coord(obs: IVec3, dx: int, dz: int) -> IVec3 {
    IVec3 { x: (obs.x + dx) as i32, y: obs.y, z: (obs.z + dz) as i32 }
}

/// The not-yet-resident coordinates in row `dx`, among the first `n` of the
/// `2 * r + 1` horizontal offsets `-r .. r`, in order.
pub open spec fn missing_row(
    v: Seq<(IVec3, Seq<Option<usize>>)>,
    obs: IVec3,
    r: int,
    dx: int,
    n: int,
) -> Seq<IVec3>
    decreases n,
{
    if n <= 0 {
        Seq::empty()
    } else {
        missing_row(v, obs, r, dx, n - 1) + if !resident(v, square_coord(obs, dx, n - 1 - r)) {
            seq![square_coord(obs, dx, n - 1 - r)]
        } else {
            Seq::empty()
        }
    }
}

/// The not-yet-resident coordinates of the first `n` rows of the square, in
/// row order.
pub open spec fn missing_square(
    v: Seq<(IVec3, Seq<Option<usize>>)>,
    obs: IVec3,
    r: int,
    n: int,
) -> Seq<IVec3>
    decreases n,
{
    if n <= 0 {
        Seq::empty()
    } else {
        missing_square(v, obs, r, n - 1) + missing_row(v, obs, r, n - 1 - r, 2 * r + 1)
    }
}

/// Every coordinate within Chebyshev distance `r` of the observer on the
/// horizontal plane that is not yet resident, in row order.
pub open spec fn missing_in_radius(
    v: Seq<(IVec3, Seq<Option<usize>>)>,
    obs: IVec3,
    r: int,
) -> Seq<IVec3> {
    missing_square(v, obs, r, 2 * r + 1)
}

/// A not-yet-resident coordinate of row `dx` with offset `dz` covered by
/// the first `n` steps is listed by that row.
proof fn lemma_missing_row_lists(
    v: Seq<(IVec3, Seq<Option<usize>>)>,
    obs: IVec3,
    r: int,
    dx: int,
    dz: int,
    n: int,
)
    requires
        0 <= dz + r < n,
        !resident(v, square_coord(obs, dx, dz)),
    ensures
        missing_row(v, obs, r, dx, n).contains(square_coord(obs, dx, dz)),
    decreases n,
{
    let c = square_coord(obs, dx, dz);
    if dz + r == n - 1 {
        let row = missing_row(v, obs, r, dx, n);
        assert(row[row.len() - 1] == c);
    } else {
        lemma_missing_row_lists(v, obs, r, dx, dz, n - 1);
        let prev = missing_row(v, obs, r, dx, n - 1);
        let k = choose|k: int| 0 <= k < prev.len() && prev[k] == c;
        assert(missing_row(v, obs, r, dx, n)[k] == c);
    }
}

/// A not-yet-resident coordinate within Chebyshev distance `r` of the
/// observer on the horizontal plane is always listed: the host that loads
/// everything in the list leaves nothing in radius unloaded.
pub proof fn lemma_missing_coords_complete(
    v: Seq<(IVec3, Seq<Option<usize>>)>,
    obs: IVec3,
    r: int,
    dx: int,
    dz: int,
)
    requires
        -r <= dx <= r,
        -r <= dz <= r,
        !resident(v, square_coord(obs, dx, dz)),
    ensures
        missing_in_radius(v, obs, r).contains(square_coord(obs, dx, dz)),
{
    lemma_missing_square_lists(v, obs, r, dx, dz, 2 * r + 1);
}

/// Helper for `lemma_missing_coords_complete`, over the first `n` rows.
proof fn lemma_missing_square_lists(
    v: Seq<(IVec3, Seq<Option<usize>>)>,
    obs: IVec3,
    r: int,
    dx: int,
    dz: int,
    n: int,
)
    requires
        0 <= dx + r < n,
        -r <= dz <= r,
        !resident(v, square_coord(obs, dx, dz)),
    ensures
        missing_square(v, obs, r, n).contains(square_coord(obs, dx, dz)),
    decreases n,
{
    let c = square_coord(obs, dx, dz);
    if dx + r == n - 1 {
        lemma_missing_row_lists(v, obs, r, dx, dz, 2 * r + 1);
        let row = missing_row(v, obs, r, dx, 2 * r + 1);
        let k = choose|k: int| 0 <= k < row.len() && row[k] == c;
        let before = missing_square(v, obs, r, n - 1);
        assert(missing_square(v, obs, r, n)[before.len() + k] == c);
    } else {
        lemma_missing_square_lists(v, obs, r, dx, dz, n - 1);
        let prev = missing_square(v, obs, r, n - 1);
        let k = choose|k: int| 0 <= k < prev.len() && prev[k] == c;
        assert(missing_square(v, obs, r, n)[k] == c);
    }
}

/// Everything a row lists is an unresident coordinate of that row.
proof fn lemma_missing_row_sound(
    v: Seq<(IVec3, Seq<Option<usize>>)>,
    obs: IVec3,
    r: int,
    dx: int,
    n: int,
)
    requires
        n <= 2 * r + 1,
    ensures
        forall|k: int|
            0 <= k < missing_row(v, obs, r, dx, n).len() ==> exists|dz: int|
                -r <= dz <= r && #[trigger] missing_row(v, obs, r, dx, n)[k] == square_coord(
                    obs,
                    dx,
                    dz,
                ) && !resident(v, square_coord(obs, dx, dz)),
    decreases n,
{
    if n > 0 {
        lemma_missing_row_sound(v, obs, r, dx, n - 1);
        let row = missing_row(v, obs, r, dx, n);
        let prev = missing_row(v, obs, r, dx, n - 1);
        assert forall|k: int| 0 <= k < row.len() implies exists|dz: int|
            -r <= dz <= r && #[trigger] row[k] == square_coord(obs, dx, dz) && !resident(
                v,
                square_coord(obs, dx, dz),
            ) by {
            if k < prev.len() {
                assert(row[k] == prev[k]);
            } else {
                assert(row[k] == square_coord(obs, dx, n - 1 - r));
            }
        }
    }
}

/// Every coordinate the scan lists lies within Chebyshev distance `r` of
/// the observer on the horizontal plane and is not yet resident.
pub proof fn lemma_missing_coords_sound(v: Seq<(IVec3, Seq<Option<usize>>)>, obs: IVec3, r: int)
    requires
        0 <= r,
    ensures
        forall|k: int|
            0 <= k < missing_in_radius(v, obs, r).len() ==> exists|dx: int, dz: int|
                -r <= dx <= r && -r <= dz <= r && #[trigger] missing_in_radius(v, obs, r)[k]
                    == square_coord(obs, dx, dz) && !resident(v, square_coord(obs, dx, dz)),
{
    lemma_missing_square_sound(v, obs, r, 2 * r + 1);
}

/// Helper for `lemma_missing_coords_sound`, over the first `n` rows.
proof fn lemma_missing_square_sound(
    v: Seq<(IVec3, Seq<Option<usize>>)>,
    obs: IVec3,
    r: int,
    n: int,
)
    requires
        n <= 2 * r + 1,
    ensures
        forall|k: int|
            0 <= k < missing_square(v, obs, r, n).len() ==> exists|dx: int, dz: int|
                -r <= dx <= r && -r <= dz <= r && #[trigger] missing_square(v, obs, r, n)[k]
                    == square_coord(obs, dx, dz) && !resident(v, square_coord(obs, dx, dz)),
    decreases n,
{
    if n > 0 {
        lemma_missing_square_sound(v, obs, r, n - 1);
        lemma_missing_row_sound(v, obs, r, n - 1 - r, 2 * r + 1);
        let sq = missing_square(v, obs, r, n);
        let prev = missing_square(v, obs, r, n - 1);
        let row = missing_row(v, obs, r, n - 1 - r, 2 * r + 1);
        assert forall|k: int| 0 <= k < sq.len() implies exists|dx: int, dz: int|
            -r <= dx <= r && -r <= dz <= r && #[trigger] sq[k] == square_coord(obs, dx, dz)
                && !resident(v, square_coord(obs, dx, dz)) by {
            if k < prev.len() {
                assert(sq[k] == prev[k]);
            } else {
                assert(sq[k] == row[k - prev.len()]);
                let dz = choose|dz: int|
                    -r <= dz <= r && row[k - prev.len()] == #[trigger] square_coord(
                        obs,
                        n - 1 - r,
                        dz,
                    ) && !resident(v, square_coord(obs, n - 1 - r, dz));
                assert(sq[k] == square_coord(obs, n - 1 - r, dz));
            }
        }
    }
}

impl ChunkMap {
    /// The coordinates within Chebyshev distance `radius` of the observer on
    /// the horizontal plane that are not yet resident, in a fixed row order.
    /// The host samples their column heights and loads each one.
    pub fn missing_coords(&self, observer: IVec3, radius: i32) -> (v: Vec<IVec3>)
        requires
            0 <= radius,
            i32::MIN <= observer.x as int - radius as int,
            observer.x as int + radius as int <= i32::MAX,
            i32::MIN <= observer.z as int - radius as int,
            observer.z as int + radius as int <= i32::MAX,
        ensures
            v@ == missing_in_radius(self@, observer, radius as int),
    {
        let ghost mv = self@;
        let ghost r = radius as int;
        let rw = radius as i64;
        let mut out: Vec<IVec3> = Vec::new();
        proof {
            assert(out@ =~= missing_square(mv, observer, r, 0));
        }
        let mut dx: i64 = -rw;
        while dx <= rw
            invariant
                mv == self@,
                r == radius as int,
                rw == radius as i64,
                0 <= radius,
                i32::MIN <= observer.x as int - r,
                observer.x as int + r <= i32::MAX,
                i32::MIN <= observer.z as int - r,
                observer.z as int + r <= i32::MAX,
                -rw <= dx <= rw + 1,
                out@ == missing_square(mv, observer, r, dx as int + r),
            decreases rw + 1 - dx,
        {
            let ghost row0 = out@;
            proof {
                assert(out@ =~= row0 + missing_row(mv, observer, r, dx as int, 0));
            }
            let mut dz: i64 = -rw;
            while dz <= rw
                invariant
                    mv == self@,
                    r == radius as int,
                    rw == radius as i64,
                    0 <= radius,
                    i32::MIN <= observer.x as int - r,
                    observer.x as int + r <= i32::MAX,
                    i32::MIN <= observer.z as int - r,
                    observer.z as int + r <= i32::MAX,
                    -rw <= dx <= rw,
                    -rw <= dz <= rw + 1,
                    row0 == missing_square(mv, observer, r, dx as int + r),
                    out@ == row0 + missing_row(mv, observer, r, dx as int, dz as int + r),
                decreases rw + 1 - dz,
            {
                let c = IVec3::new(
                    ((observer.x as i64) + dx) as i32,
                    observer.y,
                    ((observer.z as i64) + dz) as i32,
                );
                proof {
                    assert(c == square_coord(observer, dx as int, dz as int));
                }
                match self.find(c) {
                    Some(i) => {
                        proof {
                            assert(self@[i as int].0 == c);
                            assert(resident(mv, c));
                        }
                    },
                    None => {
                        out.push(c);
                    },
                }
                proof {
                    assert(out@ =~= row0 + missing_row(
                        mv,
                        observer,
                        r,
                        dx as int,
                        dz as int + 1 + r,
                    ));
                }
                dz = dz + 1;
            }
            proof {
                assert(out@ =~= missing_square(mv, observer, r, dx as int + 1 + r));
            }
            dx = dx + 1;
        }
        out
    }
}

impl Default for ChunkMap {
    /// An empty cache.
    fn default() -> (m: ChunkMap)
        ensures
            m.wf(),
            m@ =~= Seq::<(IVec3, Seq<Option<usize>>)>::empty(),
    {
        ChunkMap::new()
    }
}

} // verus!
