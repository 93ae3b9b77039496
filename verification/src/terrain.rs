//! Terrain generation: fill a chunk from a per-column surface-height field.
//!
//! The height of a column is produced outside this crate by a pluggable
//! deterministic noise function of the world seed and the column's
//! chunk-space coordinates; this module turns a chunk origin and those 256
//! column heights into cell contents, so the result is a pure function of
//! its arguments.

use crate::chunk::{CHUNK_LEN, CHUNK_SIZE, Chunk, cell_pos, index_to_pos, lemma_cell_pos_inverse};
use crate::geom::IVec3;
use crate::mesher::grid_ids_valid;
use vstd::prelude::*;

verus! {

/// The block-type IDs terrain is built from, as resolved against a registry.
#[derive(Clone, Copy, Debug, PartialEq, Eq, Structural)]
pub struct TerrainParams {
    pub grass: usize,
    pub dirt: usize,
    pub stone: usize,
}

/// What a cell holds, given its column's surface height `h` and the cell's
/// world-space layer `origin_y + y`: the surface layer is grass, the next
/// two layers down are dirt, everything deeper is stone, and everything
/// above the surface is empty.
pub open spec fn terrain_cell(origin_y: int, h: int, y: int, p: TerrainParams) -> Option<usize> {
    let depth = h - (origin_y + y);
    if depth == 0 {
        Some(p.grass)
    } else if 0 < depth < 3 {
        Some(p.dirt)
    } else if depth >= 3 {
        Some(p.stone)
    } else {
        None
    }
}

/// The full grid generated from origin height `origin_y` and the per-column
/// heights (indexed `x * CHUNK_SIZE + z`).
pub open spec fn terrain_grid(origin_y: int, heights: Seq<i32>, p: TerrainParams) -> Seq<
    Option<usize>,
> {
    Seq::new(
        CHUNK_LEN as nat,
        |i: int|
            {
                let (x, y, z) = cell_pos(i);
                terrain_cell(origin_y, heights[x * CHUNK_SIZE + z] as int, y, p)
            },
    )
}

/// Terrain cells hold no IDs but the three of `p`.
pub proof fn lemma_terrain_ids_valid(origin_y: int, heights: Seq<i32>, p: TerrainParams, n: int)
    requires
        p.grass < n,
        p.dirt < n,
        p.stone < n,
    ensures
        grid_ids_valid(terrain_grid(origin_y, heights, p), n),
{
}

/// Terrain generation is deterministic: two chunks generated from the same
/// origin and the same column heights are cell-for-cell identical.
pub proof fn lemma_generate_deterministic(
    c1: Chunk,
    c2: Chunk,
    origin_y: int,
    heights: Seq<i32>,
    p: TerrainParams,
)
    requires
        c1@ == terrain_grid(origin_y, heights, p),
        c2@ == terrain_grid(origin_y, heights, p),
    ensures
        c1@ == c2@,
{
}

/// Fill a chunk at `origin` from the 256 column heights: a pure function of
/// its arguments, so a chunk can always be regenerated instead of stored.
pub fn generate(origin: IVec3, heights: &Vec<i32>, params: TerrainParams) -> (c: Chunk)
    requires
        heights@.len() == CHUNK_SIZE * CHUNK_SIZE,
    ensures
        c.wf(),
        c.origin == origin,
        c@ == terrain_grid(origin.y as int, heights@, params),
{
    let ghost tg = terrain_grid(origin.y as int, heights@, params);
    let mut c = Chunk::new(origin);
    let mut i: usize = 0;
    while i < CHUNK_LEN
        invariant
            c.wf(),
            c.origin == origin,
            heights@.len() == 256,
            tg == terrain_grid(origin.y as int, heights@, params),
            i <= CHUNK_LEN,
            forall|j: int| 0 <= j < i ==> c@[j] == tg[j],
            forall|j: int| i <= j < CHUNK_LEN ==> c@[j] is None,
        decreases CHUNK_LEN - i,
    {
        let (x, y, z) = index_to_pos(i);
        let h = heights[x * 16 + z];
        let depth: i64 = (h as i64) - ((origin.y as i64) + (y as i64));
        let value: Option<usize> = if depth == 0 {
            Some(params.grass)
        } else if depth > 0 && depth < 3 {
            Some(params.dirt)
        } else if depth >= 3 {
            Some(params.stone)
        } else {
            None
        };
        proof {
            lemma_cell_pos_inverse(i as int);
        }
        c.set_at(x as i32, y as i32, z as i32, value);
        proof {
            assert(c@[i as int] == tg[i as int]);
        }
        i = i + 1;
    }
    proof {
        assert(c@ =~= tg);
    }
    c
}

} // verus!
