//! Dense chunk storage: a cube of `CHUNK_SIZE` cells per edge, each cell
//! holding an optional block-type ID, addressed through a flat array.

use crate::geom::IVec3;
use vstd::pervasive::VecAdditionalExecFns;
use vstd::prelude::*;

verus! {

/// Edge length of a chunk, in cells.
pub const CHUNK_SIZE: usize = 16;

/// Number of cells in a chunk (`CHUNK_SIZE` cubed).
pub const CHUNK_LEN: usize = 4096;

/// True when `(x, y, z)` addresses a cell of the chunk's own grid.
pub open spec fn grid_in_bounds(x: int, y: int, z: int) -> bool {
    &&& 0 <= x < CHUNK_SIZE
    &&& 0 <= y < CHUNK_SIZE
    &&& 0 <= z < CHUNK_SIZE
}

/// Flat index of cell `(x, y, z)`: x-major, then y, then z.
pub open spec fn cell_index(x: int, y: int, z: int) -> int {
    x * (CHUNK_SIZE * CHUNK_SIZE) + y * CHUNK_SIZE + z
}

/// Inverse of `cell_index` on `[0, CHUNK_LEN)`.
pub open spec fn cell_pos(i: int) -> (int, int, int) {
    (
        i / ((CHUNK_SIZE * CHUNK_SIZE) as int),
        (i / (CHUNK_SIZE as int)) % (CHUNK_SIZE as int),
        i % (CHUNK_SIZE as int),
    )
}

/// The grid holds exactly one cell per chunk position.
pub open spec fn grid_wf(g: Seq<Option<usize>>) -> bool {
    g.len() == CHUNK_LEN
}

/// Contents of cell `(x, y, z)`; the empty marker for any coordinate outside
/// the grid, so chunk-boundary neighbours always read as empty.
pub open spec fn grid_at(g: Seq<Option<usize>>, x: int, y: int, z: int) -> Option<usize> {
    if grid_in_bounds(x, y, z) {
        g[cell_index(x, y, z)]
    } else {
        None
    }
}

/// True when cell `(x, y, z)` holds a block (out-of-range counts as empty).
pub open spec fn grid_solid(g: Seq<Option<usize>>, x: int, y: int, z: int) -> bool {
    grid_at(g, x, y, z) is Some
}

/// No cell of the grid holds a block type.
pub open spec fn grid_empty(g: Seq<Option<usize>>) -> bool {
    forall|i: int| 0 <= i < g.len() ==> g[i] is None
}

/// `cell_index` sends every in-bounds position into `[0, CHUNK_LEN)` and
/// `cell_pos` maps it back: the two are a bijection between positions and
/// flat indices.
pub proof fn lemma_cell_index_bijective(x: int, y: int, z: int)
    requires
        grid_in_bounds(x, y, z),
    ensures
        0 <= cell_index(x, y, z) < CHUNK_LEN,
        cell_pos(cell_index(x, y, z)) == (x, y, z),
{
    let i = cell_index(x, y, z);
    assert(i == 256 * x + 16 * y + z);
    assert(i / 256 == x && (i / 16) % 16 == y && i % 16 == z) by (nonlinear_arith)
        requires
            i == 256 * x + 16 * y + z,
            0 <= x < 16,
            0 <= y < 16,
            0 <= z < 16,
    ;
}

/// Every flat index comes from exactly one in-bounds position.
pub proof fn lemma_cell_pos_inverse(i: int)
    requires
        0 <= i < CHUNK_LEN,
    ensures
        grid_in_bounds(cell_pos(i).0, cell_pos(i).1, cell_pos(i).2),
        cell_index(cell_pos(i).0, cell_pos(i).1, cell_pos(i).2) == i,
{
    let (x, y, z) = cell_pos(i);
    assert(0 <= x < 16 && 0 <= y < 16 && 0 <= z < 16 && 256 * x + 16 * y + z == i)
        by (nonlinear_arith)
        requires
            0 <= i < 4096,
            x == i / 256,
            y == (i / 16) % 16,
            z == i % 16,
    ;
}

/// A chunk: its chunk-space origin and a flat grid of optional block IDs.
///
/// Cells are written only through `set_at` while terrain generation fills the
/// chunk; afterwards the chunk is read-only.
#[derive(Debug)]
pub struct Chunk {
    pub origin: IVec3,
    pub cells: Vec<Option<usize>>,
}

impl View for Chunk {
    type V = Seq<Option<usize>>;

    open spec fn view(&self) -> Seq<Option<usize>> {
        self.cells@
    }
}

impl Chunk {
    /// The grid has exactly `CHUNK_LEN` cells.
    pub open spec fn wf(self) -> bool {
        grid_wf(self@)
    }

    /// Contents of cell `(x, y, z)`, the empty marker when out of range.
    pub open spec fn spec_at(self, x: int, y: int, z: int) -> Option<usize> {
        grid_at(self@, x, y, z)
    }

    /// No cell holds a block type.
    pub open spec fn spec_is_empty(self) -> bool {
        grid_empty(self@)
    }

    /// A fresh, all-empty chunk at `origin`.
    pub fn new(origin: IVec3) -> (c: Chunk)
        ensures
            c.wf(),
            c.origin == origin,
            c.spec_is_empty(),
    {
        let mut cells: Vec<Option<usize>> = Vec::new();
        let mut i: usize = 0;
        while i < CHUNK_LEN
            invariant
                i <= CHUNK_LEN,
                cells@.len() == i,
                forall|j: int| 0 <= j < i ==> cells@[j] is None,
            decreases CHUNK_LEN - i,
        {
            cells.push(None);
            i = i + 1;
        }
        Chunk { origin, cells }
    }

    /// Bounds-safe cell lookup: any coordinate outside `[0, CHUNK_SIZE)` on
    /// any axis reads as empty; this never panics.
    pub fn at(&self, x: i32, y: i32, z: i32) -> (r: Option<usize>)
        requires
            self.wf(),
        ensures
            r == self.spec_at(x as int, y as int, z as int),
    {
        if x < 0 || y < 0 || z < 0 || x >= CHUNK_SIZE as i32 || y >= CHUNK_SIZE as i32
            || z >= CHUNK_SIZE as i32 {
            return None;
        }
        let i = index_of(x as usize, y as usize, z as usize);
        self.cells[i]
    }

    /// Bounds-safe cell update: replaces the cell when `(x, y, z)` is in
    /// range and leaves the chunk unchanged otherwise.
    pub fn set_at(&mut self, x: i32, y: i32, z: i32, value: Option<usize>)
        requires
            old(self).wf(),
        ensures
            final(self).wf(),
            final(self).origin == old(self).origin,
            grid_in_bounds(x as int, y as int, z as int) ==> final(self)@ == old(self)@.update(
                cell_index(x as int, y as int, z as int),
                value,
            ),
            !grid_in_bounds(x as int, y as int, z as int) ==> final(self)@ == old(self)@,
    {
        if x < 0 || y < 0 || z < 0 || x >= CHUNK_SIZE as i32 || y >= CHUNK_SIZE as i32
            || z >= CHUNK_SIZE as i32 {
            return ;
        }
        let i = index_of(x as usize, y as usize, z as usize);
        self.cells.set(i, value);
    }

    /// True when the neighbour-visibility test sees a solid cell at
    /// `(x, y, z)`; out-of-range coordinates count as exposed (not solid).
    pub fn check_at(&self, x: i32, y: i32, z: i32) -> (r: bool)
        requires
            self.wf(),
        ensures
            r == grid_solid(self@, x as int, y as int, z as int),
    {
        self.at(x, y, z).is_some()
    }

    /// True iff no cell holds a block type. Used by the chunk map to skip
    /// mesh creation for all-air chunks.
    pub fn is_empty(&self) -> (r: bool)
        requires
            self.wf(),
        ensures
            r == self.spec_is_empty(),
    {
        let mut i: usize = 0;
        while i < CHUNK_LEN
            invariant
                self.wf(),
                i <= CHUNK_LEN,
                forall|j: int| 0 <= j < i ==> self@[j] is None,
            decreases CHUNK_LEN - i,
        {
            if self.cells[i].is_some() {
                return false;
            }
            i = i + 1;
        }
        true
    }
}

/// Flat index of the in-bounds cell `(x, y, z)`.
pub fn index_of(x: usize, y: usize, z: usize) -> (i: usize)
    requires
        grid_in_bounds(x as int, y as int, z as int),
    ensures
        i == cell_index(x as int, y as int, z as int),
        i < CHUNK_LEN,
{
    proof {
        lemma_cell_index_bijective(x as int, y as int, z as int);
    }
    let i: usize = x * 256 + y * 16 + z;
    i
}

/// Position of the cell with flat index `i`: the inverse of `index_of`.
pub fn index_to_pos(i: usize) -> (r: (usize, usize, usize))
    requires
        i < CHUNK_LEN,
    ensures
        (r.0 as int, r.1 as int, r.2 as int) == cell_pos(i as int),
        grid_in_bounds(r.0 as int, r.1 as int, r.2 as int),
{
    proof {
        lemma_cell_pos_inverse(i as int);
    }
    let x = i / (CHUNK_SIZE * CHUNK_SIZE);
    let y = (i / CHUNK_SIZE) % CHUNK_SIZE;
    let z = i % CHUNK_SIZE;
    (x, y, z)
}

} // verus!
