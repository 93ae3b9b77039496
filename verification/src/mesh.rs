//! Triangle-list mesh output: per-vertex positions, normals and texture
//! coordinates plus a triangle index list, two triangles per quad.

use crate::geom::{IVec3, UV};
use vstd::prelude::*;

verus! {

/// Upper bound on the number of vertices a mesh may hold. Far above the worst
/// case for a single chunk (six faces for each of its cells) while keeping
/// every index comfortably inside `u32`.
pub const VERTEX_LIMIT: usize = 0x1000_0000;

/// The two-triangle fan of quad `q` over its four vertices:
/// `[4q, 4q+1, 4q+2, 4q+2, 4q+3, 4q]`.
pub open spec fn quad_indices_ok(s: Seq<u32>, q: int) -> bool {
    &&& s[6 * q] as int == 4 * q
    &&& s[6 * q + 1] as int == 4 * q + 1
    &&& s[6 * q + 2] as int == 4 * q + 2
    &&& s[6 * q + 3] as int == 4 * q + 2
    &&& s[6 * q + 4] as int == 4 * q + 3
    &&& s[6 * q + 5] as int == 4 * q
}

/// A mesh of textured quads: parallel per-vertex attribute arrays and a
/// triangle index list. Positions are in half-block units, normals are unit
/// axis vectors and texture coordinates are in `UV_ONE` fixed point.
#[derive(Debug)]
pub struct Mesh {
    pub positions: Vec<IVec3>,
    pub normals: Vec<IVec3>,
    pub uvs: Vec<UV>,
    pub indices: Vec<u32>,
}

impl Mesh {
    /// Number of quads: four vertices each.
    pub open spec fn quad_count(self) -> int {
        self.positions@.len() as int / 4
    }

    /// Attribute arrays run in parallel, vertices come in quads, and the
    /// index list is exactly the canonical two-triangle fan of every quad.
    pub open spec fn wf(self) -> bool {
        &&& self.positions@.len() % 4 == 0
        &&& self.positions@.len() <= VERTEX_LIMIT
        &&& self.normals@.len() == self.positions@.len()
        &&& self.uvs@.len() == self.positions@.len()
        &&& self.indices@.len() == 6 * self.quad_count()
        &&& forall|q: int|
            0 <= q < self.quad_count() ==> #[trigger] quad_indices_ok(self.indices@, q)
    }

    /// A mesh with no vertices.
    pub fn new() -> (m: Mesh)
        ensures
            m.wf(),
            m.positions@ =~= Seq::<IVec3>::empty(),
            m.normals@ =~= Seq::<IVec3>::empty(),
            m.uvs@ =~= Seq::<UV>::empty(),
            m.quad_count() == 0,
    {
        Mesh { positions: Vec::new(), normals: Vec::new(), uvs: Vec::new(), indices: Vec::new() }
    }

    /// Number of quads currently in the mesh.
    pub fn num_quads(&self) -> (n: usize)
        requires
            self.wf(),
        ensures
            n as int == self.quad_count(),
    {
        self.positions.len() / 4
    }

    /// Append one quad: four vertices sharing a normal, in fan order.
    pub fn push_quad(&mut self, p0: IVec3, p1: IVec3, p2: IVec3, p3: IVec3, normal: IVec3, uv0: UV, uv1: UV, uv2: UV, uv3: UV)
        requires
            old(self).wf(),
            old(self).positions@.len() + 4 <= VERTEX_LIMIT,
        ensures
            final(self).wf(),
            final(self).positions@ == old(self).positions@ + seq![p0, p1, p2, p3],
            final(self).normals@ == old(self).normals@ + seq![normal, normal, normal, normal],
            final(self).uvs@ == old(self).uvs@ + seq![uv0, uv1, uv2, uv3],
            final(self).quad_count() == old(self).quad_count() + 1,
    {
        let base: usize = self.positions.len();
        let b: u32 = base as u32;
        self.positions.push(p0);
        self.positions.push(p1);
        self.positions.push(p2);
        self.positions.push(p3);
        self.normals.push(normal);
        self.normals.push(normal);
        self.normals.push(normal);
        self.normals.push(normal);
        self.uvs.push(uv0);
        self.uvs.push(uv1);
        self.uvs.push(uv2);
        self.uvs.push(uv3);
        self.indices.push(b);
        self.indices.push(b + 1);
        self.indices.push(b + 2);
        self.indices.push(b + 2);
        self.indices.push(b + 3);
        self.indices.push(b);
        proof {
            let old_q = old(self).quad_count();
            assert(self.positions@ =~= old(self).positions@ + seq![p0, p1, p2, p3]);
            assert(self.normals@ =~= old(self).normals@ + seq![normal, normal, normal, normal]);
            assert(self.uvs@ =~= old(self).uvs@ + seq![uv0, uv1, uv2, uv3]);
            assert(self.quad_count() == old_q + 1);
            assert forall|q: int| 0 <= q < self.quad_count() implies #[trigger] quad_indices_ok(
                self.indices@,
                q,
            ) by {
                if q < old_q {
                    assert(quad_indices_ok(old(self).indices@, q));
                } else {
                    assert(q == old_q);
                    assert(base as int == 4 * q);
                }
            }
        }
    }

    /// Append every quad of `other`, re-basing its indices past the vertices
    /// already present.
    pub fn merge(&mut self, other: &Mesh)
        requires
            old(self).wf(),
            other.wf(),
            old(self).positions@.len() + other.positions@.len() <= VERTEX_LIMIT,
        ensures
            final(self).wf(),
            final(self).positions@ == old(self).positions@ + other.positions@,
            final(self).normals@ == old(self).normals@ + other.normals@,
            final(self).uvs@ == old(self).uvs@ + other.uvs@,
            final(self).quad_count() == old(self).quad_count() + other.quad_count(),
    {
        let mut k: usize = 0;
        while k < other.positions.len()
            invariant
                old(self).wf(),
                other.wf(),
                old(self).positions@.len() + other.positions@.len() <= VERTEX_LIMIT,
                k <= other.positions@.len(),
                self.positions@ == old(self).positions@ + other.positions@.subrange(0, k as int),
                self.normals@ == old(self).normals@,
                self.uvs@ == old(self).uvs@,
                self.indices@ == old(self).indices@,
            decreases other.positions@.len() - k,
        {
            self.positions.push(other.positions[k]);
            proof {
                assert(self.positions@ =~= old(self).positions@ + other.positions@.subrange(
                    0,
                    k as int + 1,
                ));
            }
            k = k + 1;
        }
        proof {
            assert(self.positions@ =~= old(self).positions@ + other.positions@);
        }
        let mut k: usize = 0;
        while k < other.normals.len()
            invariant
                old(self).wf(),
                other.wf(),
                old(self).positions@.len() + other.positions@.len() <= VERTEX_LIMIT,
                k <= other.normals@.len(),
                self.positions@ == old(self).positions@ + other.positions@,
                self.normals@ == old(self).normals@ + other.normals@.subrange(0, k as int),
                self.uvs@ == old(self).uvs@,
                self.indices@ == old(self).indices@,
            decreases other.normals@.len() - k,
        {
            self.normals.push(other.normals[k]);
            proof {
                assert(self.normals@ =~= old(self).normals@ + other.normals@.subrange(
                    0,
                    k as int + 1,
                ));
            }
            k = k + 1;
        }
        proof {
            assert(self.normals@ =~= old(self).normals@ + other.normals@);
        }
        let mut k: usize = 0;
        while k < other.uvs.len()
            invariant
                old(self).wf(),
                other.wf(),
                old(self).positions@.len() + other.positions@.len() <= VERTEX_LIMIT,
                k <= other.uvs@.len(),
                self.positions@ == old(self).positions@ + other.positions@,
                self.normals@ == old(self).normals@ + other.normals@,
                self.uvs@ == old(self).uvs@ + other.uvs@.subrange(0, k as int),
                self.indices@ == old(self).indices@,
            decreases other.uvs@.len() - k,
        {
            self.uvs.push(other.uvs[k]);
            proof {
                assert(self.uvs@ =~= old(self).uvs@ + other.uvs@.subrange(0, k as int + 1));
            }
            k = k + 1;
        }
        proof {
            assert(self.uvs@ =~= old(self).uvs@ + other.uvs@);
        }
        let total_quads: usize = self.positions.len() / 4;
        let mut q: usize = self.indices.len() / 6;
        proof {
            assert(6 * old(self).quad_count() / 6 == old(self).quad_count());
        }
        while q < total_quads
            invariant
                old(self).wf(),
                other.wf(),
                self.positions@ == old(self).positions@ + other.positions@,
                self.normals@ == old(self).normals@ + other.normals@,
                self.uvs@ == old(self).uvs@ + other.uvs@,
                self.positions@.len() <= VERTEX_LIMIT,
                self.positions@.len() % 4 == 0,
                total_quads as int == self.quad_count(),
                old(self).quad_count() <= q <= total_quads,
                self.indices@.len() == 6 * q,
                forall|j: int| 0 <= j < q ==> #[trigger] quad_indices_ok(self.indices@, j),
            decreases total_quads - q,
        {
            let ghost prev = self.indices@;
            let b: u32 = (4 * q) as u32;
            self.indices.push(b);
            self.indices.push(b + 1);
            self.indices.push(b + 2);
            self.indices.push(b + 2);
            self.indices.push(b + 3);
            self.indices.push(b);
            proof {
                assert forall|j: int| 0 <= j < q + 1 implies #[trigger] quad_indices_ok(
                    self.indices@,
                    j,
                ) by {
                    if j < q {
                        assert(quad_indices_ok(prev, j));
                    }
                }
            }
            q = q + 1;
        }
    }
}

} // verus!
