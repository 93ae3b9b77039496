//! Per-face quad geometry for one block type: each of the six cube faces has
//! a fixed outward normal, a fixed corner order (counter-clockwise seen from
//! outside along the normal) and a fixed mapping of texture-rectangle corners
//! onto those vertices.
//!
//! Positions are in half-block units: a cube centred at `shift` spans
//! `shift - 1 .. shift + 1` along each axis, i.e. one whole block.

use crate::geom::{IVec3, UV, UVRect};
use crate::mesh::Mesh;
use vstd::prelude::*;

verus! {

/// One of the six cube face directions, in the fixed emission order.
#[derive(Clone, Copy, Debug, PartialEq, Eq, Structural)]
pub enum FaceDir {
    Front,
    Back,
    Right,
    Left,
    Top,
    Bottom,
}

/// The unit vector a face looks along: both the neighbour offset used for
/// visibility tests and the face's outward normal.
pub open spec fn dir_vec(d: FaceDir) -> (int, int, int) {
    match d {
        FaceDir::Front => (0, 0, 1),
        FaceDir::Back => (0, 0, -1),
        FaceDir::Right => (1, 0, 0),
        FaceDir::Left => (-1, 0, 0),
        FaceDir::Top => (0, 1, 0),
        FaceDir::Bottom => (0, -1, 0),
    }
}

/// The four corner positions of face `d` of the cube centred at `shift`
/// (half-block units), in emission order.
pub open spec fn face_positions(shift: (int, int, int), d: FaceDir) -> Seq<(int, int, int)> {
    let (sx, sy, sz) = shift;
    let (x0, y0, z0) = (sx - 1, sy - 1, sz - 1);
    let (x1, y1, z1) = (sx + 1, sy + 1, sz + 1);
    match d {
        FaceDir::Front => seq![(x0, y0, z1), (x1, y0, z1), (x1, y1, z1), (x0, y1, z1)],
        FaceDir::Back => seq![(x0, y1, z0), (x1, y1, z0), (x1, y0, z0), (x0, y0, z0)],
        FaceDir::Right => seq![(x1, y0, z0), (x1, y1, z0), (x1, y1, z1), (x1, y0, z1)],
        FaceDir::Left => seq![(x0, y0, z1), (x0, y1, z1), (x0, y1, z0), (x0, y0, z0)],
        FaceDir::Top => seq![(x1, y1, z0), (x0, y1, z0), (x0, y1, z1), (x1, y1, z1)],
        FaceDir::Bottom => seq![(x1, y0, z1), (x0, y0, z1), (x0, y0, z0), (x1, y0, z0)],
    }
}

/// The texture coordinates assigned to the four vertices of face `d`, taken
/// from the corners of that face's rectangle `r`.
pub open spec fn face_uvs(r: UVRect, d: FaceDir) -> Seq<(int, int)> {
    let u0 = r.u_min as int;
    let u1 = r.u_max as int;
    let v0 = r.v_min as int;
    let v1 = r.v_max as int;
    match d {
        FaceDir::Front => seq![(u0, v1), (u1, v1), (u1, v0), (u0, v0)],
        FaceDir::Back => seq![(u1, v0), (u0, v0), (u0, v1), (u1, v1)],
        FaceDir::Right => seq![(u1, v1), (u1, v0), (u0, v0), (u0, v1)],
        FaceDir::Left => seq![(u1, v1), (u1, v0), (u0, v0), (u0, v1)],
        FaceDir::Top => seq![(u1, v0), (u0, v0), (u0, v1), (u1, v1)],
        FaceDir::Bottom => seq![(u1, v1), (u0, v1), (u0, v0), (u1, v0)],
    }
}

/// Quad `q` of mesh `m` is exactly face `d` of the cube centred at `shift`,
/// textured with rectangle `r`.
pub open spec fn quad_is_face(m: Mesh, q: int, shift: (int, int, int), d: FaceDir, r: UVRect) -> bool {
    &&& m.positions@[4 * q]@ == face_positions(shift, d)[0]
    &&& m.positions@[4 * q + 1]@ == face_positions(shift, d)[1]
    &&& m.positions@[4 * q + 2]@ == face_positions(shift, d)[2]
    &&& m.positions@[4 * q + 3]@ == face_positions(shift, d)[3]
    &&& m.normals@[4 * q]@ == dir_vec(d)
    &&& m.normals@[4 * q + 1]@ == dir_vec(d)
    &&& m.normals@[4 * q + 2]@ == dir_vec(d)
    &&& m.normals@[4 * q + 3]@ == dir_vec(d)
    &&& m.uvs@[4 * q]@ == face_uvs(r, d)[0]
    &&& m.uvs@[4 * q + 1]@ == face_uvs(r, d)[1]
    &&& m.uvs@[4 * q + 2]@ == face_uvs(r, d)[2]
    &&& m.uvs@[4 * q + 3]@ == face_uvs(r, d)[3]
}

/// `shift` leaves room for the half-block extent on every axis.
pub open spec fn shift_in_range(shift: IVec3) -> bool {
    &&& i32::MIN < shift.x < i32::MAX
    &&& i32::MIN < shift.y < i32::MAX
    &&& i32::MIN < shift.z < i32::MAX
}

/// One block type's texture rectangles, one per cube face.
#[derive(Clone, Copy, Debug, PartialEq, Eq, Structural)]
pub struct Block {
    pub front: UVRect,
    pub back: UVRect,
    pub left: UVRect,
    pub right: UVRect,
    pub top: UVRect,
    pub bottom: UVRect,
}

impl Block {
    /// All six rectangles lie inside the atlas.
    pub open spec fn wf(self) -> bool {
        &&& self.front.wf()
        &&& self.back.wf()
        &&& self.left.wf()
        &&& self.right.wf()
        &&& self.top.wf()
        &&& self.bottom.wf()
    }

    /// The texture rectangle of face `d`.
    pub open spec fn rect(self, d: FaceDir) -> UVRect {
        match d {
            FaceDir::Front => self.front,
            FaceDir::Back => self.back,
            FaceDir::Right => self.right,
            FaceDir::Left => self.left,
            FaceDir::Top => self.top,
            FaceDir::Bottom => self.bottom,
        }
    }

    pub fn new(front: UVRect, back: UVRect, left: UVRect, right: UVRect, top: UVRect, bottom: UVRect) -> (b: Block)
        ensures
            b == (Block { front, back, left, right, top, bottom }),
    {
        Block { front, back, left, right, top, bottom }
    }

    /// A single-quad mesh holding face `d` of this block's cube centred at
    /// `shift` (half-block units).
    pub fn build_face_shifted(&self, d: FaceDir, shift: IVec3) -> (m: Mesh)
        requires
            shift_in_range(shift),
        ensures
            m.wf(),
            m.quad_count() == 1,
            quad_is_face(m, 0, shift@, d, self.rect(d)),
    {
        let x0 = shift.x - 1;
        let y0 = shift.y - 1;
        let z0 = shift.z - 1;
        let x1 = shift.x + 1;
        let y1 = shift.y + 1;
        let z1 = shift.z + 1;
        let r = match d {
            FaceDir::Front => self.front,
            FaceDir::Back => self.back,
            FaceDir::Right => self.right,
            FaceDir::Left => self.left,
            FaceDir::Top => self.top,
            FaceDir::Bottom => self.bottom,
        };
        let (u0, u1, v0, v1) = (r.u_min, r.u_max, r.v_min, r.v_max);
        let mut m = Mesh::new();
        match d {
            FaceDir::Front => m.push_quad(
                IVec3::new(x0, y0, z1),
                IVec3::new(x1, y0, z1),
                IVec3::new(x1, y1, z1),
                IVec3::new(x0, y1, z1),
                IVec3::new(0, 0, 1),
                UV { u: u0, v: v1 },
                UV { u: u1, v: v1 },
                UV { u: u1, v: v0 },
                UV { u: u0, v: v0 },
            ),
            FaceDir::Back => m.push_quad(
                IVec3::new(x0, y1, z0),
                IVec3::new(x1, y1, z0),
                IVec3::new(x1, y0, z0),
                IVec3::new(x0, y0, z0),
                IVec3::new(0, 0, -1),
                UV { u: u1, v: v0 },
                UV { u: u0, v: v0 },
                UV { u: u0, v: v1 },
                UV { u: u1, v: v1 },
            ),
            FaceDir::Right => m.push_quad(
                IVec3::new(x1, y0, z0),
                IVec3::new(x1, y1, z0),
                IVec3::new(x1, y1, z1),
                IVec3::new(x1, y0, z1),
                IVec3::new(1, 0, 0),
                UV { u: u1, v: v1 },
                UV { u: u1, v: v0 },
                UV { u: u0, v: v0 },
                UV { u: u0, v: v1 },
            ),
            FaceDir::Left => m.push_quad(
                IVec3::new(x0, y0, z1),
                IVec3::new(x0, y1, z1),
                IVec3::new(x0, y1, z0),
                IVec3::new(x0, y0, z0),
                IVec3::new(-1, 0, 0),
                UV { u: u1, v: v1 },
                UV { u: u1, v: v0 },
                UV { u: u0, v: v0 },
                UV { u: u0, v: v1 },
            ),
            FaceDir::Top => m.push_quad(
                IVec3::new(x1, y1, z0),
                IVec3::new(x0, y1, z0),
                IVec3::new(x0, y1, z1),
                IVec3::new(x1, y1, z1),
                IVec3::new(0, 1, 0),
                UV { u: u1, v: v0 },
                UV { u: u0, v: v0 },
                UV { u: u0, v: v1 },
                UV { u: u1, v: v1 },
            ),
            FaceDir::Bottom => m.push_quad(
                IVec3::new(x1, y0, z1),
                IVec3::new(x0, y0, z1),
                IVec3::new(x0, y0, z0),
                IVec3::new(x1, y0, z0),
                IVec3::new(0, -1, 0),
                UV { u: u1, v: v1 },
                UV { u: u0, v: v1 },
                UV { u: u0, v: v0 },
                UV { u: u1, v: v0 },
            ),
        }
        m
    }

    /// Front (+Z) face of the cube centred at `shift`.
    pub fn build_front_face_shifted(&self, shift: IVec3) -> (m: Mesh)
        requires
            shift_in_range(shift),
        ensures
            m.wf(),
            m.quad_count() == 1,
            quad_is_face(m, 0, shift@, FaceDir::Front, self.front),
    {
        self.build_face_shifted(FaceDir::Front, shift)
    }

    /// Front (+Z) face of the cube centred at the origin.
    pub fn build_front_face(&self) -> (m: Mesh)
        ensures
            m.wf(),
            m.quad_count() == 1,
            quad_is_face(m, 0, (0, 0, 0), FaceDir::Front, self.front),
    {
        self.build_face_shifted(FaceDir::Front, IVec3::new(0, 0, 0))
    }

    /// Back (-Z) face of the cube centred at `shift`.
    pub fn build_back_face_shifted(&self, shift: IVec3) -> (m: Mesh)
        requires
            shift_in_range(shift),
        ensures
            m.wf(),
            m.quad_count() == 1,
            quad_is_face(m, 0, shift@, FaceDir::Back, self.back),
    {
        self.build_face_shifted(FaceDir::Back, shift)
    }

    /// Back (-Z) face of the cube centred at the origin.
    pub fn build_back_face(&self) -> (m: Mesh)
        ensures
            m.wf(),
            m.quad_count() == 1,
            quad_is_face(m, 0, (0, 0, 0), FaceDir::Back, self.back),
    {
        self.build_face_shifted(FaceDir::Back, IVec3::new(0, 0, 0))
    }

    /// Right (+X) face of the cube centred at `shift`.
    pub fn build_right_face_shifted(&self, shift: IVec3) -> (m: Mesh)
        requires
            shift_in_range(shift),
        ensures
            m.wf(),
            m.quad_count() == 1,
            quad_is_face(m, 0, shift@, FaceDir::Right, self.right),
    {
        self.build_face_shifted(FaceDir::Right, shift)
    }

    /// Right (+X) face of the cube centred at the origin.
    pub fn build_right_face(&self) -> (m: Mesh)
        ensures
            m.wf(),
            m.quad_count() == 1,
            quad_is_face(m, 0, (0, 0, 0), FaceDir::Right, self.right),
    {
        self.build_face_shifted(FaceDir::Right, IVec3::new(0, 0, 0))
    }

    /// Left (-X) face of the cube centred at `shift`.
    pub fn build_left_face_shifted(&self, shift: IVec3) -> (m: Mesh)
        requires
            shift_in_range(shift),
        ensures
            m.wf(),
            m.quad_count() == 1,
            quad_is_face(m, 0, shift@, FaceDir::Left, self.left),
    {
        self.build_face_shifted(FaceDir::Left, shift)
    }

    /// Left (-X) face of the cube centred at the origin.
    pub fn build_left_face(&self) -> (m: Mesh)
        ensures
            m.wf(),
            m.quad_count() == 1,
            quad_is_face(m, 0, (0, 0, 0), FaceDir::Left, self.left),
    {
        self.build_face_shifted(FaceDir::Left, IVec3::new(0, 0, 0))
    }

    /// Top (+Y) face of the cube centred at `shift`.
    pub fn build_top_face_shifted(&self, shift: IVec3) -> (m: Mesh)
        requires
            shift_in_range(shift),
        ensures
            m.wf(),
            m.quad_count() == 1,
            quad_is_face(m, 0, shift@, FaceDir::Top, self.top),
    {
        self.build_face_shifted(FaceDir::Top, shift)
    }

    /// Top (+Y) face of the cube centred at the origin.
    pub fn build_top_face(&self) -> (m: Mesh)
        ensures
            m.wf(),
            m.quad_count() == 1,
            quad_is_face(m, 0, (0, 0, 0), FaceDir::Top, self.top),
    {
        self.build_face_shifted(FaceDir::Top, IVec3::new(0, 0, 0))
    }

    /// Bottom (-Y) face of the cube centred at `shift`.
    pub fn build_bottom_face_shifted(&self, shift: IVec3) -> (m: Mesh)
        requires
            shift_in_range(shift),
        ensures
            m.wf(),
            m.quad_count() == 1,
            quad_is_face(m, 0, shift@, FaceDir::Bottom, self.bottom),
    {
        self.build_face_shifted(FaceDir::Bottom, shift)
    }

    /// Bottom (-Y) face of the cube centred at the origin.
    pub fn build_bottom_face(&self) -> (m: Mesh)
        ensures
            m.wf(),
            m.quad_count() == 1,
            quad_is_face(m, 0, (0, 0, 0), FaceDir::Bottom, self.bottom),
    {
        self.build_face_shifted(FaceDir::Bottom, IVec3::new(0, 0, 0))
    }

    /// All six faces of the cube centred at the origin, in the fixed
    /// direction order.
    pub fn build(&self) -> (m: Mesh)
        ensures
            m.wf(),
            m.quad_count() == 6,
            quad_is_face(m, 0, (0, 0, 0), FaceDir::Front, self.front),
            quad_is_face(m, 1, (0, 0, 0), FaceDir::Back, self.back),
            quad_is_face(m, 2, (0, 0, 0), FaceDir::Right, self.right),
            quad_is_face(m, 3, (0, 0, 0), FaceDir::Left, self.left),
            quad_is_face(m, 4, (0, 0, 0), FaceDir::Top, self.top),
            quad_is_face(m, 5, (0, 0, 0), FaceDir::Bottom, self.bottom),
    {
        let mut m = self.build_front_face();
        m.merge(&self.build_back_face());
        m.merge(&self.build_right_face());
        m.merge(&self.build_left_face());
        m.merge(&self.build_top_face());
        m.merge(&self.build_bottom_face());
        m
    }
}

} // verus!
