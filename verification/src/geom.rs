//! Exact integer geometry primitives shared by the whole crate.

use vstd::prelude::*;

verus! {

/// Fixed-point denominator for normalized texture coordinates: a stored
/// coordinate `u` stands for the real value `u / UV_ONE` in `[0, 1]`.
pub const UV_ONE: u32 = 65536;

/// A triple of integers. Used both for chunk-space coordinates and for mesh
/// vertex data (positions in half-block units, normals as unit axis vectors).
#[derive(Clone, Copy, Debug, PartialEq, Eq, Hash, Structural)]
pub struct IVec3 {
    pub x: i32,
    pub y: i32,
    pub z: i32,
}

impl View for IVec3 {
    type V = (int, int, int);

    open spec fn view(&self) -> (int, int, int) {
        (self.x as int, self.y as int, self.z as int)
    }
}

impl IVec3 {
    pub fn new(x: i32, y: i32, z: i32) -> (v: IVec3)
        ensures
            v == (IVec3 { x, y, z }),
    {
        IVec3 { x, y, z }
    }
}

/// A normalized texture coordinate pair, in `UV_ONE` fixed point.
#[derive(Clone, Copy, Debug, PartialEq, Eq, Structural)]
pub struct UV {
    pub u: u32,
    pub v: u32,
}

impl View for UV {
    type V = (int, int);

    open spec fn view(&self) -> (int, int) {
        (self.u as int, self.v as int)
    }
}

/// An axis-aligned rectangle in the texture atlas, in `UV_ONE` fixed point.
#[derive(Clone, Copy, Debug, PartialEq, Eq, Structural)]
pub struct UVRect {
    pub u_min: u32,
    pub v_min: u32,
    pub u_max: u32,
    pub v_max: u32,
}

impl UVRect {
    /// The rectangle lies inside the atlas and is not inverted.
    pub open spec fn wf(self) -> bool {
        &&& self.u_min <= self.u_max <= UV_ONE
        &&& self.v_min <= self.v_max <= UV_ONE
    }

    pub fn new(u_min: u32, v_min: u32, u_max: u32, v_max: u32) -> (r: UVRect)
        ensures
            r == (UVRect { u_min, v_min, u_max, v_max }),
    {
        UVRect { u_min, v_min, u_max, v_max }
    }
}

} // verus!
