//! Voxel chunk storage and surface extraction.
//!
//! A chunk is a dense `16 x 16 x 16` grid of optional block-type IDs. The
//! mesher walks a chunk together with a block registry and emits one quad for
//! every cell face that touches empty space (faces shared by two solid cells
//! are culled on both sides), producing a single merged triangle mesh ready
//! for upload to a renderer.
//!
//! All geometry is expressed in exact integer coordinates: vertex positions in
//! half-block units (a cube spans one block, so its corners sit on half-block
//! boundaries) and texture coordinates as fixed-point fractions of the atlas.
//! The embedding application converts these to floating point at its edge.

pub mod block;
pub mod chunk;
pub mod chunk_map;
pub mod geom;
pub mod mesh;
pub mod mesher;
pub mod registry;
pub mod terrain;
