use vstd::prelude::*;

pub mod generation;
pub mod mesh;
pub mod pack;
pub mod props;

verus! {

/// Logical edge length of one cubic chunk, in voxels.
pub const CHUNK_SIZE: usize = 16;

/// Edge length of the padded occupancy grid: the chunk plus a one-voxel halo
/// on every face.
pub const PADDED_SIZE: usize = 18;

/// Number of cells in the padded occupancy grid (`PADDED_SIZE` cubed).
pub const PADDED_VOLUME: usize = 5832;

/// Width in bits of each coordinate and run-length field of a packed vertex
/// word: enough for values `0..=PADDED_SIZE - 1` with one spare bit.
pub const FIELD_BITS: u32 = 5;

} // verus!
