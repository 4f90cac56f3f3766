//! Fixed-width bit packing of per-vertex quad metadata into one 32-bit word.
//!
//! Layout, most significant bits first: `x`, `y`, `z`, `width` and `height`,
//! each `FIELD_BITS` (5) bits wide, then the face direction in the low 3
//! bits. Each field's value is masked to its width before it is shifted, so
//! an out-of-range value corrupts only its own field, never its neighbours.

use vstd::prelude::*;

verus! {

/// The packed word for one quad corner: five 5-bit fields from bit 31 down,
/// the direction in the low 3 bits, and bits 3..=6 left clear.
pub open spec fn pack_spec(x: u32, y: u32, z: u32, width: u32, height: u32, direction: u32) -> u32 {
    ((x & 0x1f) << 27) | ((y & 0x1f) << 22) | ((z & 0x1f) << 17) | ((width & 0x1f) << 12) | (
    (height & 0x1f) << 7) | (direction & 0x7)
}

/// The `x` field of a packed word.
pub open spec fn unpack_x_spec(data: u32) -> u32 {
    (data >> 27) & 0x1f
}

/// The `y` field of a packed word.
pub open spec fn unpack_y_spec(data: u32) -> u32 {
    (data >> 22) & 0x1f
}

/// The `z` field of a packed word.
pub open spec fn unpack_z_spec(data: u32) -> u32 {
    (data >> 17) & 0x1f
}

/// The `width` field of a packed word.
pub open spec fn unpack_width_spec(data: u32) -> u32 {
    (data >> 12) & 0x1f
}

/// The `height` field of a packed word.
pub open spec fn unpack_height_spec(data: u32) -> u32 {
    (data >> 7) & 0x1f
}

/// The `direction` field of a packed word.
pub open spec fn unpack_direction_spec(data: u32) -> u32 {
    data & 0x7
}

/// Packs one quad corner's lattice position, run lengths and face direction
/// into a single word. Total: every input is masked to its field width.
pub fn pack(x: u32, y: u32, z: u32, width: u32, height: u32, direction: u32) -> (data: u32)
    ensures
        data == pack_spec(x, y, z, width, height, direction),
{
    ((x & 0x1f) << 27) | ((y & 0x1f) << 22) | ((z & 0x1f) << 17) | ((width & 0x1f) << 12) | (
    (height & 0x1f) << 7) | (direction & 0x7)
}

/// Extracts the `x` field of a packed word.
pub fn unpack_x(data: u32) -> (x: u32)
    ensures
        x == unpack_x_spec(data),
{
    (data >> 27) & 0x1f
}

/// Extracts the `y` field of a packed word.
pub fn unpack_y(data: u32) -> (y: u32)
    ensures
        y == unpack_y_spec(data),
{
    (data >> 22) & 0x1f
}

/// Extracts the `z` field of a packed word.
pub fn unpack_z(data: u32) -> (z: u32)
    ensures
        z == unpack_z_spec(data),
{
    (data >> 17) & 0x1f
}

/// Extracts the `width` field of a packed word.
pub fn unpack_width(data: u32) -> (width: u32)
    ensures
        width == unpack_width_spec(data),
{
    (data >> 12) & 0x1f
}

/// Extracts the `height` field of a packed word.
pub fn unpack_height(data: u32) -> (height: u32)
    ensures
        height == unpack_height_spec(data),
{
    (data >> 7) & 0x1f
}

/// Extracts the `direction` field of a packed word.
pub fn unpack_direction(data: u32) -> (direction: u32)
    ensures
        direction == unpack_direction_spec(data),
{
    data & 0x7
}

/// Packing round-trips: for values that fit their fields, unpacking the
/// packed word recovers all six inputs exactly.
pub proof fn lemma_pack_round_trip(x: u32, y: u32, z: u32, width: u32, height: u32, direction: u32)
    requires
        x < 32,
        y < 32,
        z < 32,
        width < 32,
        height < 32,
        direction < 8,
    ensures
        unpack_x_spec(pack_spec(x, y, z, width, height, direction)) == x,
        unpack_y_spec(pack_spec(x, y, z, width, height, direction)) == y,
        unpack_z_spec(pack_spec(x, y, z, width, height, direction)) == z,
        unpack_width_spec(pack_spec(x, y, z, width, height, direction)) == width,
        unpack_height_spec(pack_spec(x, y, z, width, height, direction)) == height,
        unpack_direction_spec(pack_spec(x, y, z, width, height, direction)) == direction,
{
    assert(unpack_x_spec(pack_spec(x, y, z, width, height, direction)) == x
        && unpack_y_spec(pack_spec(x, y, z, width, height, direction)) == y
        && unpack_z_spec(pack_spec(x, y, z, width, height, direction)) == z
        && unpack_width_spec(pack_spec(x, y, z, width, height, direction)) == width
        && unpack_height_spec(pack_spec(x, y, z, width, height, direction)) == height
        && unpack_direction_spec(pack_spec(x, y, z, width, height, direction)) == direction)
        by (bit_vector)
        requires
            x < 32,
            y < 32,
            z < 32,
            width < 32,
            height < 32,
            direction < 8,
    ;
}

} // verus!
