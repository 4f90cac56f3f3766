use voxel_chunk::pack::pack;
use voxel_chunk::pack::unpack_direction;
use voxel_chunk::pack::unpack_height;
use voxel_chunk::pack::unpack_width;
use voxel_chunk::pack::unpack_x;
use voxel_chunk::pack::unpack_y;
use voxel_chunk::pack::unpack_z;

#[test]
fn pack_exact_layout() {
    // x in bits 27..32, y in 22..27, z in 17..22, width in 12..17,
    // height in 7..12, direction in 0..3.
    assert_eq!(pack(1, 2, 3, 1, 1, 4), 143003780);
    assert_eq!(pack(17, 0, 31, 1, 1, 5), 2285768837);
    assert_eq!(pack(0, 0, 0, 0, 0, 0), 0);
}

#[test]
fn pack_round_trip_small_values() {
    for x in 0..32u32 {
        for d in 0..8u32 {
            let word = pack(x, 31 - x, x / 2, 1, 2, d);
            assert_eq!(unpack_x(word), x);
            assert_eq!(unpack_y(word), 31 - x);
            assert_eq!(unpack_z(word), x / 2);
            assert_eq!(unpack_width(word), 1);
            assert_eq!(unpack_height(word), 2);
            assert_eq!(unpack_direction(word), d);
        }
    }
}

#[test]
fn pack_round_trip_field_extremes() {
    let word = pack(31, 31, 31, 31, 31, 7);
    assert_eq!(unpack_x(word), 31);
    assert_eq!(unpack_y(word), 31);
    assert_eq!(unpack_z(word), 31);
    assert_eq!(unpack_width(word), 31);
    assert_eq!(unpack_height(word), 31);
    assert_eq!(unpack_direction(word), 7);
}

#[test]
fn pack_masks_out_of_range_values_to_own_field() {
    // A value over its field width is masked before shifting, so it can
    // never corrupt a neighbouring field.
    assert_eq!(pack(32 + 1, 2, 3, 1, 1, 4), pack(1, 2, 3, 1, 1, 4));
    assert_eq!(pack(1, 2, 3, 1, 1, 8 + 4), pack(1, 2, 3, 1, 1, 4));
    assert_eq!(pack(1, 64 + 2, 3, 1, 1, 4), pack(1, 2, 3, 1, 1, 4));
}
