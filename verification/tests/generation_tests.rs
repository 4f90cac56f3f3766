use noise::NoiseFn;
use voxel_chunk::generation::ChunkBlockData;
use voxel_chunk::generation::ChunkPos;
use voxel_chunk::CHUNK_SIZE;
use voxel_chunk::PADDED_SIZE;
use voxel_chunk::PADDED_VOLUME;

/// Samples the rounded surface height of every padded column of a chunk from
/// seeded coherent noise, as a renderer-side collaborator would.
fn sample_heights(seed: u32, chunk_pos: ChunkPos) -> Vec<i32> {
    let perlin = noise::Perlin::new(seed);
    let mut heights = Vec::with_capacity(PADDED_SIZE * PADDED_SIZE);
    for x in 0..PADDED_SIZE {
        for z in 0..PADDED_SIZE {
            let height = perlin.get([
                (chunk_pos.x as f64 * CHUNK_SIZE as f64 + x as f64) / 50.0,
                (chunk_pos.z as f64 * CHUNK_SIZE as f64 + z as f64) / 50.0,
            ]) * 20.0;
            heights.push(height.round() as i32);
        }
    }
    heights
}

fn flat_heights(h: i32) -> Vec<i32> {
    vec![h; PADDED_SIZE * PADDED_SIZE]
}

fn grid_bytes(grid: &ChunkBlockData) -> Vec<u8> {
    let mut bytes = Vec::with_capacity(PADDED_VOLUME);
    for x in 0..PADDED_SIZE {
        for y in 0..PADDED_SIZE {
            for z in 0..PADDED_SIZE {
                bytes.push(grid.get(x, y, z));
            }
        }
    }
    bytes
}

#[test]
fn noise_heights_deterministic() {
    let pos = ChunkPos { x: 3, y: 0, z: -2 };
    assert_eq!(sample_heights(7, pos), sample_heights(7, pos));
}

#[test]
fn noise_heights_depend_on_seed() {
    let pos = ChunkPos { x: 0, y: 0, z: 0 };
    assert_ne!(sample_heights(0, pos), sample_heights(1, pos));
}

#[test]
fn create_deterministic() {
    let pos = ChunkPos { x: 1, y: 0, z: -4 };
    let heights = sample_heights(42, pos);
    let a = ChunkBlockData::create(&heights, pos);
    let b = ChunkBlockData::create(&heights, pos);
    assert_eq!(grid_bytes(&a), grid_bytes(&b));
}

#[test]
fn create_follows_height_rule() {
    // With every column's surface at height 3 and the chunk at y = 0, a cell
    // is solid exactly when its y lies at or below 3.
    let grid = ChunkBlockData::create(&flat_heights(3), ChunkPos { x: 0, y: 0, z: 0 });
    for x in 0..PADDED_SIZE {
        for y in 0..PADDED_SIZE {
            for z in 0..PADDED_SIZE {
                let expected = if y <= 3 { 1u8 } else { 0u8 };
                assert_eq!(grid.get(x, y, z), expected);
                assert_eq!(grid.empty(x, y, z), y > 3);
            }
        }
    }
}

#[test]
fn create_offsets_by_chunk_y() {
    // The same flat surface seen from the chunk one level up: only cells
    // with y + 16 <= 17, i.e. y <= 1, are solid.
    let grid = ChunkBlockData::create(&flat_heights(17), ChunkPos { x: 0, y: 1, z: 0 });
    for x in 0..PADDED_SIZE {
        for y in 0..PADDED_SIZE {
            for z in 0..PADDED_SIZE {
                assert_eq!(grid.get(x, y, z), if y <= 1 { 1 } else { 0 });
            }
        }
    }
}

#[test]
fn create_extreme_chunks_degenerate() {
    // Far above any surface the chunk is all empty; far below, all solid.
    let pos_high = ChunkPos { x: 0, y: 1000, z: 0 };
    let high = ChunkBlockData::create(&sample_heights(42, pos_high), pos_high);
    let pos_low = ChunkPos { x: 0, y: -1000, z: 0 };
    let low = ChunkBlockData::create(&sample_heights(42, pos_low), pos_low);
    for x in 0..PADDED_SIZE {
        for y in 0..PADDED_SIZE {
            for z in 0..PADDED_SIZE {
                assert!(high.empty(x, y, z));
                assert!(!low.empty(x, y, z));
            }
        }
    }
}

#[test]
fn create_columns_solid_below_surface() {
    // In every column, a solid cell never sits above an empty one.
    let pos = ChunkPos { x: -2, y: 0, z: 5 };
    let grid = ChunkBlockData::create(&sample_heights(9, pos), pos);
    for x in 0..PADDED_SIZE {
        for z in 0..PADDED_SIZE {
            for y in 1..PADDED_SIZE {
                if grid.get(x, y, z) != 0 {
                    assert_ne!(grid.get(x, y - 1, z), 0);
                }
            }
        }
    }
}

#[test]
fn from_cells_checks_length() {
    assert!(ChunkBlockData::from_cells(vec![0u8; 10], ChunkPos { x: 0, y: 0, z: 0 }).is_none());
    assert!(ChunkBlockData::from_cells(vec![0u8; PADDED_VOLUME + 1], ChunkPos { x: 0, y: 0, z: 0 })
        .is_none());
    let grid = ChunkBlockData::from_cells(vec![5u8; PADDED_VOLUME], ChunkPos { x: 0, y: 0, z: 0 });
    assert!(grid.is_some());
    assert_eq!(grid.unwrap().get(17, 17, 17), 5);
}

#[test]
fn world_offset_scales_by_chunk_size() {
    let offset = ChunkPos { x: 3, y: -2, z: 0 }.world_offset();
    assert_eq!(offset, (48, -32, 0));
    let extreme = ChunkPos { x: i32::MIN, y: i32::MAX, z: 1 }.world_offset();
    assert_eq!(extreme, (i32::MIN as i64 * 16, i32::MAX as i64 * 16, 16));
}
