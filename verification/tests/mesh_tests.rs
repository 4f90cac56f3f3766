use noise::NoiseFn;
use voxel_chunk::generation::ChunkBlockData;
use voxel_chunk::generation::ChunkPos;
use voxel_chunk::mesh::ChunkMeshData;
use voxel_chunk::pack::unpack_direction;
use voxel_chunk::pack::unpack_height;
use voxel_chunk::pack::unpack_width;
use voxel_chunk::pack::unpack_x;
use voxel_chunk::pack::unpack_y;
use voxel_chunk::pack::unpack_z;
use voxel_chunk::CHUNK_SIZE;
use voxel_chunk::PADDED_SIZE;
use voxel_chunk::PADDED_VOLUME;

fn origin() -> ChunkPos {
    ChunkPos { x: 0, y: 0, z: 0 }
}

/// A grid whose listed voxels are solid and all other cells empty.
fn grid_with(voxels: &[(usize, usize, usize)]) -> ChunkBlockData {
    let mut cells = vec![0u8; PADDED_VOLUME];
    for &(x, y, z) in voxels {
        cells[x * PADDED_SIZE * PADDED_SIZE + y * PADDED_SIZE + z] = 1;
    }
    ChunkBlockData::from_cells(cells, origin()).unwrap()
}

/// The whole-buffer shape checks that hold of every extracted mesh.
fn assert_well_formed(mesh: &ChunkMeshData) {
    assert_eq!(mesh.vertex_data.len() % 4, 0);
    assert_eq!(mesh.indices.len(), mesh.vertex_data.len() / 4 * 6);
    for &index in &mesh.indices {
        assert!((index as usize) < mesh.vertex_data.len());
    }
    for &word in &mesh.vertex_data {
        assert_eq!(unpack_width(word), 1);
        assert_eq!(unpack_height(word), 1);
        assert!(unpack_direction(word) < 6);
    }
}

/// The unpacked lattice corner of one vertex word.
fn corner(word: u32) -> (i64, i64, i64) {
    (unpack_x(word) as i64, unpack_y(word) as i64, unpack_z(word) as i64)
}

/// The voxel that owns quad `k` of the mesh, recovered from the quad's first
/// corner (the base) and its direction.
fn quad_owner(mesh: &ChunkMeshData, k: usize) -> (usize, usize, usize, u32) {
    let word = mesh.vertex_data[4 * k];
    let dir = unpack_direction(word);
    let (bx, by, bz) = corner(word);
    match dir {
        0 => ((bx - 1) as usize, by as usize, bz as usize, dir),
        2 => (bx as usize, (by - 1) as usize, bz as usize, dir),
        4 => (bx as usize, by as usize, (bz - 1) as usize, dir),
        _ => (bx as usize, by as usize, bz as usize, dir),
    }
}

#[test]
fn empty_grid_empty_mesh() {
    let mesh = grid_with(&[]).mesh();
    assert_eq!(mesh.vertex_data.len(), 0);
    assert_eq!(mesh.indices.len(), 0);
}

#[test]
fn enclosed_grid_emits_nothing() {
    // All cells solid, halo included: the chunk is fully enclosed and
    // invisible.
    let grid = ChunkBlockData::from_cells(vec![1u8; PADDED_VOLUME], origin()).unwrap();
    let mesh = grid.mesh();
    assert_eq!(mesh.vertex_data.len(), 0);
    assert_eq!(mesh.indices.len(), 0);
}

#[test]
fn full_shell_emits_six_faces_per_surface_cell() {
    // Solid exactly on the interior cube, empty halo: every surface cell of
    // the cube is exposed, 6 * 16 * 16 faces in all.
    let mut voxels = Vec::new();
    for x in 1..=CHUNK_SIZE {
        for y in 1..=CHUNK_SIZE {
            for z in 1..=CHUNK_SIZE {
                voxels.push((x, y, z));
            }
        }
    }
    let mesh = grid_with(&voxels).mesh();
    assert_eq!(mesh.vertex_data.len(), 1536 * 4);
    assert_eq!(mesh.indices.len(), 1536 * 6);
    assert_well_formed(&mesh);
}

#[test]
fn single_voxel_emits_six_quads_in_direction_order() {
    let mesh = grid_with(&[(8, 8, 8)]).mesh();
    assert_eq!(mesh.vertex_data.len(), 24);
    assert_eq!(mesh.indices.len(), 36);
    assert_well_formed(&mesh);
    for k in 0..6 {
        let (x, y, z, dir) = quad_owner(&mesh, k);
        assert_eq!((x, y, z), (8, 8, 8));
        assert_eq!(dir as usize, k);
        // each quad's six indices refer to its own four vertices
        for j in 0..6 {
            let index = mesh.indices[6 * k + j] as usize;
            assert!(4 * k <= index && index < 4 * k + 4);
        }
    }
    // the two triangle index patterns, relative to the quad's first vertex
    for k in [0usize, 2, 5] {
        let rel: Vec<u32> = (0..6).map(|j| mesh.indices[6 * k + j] - 4 * k as u32).collect();
        assert_eq!(rel, vec![0, 3, 2, 2, 1, 0]);
    }
    for k in [1usize, 3, 4] {
        let rel: Vec<u32> = (0..6).map(|j| mesh.indices[6 * k + j] - 4 * k as u32).collect();
        assert_eq!(rel, vec![0, 2, 3, 1, 2, 0]);
    }
}

#[test]
fn boundary_voxel_faces_emitted_against_halo() {
    // A voxel at the chunk's corner still emits all six faces: the empty
    // halo stands in for the missing neighbours.
    let mesh = grid_with(&[(1, 1, 1)]).mesh();
    assert_eq!(mesh.vertex_data.len(), 24);
    assert_eq!(mesh.indices.len(), 36);
    assert_well_formed(&mesh);
}

#[test]
fn adjacent_solid_voxels_share_no_face() {
    // Two solid neighbours: 10 exposed faces, and none on the shared
    // boundary from either side.
    let mesh = grid_with(&[(8, 8, 8), (9, 8, 8)]).mesh();
    assert_eq!(mesh.vertex_data.len(), 10 * 4);
    assert_eq!(mesh.indices.len(), 10 * 6);
    assert_well_formed(&mesh);
    for k in 0..10 {
        let (x, y, z, dir) = quad_owner(&mesh, k);
        assert!(!((x, y, z) == (8, 8, 8) && dir == 0));
        assert!(!((x, y, z) == (9, 8, 8) && dir == 1));
    }
}

#[test]
fn solid_empty_boundary_emits_exactly_one_face() {
    // Exactly one of two adjacent voxels is solid: exactly one face on the
    // shared boundary, owned by the solid voxel, facing the empty one.
    let mesh = grid_with(&[(8, 8, 8)]).mesh();
    let mut boundary_faces = 0;
    for k in 0..mesh.vertex_data.len() / 4 {
        let (x, y, z, dir) = quad_owner(&mesh, k);
        if (x, y, z) == (8, 8, 8) && dir == 0 {
            boundary_faces += 1;
        }
        if (x, y, z) == (9, 8, 8) && dir == 1 {
            boundary_faces += 1;
        }
    }
    assert_eq!(boundary_faces, 1);
}

#[test]
fn triangle_normals_point_outward() {
    // For every emitted quad, both triangles' edge cross products equal the
    // face direction's outward unit vector.
    let outward = [
        (1i64, 0i64, 0i64),
        (-1, 0, 0),
        (0, 1, 0),
        (0, -1, 0),
        (0, 0, 1),
        (0, 0, -1),
    ];
    let mesh = grid_with(&[(8, 8, 8), (8, 9, 8), (1, 16, 1)]).mesh();
    assert_well_formed(&mesh);
    for k in 0..mesh.vertex_data.len() / 4 {
        let dir = unpack_direction(mesh.vertex_data[4 * k]) as usize;
        for t in 0..2 {
            let a = corner(mesh.vertex_data[mesh.indices[6 * k + 3 * t] as usize]);
            let b = corner(mesh.vertex_data[mesh.indices[6 * k + 3 * t + 1] as usize]);
            let c = corner(mesh.vertex_data[mesh.indices[6 * k + 3 * t + 2] as usize]);
            let e1 = (b.0 - a.0, b.1 - a.1, b.2 - a.2);
            let e2 = (c.0 - a.0, c.1 - a.1, c.2 - a.2);
            let normal = (
                e1.1 * e2.2 - e1.2 * e2.1,
                e1.2 * e2.0 - e1.0 * e2.2,
                e1.0 * e2.1 - e1.1 * e2.0,
            );
            assert_eq!(normal, outward[dir]);
        }
    }
}

#[test]
fn generated_terrain_mesh_well_formed() {
    // The full pipeline on noise-sampled terrain heights.
    let pos = origin();
    let perlin = noise::Perlin::new(42);
    let mut heights = Vec::with_capacity(PADDED_SIZE * PADDED_SIZE);
    for x in 0..PADDED_SIZE {
        for z in 0..PADDED_SIZE {
            let height = perlin.get([
                (pos.x as f64 * CHUNK_SIZE as f64 + x as f64) / 50.0,
                (pos.z as f64 * CHUNK_SIZE as f64 + z as f64) / 50.0,
            ]) * 20.0;
            heights.push(height.round() as i32);
        }
    }
    let grid = ChunkBlockData::create(&heights, pos);
    let grid_again = ChunkBlockData::create(&heights, pos);
    let mesh = grid.mesh();
    let mesh_again = grid_again.mesh();
    assert_well_formed(&mesh);
    assert_eq!(mesh.vertex_data, mesh_again.vertex_data);
    assert_eq!(mesh.indices, mesh_again.indices);
}
