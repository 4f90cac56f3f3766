//! Face-culling mesh extraction over a padded occupancy grid.
//!
//! Every solid interior voxel is probed in all six axis directions; a quad is
//! emitted for each face that borders an empty (or out-of-range) cell. A quad
//! is four packed vertex words plus six indices forming two triangles whose
//! winding makes the surface normal point outward.
//!
//! The specification builds the exact sequence of emitted faces —
//! [`mesh_faces`] — in the emission order of the extractor (`x`, then `y`,
//! then `z`, then direction), and from it the exact vertex and index buffers,
//! [`verts_of`] and [`indices_of`]. The extractor's contract says its output
//! equals those sequences.

use vstd::prelude::*;

use crate::generation::ChunkBlockData;
use crate::pack::pack;
use crate::pack::pack_spec;
use crate::{CHUNK_SIZE, PADDED_SIZE};

verus! {

/// One emitted face: the owning voxel's coordinates and the face direction.
pub type Face = (int, int, int, int);

/// The extracted mesh of one chunk: triangle-list indices and one packed
/// word per vertex, in emission order.
pub struct ChunkMeshData {
    pub indices: Vec<u32>,
    pub vertex_data: Vec<u32>,
}

/// The coordinates name an interior voxel (the halo is never a face owner).
pub open spec fn in_interior(x: int, y: int, z: int) -> bool {
    &&& 1 <= x <= CHUNK_SIZE
    &&& 1 <= y <= CHUNK_SIZE
    &&& 1 <= z <= CHUNK_SIZE
}

/// The x coordinate of the neighbour probed for direction `d`.
pub open spec fn neighbor_x(x: int, d: int) -> int {
    if d == 0 {
        x + 1
    } else if d == 1 {
        x - 1
    } else {
        x
    }
}

/// The y coordinate of the neighbour probed for direction `d`.
pub open spec fn neighbor_y(y: int, d: int) -> int {
    if d == 2 {
        y + 1
    } else if d == 3 {
        y - 1
    } else {
        y
    }
}

/// The z coordinate of the neighbour probed for direction `d`.
pub open spec fn neighbor_z(z: int, d: int) -> int {
    if d == 4 {
        z + 1
    } else if d == 5 {
        z - 1
    } else {
        z
    }
}

/// A face of voxel `(x, y, z)` in direction `d` is emitted exactly when the
/// voxel is solid and its neighbour in that direction is out of the grid's
/// range or empty.
pub open spec fn face_visible(grid: ChunkBlockData, x: int, y: int, z: int, d: int) -> bool {
    let nx = neighbor_x(x, d);
    let ny = neighbor_y(y, d);
    let nz = neighbor_z(z, d);
    grid.solid(x, y, z) && (nx >= PADDED_SIZE || ny >= PADDED_SIZE || nz >= PADDED_SIZE
        || !grid.solid(nx, ny, nz))
}

/// The x coordinate of the quad's base corner for direction `d`.
pub open spec fn base_x(x: int, d: int) -> int {
    if d == 0 {
        x + 1
    } else {
        x
    }
}

/// The y coordinate of the quad's base corner for direction `d`.
pub open spec fn base_y(y: int, d: int) -> int {
    if d == 2 {
        y + 1
    } else {
        y
    }
}

/// The z coordinate of the quad's base corner for direction `d`.
pub open spec fn base_z(z: int, d: int) -> int {
    if d == 4 {
        z + 1
    } else {
        z
    }
}

/// The x component of the quad's first tangent vector for direction `d`.
pub open spec fn dir1_x(d: int) -> int {
    if d == 0 || d == 1 {
        0
    } else {
        1
    }
}

/// The z component of the quad's first tangent vector for direction `d`
/// (its y component is always 0).
pub open spec fn dir1_z(d: int) -> int {
    if d == 0 || d == 1 {
        1
    } else {
        0
    }
}

/// The y component of the quad's second tangent vector for direction `d`
/// (its x component is always 0).
pub open spec fn dir2_y(d: int) -> int {
    if d == 2 || d == 3 {
        0
    } else {
        1
    }
}

/// The z component of the quad's second tangent vector for direction `d`.
pub open spec fn dir2_z(d: int) -> int {
    if d == 2 || d == 3 {
        1
    } else {
        0
    }
}

/// The x coordinate of quad corner `j` (corners are the base, base + dir1,
/// base + dir1 + dir2, and base + dir2, in that push order).
pub open spec fn corner_x(x: int, d: int, j: int) -> int {
    base_x(x, d) + (if j == 1 || j == 2 {
        dir1_x(d)
    } else {
        0
    })
}

/// The y coordinate of quad corner `j`.
pub open spec fn corner_y(y: int, d: int, j: int) -> int {
    base_y(y, d) + (if j == 2 || j == 3 {
        dir2_y(d)
    } else {
        0
    })
}

/// The z coordinate of quad corner `j`.
pub open spec fn corner_z(z: int, d: int, j: int) -> int {
    base_z(z, d) + (if j == 1 || j == 2 {
        dir1_z(d)
    } else {
        0
    }) + (if j == 2 || j == 3 {
        dir2_z(d)
    } else {
        0
    })
}

/// Which of the quad's four corners the `j`-th of its six triangle-list
/// indices refers to. The winding differs by direction because the tangent
/// basis is not consistently right-handed: this table keeps every triangle's
/// normal pointing outward.
pub open spec fn tri_corner(d: int, j: int) -> int {
    if d == 0 || d == 2 || d == 5 {
        if j == 0 {
            0
        } else if j == 1 {
            3
        } else if j == 2 {
            2
        } else if j == 3 {
            2
        } else if j == 4 {
            1
        } else {
            0
        }
    } else {
        if j == 0 {
            0
        } else if j == 1 {
            2
        } else if j == 2 {
            3
        } else if j == 3 {
            1
        } else if j == 4 {
            2
        } else {
            0
        }
    }
}

/// The packed word of corner `j` of the face `(x, y, z, d)`: its lattice
/// position, run lengths 1 by 1, and the face direction.
pub open spec fn quad_word(x: int, y: int, z: int, d: int, j: int) -> u32 {
    pack_spec(
        corner_x(x, d, j) as u32,
        corner_y(y, d, j) as u32,
        corner_z(z, d, j) as u32,
        1u32,
        1u32,
        d as u32,
    )
}

/// The four packed vertex words of one face, in corner push order.
pub open spec fn quad_verts(f: Face) -> Seq<u32> {
    seq![
        quad_word(f.0, f.1, f.2, f.3, 0),
        quad_word(f.0, f.1, f.2, f.3, 1),
        quad_word(f.0, f.1, f.2, f.3, 2),
        quad_word(f.0, f.1, f.2, f.3, 3),
    ]
}

/// The six triangle-list indices of one face whose first vertex sits at
/// position `base` of the vertex buffer.
pub open spec fn quad_indices(f: Face, base: int) -> Seq<u32> {
    seq![
        (base + tri_corner(f.3, 0)) as u32,
        (base + tri_corner(f.3, 1)) as u32,
        (base + tri_corner(f.3, 2)) as u32,
        (base + tri_corner(f.3, 3)) as u32,
        (base + tri_corner(f.3, 4)) as u32,
        (base + tri_corner(f.3, 5)) as u32,
    ]
}

/// The faces of voxel `(x, y, z)` emitted for directions `d..6`, in order.
pub open spec fn faces_from_dir(grid: ChunkBlockData, x: int, y: int, z: int, d: int) -> Seq<
    Face,
>
    decreases 6 - d,
{
    if d < 0 || d >= 6 {
        Seq::empty()
    } else {
        let rest = faces_from_dir(grid, x, y, z, d + 1);
        if face_visible(grid, x, y, z, d) {
            seq![(x, y, z, d)] + rest
        } else {
            rest
        }
    }
}

/// The faces emitted for voxels `(x, y, z..=CHUNK_SIZE)`, in order.
pub open spec fn faces_from_z(grid: ChunkBlockData, x: int, y: int, z: int) -> Seq<Face>
    decreases CHUNK_SIZE + 1 - z,
{
    if z < 1 || z > CHUNK_SIZE {
        Seq::empty()
    } else {
        faces_from_dir(grid, x, y, z, 0) + faces_from_z(grid, x, y, z + 1)
    }
}

/// The faces emitted for voxels `(x, y..=CHUNK_SIZE, *)`, in order.
pub open spec fn faces_from_y(grid: ChunkBlockData, x: int, y: int) -> Seq<Face>
    decreases CHUNK_SIZE + 1 - y,
{
    if y < 1 || y > CHUNK_SIZE {
        Seq::empty()
    } else {
        faces_from_z(grid, x, y, 1) + faces_from_y(grid, x, y + 1)
    }
}

/// The faces emitted for voxels `(x..=CHUNK_SIZE, *, *)`, in order.
pub open spec fn faces_from_x(grid: ChunkBlockData, x: int) -> Seq<Face>
    decreases CHUNK_SIZE + 1 - x,
{
    if x < 1 || x > CHUNK_SIZE {
        Seq::empty()
    } else {
        faces_from_y(grid, x, 1) + faces_from_x(grid, x + 1)
    }
}

/// The exact sequence of faces the extractor emits for a grid, in emission
/// order.
pub open spec fn mesh_faces(grid: ChunkBlockData) -> Seq<Face> {
    faces_from_x(grid, 1)
}

/// The exact vertex buffer for a face sequence: four packed words per face.
pub open spec fn verts_of(faces: Seq<Face>) -> Seq<u32>
    decreases faces.len(),
{
    if faces.len() == 0 {
        Seq::empty()
    } else {
        verts_of(faces.drop_last()) + quad_verts(faces.last())
    }
}

/// The exact index buffer for a face sequence: six indices per face, each
/// face's quad starting at four times its position.
pub open spec fn indices_of(faces: Seq<Face>) -> Seq<u32>
    decreases faces.len(),
{
    if faces.len() == 0 {
        Seq::empty()
    } else {
        indices_of(faces.drop_last()) + quad_indices(faces.last(), 4 * (faces.len() - 1))
    }
}

/// At most six faces are emitted per voxel.
pub proof fn lemma_faces_from_dir_len(grid: ChunkBlockData, x: int, y: int, z: int, d: int)
    requires
        0 <= d <= 6,
    ensures
        faces_from_dir(grid, x, y, z, d).len() <= 6 - d,
    decreases 6 - d,
{
    if d < 6 {
        lemma_faces_from_dir_len(grid, x, y, z, d + 1);
    }
}

/// At most `6 * (CHUNK_SIZE + 1 - z)` faces are emitted per voxel row.
pub proof fn lemma_faces_from_z_len(grid: ChunkBlockData, x: int, y: int, z: int)
    requires
        1 <= z <= CHUNK_SIZE + 1,
    ensures
        faces_from_z(grid, x, y, z).len() <= 6 * (CHUNK_SIZE + 1 - z),
    decreases CHUNK_SIZE + 1 - z,
{
    if z <= CHUNK_SIZE {
        lemma_faces_from_dir_len(grid, x, y, z, 0);
        lemma_faces_from_z_len(grid, x, y, z + 1);
    }
}

/// At most `1536 * (CHUNK_SIZE + 1 - y)` faces are emitted per voxel layer.
pub proof fn lemma_faces_from_y_len(grid: ChunkBlockData, x: int, y: int)
    requires
        1 <= y <= CHUNK_SIZE + 1,
    ensures
        faces_from_y(grid, x, y).len() <= 96 * (CHUNK_SIZE + 1 - y),
    decreases CHUNK_SIZE + 1 - y,
{
    if y <= CHUNK_SIZE {
        lemma_faces_from_z_len(grid, x, y, 1);
        lemma_faces_from_y_len(grid, x, y + 1);
    }
}

/// Bounds the whole extraction: a grid emits at most `6 * CHUNK_SIZE^3`
/// faces.
pub proof fn lemma_faces_from_x_len(grid: ChunkBlockData, x: int)
    requires
        1 <= x <= CHUNK_SIZE + 1,
    ensures
        faces_from_x(grid, x).len() <= 1536 * (CHUNK_SIZE + 1 - x),
    decreases CHUNK_SIZE + 1 - x,
{
    if x <= CHUNK_SIZE {
        lemma_faces_from_y_len(grid, x, 1);
        lemma_faces_from_x_len(grid, x + 1);
    }
}

/// A grid emits at most `6 * CHUNK_SIZE^3` faces in all.
pub proof fn lemma_mesh_faces_len(grid: ChunkBlockData)
    ensures
        mesh_faces(grid).len() <= 24576,
{
    lemma_faces_from_x_len(grid, 1);
}

/// Appending one face to a face sequence appends its four words to the
/// vertex buffer.
proof fn lemma_verts_of_push(faces: Seq<Face>, f: Face)
    ensures
        verts_of(faces.push(f)) == verts_of(faces) + quad_verts(f),
{
    assert(faces.push(f).drop_last() =~= faces);
    assert(faces.push(f).last() == f);
}

/// Appending one face to a face sequence appends its six indices, based at
/// four times the old face count, to the index buffer.
proof fn lemma_indices_of_push(faces: Seq<Face>, f: Face)
    ensures
        indices_of(faces.push(f)) == indices_of(faces) + quad_indices(f, 4 * faces.len() as int),
{
    assert(faces.push(f).drop_last() =~= faces);
    assert(faces.push(f).last() == f);
}

/// An empty voxel emits no face in any direction.
pub proof fn lemma_faces_from_dir_not_solid(grid: ChunkBlockData, x: int, y: int, z: int, d: int)
    requires
        0 <= d <= 6,
        !grid.solid(x, y, z),
    ensures
        faces_from_dir(grid, x, y, z, d) == Seq::<Face>::empty(),
    decreases 6 - d,
{
    if d < 6 {
        lemma_faces_from_dir_not_solid(grid, x, y, z, d + 1);
    }
}

/// Emits one face: appends its four packed corner words to the vertex
/// buffer and its six triangle-list indices, based at the old vertex count,
/// to the index buffer.
fn emit_face(x: usize, y: usize, z: usize, dir: usize, vertex_data: &mut Vec<u32>, indices: &mut Vec<
    u32,
>)
    requires
        1 <= x <= CHUNK_SIZE,
        1 <= y <= CHUNK_SIZE,
        1 <= z <= CHUNK_SIZE,
        dir < 6,
        old(vertex_data)@.len() <= 98304,
    ensures
        final(vertex_data)@ == old(vertex_data)@ + quad_verts(
            (x as int, y as int, z as int, dir as int),
        ),
        final(indices)@ == old(indices)@ + quad_indices(
            (x as int, y as int, z as int, dir as int),
            old(vertex_data)@.len() as int,
        ),
{
    let ghost f: Face = (x as int, y as int, z as int, dir as int);

    let start_index = vertex_data.len() as u32;
    indices.push(start_index);
    if dir == 2 || dir == 5 || dir == 0 {
        indices.push(start_index + 3);
        indices.push(start_index + 2);
        indices.push(start_index + 2);
        indices.push(start_index + 1);
    } else {
        indices.push(start_index + 2);
        indices.push(start_index + 3);
        indices.push(start_index + 1);
        indices.push(start_index + 2);
    }
    indices.push(start_index);

    let bx = if dir == 0 {
        x + 1
    } else {
        x
    };
    let by = if dir == 2 {
        y + 1
    } else {
        y
    };
    let bz = if dir == 4 {
        z + 1
    } else {
        z
    };
    let d1x: usize = if dir == 0 || dir == 1 {
        0
    } else {
        1
    };
    let d1z: usize = if dir == 0 || dir == 1 {
        1
    } else {
        0
    };
    let d2y: usize = if dir == 2 || dir == 3 {
        0
    } else {
        1
    };
    let d2z: usize = if dir == 2 || dir == 3 {
        1
    } else {
        0
    };
    proof {
        assert(bx as int == base_x(x as int, dir as int));
        assert(by as int == base_y(y as int, dir as int));
        assert(bz as int == base_z(z as int, dir as int));
        assert(d1x as int == dir1_x(dir as int));
        assert(d1z as int == dir1_z(dir as int));
        assert(d2y as int == dir2_y(dir as int));
        assert(d2z as int == dir2_z(dir as int));
    }
    vertex_data.push(pack(bx as u32, by as u32, bz as u32, 1, 1, dir as u32));
    vertex_data.push(pack((bx + d1x) as u32, by as u32, (bz + d1z) as u32, 1, 1, dir as u32));
    vertex_data.push(
        pack((bx + d1x) as u32, (by + d2y) as u32, (bz + d1z + d2z) as u32, 1, 1, dir as u32),
    );
    vertex_data.push(pack(bx as u32, (by + d2y) as u32, (bz + d2z) as u32, 1, 1, dir as u32));

    proof {
        assert(vertex_data@ =~= old(vertex_data)@ + quad_verts(f));
        assert(indices@ =~= old(indices)@ + quad_indices(f, old(vertex_data)@.len() as int));
    }
}

impl ChunkBlockData {
    /// Extracts the culled-face mesh of the grid, consuming it: exactly the
    /// faces of `mesh_faces`, in emission order, as four packed vertex words
    /// and six triangle-list indices per face.
    #[verifier::loop_isolation(false)]
    pub fn mesh(self) -> (mesh_data: ChunkMeshData)
        requires
            self.wf(),
        ensures
            mesh_data.vertex_data@ == verts_of(mesh_faces(self)),
            mesh_data.indices@ == indices_of(mesh_faces(self)),
    {
        let mut vertex_data: Vec<u32> = Vec::new();
        let mut indices: Vec<u32> = Vec::new();
        let ghost mut faces: Seq<Face> = Seq::empty();

        proof {
            assert(Seq::<Face>::empty() + mesh_faces(self) =~= mesh_faces(self));
        }

        let mut x: usize = 1;
        while x < CHUNK_SIZE + 1
            invariant
                1 <= x <= CHUNK_SIZE + 1,
                mesh_faces(self) == faces + faces_from_x(self, x as int),
                vertex_data@ == verts_of(faces),
                indices@ == indices_of(faces),
                vertex_data@.len() == 4 * faces.len(),
                indices@.len() == 6 * faces.len(),
            decreases CHUNK_SIZE + 1 - x,
        {
            proof {
                assert(faces + (faces_from_y(self, x as int, 1) + faces_from_x(
                    self,
                    x as int + 1,
                )) =~= faces + faces_from_y(self, x as int, 1) + faces_from_x(self, x as int + 1));
            }
            let mut y: usize = 1;
            while y < CHUNK_SIZE + 1
                invariant
                    1 <= y <= CHUNK_SIZE + 1,
                    mesh_faces(self) == faces + faces_from_y(self, x as int, y as int)
                        + faces_from_x(self, x as int + 1),
                    vertex_data@ == verts_of(faces),
                    indices@ == indices_of(faces),
                    vertex_data@.len() == 4 * faces.len(),
                    indices@.len() == 6 * faces.len(),
                decreases CHUNK_SIZE + 1 - y,
            {
                proof {
                    assert(faces + (faces_from_z(self, x as int, y as int, 1) + faces_from_y(
                        self,
                        x as int,
                        y as int + 1,
                    )) + faces_from_x(self, x as int + 1) =~= faces + faces_from_z(
                        self,
                        x as int,
                        y as int,
                        1,
                    ) + faces_from_y(self, x as int, y as int + 1) + faces_from_x(
                        self,
                        x as int + 1,
                    ));
                }
                let mut z: usize = 1;
                while z < CHUNK_SIZE + 1
                    invariant
                        1 <= z <= CHUNK_SIZE + 1,
                        mesh_faces(self) == faces + faces_from_z(self, x as int, y as int, z as int)
                            + faces_from_y(self, x as int, y as int + 1) + faces_from_x(
                            self,
                            x as int + 1,
                        ),
                        vertex_data@ == verts_of(faces),
                        indices@ == indices_of(faces),
                        vertex_data@.len() == 4 * faces.len(),
                        indices@.len() == 6 * faces.len(),
                    decreases CHUNK_SIZE + 1 - z,
                {
                    proof {
                        assert(faces + (faces_from_dir(self, x as int, y as int, z as int, 0)
                            + faces_from_z(self, x as int, y as int, z as int + 1)) + faces_from_y(
                            self,
                            x as int,
                            y as int + 1,
                        ) + faces_from_x(self, x as int + 1) =~= faces + faces_from_dir(
                            self,
                            x as int,
                            y as int,
                            z as int,
                            0,
                        ) + faces_from_z(self, x as int, y as int, z as int + 1) + faces_from_y(
                            self,
                            x as int,
                            y as int + 1,
                        ) + faces_from_x(self, x as int + 1));
                    }
                    if !self.empty(x, y, z) {
                        let mut dir: usize = 0;
                        while dir < 6
                            invariant
                                0 <= dir <= 6,
                                mesh_faces(self) == faces + faces_from_dir(
                                    self,
                                    x as int,
                                    y as int,
                                    z as int,
                                    dir as int,
                                ) + faces_from_z(self, x as int, y as int, z as int + 1)
                                    + faces_from_y(self, x as int, y as int + 1) + faces_from_x(
                                    self,
                                    x as int + 1,
                                ),
                                vertex_data@ == verts_of(faces),
                                indices@ == indices_of(faces),
                                vertex_data@.len() == 4 * faces.len(),
                                indices@.len() == 6 * faces.len(),
                            decreases 6 - dir,
                        {
                            let nx = if dir == 0 {
                                x + 1
                            } else if dir == 1 {
                                x - 1
                            } else {
                                x
                            };
                            let ny = if dir == 2 {
                                y + 1
                            } else if dir == 3 {
                                y - 1
                            } else {
                                y
                            };
                            let nz = if dir == 4 {
                                z + 1
                            } else if dir == 5 {
                                z - 1
                            } else {
                                z
                            };
                            let exposed = nx >= PADDED_SIZE || ny >= PADDED_SIZE || nz
                                >= PADDED_SIZE || self.empty(nx, ny, nz);
                            proof {
                                assert(nx as int == neighbor_x(x as int, dir as int));
                                assert(ny as int == neighbor_y(y as int, dir as int));
                                assert(nz as int == neighbor_z(z as int, dir as int));
                                assert(exposed == face_visible(
                                    self,
                                    x as int,
                                    y as int,
                                    z as int,
                                    dir as int,
                                ));
                            }
                            if exposed {
                                proof {
                                    lemma_mesh_faces_len(self);
                                    assert(faces.len() <= mesh_faces(self).len());
                                }
                                emit_face(x, y, z, dir, &mut vertex_data, &mut indices);
                                proof {
                                    let f: Face = (x as int, y as int, z as int, dir as int);
                                    lemma_verts_of_push(faces, f);
                                    lemma_indices_of_push(faces, f);
                                    assert(faces.push(f) =~= faces + seq![f]);
                                    assert(faces_from_dir(self, f.0, f.1, f.2, dir as int) == seq![
                                        f,
                                    ] + faces_from_dir(self, f.0, f.1, f.2, dir as int + 1));
                                    assert(faces + (seq![f] + faces_from_dir(
                                        self,
                                        f.0,
                                        f.1,
                                        f.2,
                                        dir as int + 1,
                                    )) =~= (faces + seq![f]) + faces_from_dir(
                                        self,
                                        f.0,
                                        f.1,
                                        f.2,
                                        dir as int + 1,
                                    ));
                                    faces = faces.push(f);
                                }
                            } else {
                                proof {
                                    assert(faces_from_dir(
                                        self,
                                        x as int,
                                        y as int,
                                        z as int,
                                        dir as int,
                                    ) == faces_from_dir(
                                        self,
                                        x as int,
                                        y as int,
                                        z as int,
                                        dir as int + 1,
                                    ));
                                }
                            }
                            dir += 1;
                        }
                        proof {
                            assert(faces_from_dir(self, x as int, y as int, z as int, 6)
                                =~= Seq::<Face>::empty());
                            assert(faces + Seq::<Face>::empty() =~= faces);
                        }
                    } else {
                        proof {
                            lemma_faces_from_dir_not_solid(self, x as int, y as int, z as int, 0);
                            assert(faces + Seq::<Face>::empty() =~= faces);
                        }
                    }
                    z += 1;
                }
                proof {
                    assert(faces_from_z(self, x as int, y as int, CHUNK_SIZE as int + 1)
                        =~= Seq::<Face>::empty());
                    assert(faces + Seq::<Face>::empty() =~= faces);
                }
                y += 1;
            }
            proof {
                assert(faces_from_y(self, x as int, CHUNK_SIZE as int + 1)
                    =~= Seq::<Face>::empty());
                assert(faces + Seq::<Face>::empty() =~= faces);
            }
            x += 1;
        }
        proof {
            assert(faces_from_x(self, CHUNK_SIZE as int + 1) =~= Seq::<Face>::empty());
            assert(faces + Seq::<Face>::empty() =~= faces);
            assert(faces =~= mesh_faces(self));
        }

        ChunkMeshData { indices, vertex_data }
    }
}

} // verus!
