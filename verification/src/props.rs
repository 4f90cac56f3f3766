//! Proved properties of the extracted mesh: buffer well-formedness,
//! watertightness, the invisibility of fully enclosed volumes, the exact
//! face count of a full-shell volume, and outward-facing triangle winding.

use vstd::prelude::*;

use crate::generation::ChunkBlockData;
use crate::generation::in_grid_range;
use crate::mesh::Face;
use crate::mesh::corner_x;
use crate::mesh::corner_y;
use crate::mesh::corner_z;
use crate::mesh::face_visible;
use crate::mesh::faces_from_dir;
use crate::mesh::faces_from_x;
use crate::mesh::faces_from_y;
use crate::mesh::faces_from_z;
use crate::mesh::in_interior;
use crate::mesh::indices_of;
use crate::mesh::lemma_mesh_faces_len;
use crate::mesh::mesh_faces;
use crate::mesh::neighbor_x;
use crate::mesh::neighbor_y;
use crate::mesh::neighbor_z;
use crate::mesh::quad_indices;
use crate::mesh::tri_corner;
use crate::mesh::verts_of;
use crate::CHUNK_SIZE;

verus! {

/// The buffers of any face sequence that fits the extractor's bound are well
/// formed: four words per face, six indices per face, and every index in
/// range of the vertex buffer.
pub proof fn lemma_buffers_well_formed(faces: Seq<Face>)
    requires
        faces.len() <= 24576,
    ensures
        verts_of(faces).len() == 4 * faces.len(),
        indices_of(faces).len() == 6 * faces.len(),
        forall|i: int|
            0 <= i < indices_of(faces).len() ==> (indices_of(faces)[i] as int) < 4 * faces.len(),
    decreases faces.len(),
{
    if faces.len() > 0 {
        lemma_buffers_well_formed(faces.drop_last());
        let f = faces.last();
        let base = 4 * (faces.len() - 1);
        assert forall|i: int| 0 <= i < indices_of(faces).len() implies (indices_of(faces)[i] as int)
            < 4 * faces.len() by {
            if i < 6 * (faces.len() - 1) {
                assert(indices_of(faces)[i] == indices_of(faces.drop_last())[i]);
            } else {
                let j = i - 6 * (faces.len() - 1);
                assert(indices_of(faces)[i] == quad_indices(f, base)[j]);
                assert(0 <= tri_corner(f.3, j) <= 3);
                assert(quad_indices(f, base)[j] == (base + tri_corner(f.3, j)) as u32);
            }
        }
    }
}

/// Mesh well-formedness for any grid: the vertex buffer holds whole quads,
/// the index buffer holds six indices per quad, and every index refers into
/// the vertex buffer.
pub proof fn lemma_mesh_well_formed(grid: ChunkBlockData)
    ensures
        verts_of(mesh_faces(grid)).len() % 4 == 0,
        indices_of(mesh_faces(grid)).len() == verts_of(mesh_faces(grid)).len() / 4 * 6,
        forall|i: int|
            0 <= i < indices_of(mesh_faces(grid)).len() ==> (indices_of(mesh_faces(grid))[i] as int)
                < verts_of(mesh_faces(grid)).len(),
{
    lemma_mesh_faces_len(grid);
    lemma_buffers_well_formed(mesh_faces(grid));
}

/// How often a face occurs in a face sequence.
pub open spec fn face_count(faces: Seq<Face>, f: Face) -> nat
    decreases faces.len(),
{
    if faces.len() == 0 {
        0nat
    } else {
        face_count(faces.drop_last(), f) + (if faces.last() == f {
            1nat
        } else {
            0nat
        })
    }
}

/// Face counts add over concatenation.
proof fn lemma_face_count_add(a: Seq<Face>, b: Seq<Face>, f: Face)
    ensures
        face_count(a + b, f) == face_count(a, f) + face_count(b, f),
    decreases b.len(),
{
    if b.len() == 0 {
        assert(a + b =~= a);
    } else {
        lemma_face_count_add(a, b.drop_last(), f);
        assert((a + b).drop_last() =~= a + b.drop_last());
        assert((a + b).last() == b.last());
    }
}

/// A voxel's direction segment holds a face exactly once when the face is
/// that voxel's, its direction lies in the segment, and it is visible.
proof fn lemma_count_dir(grid: ChunkBlockData, x: int, y: int, z: int, d: int, f: Face)
    requires
        0 <= d <= 6,
    ensures
        face_count(faces_from_dir(grid, x, y, z, d), f) == (if f.0 == x && f.1 == y && f.2 == z
            && d <= f.3 < 6 && face_visible(grid, f.0, f.1, f.2, f.3) {
            1nat
        } else {
            0nat
        }),
    decreases 6 - d,
{
    if d < 6 {
        lemma_count_dir(grid, x, y, z, d + 1, f);
        if face_visible(grid, x, y, z, d) {
            let e: Face = (x, y, z, d);
            lemma_face_count_add(seq![e], faces_from_dir(grid, x, y, z, d + 1), f);
            assert(seq![e].len() == 1);
            assert(seq![e].last() == e);
            assert(seq![e].drop_last() =~= Seq::<Face>::empty());
            assert(face_count(Seq::<Face>::empty(), f) == 0);
            assert(face_count(seq![e], f) == (if e == f {
                1nat
            } else {
                0nat
            }));
        }
    }
}

/// A voxel row holds a face exactly once when the face's voxel lies in the
/// row and the face is visible.
proof fn lemma_count_z(grid: ChunkBlockData, x: int, y: int, z: int, f: Face)
    requires
        1 <= z <= CHUNK_SIZE + 1,
    ensures
        face_count(faces_from_z(grid, x, y, z), f) == (if f.0 == x && f.1 == y && z <= f.2
            <= CHUNK_SIZE && 0 <= f.3 < 6 && face_visible(grid, f.0, f.1, f.2, f.3) {
            1nat
        } else {
            0nat
        }),
    decreases CHUNK_SIZE + 1 - z,
{
    if z <= CHUNK_SIZE {
        lemma_count_dir(grid, x, y, z, 0, f);
        lemma_count_z(grid, x, y, z + 1, f);
        lemma_face_count_add(faces_from_dir(grid, x, y, z, 0), faces_from_z(grid, x, y, z + 1), f);
    }
}

/// A voxel layer holds a face exactly once when the face's voxel lies in the
/// layer and the face is visible.
proof fn lemma_count_y(grid: ChunkBlockData, x: int, y: int, f: Face)
    requires
        1 <= y <= CHUNK_SIZE + 1,
    ensures
        face_count(faces_from_y(grid, x, y), f) == (if f.0 == x && y <= f.1 <= CHUNK_SIZE && 1
            <= f.2 <= CHUNK_SIZE && 0 <= f.3 < 6 && face_visible(grid, f.0, f.1, f.2, f.3) {
            1nat
        } else {
            0nat
        }),
    decreases CHUNK_SIZE + 1 - y,
{
    if y <= CHUNK_SIZE {
        lemma_count_z(grid, x, y, 1, f);
        lemma_count_y(grid, x, y + 1, f);
        lemma_face_count_add(faces_from_z(grid, x, y, 1), faces_from_y(grid, x, y + 1), f);
    }
}

/// The tail of the extraction holds a face exactly once when the face's
/// voxel lies in it and the face is visible.
proof fn lemma_count_x(grid: ChunkBlockData, x: int, f: Face)
    requires
        1 <= x <= CHUNK_SIZE + 1,
    ensures
        face_count(faces_from_x(grid, x), f) == (if x <= f.0 <= CHUNK_SIZE && 1 <= f.1
            <= CHUNK_SIZE && 1 <= f.2 <= CHUNK_SIZE && 0 <= f.3 < 6 && face_visible(
            grid,
            f.0,
            f.1,
            f.2,
            f.3,
        ) {
            1nat
        } else {
            0nat
        }),
    decreases CHUNK_SIZE + 1 - x,
{
    if x <= CHUNK_SIZE {
        lemma_count_y(grid, x, 1, f);
        lemma_count_x(grid, x + 1, f);
        lemma_face_count_add(faces_from_y(grid, x, 1), faces_from_x(grid, x + 1), f);
    }
}

/// The mesh holds each visible interior face exactly once and any other
/// face not at all.
pub proof fn lemma_mesh_faces_count(grid: ChunkBlockData, f: Face)
    ensures
        face_count(mesh_faces(grid), f) == (if in_interior(f.0, f.1, f.2) && 0 <= f.3 < 6
            && face_visible(grid, f.0, f.1, f.2, f.3) {
            1nat
        } else {
            0nat
        }),
{
    lemma_count_x(grid, 1, f);
}

/// The direction probing back from the neighbour in direction `d`.
pub open spec fn opposite(d: int) -> int {
    if d == 0 {
        1
    } else if d == 1 {
        0
    } else if d == 2 {
        3
    } else if d == 3 {
        2
    } else if d == 4 {
        5
    } else {
        4
    }
}

/// Watertightness: for two adjacent interior voxels of which exactly one is
/// solid, exactly one face is emitted on their shared boundary — the solid
/// voxel's face toward the empty one — never zero, never two.
pub proof fn lemma_watertight(grid: ChunkBlockData, x: int, y: int, z: int, d: int)
    requires
        0 <= d < 6,
        in_interior(x, y, z),
        in_interior(neighbor_x(x, d), neighbor_y(y, d), neighbor_z(z, d)),
        grid.solid(x, y, z) != grid.solid(
            neighbor_x(x, d),
            neighbor_y(y, d),
            neighbor_z(z, d),
        ),
    ensures
        face_count(mesh_faces(grid), (x, y, z, d)) + face_count(
            mesh_faces(grid),
            (neighbor_x(x, d), neighbor_y(y, d), neighbor_z(z, d), opposite(d)),
        ) == 1,
{
    let nx = neighbor_x(x, d);
    let ny = neighbor_y(y, d);
    let nz = neighbor_z(z, d);
    lemma_mesh_faces_count(grid, (x, y, z, d));
    lemma_mesh_faces_count(grid, (nx, ny, nz, opposite(d)));
    assert(neighbor_x(nx, opposite(d)) == x);
    assert(neighbor_y(ny, opposite(d)) == y);
    assert(neighbor_z(nz, opposite(d)) == z);
}

/// An interior voxel of a grid whose cells are all solid emits no face in
/// any direction: its neighbours are all in range and solid.
proof fn lemma_enclosed_dir(grid: ChunkBlockData, x: int, y: int, z: int, d: int)
    requires
        forall|a: int, b: int, c: int| in_grid_range(a, b, c) ==> grid.solid(a, b, c),
        in_interior(x, y, z),
        0 <= d <= 6,
    ensures
        faces_from_dir(grid, x, y, z, d) == Seq::<Face>::empty(),
    decreases 6 - d,
{
    if d < 6 {
        lemma_enclosed_dir(grid, x, y, z, d + 1);
        assert(in_grid_range(neighbor_x(x, d), neighbor_y(y, d), neighbor_z(z, d)));
        assert(grid.solid(neighbor_x(x, d), neighbor_y(y, d), neighbor_z(z, d)));
        assert(!face_visible(grid, x, y, z, d));
    }
}

/// As `lemma_enclosed_dir`, for a voxel row.
proof fn lemma_enclosed_z(grid: ChunkBlockData, x: int, y: int, z: int)
    requires
        forall|a: int, b: int, c: int| in_grid_range(a, b, c) ==> grid.solid(a, b, c),
        1 <= x <= CHUNK_SIZE,
        1 <= y <= CHUNK_SIZE,
        1 <= z <= CHUNK_SIZE + 1,
    ensures
        faces_from_z(grid, x, y, z) == Seq::<Face>::empty(),
    decreases CHUNK_SIZE + 1 - z,
{
    if z <= CHUNK_SIZE {
        lemma_enclosed_dir(grid, x, y, z, 0);
        lemma_enclosed_z(grid, x, y, z + 1);
        assert(Seq::<Face>::empty() + Seq::<Face>::empty() =~= Seq::<Face>::empty());
    }
}

/// As `lemma_enclosed_dir`, for a voxel layer.
proof fn lemma_enclosed_y(grid: ChunkBlockData, x: int, y: int)
    requires
        forall|a: int, b: int, c: int| in_grid_range(a, b, c) ==> grid.solid(a, b, c),
        1 <= x <= CHUNK_SIZE,
        1 <= y <= CHUNK_SIZE + 1,
    ensures
        faces_from_y(grid, x, y) == Seq::<Face>::empty(),
    decreases CHUNK_SIZE + 1 - y,
{
    if y <= CHUNK_SIZE {
        lemma_enclosed_z(grid, x, y, 1);
        lemma_enclosed_y(grid, x, y + 1);
        assert(Seq::<Face>::empty() + Seq::<Face>::empty() =~= Seq::<Face>::empty());
    }
}

/// As `lemma_enclosed_dir`, for the tail of the extraction.
proof fn lemma_enclosed_x(grid: ChunkBlockData, x: int)
    requires
        forall|a: int, b: int, c: int| in_grid_range(a, b, c) ==> grid.solid(a, b, c),
        1 <= x <= CHUNK_SIZE + 1,
    ensures
        faces_from_x(grid, x) == Seq::<Face>::empty(),
    decreases CHUNK_SIZE + 1 - x,
{
    if x <= CHUNK_SIZE {
        lemma_enclosed_y(grid, x, 1);
        lemma_enclosed_x(grid, x + 1);
        assert(Seq::<Face>::empty() + Seq::<Face>::empty() =~= Seq::<Face>::empty());
    }
}

/// No interior faces: a grid whose cells — halo included — are all solid
/// emits nothing at all; a fully enclosed chunk is invisible.
pub proof fn lemma_enclosed_mesh_empty(grid: ChunkBlockData)
    requires
        forall|a: int, b: int, c: int| in_grid_range(a, b, c) ==> grid.solid(a, b, c),
    ensures
        mesh_faces(grid) == Seq::<Face>::empty(),
        verts_of(mesh_faces(grid)) == Seq::<u32>::empty(),
        indices_of(mesh_faces(grid)) == Seq::<u32>::empty(),
{
    lemma_enclosed_x(grid, 1);
}

/// The grid is solid exactly on the chunk's interior voxels: the whole halo
/// is empty, the whole interior cube solid.
pub open spec fn shell_grid(grid: ChunkBlockData) -> bool {
    forall|a: int, b: int, c: int|
        in_grid_range(a, b, c) ==> (grid.solid(a, b, c) <==> in_interior(a, b, c))
}

/// In a shell grid, a voxel emits one face for each axis on which it sits at
/// the interior cube's boundary.
proof fn lemma_shell_voxel_len(grid: ChunkBlockData, x: int, y: int, z: int)
    requires
        shell_grid(grid),
        in_interior(x, y, z),
    ensures
        faces_from_dir(grid, x, y, z, 0).len() == (if x == 1 {
            1int
        } else {
            0int
        }) + (if x == CHUNK_SIZE {
            1int
        } else {
            0int
        }) + (if y == 1 {
            1int
        } else {
            0int
        }) + (if y == CHUNK_SIZE {
            1int
        } else {
            0int
        }) + (if z == 1 {
            1int
        } else {
            0int
        }) + (if z == CHUNK_SIZE {
            1int
        } else {
            0int
        }),
{
    assert(in_grid_range(x + 1, y, z) && in_grid_range(x - 1, y, z) && in_grid_range(x, y + 1, z)
        && in_grid_range(x, y - 1, z) && in_grid_range(x, y, z + 1) && in_grid_range(x, y, z - 1)
        && in_grid_range(x, y, z));
    assert(face_visible(grid, x, y, z, 0) <==> x == CHUNK_SIZE);
    assert(face_visible(grid, x, y, z, 1) <==> x == 1);
    assert(face_visible(grid, x, y, z, 2) <==> y == CHUNK_SIZE);
    assert(face_visible(grid, x, y, z, 3) <==> y == 1);
    assert(face_visible(grid, x, y, z, 4) <==> z == CHUNK_SIZE);
    assert(face_visible(grid, x, y, z, 5) <==> z == 1);
    assert(faces_from_dir(grid, x, y, z, 6) =~= Seq::<Face>::empty());
    assert(faces_from_dir(grid, x, y, z, 5).len() == faces_from_dir(grid, x, y, z, 6).len() + (
    if face_visible(grid, x, y, z, 5) {
        1int
    } else {
        0int
    }));
    assert(faces_from_dir(grid, x, y, z, 4).len() == faces_from_dir(grid, x, y, z, 5).len() + (
    if face_visible(grid, x, y, z, 4) {
        1int
    } else {
        0int
    }));
    assert(faces_from_dir(grid, x, y, z, 3).len() == faces_from_dir(grid, x, y, z, 4).len() + (
    if face_visible(grid, x, y, z, 3) {
        1int
    } else {
        0int
    }));
    assert(faces_from_dir(grid, x, y, z, 2).len() == faces_from_dir(grid, x, y, z, 3).len() + (
    if face_visible(grid, x, y, z, 2) {
        1int
    } else {
        0int
    }));
    assert(faces_from_dir(grid, x, y, z, 1).len() == faces_from_dir(grid, x, y, z, 2).len() + (
    if face_visible(grid, x, y, z, 1) {
        1int
    } else {
        0int
    }));
    assert(faces_from_dir(grid, x, y, z, 0).len() == faces_from_dir(grid, x, y, z, 1).len() + (
    if face_visible(grid, x, y, z, 0) {
        1int
    } else {
        0int
    }));
}

/// Face count of a shell grid's voxel row `z..`.
proof fn lemma_shell_z_len(grid: ChunkBlockData, x: int, y: int, z: int)
    requires
        shell_grid(grid),
        1 <= x <= CHUNK_SIZE,
        1 <= y <= CHUNK_SIZE,
        1 <= z <= CHUNK_SIZE + 1,
    ensures
        faces_from_z(grid, x, y, z).len() == (if x == 1 || x == CHUNK_SIZE {
            17 - z
        } else {
            0int
        }) + (if y == 1 || y == CHUNK_SIZE {
            17 - z
        } else {
            0int
        }) + (if z == 1 {
            2int
        } else if z <= CHUNK_SIZE {
            1int
        } else {
            0int
        }),
    decreases CHUNK_SIZE + 1 - z,
{
    if z <= CHUNK_SIZE {
        lemma_shell_voxel_len(grid, x, y, z);
        lemma_shell_z_len(grid, x, y, z + 1);
    }
}

/// Face count of a shell grid's voxel layer `y..`.
proof fn lemma_shell_y_len(grid: ChunkBlockData, x: int, y: int)
    requires
        shell_grid(grid),
        1 <= x <= CHUNK_SIZE,
        1 <= y <= CHUNK_SIZE + 1,
    ensures
        faces_from_y(grid, x, y).len() == (if x == 1 || x == CHUNK_SIZE {
            16 * (17 - y)
        } else {
            0int
        }) + (if y == 1 {
            32int
        } else if y <= CHUNK_SIZE {
            16int
        } else {
            0int
        }) + 2 * (17 - y),
    decreases CHUNK_SIZE + 1 - y,
{
    if y <= CHUNK_SIZE {
        lemma_shell_z_len(grid, x, y, 1);
        lemma_shell_y_len(grid, x, y + 1);
    }
}

/// Face count of a shell grid's extraction tail `x..`.
proof fn lemma_shell_x_len(grid: ChunkBlockData, x: int)
    requires
        shell_grid(grid),
        1 <= x <= CHUNK_SIZE + 1,
    ensures
        faces_from_x(grid, x).len() == (if x == 1 {
            512int
        } else if x <= CHUNK_SIZE {
            256int
        } else {
            0int
        }) + 64 * (17 - x),
    decreases CHUNK_SIZE + 1 - x,
{
    if x <= CHUNK_SIZE {
        lemma_shell_y_len(grid, x, 1);
        lemma_shell_x_len(grid, x + 1);
        assert(faces_from_y(grid, x, 1).len() == (if x == 1 || x == CHUNK_SIZE {
            256int
        } else {
            0int
        }) + 64);
        assert(faces_from_x(grid, x).len() == faces_from_y(grid, x, 1).len() + faces_from_x(
            grid,
            x + 1,
        ).len());
    }
}

/// Full shell: a grid solid exactly on its interior cube emits exactly
/// `6 * CHUNK_SIZE^2` faces — one per interior-cube surface cell.
pub proof fn lemma_shell_face_count(grid: ChunkBlockData)
    requires
        shell_grid(grid),
    ensures
        mesh_faces(grid).len() == 1536,
{
    lemma_shell_x_len(grid, 1);
}

/// The x component of the outward unit vector of direction `d`.
pub open spec fn outward_x(d: int) -> int {
    if d == 0 {
        1
    } else if d == 1 {
        -1
    } else {
        0
    }
}

/// The y component of the outward unit vector of direction `d`.
pub open spec fn outward_y(d: int) -> int {
    if d == 2 {
        1
    } else if d == 3 {
        -1
    } else {
        0
    }
}

/// The z component of the outward unit vector of direction `d`.
pub open spec fn outward_z(d: int) -> int {
    if d == 4 {
        1
    } else if d == 5 {
        -1
    } else {
        0
    }
}

/// Winding consistency: for each direction and each of a quad's two
/// triangles, the cross product of the triangle's edge vectors — the index
/// order applied to the corner table — is exactly the direction's outward
/// unit vector.
pub proof fn lemma_winding_outward(x: int, y: int, z: int, d: int, t: int)
    requires
        0 <= d < 6,
        0 <= t < 2,
    ensures
        ({
            let j0 = tri_corner(d, 3 * t);
            let j1 = tri_corner(d, 3 * t + 1);
            let j2 = tri_corner(d, 3 * t + 2);
            let e1x = corner_x(x, d, j1) - corner_x(x, d, j0);
            let e1y = corner_y(y, d, j1) - corner_y(y, d, j0);
            let e1z = corner_z(z, d, j1) - corner_z(z, d, j0);
            let e2x = corner_x(x, d, j2) - corner_x(x, d, j0);
            let e2y = corner_y(y, d, j2) - corner_y(y, d, j0);
            let e2z = corner_z(z, d, j2) - corner_z(z, d, j0);
            e1y * e2z - e1z * e2y == outward_x(d) && e1z * e2x - e1x * e2z == outward_y(d) && e1x
                * e2y - e1y * e2x == outward_z(d)
        }),
{
    let j0 = tri_corner(d, 3 * t);
    let j1 = tri_corner(d, 3 * t + 1);
    let j2 = tri_corner(d, 3 * t + 2);
    let e1x = corner_x(x, d, j1) - corner_x(x, d, j0);
    let e1y = corner_y(y, d, j1) - corner_y(y, d, j0);
    let e1z = corner_z(z, d, j1) - corner_z(z, d, j0);
    let e2x = corner_x(x, d, j2) - corner_x(x, d, j0);
    let e2y = corner_y(y, d, j2) - corner_y(y, d, j0);
    let e2z = corner_z(z, d, j2) - corner_z(z, d, j0);
    if d == 0 {
        if t == 0 {
            assert(j0 == 0 && j1 == 3 && j2 == 2);
            assert(e1x == 0 && e1y == 1 && e1z == 0);
            assert(e2x == 0 && e2y == 1 && e2z == 1);
        } else {
            assert(j0 == 2 && j1 == 1 && j2 == 0);
            assert(e1x == 0 && e1y == -1 && e1z == 0);
            assert(e2x == 0 && e2y == -1 && e2z == -1);
        }
    } else if d == 1 {
        if t == 0 {
            assert(j0 == 0 && j1 == 2 && j2 == 3);
            assert(e1x == 0 && e1y == 1 && e1z == 1);
            assert(e2x == 0 && e2y == 1 && e2z == 0);
        } else {
            assert(j0 == 1 && j1 == 2 && j2 == 0);
            assert(e1x == 0 && e1y == 1 && e1z == 0);
            assert(e2x == 0 && e2y == 0 && e2z == -1);
        }
    } else if d == 2 {
        if t == 0 {
            assert(j0 == 0 && j1 == 3 && j2 == 2);
            assert(e1x == 0 && e1y == 0 && e1z == 1);
            assert(e2x == 1 && e2y == 0 && e2z == 1);
        } else {
            assert(j0 == 2 && j1 == 1 && j2 == 0);
            assert(e1x == 0 && e1y == 0 && e1z == -1);
            assert(e2x == -1 && e2y == 0 && e2z == -1);
        }
    } else if d == 3 {
        if t == 0 {
            assert(j0 == 0 && j1 == 2 && j2 == 3);
            assert(e1x == 1 && e1y == 0 && e1z == 1);
            assert(e2x == 0 && e2y == 0 && e2z == 1);
        } else {
            assert(j0 == 1 && j1 == 2 && j2 == 0);
            assert(e1x == 0 && e1y == 0 && e1z == 1);
            assert(e2x == -1 && e2y == 0 && e2z == 0);
        }
    } else if d == 4 {
        if t == 0 {
            assert(j0 == 0 && j1 == 2 && j2 == 3);
            assert(e1x == 1 && e1y == 1 && e1z == 0);
            assert(e2x == 0 && e2y == 1 && e2z == 0);
        } else {
            assert(j0 == 1 && j1 == 2 && j2 == 0);
            assert(e1x == 0 && e1y == 1 && e1z == 0);
            assert(e2x == -1 && e2y == 0 && e2z == 0);
        }
    } else {
        if t == 0 {
            assert(j0 == 0 && j1 == 3 && j2 == 2);
            assert(e1x == 0 && e1y == 1 && e1z == 0);
            assert(e2x == 1 && e2y == 1 && e2z == 0);
        } else {
            assert(j0 == 2 && j1 == 1 && j2 == 0);
            assert(e1x == 0 && e1y == -1 && e1z == 0);
            assert(e2x == -1 && e2y == -1 && e2z == 0);
        }
    }
}

} // verus!
