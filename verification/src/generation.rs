//! Construction of one chunk's padded occupancy grid from a column height
//! map.
//!
//! The grid is a cube of `PADDED_SIZE` cells per axis: the chunk's
//! `CHUNK_SIZE` interior voxels plus a one-voxel halo on every face, so a
//! voxel's six neighbours can always be probed without a bounds branch. A
//! cell holds 0 for empty and 1 for solid. A voxel is solid exactly when it
//! lies at or below the surface height of its `(x, z)` column.
//!
//! The height map itself comes from a collaborator: any seeded coherent-noise
//! height function, sampled once per padded column at world-column
//! coordinates, scaled and rounded to a whole number of voxels. Its floating
//! point sampling cannot stand in verified code, so this module takes the
//! rounded heights as plain values; everything from there on is verified.

use vstd::prelude::*;

use crate::{CHUNK_SIZE, PADDED_SIZE, PADDED_VOLUME};

verus! {

/// Chunk-grid coordinates of one chunk (whole chunks, not world units).
#[derive(Clone, Copy, PartialEq, Eq, Structural, Debug)]
pub struct ChunkPos {
    pub x: i32,
    pub y: i32,
    pub z: i32,
}

impl ChunkPos {
    /// World-space offset of this chunk's origin, in voxel units: the chunk
    /// coordinate times the chunk edge length on each axis.
    pub fn world_offset(&self) -> (offset: (i64, i64, i64))
        ensures
            offset.0 == self.x as int * CHUNK_SIZE,
            offset.1 == self.y as int * CHUNK_SIZE,
            offset.2 == self.z as int * CHUNK_SIZE,
    {
        (
            (self.x as i64) * (CHUNK_SIZE as i64),
            (self.y as i64) * (CHUNK_SIZE as i64),
            (self.z as i64) * (CHUNK_SIZE as i64),
        )
    }
}

/// Row-major cell index within the padded grid.
pub open spec fn grid_index(x: int, y: int, z: int) -> int {
    x * 324 + y * 18 + z
}

/// Row-major column index within the padded height map.
pub open spec fn column_index(x: int, z: int) -> int {
    x * 18 + z
}

/// In-range cell coordinates map into the grid's cell array.
pub proof fn lemma_grid_index_bounds(x: int, y: int, z: int)
    requires
        0 <= x < PADDED_SIZE,
        0 <= y < PADDED_SIZE,
        0 <= z < PADDED_SIZE,
    ensures
        0 <= grid_index(x, y, z) < PADDED_VOLUME,
{
}

/// Distinct in-range cell coordinates map to distinct array indices.
pub proof fn lemma_grid_index_injective(
    x1: int,
    y1: int,
    z1: int,
    x2: int,
    y2: int,
    z2: int,
)
    requires
        0 <= x1 < PADDED_SIZE,
        0 <= y1 < PADDED_SIZE,
        0 <= z1 < PADDED_SIZE,
        0 <= x2 < PADDED_SIZE,
        0 <= y2 < PADDED_SIZE,
        0 <= z2 < PADDED_SIZE,
        grid_index(x1, y1, z1) == grid_index(x2, y2, z2),
    ensures
        x1 == x2 && y1 == y2 && z1 == z2,
{
}

/// The padded occupancy grid of one chunk.
pub struct ChunkBlockData {
    data: Vec<u8>,
    pub chunk_pos: ChunkPos,
}

/// The coordinates lie within the padded grid.
pub open spec fn in_grid_range(x: int, y: int, z: int) -> bool {
    &&& 0 <= x < PADDED_SIZE
    &&& 0 <= y < PADDED_SIZE
    &&& 0 <= z < PADDED_SIZE
}

/// The generation rule for one cell: solid exactly when the voxel's world
/// height is at or below its column's surface height.
pub open spec fn solid_rule(
    heights: Seq<i32>,
    chunk_pos: ChunkPos,
    x: int,
    y: int,
    z: int,
) -> bool {
    y + chunk_pos.y as int * CHUNK_SIZE <= heights[column_index(x, z)]
}

/// The byte the generator writes for one cell.
pub open spec fn cell_value(heights: Seq<i32>, chunk_pos: ChunkPos, x: int, y: int, z: int) -> u8 {
    if solid_rule(heights, chunk_pos, x, y, z) {
        1u8
    } else {
        0u8
    }
}

/// A grid is exactly what generation from `(heights, chunk_pos)` produces:
/// well formed, tagged with its chunk position, and with every cell's byte
/// given by the generation rule.
pub open spec fn generated(heights: Seq<i32>, chunk_pos: ChunkPos, grid: ChunkBlockData) -> bool {
    &&& grid.wf()
    &&& grid.pos() == chunk_pos
    &&& forall|x: int, y: int, z: int|
        in_grid_range(x, y, z) ==> #[trigger] grid.cells()[grid_index(x, y, z)] == cell_value(
            heights,
            chunk_pos,
            x,
            y,
            z,
        )
}

impl ChunkBlockData {
    /// The grid's cells, row-major.
    pub closed spec fn cells(self) -> Seq<u8> {
        self.data@
    }

    /// The chunk position the grid was built for.
    pub closed spec fn pos(self) -> ChunkPos {
        self.chunk_pos
    }

    /// The grid holds exactly one byte per padded cell.
    pub open spec fn wf(self) -> bool {
        self.cells().len() == PADDED_VOLUME
    }

    /// The cell at `(x, y, z)` is occupied.
    pub open spec fn solid(self, x: int, y: int, z: int) -> bool {
        self.cells()[grid_index(x, y, z)] != 0
    }

    /// Builds the occupancy grid for the chunk at `chunk_pos` from the
    /// rounded surface height of each padded column. Every cell of the
    /// result follows the generation rule: solid exactly at or below its
    /// column's surface height.
    pub fn create(heights: &Vec<i32>, chunk_pos: ChunkPos) -> (grid: ChunkBlockData)
        requires
            heights@.len() == PADDED_SIZE * PADDED_SIZE,
        ensures
            generated(heights@, chunk_pos, grid),
    {
        let mut data: Vec<u8> = Vec::new();
        let mut i: usize = 0;
        while i < PADDED_VOLUME
            invariant
                i <= PADDED_VOLUME,
                data@.len() == i,
                forall|j: int| 0 <= j < i ==> data@[j] == 0u8,
            decreases PADDED_VOLUME - i,
        {
            data.push(0);
            i += 1;
        }

        let mut x: usize = 0;
        while x < PADDED_SIZE
            invariant
                x <= PADDED_SIZE,
                heights@.len() == PADDED_SIZE * PADDED_SIZE,
                data@.len() == PADDED_VOLUME,
                forall|a: int, b: int, c: int|
                    in_grid_range(a, b, c) ==> #[trigger] data@[grid_index(a, b, c)] == (
                    if a < x {
                        cell_value(heights@, chunk_pos, a, b, c)
                    } else {
                        0u8
                    }),
            decreases PADDED_SIZE - x,
        {
            let mut z: usize = 0;
            while z < PADDED_SIZE
                invariant
                    x < PADDED_SIZE,
                    z <= PADDED_SIZE,
                    heights@.len() == PADDED_SIZE * PADDED_SIZE,
                    data@.len() == PADDED_VOLUME,
                    forall|a: int, b: int, c: int|
                        in_grid_range(a, b, c) ==> #[trigger] data@[grid_index(a, b, c)] == (
                        if a < x || (a == x && c < z) {
                            cell_value(heights@, chunk_pos, a, b, c)
                        } else {
                            0u8
                        }),
                decreases PADDED_SIZE - z,
            {
                let height = heights[x * PADDED_SIZE + z];

                let mut y: usize = 0;
                while y < PADDED_SIZE
                    invariant
                        x < PADDED_SIZE,
                        z < PADDED_SIZE,
                        y <= PADDED_SIZE,
                        data@.len() == PADDED_VOLUME,
                        heights@.len() == PADDED_SIZE * PADDED_SIZE,
                        height == heights@[column_index(x as int, z as int)],
                        forall|a: int, b: int, c: int|
                            in_grid_range(a, b, c) ==> #[trigger] data@[grid_index(a, b, c)] == (
                            if a < x || (a == x && c < z as int) || (a == x && c == z as int && b
                                < y) {
                                cell_value(heights@, chunk_pos, a, b, c)
                            } else {
                                0u8
                            }),
                    decreases PADDED_SIZE - y,
                {
                    if (y as i64) + (chunk_pos.y as i64) * 16 <= (height as i64) {
                        let index = get_index(x, y, z);
                        proof {
                            lemma_grid_index_bounds(x as int, y as int, z as int);
                        }
                        data[index] = 1;
                        proof {
                            assert forall|a: int, b: int, c: int|
                                in_grid_range(a, b, c) && !(a == x && b == y && c == z)
                                    implies grid_index(a, b, c) != grid_index(
                                x as int,
                                y as int,
                                z as int,
                            ) by {
                                if grid_index(a, b, c) == grid_index(x as int, y as int, z as int) {
                                    lemma_grid_index_injective(
                                        a,
                                        b,
                                        c,
                                        x as int,
                                        y as int,
                                        z as int,
                                    );
                                }
                            }
                        }
                    }
                    y += 1;
                }
                z += 1;
            }
            x += 1;
        }

        ChunkBlockData { data, chunk_pos }
    }

    /// Wraps an existing cell array as a grid, when it has exactly one byte
    /// per padded cell; any solid/empty volume can be meshed this way.
    pub fn from_cells(data: Vec<u8>, chunk_pos: ChunkPos) -> (grid: Option<ChunkBlockData>)
        ensures
            grid is Some <==> data@.len() == PADDED_VOLUME,
            grid matches Some(g) ==> g.wf() && g.cells() == data@ && g.pos() == chunk_pos,
    {
        if data.len() == PADDED_VOLUME {
            Some(ChunkBlockData { data, chunk_pos })
        } else {
            None
        }
    }

    /// The occupancy byte of the cell at `(x, y, z)`.
    pub fn get(&self, x: usize, y: usize, z: usize) -> (value: u8)
        requires
            self.wf(),
            x < PADDED_SIZE,
            y < PADDED_SIZE,
            z < PADDED_SIZE,
        ensures
            value == self.cells()[grid_index(x as int, y as int, z as int)],
    {
        proof {
            lemma_grid_index_bounds(x as int, y as int, z as int);
        }
        self.data[get_index(x, y, z)]
    }

    /// Whether the cell at `(x, y, z)` is empty.
    pub fn empty(&self, x: usize, y: usize, z: usize) -> (is_empty: bool)
        requires
            self.wf(),
            x < PADDED_SIZE,
            y < PADDED_SIZE,
            z < PADDED_SIZE,
        ensures
            is_empty == !self.solid(x as int, y as int, z as int),
    {
        self.get(x, y, z) == 0
    }
}

/// Determinism of generation: two grids generated from the same height map
/// and chunk position hold exactly the same bytes.
pub proof fn lemma_generate_deterministic(
    heights: Seq<i32>,
    chunk_pos: ChunkPos,
    a: ChunkBlockData,
    b: ChunkBlockData,
)
    requires
        generated(heights, chunk_pos, a),
        generated(heights, chunk_pos, b),
    ensures
        a.cells() == b.cells(),
        a.pos() == b.pos(),
{
    assert forall|i: int| 0 <= i < PADDED_VOLUME implies a.cells()[i] == b.cells()[i] by {
        let x = i / 324;
        let y = (i % 324) / 18;
        let z = i % 18;
        assert(i == 324 * x + (i % 324)) by {
            vstd::arithmetic::div_mod::lemma_fundamental_div_mod(i, 324);
        }
        assert(i % 324 == 18 * y + z) by {
            vstd::arithmetic::div_mod::lemma_fundamental_div_mod(i % 324, 18);
        }
        assert(0 <= i % 324 < 324) by {
            vstd::arithmetic::div_mod::lemma_mod_bound(i, 324);
        }
        assert(0 <= z < 18) by {
            vstd::arithmetic::div_mod::lemma_mod_bound(i % 324, 18);
        }
        assert(grid_index(x, y, z) == i);
        assert(in_grid_range(x, y, z));
        assert(a.cells()[grid_index(x, y, z)] == cell_value(heights, chunk_pos, x, y, z));
        assert(b.cells()[grid_index(x, y, z)] == cell_value(heights, chunk_pos, x, y, z));
    }
    assert(a.cells() =~= b.cells());
}

/// Row-major cell index within the padded grid.
fn get_index(x: usize, y: usize, z: usize) -> (index: usize)
    requires
        x < PADDED_SIZE,
        y < PADDED_SIZE,
        z < PADDED_SIZE,
    ensures
        index == grid_index(x as int, y as int, z as int),
{
    x * 324 + y * 18 + z
}

} // verus!
