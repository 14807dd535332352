use vstd::prelude::*;

verus! {

/// Largest lattice size the mesh builder accepts: every vertex index fits in `u32`.
pub const MAX_GRID_SIZE: usize = 60000;

/// Largest spacing between neighbouring lattice points, in thousandths of a unit.
pub const MAX_GRID_SPACING: i64 = 1000000;

/// The lattice parameters of the warped space-time grid.
#[derive(Clone, Copy, Debug, PartialEq, Eq, Structural)]
pub struct WarpGrid {
    pub size: usize,
    pub spacing: i64,
}

/// One lattice vertex; coordinates are in thousandths of a unit, `y` is the height.
#[derive(Clone, Copy, Debug, PartialEq, Eq, Structural)]
pub struct GridPoint {
    pub x: i64,
    pub y: i64,
    pub z: i64,
}

/// A line-list mesh: vertex positions, and index pairs that each name one line.
pub struct GridMesh {
    pub positions: Vec<GridPoint>,
    pub indices: Vec<u32>,
}

/// Number of vertices of a lattice of the given size.
pub open spec fn vertex_count(size: int) -> int {
    (size + 1) * (size + 1)
}

/// Number of lines along one direction of the lattice.
pub open spec fn lines_per_direction(size: int) -> int {
    size * (size + 1)
}

/// Number of lines of the lattice, both directions together.
pub open spec fn edge_count(size: int) -> int {
    2 * lines_per_direction(size)
}

/// Offset that centers the lattice on the origin.
pub open spec fn center_offset(size: int, spacing: int) -> int {
    (size * spacing) / 2
}

/// The flat point that vertex `k` (row `k / (size + 1)`, column `k % (size + 1)`) stands on.
pub open spec fn lattice_point(size: int, spacing: int, k: int) -> GridPoint {
    GridPoint {
        x: ((k / (size + 1)) * spacing - center_offset(size, spacing)) as i64,
        y: 0,
        z: ((k % (size + 1)) * spacing - center_offset(size, spacing)) as i64,
    }
}

/// First vertex of the `k`-th line along a row.
pub open spec fn row_line_start(size: int, k: int) -> int {
    (k / size) * (size + 1) + k % size
}

/// The two vertices joined by line `e` of the lattice: row lines first, then column lines.
pub open spec fn edge_ends(size: int, e: int) -> (int, int) {
    if e < lines_per_direction(size) {
        (row_line_start(size, e), row_line_start(size, e) + 1)
    } else {
        (e - lines_per_direction(size), e - lines_per_direction(size) + size + 1)
    }
}

/// Whether `a` and `b` are neighbours in one row or in one column of the lattice.
pub open spec fn is_lattice_neighbour(size: int, a: int, b: int) -> bool {
    &&& 0 <= a < vertex_count(size)
    &&& 0 <= b < vertex_count(size)
    &&& ((b == a + 1 && a % (size + 1) < size) || b == a + size + 1)
}

/// `s` lists, pair by pair, the two ends of each line of the lattice.
pub open spec fn is_line_list(s: Seq<u32>, size: int) -> bool {
    forall|e: int|
        0 <= e < edge_count(size) ==> {
            &&& #[trigger] s[2 * e] as int == edge_ends(size, e).0
            &&& s[2 * e + 1] as int == edge_ends(size, e).1
        }
}

impl GridMesh {
    /// The mesh is the flat lattice of the given size and spacing.
    pub open spec fn is_lattice(&self, size: int, spacing: int) -> bool {
        &&& self.positions@.len() == vertex_count(size)
        &&& forall|k: int|
            0 <= k < vertex_count(size) ==> #[trigger] self.positions@[k] == lattice_point(
                size,
                spacing,
                k,
            )
        &&& self.indices@.len() == 2 * edge_count(size)
        &&& forall|e: int|
            0 <= e < edge_count(size) ==> {
                &&& #[trigger] self.indices@[2 * e] as int == edge_ends(size, e).0
                &&& self.indices@[2 * e + 1] as int == edge_ends(size, e).1
            }
    }
}

/// The `(size + 1)²` points of the flat lattice, row by row, centered on the origin.
fn lattice_positions(size: usize, spacing: i64) -> (positions: Vec<GridPoint>)
    requires
        size <= MAX_GRID_SIZE,
        0 <= spacing <= MAX_GRID_SPACING,
    ensures
        positions@.len() == vertex_count(size as int),
        forall|k: int|
            0 <= k < vertex_count(size as int) ==> #[trigger] positions@[k] == lattice_point(
                size as int,
                spacing as int,
                k,
            ),
        forall|k: int|
            0 <= k < positions@.len() ==> {
                &&& -(size * spacing) <= #[trigger] positions@[k].x <= size * spacing
                &&& -(size * spacing) <= positions@[k].z <= size * spacing
            },
{
    let side: usize = size + 1;
    assert(side * side <= 3600120001) by (nonlinear_arith)
        requires
            side <= 60001,
    {
    }
    assert(size * spacing <= MAX_GRID_SIZE * MAX_GRID_SPACING) by (nonlinear_arith)
        requires
            size <= MAX_GRID_SIZE,
            0 <= spacing <= MAX_GRID_SPACING,
    {
    }
    let n: usize = side * side;
    let offset: i64 = (size as i64 * spacing) / 2;
    let mut positions: Vec<GridPoint> = Vec::new();
    let mut k: usize = 0;
    while k < n
        invariant
            side == size + 1,
            n == vertex_count(size as int),
            size <= MAX_GRID_SIZE,
            0 <= spacing <= MAX_GRID_SPACING,
            offset == center_offset(size as int, spacing as int),
            k <= n,
            positions@.len() == k,
            forall|k2: int|
                0 <= k2 < k ==> #[trigger] positions@[k2] == lattice_point(
                    size as int,
                    spacing as int,
                    k2,
                ),
            forall|k2: int|
                0 <= k2 < k ==> {
                    &&& -(size * spacing) <= #[trigger] positions@[k2].x <= size * spacing
                    &&& -(size * spacing) <= positions@[k2].z <= size * spacing
                },
            size * spacing <= MAX_GRID_SIZE * MAX_GRID_SPACING,
        decreases n - k,
    {
        let row: usize = k / side;
        let col: usize = k % side;
        assert(row <= size) by (nonlinear_arith)
            requires
                row == k / side,
                k < side * side,
                side > 0,
                size + 1 == side,
        {
        }
        assert(row * spacing <= MAX_GRID_SIZE * MAX_GRID_SPACING) by (nonlinear_arith)
            requires
                row <= MAX_GRID_SIZE,
                0 <= spacing <= MAX_GRID_SPACING,
        {
        }
        assert(col * spacing <= MAX_GRID_SIZE * MAX_GRID_SPACING) by (nonlinear_arith)
            requires
                col <= MAX_GRID_SIZE,
                0 <= spacing <= MAX_GRID_SPACING,
        {
        }
        assert(col <= size);
        assert(row * spacing <= size * spacing && col * spacing <= size * spacing)
            by (nonlinear_arith)
            requires
                row <= size,
                col <= size,
                0 <= spacing,
        {
        }
        assert(0 <= offset <= size * spacing);
        let x: i64 = row as i64 * spacing - offset;
        let z: i64 = col as i64 * spacing - offset;
        positions.push(GridPoint { x, y: 0, z });
        k = k + 1;
    }

    positions
}

/// The line list of the lattice: each row's lines, then each column's.
fn lattice_lines(size: usize) -> (lines_out: Vec<u32>)
    requires
        size <= MAX_GRID_SIZE,
    ensures
        lines_out@.len() == 2 * edge_count(size as int),
        is_line_list(lines_out@, size as int),
{
    let side: usize = size + 1;
    assert(side * side <= 3600120001) by (nonlinear_arith)
        requires
            side <= 60001,
    {
    }
    assert(size * side <= side * side) by (nonlinear_arith)
        requires
            side == size + 1,
    {
    }
    let lines: usize = size * side;
    let mut indices: Vec<u32> = Vec::new();
    let mut e: usize = 0;
    while e < lines
        invariant
            side == size + 1,
            size <= MAX_GRID_SIZE,
            side * side <= 3600120001,
            lines == lines_per_direction(size as int),
            e <= lines,
            indices@.len() == 2 * e,
            forall|e2: int|
                0 <= e2 < e ==> {
                    &&& #[trigger] indices@[2 * e2] as int == edge_ends(size as int, e2).0
                    &&& indices@[2 * e2 + 1] as int == edge_ends(size as int, e2).1
                },
        decreases lines - e,
    {
        let q: usize = e / size;
        let m: usize = e % size;
        assert(q * side + m + 1 < side * side) by (nonlinear_arith)
            requires
                q == e / size,
                m == e % size,
                e < size * side,
                size > 0,
                side == size + 1,
        {
        }
        let a: usize = q * side + m;
        let ghost before = indices@;
        indices.push(a as u32);
        indices.push((a + 1) as u32);
        assert(indices@[2 * e as int] as int == edge_ends(size as int, e as int).0);
        assert(indices@[2 * e as int + 1] as int == edge_ends(size as int, e as int).1);
        assert forall|e2: int| 0 <= e2 < e + 1 implies {
            &&& #[trigger] indices@[2 * e2] as int == edge_ends(size as int, e2).0
            &&& indices@[2 * e2 + 1] as int == edge_ends(size as int, e2).1
        } by {
            if e2 < e {
                assert(indices@[2 * e2] == before[2 * e2]);
                assert(indices@[2 * e2 + 1] == before[2 * e2 + 1]);
            }
        }
        e = e + 1;
    }
    let mut v: usize = 0;
    while v < lines
        invariant
            side == size + 1,
            size <= MAX_GRID_SIZE,
            side * side <= 3600120001,
            lines == lines_per_direction(size as int),
            v <= lines,
            indices@.len() == 2 * (lines + v),
            forall|e2: int|
                0 <= e2 < lines + v ==> {
                    &&& #[trigger] indices@[2 * e2] as int == edge_ends(size as int, e2).0
                    &&& indices@[2 * e2 + 1] as int == edge_ends(size as int, e2).1
                },
        decreases lines - v,
    {
        assert(v + side < side * side) by (nonlinear_arith)
            requires
                v < size * side,
                side == size + 1,
        {
        }
        let ghost before = indices@;
        indices.push(v as u32);
        indices.push((v + side) as u32);
        assert forall|e2: int| 0 <= e2 < lines + v implies #[trigger] indices@[2 * e2]
            == before[2 * e2] && indices@[2 * e2 + 1] == before[2 * e2 + 1] by {
        }
        assert(indices@[2 * (lines + v) as int] == v as u32);
        assert(indices@[2 * (lines + v) as int + 1] == (v + side) as u32);
        v = v + 1;
    }
    assert(v == lines);
    assert(lines + v == edge_count(size as int));
    assert(is_line_list(indices@, size as int));
    indices
}

/// Builds the flat line grid: `(size + 1)²` points centered on the origin, each joined
/// to its right and lower neighbour.
pub fn create_warp_grid_mesh(size: usize, spacing: i64) -> (m: GridMesh)
    requires
        size <= MAX_GRID_SIZE,
        0 <= spacing <= MAX_GRID_SPACING,
    ensures
        m.is_lattice(size as int, spacing as int),
        forall|k: int|
            0 <= k < m.positions@.len() ==> {
                &&& -(size * spacing) <= #[trigger] m.positions@[k].x <= size * spacing
                &&& -(size * spacing) <= m.positions@[k].z <= size * spacing
            },
{
    let side: usize = size + 1;
    assert(side * side <= 3600120001) by (nonlinear_arith)
        requires
            side <= 60001,
    {
    }
    assert(size * spacing <= MAX_GRID_SIZE * MAX_GRID_SPACING) by (nonlinear_arith)
        requires
            size <= MAX_GRID_SIZE,
            0 <= spacing <= MAX_GRID_SPACING,
    {
    }
    let n: usize = side * side;
    let offset: i64 = (size as i64 * spacing) / 2;
    let positions: Vec<GridPoint> = lattice_positions(size, spacing);
    let indices: Vec<u32> = lattice_lines(size);
    GridMesh { positions, indices }
}

/// The grid has `(size + 1)²` vertices and `2·size·(size + 1)` lines, and every line joins
/// two neighbours of one row or of one column: none runs diagonally.
pub proof fn lemma_lattice_shape(m: &GridMesh, size: int, spacing: int, e: int)
    requires
        size >= 0,
        m.is_lattice(size, spacing),
        0 <= e < edge_count(size),
    ensures
        m.positions@.len() == (size + 1) * (size + 1),
        m.indices@.len() / 2 == 2 * size * (size + 1),
        is_lattice_neighbour(size, m.indices@[2 * e] as int, m.indices@[2 * e + 1] as int),
{
    assert(m.indices@.len() / 2 == 2 * size * (size + 1)) by (nonlinear_arith)
        requires
            m.indices@.len() == 2 * (2 * (size * (size + 1))),
    {
    }
    let a = m.indices@[2 * e] as int;
    let b = m.indices@[2 * e + 1] as int;
    if e < lines_per_direction(size) {
        let q = e / size;
        let r = e % size;
        assert(0 <= q <= size && 0 <= r < size && a == q * (size + 1) + r) by (nonlinear_arith)
            requires
                size > 0,
                0 <= e < size * (size + 1),
                q == e / size,
                r == e % size,
                a == q * (size + 1) + r,
        {
        }
        assert(a + 1 < (size + 1) * (size + 1)) by (nonlinear_arith)
            requires
                0 <= q <= size,
                0 <= r < size,
                a == q * (size + 1) + r,
        {
        }
        vstd::arithmetic::div_mod::lemma_mod_multiples_vanish(q, r, size + 1);
        vstd::arithmetic::div_mod::lemma_small_mod(r as nat, (size + 1) as nat);
    } else {
        let v = e - lines_per_direction(size);
        assert(0 <= v && v + size + 1 < (size + 1) * (size + 1)) by (nonlinear_arith)
            requires
                v == e - size * (size + 1),
                size * (size + 1) <= e < 2 * (size * (size + 1)),
        {
        }
    }
}

} // verus!
