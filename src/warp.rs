use vstd::prelude::*;
use crate::fixed::{floor_sqrt, isqrt};
use crate::grid::{GridMesh, GridPoint};
use crate::orbit::MAX_RADIUS;

verus! {

/// Planar distance, in thousandths of a unit, inside which the grid drops into the well.
pub const WELL_RADIUS: u64 = 100;

/// Height of the grid inside the well, in thousandths of a unit.
pub const WELL_DEPTH: i64 = -10000;

/// Euler's number, in thousandths.
pub const EULER: u64 = 2718;

/// Largest Schwarzschild radius the grid warps around, in thousandths of a unit.
pub const MAX_WARP_HORIZON: u64 = 10000;

/// Number of terms of the exponential series after the constant one.
pub const SERIES_TERMS: u64 = 6;

/// The exponential series `1 + w(1 + w/2 (1 + w/3 (...)))` from term `k` on, with `w` and
/// the result in thousandths.
pub open spec fn series_from(w: int, k: int) -> int
    decreases 7 - k,
{
    if k >= 7 || k < 1 {
        1000
    } else {
        1000 + (w * series_from(w, k + 1)) / (1000 * k)
    }
}

/// `e^w`, with `w` and the result in thousandths: the series up to its seventh term.
pub open spec fn exp_series(w: int) -> int {
    series_from(w, 1)
}

/// `rs / r`, in thousandths.
pub open spec fn horizon_ratio(rs: int, r: int) -> int {
    (1000 * rs) / r
}

/// The height of the warped grid at planar distance `r`: `−2 · (rs / r) · e^(1 + rs / 4r)`
/// outside the well, and the well's depth inside it.
pub open spec fn warp_height(rs: int, r: int) -> int {
    if r > WELL_RADIUS {
        let u = horizon_ratio(rs, r);
        -2 * ((((EULER * u) / 1000) * exp_series(u / 4)) / 1000)
    } else {
        WELL_DEPTH as int
    }
}

/// Planar distance of a grid point from the center, in thousandths of a unit.
pub open spec fn planar_distance(p: GridPoint) -> int {
    floor_sqrt(p.x * p.x + p.z * p.z)
}

proof fn lemma_series_bounds(w1: int, w2: int, k: int)
    requires
        0 <= w1 <= w2,
    ensures
        1000 <= series_from(w1, k) <= series_from(w2, k),
    decreases 7 - k,
{
    if k >= 7 || k < 1 {
    } else {
        lemma_series_bounds(w1, w2, k + 1);
        let s1 = series_from(w1, k + 1);
        let s2 = series_from(w2, k + 1);
        assert(0 <= w1 * s1 <= w2 * s2) by (nonlinear_arith)
            requires
                0 <= w1 <= w2,
                0 <= s1 <= s2,
        {
        }
        vstd::arithmetic::div_mod::lemma_div_is_ordered(w1 * s1, w2 * s2, 1000 * k);
        vstd::arithmetic::div_mod::lemma_div_pos_is_pos(w1 * s1, 1000 * k);
    }
}

/// The bound `1000 · 26^(7 − k)` on the series from term `k` on, for `w` below 25 whole units.
pub open spec fn series_cap(k: int) -> int
    decreases 7 - k,
{
    if k >= 7 || k < 1 {
        1000
    } else {
        26 * series_cap(k + 1)
    }
}

proof fn lemma_series_cap(w: int, k: int)
    requires
        0 <= w <= 25000,
    ensures
        series_from(w, k) <= series_cap(k),
        1000 <= series_cap(k),
    decreases 7 - k,
{
    if k >= 7 || k < 1 {
    } else {
        lemma_series_cap(w, k + 1);
        lemma_series_bounds(w, w, k + 1);
        let s = series_from(w, k + 1);
        let c = series_cap(k + 1);
        assert((w * s) / (1000 * k) <= 25 * c) by (nonlinear_arith)
            requires
                0 <= w <= 25000,
                0 <= s <= c,
                k >= 1,
        {
        }
    }
}

proof fn lemma_cap_values()
    ensures
        forall|k: int| 1 <= k <= 7 ==> #[trigger] series_cap(k) <= 308915776000,
{
    assert(series_cap(7) == 1000);
    assert(series_cap(6) == 26000);
    assert(series_cap(5) == 676000);
    assert(series_cap(4) == 17576000);
    assert(series_cap(3) == 456976000);
    assert(series_cap(2) == 11881376000);
    assert(series_cap(1) == 308915776000);
}

/// `e^w` in thousandths, for `w` below 25 whole units.
fn exp_series_of(w: u64) -> (e: u64)
    requires
        w <= 25000,
    ensures
        e as int == exp_series(w as int),
        1000 <= e <= 308915776000,
{
    let mut t: u64 = 1000;
    let mut k: u64 = SERIES_TERMS;
    proof {
        lemma_cap_values();
    }
    while k >= 1
        invariant
            w <= 25000,
            0 <= k <= 6,
            t as int == series_from(w as int, k as int + 1),
            t as int <= series_cap(k as int + 1),
            forall|j: int| 1 <= j <= 7 ==> #[trigger] series_cap(j) <= 308915776000,
        decreases k,
    {
        proof {
            lemma_series_cap(w as int, k as int);
            lemma_series_cap(w as int, k as int + 1);
            lemma_series_bounds(w as int, w as int, k as int + 1);
        }
        assert(w * t <= 25000 * 308915776000) by (nonlinear_arith)
            requires
                w <= 25000,
                t <= 308915776000,
        {
        }
        t = 1000 + (w * t) / (1000 * k);
        k = k - 1;
    }
    proof {
        lemma_series_bounds(w as int, w as int, 1);
    }
    t
}

/// The height of the warped grid at planar distance `r` (thousandths of a unit) around a
/// black hole of Schwarzschild radius `rs`.
pub fn height_at(rs: u64, r: u64) -> (h: i64)
    requires
        rs <= MAX_WARP_HORIZON,
    ensures
        h as int == warp_height(rs as int, r as int),
{
    if r > WELL_RADIUS {
        let u: u64 = (1000 * rs) / r;
        assert(u <= 1000 * MAX_WARP_HORIZON / 101) by (nonlinear_arith)
            requires
                u == (1000 * rs) / (r as int),
                r > 100,
                rs <= MAX_WARP_HORIZON,
        {
        }
        let e: u64 = exp_series_of(u / 4);
        let a: u64 = (EULER * u) / 1000;
        assert(a * e <= 270000 * 308915776000) by (nonlinear_arith)
            requires
                a <= 270000,
                e <= 308915776000,
        {
        }
        let c: u64 = (a * e) / 1000;
        assert(c <= 270000 * 308915776000 / 1000);
        let ci: i64 = c as i64;
        assert(ci <= 83407259520000);
        0 - 2 * ci
    } else {
        WELL_DEPTH
    }
}

/// Inside the well the grid lies at the well's depth; outside it, the farther a point lies
/// from the center, the less deep the grid is there.
pub proof fn lemma_warp_shape(rs: int, r1: int, r2: int)
    requires
        0 <= rs,
        0 <= r1 <= r2,
    ensures
        r1 <= WELL_RADIUS ==> warp_height(rs, r1) == WELL_DEPTH,
        r1 > WELL_RADIUS ==> warp_height(rs, r1) <= warp_height(rs, r2),
{
    if r1 > WELL_RADIUS {
        let u1 = horizon_ratio(rs, r1);
        let u2 = horizon_ratio(rs, r2);
        vstd::arithmetic::div_mod::lemma_div_is_ordered_by_denominator(1000 * rs, r1, r2);
        vstd::arithmetic::div_mod::lemma_div_pos_is_pos(1000 * rs, r2);
        vstd::arithmetic::div_mod::lemma_div_is_ordered(u2, u1, 4);
        vstd::arithmetic::div_mod::lemma_div_pos_is_pos(u2, 4);
        lemma_series_bounds(u2 / 4, u1 / 4, 1);
        vstd::arithmetic::div_mod::lemma_div_is_ordered(EULER * u2, EULER * u1, 1000);
        vstd::arithmetic::div_mod::lemma_div_pos_is_pos(EULER * u2, 1000);
        let a1 = (EULER * u1) / 1000;
        let a2 = (EULER * u2) / 1000;
        let e1 = exp_series(u1 / 4);
        let e2 = exp_series(u2 / 4);
        assert(0 <= a2 * e2 <= a1 * e1) by (nonlinear_arith)
            requires
                0 <= a2 <= a1,
                0 <= e2 <= e1,
        {
        }
        vstd::arithmetic::div_mod::lemma_div_is_ordered(a2 * e2, a1 * e1, 1000);
    }
}

/// Sets the height of every grid vertex from its planar distance to the center.
pub fn update_grid_warping(mesh: &mut GridMesh, rs: u64)
    requires
        rs <= MAX_WARP_HORIZON,
        forall|k: int|
            0 <= k < old(mesh).positions@.len() ==> {
                &&& -(MAX_RADIUS as int) <= #[trigger] old(mesh).positions@[k].x <= MAX_RADIUS
                &&& -(MAX_RADIUS as int) <= old(mesh).positions@[k].z <= MAX_RADIUS
            },
    ensures
        final(mesh).indices@ == old(mesh).indices@,
        final(mesh).positions@.len() == old(mesh).positions@.len(),
        forall|k: int|
            0 <= k < final(mesh).positions@.len() ==> #[trigger] final(mesh).positions@[k] == (
            GridPoint {
                y: warp_height(rs as int, planar_distance(old(mesh).positions@[k])) as i64,
                ..old(mesh).positions@[k]
            }),
{
    let n: usize = mesh.positions.len();
    let mut i: usize = 0;
    while i < n
        invariant
            rs <= MAX_WARP_HORIZON,
            n == mesh.positions@.len(),
            n == old(mesh).positions@.len(),
            mesh.indices@ == old(mesh).indices@,
            i <= n,
            forall|k: int| i <= k < n ==> #[trigger] mesh.positions@[k] == old(mesh).positions@[k],
            forall|k: int|
                0 <= k < n ==> {
                    &&& -(MAX_RADIUS as int) <= #[trigger] old(mesh).positions@[k].x <= MAX_RADIUS
                    &&& -(MAX_RADIUS as int) <= old(mesh).positions@[k].z <= MAX_RADIUS
                },
            forall|k: int|
                0 <= k < i ==> #[trigger] mesh.positions@[k] == (GridPoint {
                    y: warp_height(rs as int, planar_distance(old(mesh).positions@[k])) as i64,
                    ..old(mesh).positions@[k]
                }),
        decreases n - i,
    {
        let p: GridPoint = mesh.positions[i];
        assert(p == old(mesh).positions@[i as int]);
        let x: i64 = p.x;
        let z: i64 = p.z;
        assert(0 <= x * x <= 1000000000000000000 && 0 <= z * z <= 1000000000000000000)
            by (nonlinear_arith)
            requires
                -1000000000 <= x <= 1000000000,
                -1000000000 <= z <= 1000000000,
        {
        }
        let sq: u64 = (x * x + z * z) as u64;
        let r: u64 = isqrt(sq);
        let h: i64 = height_at(rs, r);
        mesh.positions.set(i, GridPoint { x: p.x, y: h, z: p.z });
        i = i + 1;
    }
}

} // verus!
