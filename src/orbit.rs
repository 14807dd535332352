use vstd::prelude::*;
use crate::fixed::{floor_sqrt, isqrt, lemma_floor_sqrt_exists, lemma_floor_sqrt_positive};
use crate::random::draw_up_to;

verus! {

/// One whole unit in the fixed-point scale: lengths are in thousandths of a unit, angles in
/// milliradians, rates per second, and ratios in thousandths.
pub const SCALE: u64 = 1000;

/// A full turn, in milliradians.
pub const FULL_TURN: u64 = 6283;

/// Largest orbital radius or stable-orbit radius handled, in thousandths of a unit.
pub const MAX_RADIUS: u64 = 1000000000;

/// Largest Schwarzschild radius handled, in thousandths of a unit.
pub const MAX_HORIZON: u64 = 1000000;

/// Largest mass handled, in thousandths.
pub const MAX_MASS: u64 = 10000000;

/// Largest frame step, in milliseconds.
pub const MAX_FRAME_MS: u64 = 100000;

/// Largest angular velocity handled, in milliradians per second.
pub const MAX_ANGULAR_VELOCITY: u64 = 10000000000;

/// Width of the band, beyond the last stable orbit, that a recycled particle lands in.
pub const RESPAWN_SPREAD: u64 = 20000;

/// Time-dilation factor used close to the horizon, in thousandths.
pub const DILATION_FLOOR: u64 = 100;

/// The central body: its mass, Schwarzschild radius and spin, all in thousandths.
#[derive(Clone, Copy, Debug, PartialEq, Eq, Structural)]
pub struct BlackHole {
    pub mass: u64,
    pub schwarzschild_radius: u64,
    pub spin: u64,
}

/// One particle of the accretion disk.
#[derive(Clone, Copy, Debug, PartialEq, Eq, Structural)]
pub struct AccretionParticle {
    /// Distance from the center, in thousandths of a unit.
    pub orbital_radius: u64,
    /// Milliradians per second.
    pub angular_velocity: u64,
    /// Angle along the orbit, in milliradians, below a full turn.
    pub phase: u64,
    /// Kelvin.
    pub temperature: u64,
    /// Magnitude of the orbital velocity, in thousandths of a unit per second.
    pub orbital_speed: u64,
    /// Radius, in thousandths of a unit, that a particle is recycled beyond.
    pub last_stable_orbit: u64,
}

impl BlackHole {
    /// The parameters lie in the handled range.
    pub open spec fn wf(&self) -> bool {
        &&& 0 < self.schwarzschild_radius <= MAX_HORIZON
        &&& 0 < self.mass <= MAX_MASS
    }
}

impl AccretionParticle {
    /// The particle lies in the handled range around the given black hole.
    pub open spec fn wf(&self, bh: BlackHole) -> bool {
        &&& 0 < self.orbital_radius <= MAX_RADIUS
        &&& self.angular_velocity <= MAX_ANGULAR_VELOCITY
        &&& self.phase < FULL_TURN
        &&& bh.schwarzschild_radius <= self.last_stable_orbit
        &&& self.last_stable_orbit + RESPAWN_SPREAD <= MAX_RADIUS
    }
}

/// `sqrt(1 - rs / r)` in thousandths.
pub open spec fn horizon_factor(r: int, rs: int) -> int {
    floor_sqrt((1000000 * (r - rs)) / r)
}

/// The time-dilation factor at radius `r`, in thousandths: `sqrt(1 - rs / r)` beyond
/// `1.1·rs`, and a fixed floor closer in.
pub open spec fn dilation(r: int, rs: int) -> int {
    if 10 * r > 11 * rs {
        horizon_factor(r, rs)
    } else {
        DILATION_FLOOR as int
    }
}

/// Inward drift over one frame, in thousandths of a unit, rounded up:
/// `0.01 · dt · d · (rs / r)²`.
pub open spec fn drift(r: int, rs: int, d: int, dt: int) -> int {
    let num = 10 * dt * d * rs * rs;
    let den = 1000000 * r * r;
    (num + den - 1) / den
}

/// The angle after one frame, wrapped into one turn.
pub open spec fn advanced_phase(phase: int, omega: int, d: int, dt: int) -> int {
    (phase + (omega * d * dt) / 1000000) % (FULL_TURN as int)
}

/// The radius after the drift of one frame, before any recycling.
pub open spec fn drifted_radius(r: int, rs: int, dt: int) -> int {
    if 100 * r > 101 * rs {
        let dr = drift(r, rs, dilation(r, rs), dt);
        if dr < r { r - dr } else { 0 }
    } else {
        r
    }
}

/// Whether a radius lies inside the inner boundary, where particles are recycled.
pub open spec fn inside_boundary(r: int, rs: int) -> bool {
    100 * r < 101 * rs
}

/// The particle after one frame of `dt` milliseconds. When it drifts inside the inner
/// boundary it is recycled at `last_stable_orbit + jitter` with angle `new_phase`, and its
/// angular velocity is scaled by the time dilation there.
pub open spec fn advanced(
    p: AccretionParticle,
    bh: BlackHole,
    dt: int,
    jitter: int,
    new_phase: int,
) -> AccretionParticle {
    let rs = bh.schwarzschild_radius as int;
    let r = p.orbital_radius as int;
    let d = dilation(r, rs);
    let phase = advanced_phase(p.phase as int, p.angular_velocity as int, d, dt);
    let r1 = drifted_radius(r, rs, dt);
    if inside_boundary(r1, rs) {
        let r2 = p.last_stable_orbit + jitter;
        AccretionParticle {
            orbital_radius: r2 as u64,
            angular_velocity: ((p.angular_velocity * horizon_factor(r2, rs)) / 1000) as u64,
            phase: new_phase as u64,
            ..p
        }
    } else {
        AccretionParticle { orbital_radius: r1 as u64, phase: phase as u64, ..p }
    }
}

proof fn lemma_horizon_factor_bounds(r: int, rs: int)
    requires
        0 < r,
        0 <= rs <= r,
    ensures
        0 <= horizon_factor(r, rs) <= 1000,
{
    let n = (1000000 * (r - rs)) / r;
    assert(0 <= n <= 1000000) by (nonlinear_arith)
        requires
            n == (1000000 * (r - rs)) / r,
            0 < r,
            0 <= rs <= r,
    {
    }
    lemma_floor_sqrt_exists(n);
    let s = floor_sqrt(n);
    assert(s <= 1000) by (nonlinear_arith)
        requires
            0 <= s,
            s * s <= n,
            n <= 1000000,
    {
    }
}

/// `sqrt(1 - rs / r)` in thousandths, for `rs <= r`.
fn horizon_factor_of(r: u64, rs: u64) -> (f: u64)
    requires
        0 < r <= MAX_RADIUS,
        rs <= r,
    ensures
        f as int == horizon_factor(r as int, rs as int),
        f <= 1000,
{
    proof {
        lemma_horizon_factor_bounds(r as int, rs as int);
    }
    let n: u64 = (1000000 * (r - rs)) / r;
    isqrt(n)
}

/// The time-dilation factor at radius `r`, in thousandths.
pub fn time_dilation(r: u64, rs: u64) -> (d: u64)
    requires
        0 < r <= MAX_RADIUS,
        rs <= MAX_HORIZON,
    ensures
        d as int == dilation(r as int, rs as int),
        1 <= d <= 1000,
{
    if 10 * r > 11 * rs {
        proof {
            let n = (1000000 * (r - rs)) / (r as int);
            assert(n >= 1) by (nonlinear_arith)
                requires
                    n == (1000000 * (r - rs)) / (r as int),
                    10 * r > 11 * rs,
                    r > 0,
            {
            }
            lemma_floor_sqrt_positive(n);
        }
        horizon_factor_of(r, rs)
    } else {
        DILATION_FLOOR
    }
}

/// Inward drift over one frame, in thousandths of a unit, rounded up.
fn drift_of(r: u64, rs: u64, d: u64, dt: u64) -> (dr: u64)
    requires
        0 < r <= MAX_RADIUS,
        rs <= MAX_HORIZON,
        d <= 1000,
        dt <= MAX_FRAME_MS,
        100 * r > 101 * rs,
    ensures
        dr as int == drift(r as int, rs as int, d as int, dt as int),
        dr as int <= dt as int + 1,
{
    assert(10 * dt * d <= 10 * MAX_FRAME_MS * 1000) by (nonlinear_arith)
        requires
            dt <= MAX_FRAME_MS,
            d <= 1000,
    {
    }
    assert(10 * dt * d * rs <= 10 * MAX_FRAME_MS * 1000 * MAX_HORIZON) by (nonlinear_arith)
        requires
            10 * dt * d <= 10 * MAX_FRAME_MS * 1000,
            rs <= MAX_HORIZON,
    {
    }
    assert(10 * dt * d * rs * rs <= 10 * MAX_FRAME_MS * 1000 * MAX_HORIZON * MAX_HORIZON)
        by (nonlinear_arith)
        requires
            10 * dt * d * rs <= 10 * MAX_FRAME_MS * 1000 * MAX_HORIZON,
            rs <= MAX_HORIZON,
    {
    }
    let num: u128 = 10 * (dt as u128) * (d as u128) * (rs as u128) * (rs as u128);
    assert(1000000 * r * r <= 1000000 * MAX_RADIUS * MAX_RADIUS) by (nonlinear_arith)
        requires
            0 < r <= MAX_RADIUS,
    {
    }
    assert(1000000 * r <= 1000000 * MAX_RADIUS);
    let den: u128 = 1000000 * (r as u128) * (r as u128);
    proof {
        assert(num <= 10 * MAX_FRAME_MS * 1000 * MAX_HORIZON * MAX_HORIZON) by (nonlinear_arith)
            requires
                num == 10 * dt * d * rs * rs,
                dt <= MAX_FRAME_MS,
                d <= 1000,
                rs <= MAX_HORIZON,
        {
        }
        assert(den >= 1000000 && den <= 1000000 * MAX_RADIUS * MAX_RADIUS) by (nonlinear_arith)
            requires
                den == 1000000 * r * r,
                0 < r <= MAX_RADIUS,
        {
        }
        assert(num <= dt * den) by (nonlinear_arith)
            requires
                num == 10 * dt * d * rs * rs,
                den == 1000000 * r * r,
                d <= 1000,
                rs <= r,
        {
        }
        assert((num as int + den as int - 1) / (den as int) <= dt as int + 1) by (nonlinear_arith)
            requires
                num <= dt * den,
                den > 0,
                num >= 0,
        {
        }
    }
    let q: u128 = (num + den - 1) / den;
    q as u64
}

/// The drift of a particle outside the inner boundary is at least one thousandth whenever
/// time passes.
proof fn lemma_drift_positive(r: int, rs: int, d: int, dt: int)
    requires
        0 < r,
        0 < rs,
        1 <= d,
        1 <= dt,
    ensures
        drift(r, rs, d, dt) >= 1,
{
    let num = 10 * dt * d * rs * rs;
    let den = 1000000 * r * r;
    assert(num >= 1 && den >= 1) by (nonlinear_arith)
        requires
            num == 10 * dt * d * rs * rs,
            den == 1000000 * r * r,
            0 < r,
            0 < rs,
            1 <= d,
            1 <= dt,
    {
    }
    assert((num + den - 1) / den >= 1) by (nonlinear_arith)
        requires
            num >= 1,
            den >= 1,
    {
    }
}

/// Advances one particle by a frame of `dt` milliseconds. `jitter` (at most
/// `RESPAWN_SPREAD`) and `new_phase` (below a full turn) are where the particle lands
/// if it is recycled this frame.
pub fn advance_particle(
    p: &mut AccretionParticle,
    bh: &BlackHole,
    dt: u64,
    jitter: u64,
    new_phase: u64,
)
    requires
        bh.wf(),
        old(p).wf(*bh),
        dt <= MAX_FRAME_MS,
        jitter <= RESPAWN_SPREAD,
        new_phase < FULL_TURN,
    ensures
        *final(p) == advanced(*old(p), *bh, dt as int, jitter as int, new_phase as int),
        final(p).wf(*bh),
        // Outside the inner boundary a particle drifts strictly inward while time passes,
        // unless the drift carries it inside, where it is recycled.
        100 * old(p).orbital_radius > 101 * bh.schwarzschild_radius && dt > 0
            && !inside_boundary(
            drifted_radius(old(p).orbital_radius as int, bh.schwarzschild_radius as int, dt as int),
            bh.schwarzschild_radius as int,
        ) ==> final(p).orbital_radius < old(p).orbital_radius,
        // A recycled particle lands at or beyond the last stable orbit, within the spread.
        inside_boundary(
            drifted_radius(old(p).orbital_radius as int, bh.schwarzschild_radius as int, dt as int),
            bh.schwarzschild_radius as int,
        ) ==> final(p).last_stable_orbit <= final(p).orbital_radius <= final(p).last_stable_orbit
            + RESPAWN_SPREAD,
{
    let rs: u64 = bh.schwarzschild_radius;
    let r: u64 = p.orbital_radius;
    let d: u64 = time_dilation(r, rs);
    assert(p.angular_velocity * d <= MAX_ANGULAR_VELOCITY * 1000) by (nonlinear_arith)
        requires
            p.angular_velocity <= MAX_ANGULAR_VELOCITY,
            d <= 1000,
    {
    }
    assert(p.angular_velocity * d * dt <= MAX_ANGULAR_VELOCITY * 1000 * MAX_FRAME_MS)
        by (nonlinear_arith)
        requires
            p.angular_velocity * d <= MAX_ANGULAR_VELOCITY * 1000,
            p.angular_velocity <= MAX_ANGULAR_VELOCITY,
            d <= 1000,
            dt <= MAX_FRAME_MS,
    {
    }
    let turn: u64 = (p.angular_velocity * d * dt) / 1000000;
    assert(turn <= MAX_ANGULAR_VELOCITY * 1000 * MAX_FRAME_MS / 1000000) by (nonlinear_arith)
        requires
            turn == (p.angular_velocity * d * dt) / 1000000,
            p.angular_velocity * d * dt <= MAX_ANGULAR_VELOCITY * 1000 * MAX_FRAME_MS,
    {
    }
    let phase: u64 = (p.phase + turn) % FULL_TURN;
    let mut r1: u64 = r;
    if 100 * r > 101 * rs {
        let dr: u64 = drift_of(r, rs, d, dt);
        proof {
            if dt > 0 {
                lemma_drift_positive(r as int, rs as int, d as int, dt as int);
            }
        }
        r1 = if dr < r { r - dr } else { 0 };
    }
    if 100 * r1 < 101 * rs {
        let r2: u64 = p.last_stable_orbit + jitter;
        let f: u64 = horizon_factor_of(r2, rs);
        assert(p.angular_velocity * f <= MAX_ANGULAR_VELOCITY * 1000) by (nonlinear_arith)
            requires
                p.angular_velocity <= MAX_ANGULAR_VELOCITY,
                f <= 1000,
        {
        }
        assert((p.angular_velocity * f) / 1000 <= p.angular_velocity) by (nonlinear_arith)
            requires
                f <= 1000,
        {
        }
        p.orbital_radius = r2;
        p.angular_velocity = (p.angular_velocity * f) / 1000;
        p.phase = new_phase;
    } else {
        p.orbital_radius = r1;
        p.phase = phase;
    }
}

/// `q` is `p` after one frame of `dt` milliseconds, for some landing place of a recycled
/// particle within the allowed band.
pub open spec fn is_frame_step(p: AccretionParticle, q: AccretionParticle, bh: BlackHole, dt: int) -> bool {
    exists|jitter: int, new_phase: int|
        0 <= jitter <= RESPAWN_SPREAD && 0 <= new_phase < FULL_TURN && q == #[trigger] advanced(
            p,
            bh,
            dt,
            jitter,
            new_phase,
        )
}

/// Advances every particle of the disk by a frame of `dt` milliseconds, drawing from `rng`
/// where each recycled particle lands.
pub fn animate_accretion_disk(
    particles: &mut Vec<AccretionParticle>,
    bh: &BlackHole,
    dt: u64,
    rng: &mut fastrand::Rng,
)
    requires
        bh.wf(),
        dt <= MAX_FRAME_MS,
        forall|i: int| 0 <= i < old(particles)@.len() ==> (#[trigger] old(particles)@[i]).wf(*bh),
    ensures
        final(particles)@.len() == old(particles)@.len(),
        forall|i: int|
            0 <= i < final(particles)@.len() ==> #[trigger] is_frame_step(
                old(particles)@[i],
                final(particles)@[i],
                *bh,
                dt as int,
            ),
        forall|i: int| 0 <= i < final(particles)@.len() ==> (#[trigger] final(particles)@[i]).wf(*bh),
{
    let n: usize = particles.len();
    let mut i: usize = 0;
    while i < n
        invariant
            bh.wf(),
            dt <= MAX_FRAME_MS,
            n == particles@.len(),
            n == old(particles)@.len(),
            i <= n,
            forall|k: int| i <= k < n ==> #[trigger] particles@[k] == old(particles)@[k],
            forall|k: int| 0 <= k < n ==> (#[trigger] old(particles)@[k]).wf(*bh),
            forall|k: int| 0 <= k < n ==> (#[trigger] particles@[k]).wf(*bh),
            forall|k: int|
                0 <= k < i ==> #[trigger] is_frame_step(
                    old(particles)@[k],
                    particles@[k],
                    *bh,
                    dt as int,
                ),
        decreases n - i,
    {
        let jitter: u64 = draw_up_to(rng, RESPAWN_SPREAD);
        let new_phase: u64 = draw_up_to(rng, FULL_TURN - 1);
        let mut p: AccretionParticle = particles[i];
        advance_particle(&mut p, bh, dt, jitter, new_phase);
        particles.set(i, p);
        assert(particles@[i as int] == advanced(
            old(particles)@[i as int],
            *bh,
            dt as int,
            jitter as int,
            new_phase as int,
        ));
        i = i + 1;
    }
}

} // verus!
