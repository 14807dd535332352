use vstd::prelude::*;
use crate::fixed::{floor_sqrt, isqrt, lemma_floor_sqrt_exists, lemma_floor_sqrt_positive};
use crate::orbit::{AccretionParticle, BlackHole, FULL_TURN, MAX_ANGULAR_VELOCITY, MAX_MASS, MAX_RADIUS, RESPAWN_SPREAD};
use crate::random::draw_up_to;

verus! {

/// Largest number of particles a disk is seeded with.
pub const MAX_PARTICLES: usize = 100000;

/// Angle between consecutive seeded particles, in tenths of a milliradian.
pub const PHASE_STEP_TENTHS: u64 = 1257;

/// Upper end of the random factor that scales a seeded temperature, in thousandths.
pub const JITTER_FULL: u64 = 1000;

/// `10000 · (mass / r)^0.25` kelvin: heat from the gravitational potential.
pub open spec fn potential_heat(mass: int, r: int) -> int {
    10 * floor_sqrt(floor_sqrt((1000000000000 * mass) / r))
}

/// `sqrt(rs / r)`, in thousandths.
pub open spec fn root_ratio(rs: int, r: int) -> int {
    floor_sqrt((1000000 * rs) / r)
}

/// `5000 · (rs / r)^0.5` kelvin: heat from magnetic reconnection and turbulence.
pub open spec fn magnetic_heat(rs: int, r: int) -> int {
    5 * root_ratio(rs, r)
}

/// `2000 · (rs / r)^1.5` kelvin: tidal heat.
pub open spec fn tidal_heat(rs: int, r: int) -> int {
    2 * ((((1000 * rs) / r) * root_ratio(rs, r)) / 1000)
}

/// The temperature of disk matter at radius `r`, in kelvin.
pub open spec fn disk_temperature(mass: int, rs: int, r: int) -> int {
    potential_heat(mass, r) + magnetic_heat(rs, r) + tidal_heat(rs, r)
}

proof fn lemma_sqrt_le(n: int, bound: int, root_bound: int)
    requires
        0 <= n <= bound,
        0 <= root_bound,
        bound < (root_bound + 1) * (root_bound + 1),
    ensures
        0 <= floor_sqrt(n) <= root_bound,
{
    lemma_floor_sqrt_exists(n);
    let s = floor_sqrt(n);
    if s > root_bound {
        assert((root_bound + 1) * (root_bound + 1) <= s * s) by (nonlinear_arith)
            requires
                s > root_bound >= 0,
        {
        }
    }
}

/// `10000 · (mass / r)^0.25` kelvin.
fn potential_heat_of(mass: u64, r: u64) -> (t: u64)
    requires
        0 < mass <= MAX_MASS,
        0 < r <= MAX_RADIUS,
    ensures
        t as int == potential_heat(mass as int, r as int),
        10 <= t <= 10 * 4294967295,
{
    assert((1000000000000 * mass) / (r as int) >= 1) by (nonlinear_arith)
        requires
            0 < mass,
            0 < r <= MAX_RADIUS,
    {
    }
    let x: u64 = ((1000000000000u128 * mass as u128) / r as u128) as u64;
    let s: u64 = isqrt(x);
    let q: u64 = isqrt(s);
    proof {
        lemma_floor_sqrt_positive(x as int);
        lemma_floor_sqrt_positive(s as int);
    }
    10 * q
}

/// `sqrt(rs / r)` in thousandths.
fn root_ratio_of(rs: u64, r: u64) -> (s: u64)
    requires
        rs <= MAX_RADIUS,
        0 < r <= MAX_RADIUS,
    ensures
        s as int == root_ratio(rs as int, r as int),
        s <= 1000000000,
{
    assert((1000000 * rs) / (r as int) <= 1000000 * MAX_RADIUS) by (nonlinear_arith)
        requires
            rs <= MAX_RADIUS,
            0 < r,
    {
    }
    let x: u64 = (1000000 * rs) / r;
    let s: u64 = isqrt(x);
    proof {
        lemma_sqrt_le(x as int, 1000000 * MAX_RADIUS, 1000000000);
    }
    s
}

/// The temperature of disk matter at radius `r`, in kelvin: heat from the potential, from
/// magnetic reconnection, and from tides.
pub fn temperature_at(bh: &BlackHole, r: u64) -> (t: u64)
    requires
        bh.wf(),
        0 < r <= MAX_RADIUS,
    ensures
        t as int == disk_temperature(bh.mass as int, bh.schwarzschild_radius as int, r as int),
        t >= 10,
{
    let rs: u64 = bh.schwarzschild_radius;
    let base: u64 = potential_heat_of(bh.mass, r);
    let s: u64 = root_ratio_of(rs, r);
    let ratio: u64 = (1000 * rs) / r;
    assert(ratio * s <= 1000000000 * 1000000000) by (nonlinear_arith)
        requires
            ratio <= 1000000000,
            s <= 1000000000,
    {
    }
    let tidal: u64 = 2 * ((ratio * s) / 1000);
    base + 5 * s + tidal
}

/// Recomputes the temperature of every particle from its radius.
pub fn update_particle_temperatures(particles: &mut Vec<AccretionParticle>, bh: &BlackHole)
    requires
        bh.wf(),
        forall|i: int|
            0 <= i < old(particles)@.len() ==> 0 < (#[trigger] old(particles)@[i]).orbital_radius
                <= MAX_RADIUS,
    ensures
        final(particles)@.len() == old(particles)@.len(),
        forall|i: int|
            0 <= i < final(particles)@.len() ==> #[trigger] final(particles)@[i] == (
            AccretionParticle {
                temperature: disk_temperature(
                    bh.mass as int,
                    bh.schwarzschild_radius as int,
                    old(particles)@[i].orbital_radius as int,
                ) as u64,
                ..old(particles)@[i]
            }),
{
    let n: usize = particles.len();
    let mut i: usize = 0;
    while i < n
        invariant
            bh.wf(),
            n == particles@.len(),
            n == old(particles)@.len(),
            i <= n,
            forall|k: int| i <= k < n ==> #[trigger] particles@[k] == old(particles)@[k],
            forall|k: int|
                0 <= k < n ==> 0 < (#[trigger] old(particles)@[k]).orbital_radius <= MAX_RADIUS,
            forall|k: int|
                0 <= k < i ==> #[trigger] particles@[k] == (AccretionParticle {
                    temperature: disk_temperature(
                        bh.mass as int,
                        bh.schwarzschild_radius as int,
                        old(particles)@[k].orbital_radius as int,
                    ) as u64,
                    ..old(particles)@[k]
                }),
        decreases n - i,
    {
        let mut p: AccretionParticle = particles[i];
        p.temperature = temperature_at(bh, p.orbital_radius);
        particles.set(i, p);
        i = i + 1;
    }
}

/// Radius of seeded particle `i` of `count`: a cubic ease-in from the last stable orbit
/// to the outer edge, so that particles crowd the inner edge.
pub open spec fn seeded_radius(i: int, count: int, inner: int, outer: int) -> int {
    let last = if count > 1 { count - 1 } else { 1 };
    inner + ((outer - inner) * (i * i * i)) / (last * last * last)
}

/// Speed of a circular orbit at radius `r`, `sqrt(mass / r)`, in thousandths per second.
pub open spec fn circular_speed(mass: int, r: int) -> int {
    floor_sqrt((1000000 * mass) / r)
}

/// Particle `i` of `count` as seeded, with `jitter` (in thousandths, at most one whole)
/// scaling its temperature between one half and one whole of the potential heat.
pub open spec fn seeded_particle(
    bh: BlackHole,
    i: int,
    count: int,
    inner: int,
    outer: int,
    jitter: int,
) -> AccretionParticle {
    let r = seeded_radius(i, count, inner, outer);
    let v = circular_speed(bh.mass as int, r);
    AccretionParticle {
        orbital_radius: r as u64,
        angular_velocity: ((1000 * v) / r) as u64,
        phase: (((PHASE_STEP_TENTHS * i) / 10) % (FULL_TURN as int)) as u64,
        temperature: ((potential_heat(bh.mass as int, r) * (1000 + jitter)) / 2000) as u64,
        orbital_speed: v as u64,
        last_stable_orbit: inner as u64,
    }
}

/// Builds particle `i` of `count`.
pub fn seed_particle(
    bh: &BlackHole,
    i: usize,
    count: usize,
    inner: u64,
    outer: u64,
    jitter: u64,
) -> (p: AccretionParticle)
    requires
        bh.wf(),
        i < count <= MAX_PARTICLES,
        bh.schwarzschild_radius <= inner <= outer,
        outer + RESPAWN_SPREAD <= MAX_RADIUS,
        jitter <= JITTER_FULL,
    ensures
        p == seeded_particle(*bh, i as int, count as int, inner as int, outer as int, jitter as int),
        inner <= p.orbital_radius <= outer,
        p.temperature > 0,
        p.wf(*bh),
{
    let last: u128 = if count > 1 { (count - 1) as u128 } else { 1 };
    assert(i <= last);
    assert(i * i <= MAX_PARTICLES * MAX_PARTICLES) by (nonlinear_arith)
        requires
            i <= MAX_PARTICLES,
    {
    }
    assert(i * i * i <= MAX_PARTICLES * MAX_PARTICLES * MAX_PARTICLES) by (nonlinear_arith)
        requires
            i <= MAX_PARTICLES,
            i * i <= MAX_PARTICLES * MAX_PARTICLES,
    {
    }
    assert(last * last <= MAX_PARTICLES * MAX_PARTICLES) by (nonlinear_arith)
        requires
            last <= MAX_PARTICLES,
    {
    }
    assert(last * last * last <= MAX_PARTICLES * MAX_PARTICLES * MAX_PARTICLES) by (nonlinear_arith)
        requires
            last <= MAX_PARTICLES,
            last * last <= MAX_PARTICLES * MAX_PARTICLES,
    {
    }
    let i3: u128 = (i as u128) * (i as u128) * (i as u128);
    let l3: u128 = last * last * last;
    assert(i3 <= l3 && l3 >= 1 && l3 <= 1000000000000000) by (nonlinear_arith)
        requires
            i3 == i * i * i,
            l3 == last * last * last,
            i <= last,
            1 <= last <= MAX_PARTICLES,
    {
    }
    let span: u128 = (outer - inner) as u128;
    assert(span * i3 <= span * l3 && span * l3 <= 1000000000 * 1000000000000000)
        by (nonlinear_arith)
        requires
            i3 <= l3,
            l3 <= 1000000000000000,
            span <= 1000000000,
    {
    }
    let lift: u128 = (span * i3) / l3;
    assert(lift <= span) by (nonlinear_arith)
        requires
            lift == (span * i3) as int / (l3 as int),
            span * i3 <= span * l3,
            l3 >= 1,
    {
    }
    let r: u64 = inner + lift as u64;
    assert(r > 0) by {
        assert(bh.schwarzschild_radius > 0);
    }
    assert((1000000 * bh.mass) / (r as int) <= 1000000 * MAX_MASS) by (nonlinear_arith)
        requires
            bh.mass <= MAX_MASS,
            r > 0,
    {
    }
    let v: u64 = isqrt((1000000 * bh.mass) / r);
    proof {
        lemma_sqrt_le((1000000 * bh.mass) / (r as int), 1000000 * MAX_MASS, 3162278);
    }
    assert((1000 * v) / (r as int) <= MAX_ANGULAR_VELOCITY) by (nonlinear_arith)
        requires
            v <= 3162278,
            r > 0,
    {
    }
    let omega: u64 = (1000 * v) / r;
    let heat: u64 = potential_heat_of(bh.mass, r);
    assert(heat * (1000 + jitter) >= 10000 && heat * (1000 + jitter) <= 10 * 4294967295 * 2000)
        by (nonlinear_arith)
        requires
            10 <= heat <= 10 * 4294967295,
            jitter <= JITTER_FULL,
    {
    }
    let temperature: u64 = (heat * (1000 + jitter)) / 2000;
    let phase: u64 = ((PHASE_STEP_TENTHS * i as u64) / 10) % FULL_TURN;
    AccretionParticle {
        orbital_radius: r,
        angular_velocity: omega,
        phase,
        temperature,
        orbital_speed: v,
        last_stable_orbit: inner,
    }
}

/// Seeds `count` particles between the last stable orbit `inner` and the outer edge,
/// drawing from `rng` the factor that scales each one's temperature.
pub fn seed_particles(
    bh: &BlackHole,
    count: usize,
    inner: u64,
    outer: u64,
    rng: &mut fastrand::Rng,
) -> (ps: Vec<AccretionParticle>)
    requires
        bh.wf(),
        count <= MAX_PARTICLES,
        bh.schwarzschild_radius <= inner <= outer,
        outer + RESPAWN_SPREAD <= MAX_RADIUS,
    ensures
        ps@.len() == count,
        forall|i: int|
            0 <= i < count ==> #[trigger] is_seeded(ps@[i], *bh, i, count as int, inner as int, outer as int),
        forall|i: int|
            0 <= i < count ==> {
                &&& inner <= (#[trigger] ps@[i]).orbital_radius <= outer
                &&& ps@[i].temperature > 0
                &&& ps@[i].wf(*bh)
            },
{
    let mut ps: Vec<AccretionParticle> = Vec::new();
    let mut i: usize = 0;
    while i < count
        invariant
            bh.wf(),
            count <= MAX_PARTICLES,
            bh.schwarzschild_radius <= inner <= outer,
            outer + RESPAWN_SPREAD <= MAX_RADIUS,
            i <= count,
            ps@.len() == i,
            forall|k: int|
                0 <= k < i ==> #[trigger] is_seeded(ps@[k], *bh, k, count as int, inner as int, outer as int),
            forall|k: int|
                0 <= k < i ==> {
                    &&& inner <= (#[trigger] ps@[k]).orbital_radius <= outer
                    &&& ps@[k].temperature > 0
                    &&& ps@[k].wf(*bh)
                },
        decreases count - i,
    {
        let jitter: u64 = draw_up_to(rng, JITTER_FULL);
        let p: AccretionParticle = seed_particle(bh, i, count, inner, outer, jitter);
        ps.push(p);
        assert(is_seeded(ps@[i as int], *bh, i as int, count as int, inner as int, outer as int));
        i = i + 1;
    }
    ps
}

/// Nearest a background star lies, in thousandths of a unit.
pub const STAR_MIN_DISTANCE: u64 = 100000;

/// Width of the shell that background stars lie in, in thousandths of a unit.
pub const STAR_SHELL: u64 = 200000;

/// Half a turn, in milliradians.
pub const HALF_TURN: u64 = 3141;

/// A decorative background star, placed in spherical coordinates around the center.
#[derive(Clone, Copy, Debug, PartialEq, Eq, Structural)]
pub struct Star {
    /// Thousandths of a unit.
    pub distance: u64,
    /// Azimuth, in milliradians, below a full turn.
    pub theta: u64,
    /// Angle from the vertical axis, in milliradians, at most half a turn.
    pub phi: u64,
}

/// `s` lies in the shell of background stars, far outside the disk.
pub open spec fn is_background_star(s: Star) -> bool {
    &&& STAR_MIN_DISTANCE <= s.distance <= STAR_MIN_DISTANCE + STAR_SHELL
    &&& s.theta < FULL_TURN
    &&& s.phi <= HALF_TURN
}

/// Scatters `count` background stars at random in their shell.
pub fn scatter_stars(count: usize, rng: &mut fastrand::Rng) -> (stars: Vec<Star>)
    ensures
        stars@.len() == count,
        forall|i: int| 0 <= i < count ==> is_background_star(#[trigger] stars@[i]),
{
    let mut stars: Vec<Star> = Vec::new();
    let mut i: usize = 0;
    while i < count
        invariant
            i <= count,
            stars@.len() == i,
            forall|k: int| 0 <= k < i ==> is_background_star(#[trigger] stars@[k]),
        decreases count - i,
    {
        let distance: u64 = STAR_MIN_DISTANCE + draw_up_to(rng, STAR_SHELL);
        let theta: u64 = draw_up_to(rng, FULL_TURN - 1);
        let phi: u64 = draw_up_to(rng, HALF_TURN);
        stars.push(Star { distance, theta, phi });
        i = i + 1;
    }
    stars
}

/// `p` is particle `i` of `count` as seeded, for some temperature factor in the allowed range.
pub open spec fn is_seeded(p: AccretionParticle, bh: BlackHole, i: int, count: int, inner: int, outer: int) -> bool {
    exists|jitter: int|
        0 <= jitter <= JITTER_FULL && p == #[trigger] seeded_particle(bh, i, count, inner, outer, jitter)
}

} // verus!
