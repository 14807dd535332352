use vstd::prelude::*;
use crate::color::{color_of, lemma_hot_clamps, temperature_to_color, Rgb, MAX_TEMPERATURE};
use crate::orbit::AccretionParticle;
use crate::fixed::{floor_sqrt, is_floor_sqrt, isqrt, lemma_floor_sqrt_exists, lemma_floor_sqrt_unique};

verus! {

/// Speed, in thousandths of a unit per second, that counts as one millionth of the
/// (deliberately reduced) speed of light.
pub const LIGHT_SPEED_STEP: u64 = 29980;

/// Highest speed fraction, in millionths.
pub const MAX_BETA: u64 = 999900;

/// Lowest and highest beaming factor, in thousandths.
pub const MIN_BEAMING: u64 = 100;
pub const MAX_BEAMING: u64 = 5000;

/// Base intensity added to the beaming factor, in thousandths.
pub const BASE_INTENSITY: u64 = 500;

/// How a particle glows as seen from the camera.
#[derive(Clone, Copy, Debug, PartialEq, Eq, Structural)]
pub struct ParticleMaterial {
    /// Doppler factor, in millionths.
    pub doppler: u64,
    /// Temperature after the Doppler shift, in kelvin.
    pub shifted_temperature: u128,
    /// Intensity, in thousandths.
    pub intensity: u64,
    /// Emitted color: the shifted temperature's color scaled by the intensity, in thousandths.
    pub emissive: Rgb,
}

/// Speed as a fraction of the reduced speed of light, in millionths, capped below one.
pub open spec fn beta(speed: int) -> int {
    if speed / (LIGHT_SPEED_STEP as int) > MAX_BETA { MAX_BETA as int } else { speed / (LIGHT_SPEED_STEP as int) }
}

/// `sqrt(1 - β²)`, in millionths.
pub open spec fn lorentz_factor(b: int) -> int {
    floor_sqrt(1000000000000 - b * b)
}

/// `sqrt(1 - β²) / (1 - β·cos θ)`, in millionths, with `cos θ` in thousandths.
pub open spec fn doppler_factor(speed: int, cos_theta: int) -> int {
    (lorentz_factor(beta(speed)) * 1000000000) / (1000000000 - beta(speed) * cos_theta)
}

/// The cube of the Doppler factor clamped into the beaming range, in thousandths.
pub open spec fn beaming(d: int) -> int {
    let cube = (d * d * d) / 1000000000000000;
    if cube < MIN_BEAMING { MIN_BEAMING as int } else if cube > MAX_BEAMING { MAX_BEAMING as int } else { cube }
}

/// One channel scaled by an intensity in thousandths.
pub open spec fn scaled(channel: int, intensity: int) -> int {
    (channel * intensity) / 1000
}

/// The shading of a particle of temperature `t` moving at `speed`, at angle `θ` between its
/// motion and the direction to the camera.
pub open spec fn shading_of(t: int, speed: int, cos_theta: int) -> ParticleMaterial {
    let d = doppler_factor(speed, cos_theta);
    let shifted = (t * d) / 1000000;
    let i = BASE_INTENSITY + beaming(d);
    let c = color_of(shifted);
    ParticleMaterial {
        doppler: d as u64,
        shifted_temperature: shifted as u128,
        intensity: i as u64,
        emissive: Rgb { r: scaled(c.0, i) as u32, g: scaled(c.1, i) as u32, b: scaled(c.2, i) as u32 },
    }
}

/// Shades a particle of temperature `temperature` moving at `speed` (thousandths of a unit per
/// second) whose motion makes an angle with cosine `cos_theta` (thousandths) with the
/// direction to the camera.
pub fn relativistic_shading(temperature: u64, speed: u64, cos_theta: i64) -> (s: ParticleMaterial)
    requires
        -1000 <= cos_theta <= 1000,
    ensures
        s == shading_of(temperature as int, speed as int, cos_theta as int),
{
    let q: u64 = speed / LIGHT_SPEED_STEP;
    let b: u64 = if q > MAX_BETA { MAX_BETA } else { q };
    assert(b * b <= 1000000000000) by (nonlinear_arith)
        requires
            b <= MAX_BETA,
    {
    }
    let g: u64 = isqrt(1000000000000 - b * b);
    proof {
        lemma_floor_sqrt_exists(1000000000000 - b * b);
        assert(g <= 1000000) by (nonlinear_arith)
            requires
                g * g <= 1000000000000 - b * b,
                g >= 0,
        {
        }
        assert(b * cos_theta <= MAX_BETA * 1000 && b * cos_theta >= -(MAX_BETA * 1000))
            by (nonlinear_arith)
            requires
                b <= MAX_BETA,
                -1000 <= cos_theta <= 1000,
        {
        }
    }
    let den_signed: i128 = 1000000000i128 - (b as i128) * (cos_theta as i128);
    let den: u128 = den_signed as u128;
    let d128: u128 = (g as u128 * 1000000000) / den;
    assert(d128 <= 10000000000) by (nonlinear_arith)
        requires
            d128 == (g * 1000000000) as int / (den as int),
            g <= 1000000,
            den >= 100000,
    {
    }
    let d: u64 = d128 as u64;
    assert(temperature * d <= 18446744073709551615 * 10000000000) by (nonlinear_arith)
        requires
            d <= 10000000000,
            temperature <= 18446744073709551615,
    {
    }
    let shifted: u128 = (temperature as u128 * d as u128) / 1000000;
    assert(d * d <= 10000000000 * 10000000000) by (nonlinear_arith)
        requires
            d <= 10000000000,
    {
    }
    assert(d * d * d <= 10000000000 * 10000000000 * 10000000000) by (nonlinear_arith)
        requires
            d <= 10000000000,
            d * d <= 10000000000 * 10000000000,
    {
    }
    let cube: u128 = (d as u128 * d as u128 * d as u128) / 1000000000000000;
    let beam: u64 = if cube < MIN_BEAMING as u128 {
        MIN_BEAMING
    } else if cube > MAX_BEAMING as u128 {
        MAX_BEAMING
    } else {
        cube as u64
    };
    let intensity: u64 = BASE_INTENSITY + beam;
    let capped: i64 = if shifted > MAX_TEMPERATURE as u128 { MAX_TEMPERATURE } else { shifted as i64 };
    proof {
        if shifted > MAX_TEMPERATURE as u128 {
            lemma_hot_clamps(shifted as int);
        }
    }
    let c: Rgb = temperature_to_color(capped);
    assert(c.r * intensity <= 1000 * 5500 && c.g * intensity <= 1000 * 5500 && c.b * intensity
        <= 1000 * 5500) by (nonlinear_arith)
        requires
            c.r <= 1000,
            c.g <= 1000,
            c.b <= 1000,
            intensity <= 5500,
    {
    }
    ParticleMaterial {
        doppler: d,
        shifted_temperature: shifted,
        intensity,
        emissive: Rgb { r: (c.r * intensity as u32) / 1000, g: (c.g * intensity as u32) / 1000, b: (c.b * intensity as u32) / 1000 },
    }
}

/// Shades every particle; `cos_thetas[i]` is the cosine, in thousandths, of the angle between
/// particle `i`'s motion and the direction from it to the camera.
pub fn animate_particles(particles: &Vec<AccretionParticle>, cos_thetas: &Vec<i64>) -> (m: Vec<
    ParticleMaterial,
>)
    requires
        cos_thetas@.len() == particles@.len(),
        forall|i: int| 0 <= i < cos_thetas@.len() ==> -1000 <= #[trigger] cos_thetas@[i] <= 1000,
    ensures
        m@.len() == particles@.len(),
        forall|i: int|
            0 <= i < m@.len() ==> #[trigger] m@[i] == shading_of(
                particles@[i].temperature as int,
                particles@[i].orbital_speed as int,
                cos_thetas@[i] as int,
            ),
{
    let mut m: Vec<ParticleMaterial> = Vec::new();
    let mut i: usize = 0;
    while i < particles.len()
        invariant
            cos_thetas@.len() == particles@.len(),
            forall|k: int| 0 <= k < cos_thetas@.len() ==> -1000 <= #[trigger] cos_thetas@[k] <= 1000,
            i <= particles@.len(),
            m@.len() == i,
            forall|k: int|
                0 <= k < i ==> #[trigger] m@[k] == shading_of(
                    particles@[k].temperature as int,
                    particles@[k].orbital_speed as int,
                    cos_thetas@[k] as int,
                ),
        decreases particles@.len() - i,
    {
        let p: &AccretionParticle = &particles[i];
        m.push(relativistic_shading(p.temperature, p.orbital_speed, cos_thetas[i]));
        i = i + 1;
    }
    m
}

/// A particle too slow to register as a fraction of the speed of light is not shifted: its
/// Doppler factor is one, its temperature is kept, and its intensity is one and a half.
pub proof fn lemma_stationary_shading(t: int, speed: int, cos_theta: int)
    requires
        0 <= speed < LIGHT_SPEED_STEP,
        -1000 <= cos_theta <= 1000,
        0 <= t <= 18446744073709551615,
    ensures
        shading_of(t, speed, cos_theta).doppler == 1000000,
        shading_of(t, speed, cos_theta).shifted_temperature == t as u128,
        shading_of(t, speed, cos_theta).intensity == 1500,
{
    assert(speed / (LIGHT_SPEED_STEP as int) == 0);
    assert(beta(speed) == 0);
    assert(is_floor_sqrt(1000000000000, 1000000));
    lemma_floor_sqrt_exists(1000000000000);
    lemma_floor_sqrt_unique(1000000000000, 1000000, floor_sqrt(1000000000000));
    assert(lorentz_factor(0) == 1000000);
    let b = beta(speed);
    assert(b * cos_theta == 0) by (nonlinear_arith)
        requires
            b == 0,
    {
    }
    assert((1000000int * 1000000000) / 1000000000 == 1000000);
    assert(doppler_factor(speed, cos_theta) == 1000000);
    assert((t * 1000000) / 1000000 == t);
    assert(beaming(1000000) == 1000) by {
        assert(1000000int * 1000000 * 1000000 == 1000000000000000000);
    }
}

} // verus!
