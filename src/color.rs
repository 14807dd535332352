use vstd::prelude::*;

verus! {

/// Lowest temperature, in kelvin, that the color ramp distinguishes.
pub const MIN_TEMPERATURE: i64 = 1000;

/// Highest temperature, in kelvin, that the color ramp distinguishes.
pub const MAX_TEMPERATURE: i64 = 50000;

/// Full intensity of one color channel: channels are stored in thousandths.
pub const CHANNEL_FULL: u32 = 1000;

/// An RGB color whose channels are fixed-point fractions in thousandths.
#[derive(Clone, Copy, Debug, PartialEq, Eq, Structural)]
pub struct Rgb {
    pub r: u32,
    pub g: u32,
    pub b: u32,
}

/// The temperature clamped into the ramp's range.
pub open spec fn clamp_temperature(t: int) -> int {
    if t < MIN_TEMPERATURE {
        MIN_TEMPERATURE as int
    } else if t > MAX_TEMPERATURE {
        MAX_TEMPERATURE as int
    } else {
        t
    }
}

/// The color of a temperature already inside the ramp's range: four linear bands,
/// red-hot, orange to yellow, yellow to white, and blue-white.
pub open spec fn band_color(t: int) -> (int, int, int) {
    if t < 3000 {
        (1000, 100 + (300 * (t - 1000)) / 2000, 0)
    } else if t < 5000 {
        (1000, 400 + (400 * (t - 3000)) / 2000, (200 * (t - 3000)) / 2000)
    } else if t < 10000 {
        (1000, 800 + (200 * (t - 5000)) / 5000, 200 + (600 * (t - 5000)) / 5000)
    } else {
        (1000 - (200 * (t - 10000)) / 40000, 900 - (100 * (t - 10000)) / 40000, 1000)
    }
}

/// The color that a temperature maps to.
pub open spec fn color_of(t: int) -> (int, int, int) {
    band_color(clamp_temperature(t))
}

impl Rgb {
    pub open spec fn view_triple(&self) -> (int, int, int) {
        (self.r as int, self.g as int, self.b as int)
    }
}

/// Maps a temperature in kelvin to the color of a glowing body of that temperature.
pub fn temperature_to_color(temp: i64) -> (c: Rgb)
    ensures
        c.view_triple() == color_of(temp as int),
        c.r <= CHANNEL_FULL && c.g <= CHANNEL_FULL && c.b <= CHANNEL_FULL,
{
    let t: i64 = if temp < MIN_TEMPERATURE {
        MIN_TEMPERATURE
    } else if temp > MAX_TEMPERATURE {
        MAX_TEMPERATURE
    } else {
        temp
    };
    if t < 3000 {
        let g = 100 + (300 * (t - 1000)) / 2000;
        Rgb { r: 1000, g: g as u32, b: 0 }
    } else if t < 5000 {
        let p = t - 3000;
        Rgb { r: 1000, g: (400 + (400 * p) / 2000) as u32, b: ((200 * p) / 2000) as u32 }
    } else if t < 10000 {
        let p = t - 5000;
        Rgb { r: 1000, g: (800 + (200 * p) / 5000) as u32, b: (200 + (600 * p) / 5000) as u32 }
    } else {
        let p = t - 10000;
        Rgb {
            r: (1000 - (200 * p) / 40000) as u32,
            g: (900 - (100 * p) / 40000) as u32,
            b: 1000,
        }
    }
}

/// Every temperature at or below the ramp's floor gives the floor's color.
pub proof fn lemma_cold_clamps(t: int)
    requires
        t <= MIN_TEMPERATURE,
    ensures
        color_of(t) == color_of(MIN_TEMPERATURE as int),
{
}

/// Every temperature at or above the ramp's ceiling gives the ceiling's color.
pub proof fn lemma_hot_clamps(t: int)
    requires
        t >= MAX_TEMPERATURE,
    ensures
        color_of(t) == color_of(MAX_TEMPERATURE as int),
{
}

} // verus!
