use vstd::prelude::*;
use crate::orbit::{FULL_TURN, MAX_FRAME_MS};

verus! {

/// Closest the camera comes to its target, in thousandths of a unit.
pub const MIN_DISTANCE: u64 = 2000;

/// Farthest the camera goes from its target, in thousandths of a unit.
pub const MAX_DISTANCE: u64 = 1000000000;

/// Highest elevation above or below the disk plane, in milliradians.
pub const MAX_ELEVATION: i64 = 1500;

/// Change of distance per millisecond while a zoom input is held, in thousandths of a unit.
pub const ZOOM_RATE: u64 = 5;

/// Milliseconds of auto-rotation per milliradian of azimuth.
pub const AUTO_ROTATE_DIVISOR: u64 = 5;

/// A point in space, in thousandths of a unit.
#[derive(Clone, Copy, Debug, PartialEq, Eq, Structural)]
pub struct Point {
    pub x: i64,
    pub y: i64,
    pub z: i64,
}

/// The free-orbit camera: spherical coordinates around a fixed target.
#[derive(Clone, Copy, Debug, PartialEq, Eq, Structural)]
pub struct CameraController {
    /// Thousandths of a unit.
    pub distance: u64,
    /// Milliradians, below a full turn.
    pub azimuth: u64,
    /// Milliradians.
    pub elevation: i64,
    pub target: Point,
    pub auto_rotate: bool,
}

/// The directional inputs held during one frame, and whether auto-rotation was toggled.
#[derive(Clone, Copy, Debug, PartialEq, Eq, Structural)]
pub struct CameraInput {
    pub closer: bool,
    pub farther: bool,
    pub left: bool,
    pub right: bool,
    pub down: bool,
    pub up: bool,
    pub toggle_auto_rotate: bool,
}

impl CameraController {
    /// The camera's coordinates lie in their ranges.
    pub open spec fn wf(&self) -> bool {
        &&& MIN_DISTANCE <= self.distance <= MAX_DISTANCE
        &&& self.azimuth < FULL_TURN
        &&& -MAX_ELEVATION <= self.elevation <= MAX_ELEVATION
    }
}

/// The distance after one frame of `dt` milliseconds.
pub open spec fn next_distance(d: int, input: CameraInput, dt: int) -> int {
    let d1 = if input.closer {
        if d - ZOOM_RATE * dt < MIN_DISTANCE { MIN_DISTANCE as int } else { d - ZOOM_RATE * dt }
    } else {
        d
    };
    if input.farther {
        if d1 + ZOOM_RATE * dt > MAX_DISTANCE { MAX_DISTANCE as int } else { d1 + ZOOM_RATE * dt }
    } else {
        d1
    }
}

/// The auto-rotation flag after one frame.
pub open spec fn next_auto_rotate(auto: bool, input: CameraInput) -> bool {
    if input.toggle_auto_rotate { !auto } else { auto }
}

/// The change of azimuth over one frame, in milliradians.
pub open spec fn azimuth_turn(auto: bool, input: CameraInput, dt: int) -> int {
    (if input.right { dt } else { 0 }) - (if input.left { dt } else { 0 }) + (if next_auto_rotate(
        auto,
        input,
    ) {
        dt / (AUTO_ROTATE_DIVISOR as int)
    } else {
        0
    })
}

/// The elevation after one frame.
pub open spec fn next_elevation(e: int, input: CameraInput, dt: int) -> int {
    let e1 = if input.down {
        if e - dt < -MAX_ELEVATION { -MAX_ELEVATION as int } else { e - dt }
    } else {
        e
    };
    if input.up {
        if e1 + dt > MAX_ELEVATION { MAX_ELEVATION as int } else { e1 + dt }
    } else {
        e1
    }
}

/// The camera after one frame of `dt` milliseconds with the given inputs.
pub open spec fn next_camera(c: CameraController, input: CameraInput, dt: int) -> CameraController {
    CameraController {
        distance: next_distance(c.distance as int, input, dt) as u64,
        azimuth: ((c.azimuth + azimuth_turn(c.auto_rotate, input, dt)) % (FULL_TURN as int)) as u64,
        elevation: next_elevation(c.elevation as int, input, dt) as i64,
        target: c.target,
        auto_rotate: next_auto_rotate(c.auto_rotate, input),
    }
}

/// Applies one frame of `dt` milliseconds of input to the camera. Returns whether its
/// distance, azimuth or elevation changed, that is whether its pose must be recomputed.
pub fn camera_controller(c: &mut CameraController, input: CameraInput, dt: u64) -> (moved: bool)
    requires
        old(c).wf(),
        dt <= MAX_FRAME_MS,
    ensures
        *final(c) == next_camera(*old(c), input, dt as int),
        final(c).wf(),
        moved == (final(c).distance != old(c).distance || final(c).azimuth != old(c).azimuth
            || final(c).elevation != old(c).elevation),
{
    let d0: u64 = c.distance;
    let a0: u64 = c.azimuth;
    let e0: i64 = c.elevation;
    let step: u64 = ZOOM_RATE * dt;
    let mut d: u64 = d0;
    if input.closer {
        d = if d < MIN_DISTANCE + step { MIN_DISTANCE } else { d - step };
    }
    if input.farther {
        d = if d + step > MAX_DISTANCE { MAX_DISTANCE } else { d + step };
    }
    let dt_signed: i64 = dt as i64;
    let mut e: i64 = e0;
    if input.down {
        e = if e - dt_signed < -MAX_ELEVATION { -MAX_ELEVATION } else { e - dt_signed };
    }
    if input.up {
        e = if e + dt_signed > MAX_ELEVATION { MAX_ELEVATION } else { e + dt_signed };
    }
    if input.toggle_auto_rotate {
        c.auto_rotate = !c.auto_rotate;
    }
    // The azimuth is moved by a whole number of turns first, so that every term stays positive.
    let mut a: u64 = a0 + 17 * FULL_TURN;
    if input.right {
        a = a + dt;
    }
    if input.left {
        a = a - dt;
    }
    if c.auto_rotate {
        a = a + dt / AUTO_ROTATE_DIVISOR;
    }
    let a1: u64 = a % FULL_TURN;
    proof {
        let turn = azimuth_turn(old(c).auto_rotate, input, dt as int);
        assert(a == a0 + 17 * FULL_TURN + turn);
        vstd::arithmetic::div_mod::lemma_mod_add_multiples_vanish(
            a0 + turn,
            FULL_TURN as int,
        );
        assert((a0 + turn + 17 * FULL_TURN) % (FULL_TURN as int) == (a0 + turn) % (
        FULL_TURN as int)) by {
            vstd::arithmetic::div_mod::lemma_mod_multiples_vanish(17, a0 + turn, FULL_TURN as int);
        }
    }
    c.distance = d;
    c.azimuth = a1;
    c.elevation = e;
    d != d0 || a1 != a0 || e != e0
}

} // verus!
