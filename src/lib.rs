//! A black-hole accretion-disk simulation in fixed-point arithmetic: orbital decay with
//! time dilation, disk heating, relativistic shading, a warped space-time grid and a
//! free-orbit camera, each pass stated and proved against its mathematical model.
//!
//! Lengths are in thousandths of a unit, angles in milliradians, times in milliseconds,
//! temperatures in kelvin and color channels in thousandths.

pub mod camera;
pub mod color;
pub mod disk;
pub mod fixed;
pub mod grid;
pub mod orbit;
pub mod random;
pub mod scene;
pub mod shading;
pub mod warp;
