use vstd::prelude::*;
use crate::camera::{camera_controller, next_camera, CameraController, CameraInput, Point};
use crate::disk::{disk_temperature, is_background_star, is_seeded, scatter_stars, seed_particles, update_particle_temperatures, Star};
use crate::grid::{create_warp_grid_mesh, GridMesh, GridPoint, WarpGrid};
use crate::orbit::{animate_accretion_disk, is_frame_step, AccretionParticle, BlackHole, MAX_FRAME_MS, MAX_RADIUS};
use crate::shading::{animate_particles, shading_of, ParticleMaterial};
use crate::warp::{planar_distance, update_grid_warping, warp_height, MAX_WARP_HORIZON};

verus! {

/// Mass of the black hole of the scene, in thousandths.
pub const SCENE_MASS: u64 = 10000;

/// Schwarzschild radius of the black hole of the scene, in thousandths of a unit.
pub const SCENE_HORIZON: u64 = 1000;

/// Spin of the black hole of the scene, in thousandths.
pub const SCENE_SPIN: u64 = 700;

/// Number of particles of the accretion disk.
pub const SCENE_PARTICLES: usize = 500;

/// Last stable orbit of the scene, in thousandths of a unit: three Schwarzschild radii.
pub const SCENE_LAST_STABLE_ORBIT: u64 = 3000;

/// Outer edge of the accretion disk, in thousandths of a unit: fifty Schwarzschild radii.
pub const SCENE_OUTER_RADIUS: u64 = 50000;

/// Number of cells along each side of the space-time grid.
pub const SCENE_GRID_SIZE: usize = 30;

/// Number of decorative background stars.
pub const SCENE_STARS: usize = 200;

/// Spacing of the space-time grid, in thousandths of a unit.
pub const SCENE_GRID_SPACING: i64 = 1000;

/// The whole simulation: the black hole, its accretion disk, the warped grid and the camera,
/// advanced frame by frame in a fixed order.
pub struct BlackHolePlugin {
    pub black_hole: BlackHole,
    pub particles: Vec<AccretionParticle>,
    pub grid: WarpGrid,
    pub mesh: GridMesh,
    pub camera: CameraController,
    pub stars: Vec<Star>,
}

/// The camera of a fresh scene: fifteen units out, slightly above the disk, rotating.
pub open spec fn initial_camera() -> CameraController {
    CameraController {
        distance: 15000,
        azimuth: 0,
        elevation: 300,
        target: Point { x: 0, y: 0, z: 0 },
        auto_rotate: true,
    }
}

/// The particle `q` with its temperature recomputed from its radius.
pub open spec fn heated(q: AccretionParticle, bh: BlackHole) -> AccretionParticle {
    AccretionParticle {
        temperature: disk_temperature(
            bh.mass as int,
            bh.schwarzschild_radius as int,
            q.orbital_radius as int,
        ) as u64,
        ..q
    }
}

/// `p1` is `p0` after one frame of `dt` milliseconds: one step of its orbit, for some landing
/// place if it was recycled, then its temperature recomputed.
pub open spec fn is_frame_of(p0: AccretionParticle, p1: AccretionParticle, bh: BlackHole, dt: int) -> bool {
    exists|q: AccretionParticle| #[trigger] is_frame_step(p0, q, bh, dt) && p1 == heated(q, bh)
}

impl BlackHolePlugin {
    /// Every part of the scene lies in its handled range.
    pub open spec fn wf(&self) -> bool {
        &&& self.black_hole.wf()
        &&& self.black_hole.schwarzschild_radius <= MAX_WARP_HORIZON
        &&& forall|i: int|
            0 <= i < self.particles@.len() ==> (#[trigger] self.particles@[i]).wf(self.black_hole)
        &&& forall|k: int|
            0 <= k < self.mesh.positions@.len() ==> {
                &&& -(MAX_RADIUS as int) <= #[trigger] self.mesh.positions@[k].x <= MAX_RADIUS
                &&& -(MAX_RADIUS as int) <= self.mesh.positions@[k].z <= MAX_RADIUS
            }
        &&& self.camera.wf()
    }

    /// Builds the scene: a black hole of mass ten and unit Schwarzschild radius, five hundred
    /// disk particles between three and fifty units, a thirty-cell grid of unit spacing, the
    /// camera, and two hundred background stars.
    pub fn setup_blackhole(rng: &mut fastrand::Rng) -> (s: BlackHolePlugin)
        ensures
            s.wf(),
            s.black_hole == (BlackHole {
                mass: SCENE_MASS,
                schwarzschild_radius: SCENE_HORIZON,
                spin: SCENE_SPIN,
            }),
            s.grid == (WarpGrid { size: SCENE_GRID_SIZE, spacing: SCENE_GRID_SPACING }),
            s.mesh.is_lattice(SCENE_GRID_SIZE as int, SCENE_GRID_SPACING as int),
            s.particles@.len() == SCENE_PARTICLES,
            forall|i: int|
                0 <= i < SCENE_PARTICLES ==> #[trigger] is_seeded(
                    s.particles@[i],
                    s.black_hole,
                    i,
                    SCENE_PARTICLES as int,
                    SCENE_LAST_STABLE_ORBIT as int,
                    SCENE_OUTER_RADIUS as int,
                ),
            s.camera == initial_camera(),
            s.stars@.len() == SCENE_STARS,
            forall|i: int| 0 <= i < SCENE_STARS ==> is_background_star(#[trigger] s.stars@[i]),
    {
        let black_hole = BlackHole {
            mass: SCENE_MASS,
            schwarzschild_radius: SCENE_HORIZON,
            spin: SCENE_SPIN,
        };
        let particles = seed_particles(
            &black_hole,
            SCENE_PARTICLES,
            SCENE_LAST_STABLE_ORBIT,
            SCENE_OUTER_RADIUS,
            rng,
        );
        let mesh = create_warp_grid_mesh(SCENE_GRID_SIZE, SCENE_GRID_SPACING);
        let stars = scatter_stars(SCENE_STARS, rng);
        let camera = CameraController {
            distance: 15000,
            azimuth: 0,
            elevation: 300,
            target: Point { x: 0, y: 0, z: 0 },
            auto_rotate: true,
        };
        BlackHolePlugin {
            black_hole,
            particles,
            grid: WarpGrid { size: SCENE_GRID_SIZE, spacing: SCENE_GRID_SPACING },
            mesh,
            camera,
            stars,
        }
    }

    /// Runs one frame of `dt` milliseconds: integrates the orbits, warps the grid, recomputes
    /// temperatures, shades the particles and moves the camera. `cos_thetas[i]` is the cosine,
    /// in thousandths, of the angle between particle `i`'s motion and the direction from it to
    /// the camera. Returns the particles' materials and whether the camera moved.
    pub fn frame(
        &mut self,
        dt: u64,
        input: CameraInput,
        cos_thetas: &Vec<i64>,
        rng: &mut fastrand::Rng,
    ) -> (out: (Vec<ParticleMaterial>, bool))
        requires
            old(self).wf(),
            dt <= MAX_FRAME_MS,
            cos_thetas@.len() == old(self).particles@.len(),
            forall|i: int| 0 <= i < cos_thetas@.len() ==> -1000 <= #[trigger] cos_thetas@[i] <= 1000,
        ensures
            final(self).wf(),
            final(self).black_hole == old(self).black_hole,
            final(self).grid == old(self).grid,
            final(self).stars@ == old(self).stars@,
            final(self).particles@.len() == old(self).particles@.len(),
            forall|i: int|
                0 <= i < final(self).particles@.len() ==> #[trigger] is_frame_of(
                    old(self).particles@[i],
                    final(self).particles@[i],
                    old(self).black_hole,
                    dt as int,
                ),
            final(self).mesh.indices@ == old(self).mesh.indices@,
            final(self).mesh.positions@.len() == old(self).mesh.positions@.len(),
            forall|k: int|
                0 <= k < final(self).mesh.positions@.len() ==> #[trigger] final(self).mesh.positions@[k]
                    == (GridPoint {
                    y: warp_height(
                        old(self).black_hole.schwarzschild_radius as int,
                        planar_distance(old(self).mesh.positions@[k]),
                    ) as i64,
                    ..old(self).mesh.positions@[k]
                }),
            out.0@.len() == final(self).particles@.len(),
            forall|i: int|
                0 <= i < out.0@.len() ==> #[trigger] out.0@[i] == shading_of(
                    final(self).particles@[i].temperature as int,
                    final(self).particles@[i].orbital_speed as int,
                    cos_thetas@[i] as int,
                ),
            final(self).camera == next_camera(old(self).camera, input, dt as int),
            out.1 == (final(self).camera.distance != old(self).camera.distance
                || final(self).camera.azimuth != old(self).camera.azimuth
                || final(self).camera.elevation != old(self).camera.elevation),
    {
        let bh: BlackHole = self.black_hole;
        let ghost before = self.particles@;
        animate_accretion_disk(&mut self.particles, &bh, dt, rng);
        let ghost stepped = self.particles@;
        update_grid_warping(&mut self.mesh, bh.schwarzschild_radius);
        update_particle_temperatures(&mut self.particles, &bh);
        assert forall|i: int| 0 <= i < self.particles@.len() implies #[trigger] is_frame_of(
            before[i],
            self.particles@[i],
            bh,
            dt as int,
        ) by {
            assert(is_frame_step(before[i], stepped[i], bh, dt as int));
            assert(self.particles@[i] == heated(stepped[i], bh));
        }
        assert forall|i: int| 0 <= i < self.particles@.len() implies (#[trigger] self.particles@[i]).wf(bh) by {
            assert(stepped[i].wf(bh));
        }
        let materials = animate_particles(&self.particles, cos_thetas);
        let moved = camera_controller(&mut self.camera, input, dt);
        (materials, moved)
    }
}

} // verus!
