use blackhole::camera::{camera_controller, CameraController, CameraInput, Point};
use blackhole::color::{temperature_to_color, Rgb};
use blackhole::disk::{seed_particles, temperature_at, update_particle_temperatures};
use blackhole::fixed::isqrt;
use blackhole::grid::{create_warp_grid_mesh, GridPoint};
use blackhole::orbit::{advance_particle, animate_accretion_disk, time_dilation, AccretionParticle, BlackHole};
use blackhole::scene::BlackHolePlugin;
use blackhole::shading::{animate_particles, relativistic_shading};
use blackhole::warp::{height_at, update_grid_warping};

fn scene_hole() -> BlackHole {
    BlackHole { mass: 10000, schwarzschild_radius: 1000, spin: 700 }
}

fn particle(r: u64) -> AccretionParticle {
    AccretionParticle {
        orbital_radius: r,
        angular_velocity: 1000,
        phase: 0,
        temperature: 6000,
        orbital_speed: 1000,
        last_stable_orbit: 3000,
    }
}

fn no_input() -> CameraInput {
    CameraInput {
        closer: false,
        farther: false,
        left: false,
        right: false,
        down: false,
        up: false,
        toggle_auto_rotate: false,
    }
}

fn camera(auto_rotate: bool) -> CameraController {
    CameraController {
        distance: 15000,
        azimuth: 0,
        elevation: 300,
        target: Point { x: 0, y: 0, z: 0 },
        auto_rotate,
    }
}

#[test]
fn cold_temperatures_clamp_to_floor() {
    let floor = temperature_to_color(1000);
    assert_eq!(floor, Rgb { r: 1000, g: 100, b: 0 });
    for t in [-5000i64, 0, 500, 999, 1000] {
        assert_eq!(temperature_to_color(t), floor);
    }
}

#[test]
fn hot_temperatures_clamp_to_ceiling() {
    let ceiling = temperature_to_color(50000);
    assert_eq!(ceiling, Rgb { r: 800, g: 800, b: 1000 });
    for t in [50000i64, 50001, 80000, i64::MAX] {
        assert_eq!(temperature_to_color(t), ceiling);
    }
}

#[test]
fn color_bands() {
    assert_eq!(temperature_to_color(2000), Rgb { r: 1000, g: 250, b: 0 });
    assert_eq!(temperature_to_color(4000), Rgb { r: 1000, g: 600, b: 100 });
    assert_eq!(temperature_to_color(7500), Rgb { r: 1000, g: 900, b: 500 });
    assert_eq!(temperature_to_color(30000), Rgb { r: 900, g: 850, b: 1000 });
}

#[test]
fn grid_counts_and_neighbours() {
    for size in [0usize, 1, 2, 5, 30] {
        let m = create_warp_grid_mesh(size, 1000);
        assert_eq!(m.positions.len(), (size + 1) * (size + 1));
        assert_eq!(m.indices.len() / 2, 2 * size * (size + 1));
        for pair in m.indices.chunks(2) {
            let (a, b) = (pair[0] as usize, pair[1] as usize);
            let same_row = b == a + 1 && a % (size + 1) < size;
            let same_column = b == a + size + 1;
            assert!(same_row || same_column);
            assert!(b < m.positions.len());
        }
    }
}

#[test]
fn grid_is_centered() {
    let m = create_warp_grid_mesh(2, 1000);
    assert_eq!(m.positions[0], GridPoint { x: -1000, y: 0, z: -1000 });
    assert_eq!(m.positions[4], GridPoint { x: 0, y: 0, z: 0 });
    assert_eq!(m.positions[8], GridPoint { x: 1000, y: 0, z: 1000 });
    assert_eq!(&m.indices[0..4], &[0, 1, 1, 2]);
    assert_eq!(&m.indices[12..14], &[0, 3]);
}

#[test]
fn integer_square_roots() {
    assert_eq!(isqrt(0), 0);
    assert_eq!(isqrt(1), 1);
    assert_eq!(isqrt(15), 3);
    assert_eq!(isqrt(16), 4);
    assert_eq!(isqrt(u64::MAX), 4294967295);
}

#[test]
fn dilation_values() {
    assert_eq!(time_dilation(2000, 1000), 707);
    assert_eq!(time_dilation(1050, 1000), 100);
    assert_eq!(time_dilation(1000000, 1000), 999);
}

#[test]
fn step_drifts_inward() {
    let bh = scene_hole();
    let mut p = particle(5000);
    advance_particle(&mut p, &bh, 16, 0, 0);
    assert_eq!(p.orbital_radius, 4999);
    for r in [1011u64, 1200, 3000, 50000] {
        let mut q = particle(r);
        advance_particle(&mut q, &bh, 16, 0, 0);
        assert!(q.orbital_radius < r);
    }
}

#[test]
fn step_advances_and_wraps_phase() {
    let bh = scene_hole();
    let mut p = particle(5000);
    p.phase = 6000;
    p.angular_velocity = 1000000;
    advance_particle(&mut p, &bh, 16, 0, 0);
    assert_eq!(p.phase, 1455);
}

#[test]
fn step_recycles_inside_boundary() {
    let bh = scene_hole();
    let mut p = particle(1009);
    advance_particle(&mut p, &bh, 16, 500, 42);
    assert_eq!(p.orbital_radius, 3500);
    assert_eq!(p.angular_velocity, 845);
    assert_eq!(p.phase, 42);
    assert!(p.orbital_radius >= p.last_stable_orbit);
}

#[test]
fn disk_animation_keeps_particles_in_range() {
    let bh = scene_hole();
    let mut rng = fastrand::Rng::with_seed(7);
    let mut ps = vec![particle(1005), particle(1009), particle(4000), particle(20000)];
    for _ in 0..50 {
        animate_accretion_disk(&mut ps, &bh, 16, &mut rng);
    }
    assert_eq!(ps.len(), 4);
    for p in &ps {
        assert!(p.orbital_radius >= 1010);
        assert!(p.phase < 6283);
    }
    assert!(ps[0].orbital_radius >= 2900 && ps[0].orbital_radius <= 23000);
}

#[test]
fn temperature_model_value() {
    let bh = scene_hole();
    assert_eq!(temperature_at(&bh, 10000), 11642);
    let mut ps = vec![particle(10000)];
    update_particle_temperatures(&mut ps, &bh);
    assert_eq!(ps[0].temperature, 11642);
    assert_eq!(ps[0].orbital_radius, 10000);
}

#[test]
fn seeded_disk_is_in_range() {
    let bh = scene_hole();
    let mut rng = fastrand::Rng::with_seed(1);
    let ps = seed_particles(&bh, 500, 3000, 50000, &mut rng);
    assert_eq!(ps.len(), 500);
    assert_eq!(ps[0].orbital_radius, 3000);
    assert_eq!(ps[499].orbital_radius, 50000);
    for p in &ps {
        assert!(p.orbital_radius >= 3000 && p.orbital_radius <= 50000);
        assert!(p.temperature > 0);
        assert_eq!(p.last_stable_orbit, 3000);
    }
}

#[test]
fn stationary_particle_is_not_shifted() {
    let s = relativistic_shading(6000, 1000, 500);
    assert_eq!(s.doppler, 1000000);
    assert_eq!(s.shifted_temperature, 6000);
    assert_eq!(s.intensity, 1500);
    assert_eq!(s.emissive, Rgb { r: 1500, g: 1260, b: 480 });
}

#[test]
fn approaching_particle_is_beamed() {
    let s = relativistic_shading(6000, 29980 * 600000, 1000);
    assert_eq!(s.doppler, 2000000);
    assert_eq!(s.shifted_temperature, 12000);
    assert_eq!(s.intensity, 5500);
}

#[test]
fn shading_pass_covers_every_particle() {
    let ps = vec![particle(3000), particle(4000)];
    let m = animate_particles(&ps, &vec![0, -1000]);
    assert_eq!(m.len(), 2);
    assert_eq!(m[0].intensity, 1500);
}

#[test]
fn warp_well_and_curvature() {
    assert_eq!(height_at(1000, 0), -10000);
    assert_eq!(height_at(1000, 50), -10000);
    assert_eq!(height_at(1000, 100), -10000);
    assert_eq!(height_at(1000, 1000), -6978);
    let mut last = height_at(1000, 101);
    for r in [150u64, 500, 1000, 2000, 5000, 20000, 100000] {
        let h = height_at(1000, r);
        assert!(h >= last);
        assert!(h < 0);
        last = h;
    }
}

#[test]
fn warping_sets_heights() {
    let mut m = create_warp_grid_mesh(2, 1000);
    let indices = m.indices.clone();
    update_grid_warping(&mut m, 1000);
    assert_eq!(m.positions[4], GridPoint { x: 0, y: -10000, z: 0 });
    assert_eq!(m.positions[1].y, height_at(1000, 1000));
    assert_eq!(m.positions[0].y, height_at(1000, 1414));
    assert_eq!(m.indices, indices);
}

#[test]
fn camera_zoom_and_limits() {
    let mut c = camera(false);
    let mut input = no_input();
    input.closer = true;
    assert!(camera_controller(&mut c, input, 1000));
    assert_eq!(c.distance, 10000);
    assert!(camera_controller(&mut c, input, 5000));
    assert_eq!(c.distance, 2000);
    assert!(!camera_controller(&mut c, input, 1000));
    let mut up = no_input();
    up.up = true;
    camera_controller(&mut c, up, 5000);
    assert_eq!(c.elevation, 1500);
}

#[test]
fn camera_rotation_and_toggle() {
    let mut c = camera(true);
    assert!(camera_controller(&mut c, no_input(), 100));
    assert_eq!(c.azimuth, 20);
    let mut toggle = no_input();
    toggle.toggle_auto_rotate = true;
    assert!(!camera_controller(&mut c, toggle, 100));
    assert!(!c.auto_rotate);
    assert_eq!(c.azimuth, 20);
    let mut left = no_input();
    left.left = true;
    assert!(camera_controller(&mut c, left, 100));
    assert_eq!(c.azimuth, 6203);
    assert!(!camera_controller(&mut c, no_input(), 100));
}

#[test]
fn scene_setup_and_frames() {
    let mut rng = fastrand::Rng::with_seed(3);
    let mut s = BlackHolePlugin::setup_blackhole(&mut rng);
    assert_eq!(s.particles.len(), 500);
    assert_eq!(s.mesh.positions.len(), 31 * 31);
    assert_eq!(s.mesh.indices.len(), 2 * 2 * 30 * 31);
    for p in &s.particles {
        assert!(p.orbital_radius >= 3000 && p.orbital_radius <= 50000);
        assert!(p.temperature > 0);
    }
    let cos = vec![0i64; 500];
    for _ in 0..10 {
        let (materials, moved) = s.frame(16, no_input(), &cos, &mut rng);
        assert_eq!(materials.len(), 500);
        assert!(moved);
    }
    assert_eq!(s.camera.azimuth, 30);
    for p in &s.particles {
        assert!(p.orbital_radius >= 1010);
        assert_eq!(p.temperature as u64, temperature_at(&s.black_hole, p.orbital_radius));
    }
}

#[test]
fn seeded_temperatures_are_scattered() {
    let bh = scene_hole();
    let mut rng = fastrand::Rng::with_seed(11);
    let ps = seed_particles(&bh, 500, 3000, 50000, &mut rng);
    let mut below_full = 0;
    for p in &ps {
        let full = 10 * isqrt(isqrt(1000000000000 * bh.mass / p.orbital_radius));
        assert!(p.temperature <= full && p.temperature >= full / 2);
        if p.temperature < full {
            below_full += 1;
        }
    }
    assert!(below_full > 0);
}

#[test]
fn recycled_particles_land_in_the_band() {
    let bh = scene_hole();
    let mut rng = fastrand::Rng::with_seed(5);
    let mut ps = vec![particle(1005); 64];
    animate_accretion_disk(&mut ps, &bh, 16, &mut rng);
    let mut beyond_orbit = 0;
    for p in &ps {
        assert!(p.orbital_radius >= 3000 && p.orbital_radius <= 23000);
        assert!(p.phase < 6283);
        if p.orbital_radius > 3000 {
            beyond_orbit += 1;
        }
    }
    assert!(beyond_orbit > 0);
}

#[test]
fn stars_lie_in_their_shell() {
    let mut rng = fastrand::Rng::with_seed(9);
    let stars = blackhole::disk::scatter_stars(200, &mut rng);
    assert_eq!(stars.len(), 200);
    for s in &stars {
        assert!(s.distance >= 100000 && s.distance <= 300000);
        assert!(s.theta < 6283);
        assert!(s.phi <= 3141);
    }
    assert!(stars.iter().any(|s| s.distance != stars[0].distance));
}
