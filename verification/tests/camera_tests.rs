//! The camera's behavior: clamping, rotation, movement, and the two
//! matrix derivations, checked against exact expected values and against
//! a floating-point reference.

use glcam::camera::{Camera, CameraOptions, Way, ZOOM_MAX, ZOOM_MIN, PITCH_MAX, PITCH_MIN};
use glcam::fixed::SCALE;
use glcam::init::standard_camera;
use glcam::vec3::Vec3;
use cgmath::{perspective, Deg, InnerSpace, Matrix4, Point3, Vector3};

const ASPECT: i64 = 1_285_714;

fn demo_camera() -> Camera {
    standard_camera(ASPECT)
}

fn norm_f64(v: Vec3) -> f64 {
    let x = v.x as f64 / SCALE as f64;
    let y = v.y as f64 / SCALE as f64;
    let z = v.z as f64 / SCALE as f64;
    (x * x + y * y + z * z).sqrt()
}

#[test]
fn pitch_clamps_to_band() {
    let mut camera = demo_camera();
    camera.rotate(1000 * SCALE, 0);
    assert_eq!(camera.pitch, PITCH_MAX);
    camera.rotate(-5 * SCALE, 0);
    assert_eq!(camera.pitch, 84 * SCALE);
    camera.rotate(-1000 * SCALE, 0);
    assert_eq!(camera.pitch, PITCH_MIN);
    for _ in 0..50 {
        camera.rotate(-37 * SCALE, 11 * SCALE);
        assert!(PITCH_MIN <= camera.pitch && camera.pitch <= PITCH_MAX);
        camera.rotate(53 * SCALE, -7 * SCALE);
        assert!(PITCH_MIN <= camera.pitch && camera.pitch <= PITCH_MAX);
    }
}

#[test]
fn zoom_clamps_to_band() {
    let mut camera = demo_camera();
    assert_eq!(camera.zoom, 45 * SCALE);
    camera.shift_zoom(-7 * SCALE);
    assert_eq!(camera.zoom, 38 * SCALE);
    for _ in 0..20 {
        camera.shift_zoom(-9 * SCALE);
        assert!(ZOOM_MIN <= camera.zoom && camera.zoom <= ZOOM_MAX);
        camera.shift_zoom(4 * SCALE);
        assert!(ZOOM_MIN <= camera.zoom && camera.zoom <= ZOOM_MAX);
    }
}

#[test]
fn zoom_scenario_hits_both_bounds() {
    let mut camera = demo_camera();
    camera.shift_zoom(100 * SCALE);
    assert_eq!(camera.zoom, 45 * SCALE);
    camera.shift_zoom(-100 * SCALE);
    assert_eq!(camera.zoom, 25 * SCALE);
}

#[test]
fn front_stays_unit_length() {
    let mut camera = demo_camera();
    let deltas = [
        (0i64, 90i64),
        (33, -17),
        (-88, 1234),
        (500, 500),
        (-500, -3),
        (13, 359),
    ];
    for (dp, dy) in deltas {
        camera.rotate(dp * SCALE, dy * SCALE);
        let n = norm_f64(camera.front);
        assert!((n - 1.0).abs() < 1e-4, "norm {} after {} {}", n, dp, dy);
    }
    // Fractional deltas keep the invariant too.
    camera.rotate(123_456, 654_321);
    assert!((norm_f64(camera.front) - 1.0).abs() < 1e-4);
}

#[test]
fn full_turns_leave_front_unchanged() {
    let mut camera = demo_camera();
    camera.rotate(10 * SCALE, 23 * SCALE);
    let reference = camera.front;
    for _ in 0..8 {
        camera.rotate(0, 360 * SCALE);
        assert_eq!(camera.front, reference);
    }
}

#[test]
fn front_tracks_reference_trigonometry() {
    let mut camera = demo_camera();
    camera.rotate(20 * SCALE + 500_000, 75 * SCALE + 250_000);
    let yaw = camera.yaw as f64 / SCALE as f64;
    let pitch = camera.pitch as f64 / SCALE as f64;
    let expect_x = yaw.to_radians().cos() * pitch.to_radians().cos();
    let expect_y = pitch.to_radians().sin();
    let expect_z = yaw.to_radians().sin() * pitch.to_radians().cos();
    assert!((camera.front.x as f64 / SCALE as f64 - expect_x).abs() < 2e-4);
    assert!((camera.front.y as f64 / SCALE as f64 - expect_y).abs() < 2e-4);
    assert!((camera.front.z as f64 / SCALE as f64 - expect_z).abs() < 2e-4);
}

#[test]
fn ground_lock_holds_with_fly_off() {
    let straight_up = Vec3 { x: 0, y: SCALE, z: 0 };
    let mut walker = CameraOptions::new()
        .position(Vec3 { x: 0, y: 0, z: 0 })
        .front(straight_up)
        .up(Vec3 { x: 0, y: SCALE, z: 0 })
        .fly(false)
        .build();
    walker.go(Way::Forward(10 * SCALE));
    assert_eq!(walker.position.y, 0);

    let mut flyer = CameraOptions::new()
        .position(Vec3 { x: 0, y: 0, z: 0 })
        .front(straight_up)
        .up(Vec3 { x: 0, y: SCALE, z: 0 })
        .fly(true)
        .build();
    flyer.go(Way::Forward(10 * SCALE));
    assert_eq!(flyer.position.y, 10 * SCALE);
}

#[test]
fn rotation_then_step_scenario() {
    let mut camera = demo_camera();
    assert_eq!(camera.position, Vec3 { x: 0, y: 0, z: 3 * SCALE });
    assert_eq!(camera.front, Vec3 { x: 0, y: 0, z: -SCALE });
    assert_eq!(camera.yaw, -90 * SCALE);

    camera.rotate(0, 90 * SCALE);
    assert_eq!(camera.yaw, 0);
    assert_eq!(camera.front, Vec3 { x: SCALE, y: 0, z: 0 });

    camera.go(Way::Forward(SCALE));
    assert_eq!(camera.position, Vec3 { x: SCALE, y: 0, z: 3 * SCALE });
}

#[test]
fn strafing_moves_along_the_right_vector() {
    let mut camera = demo_camera();
    // Looking along negative depth with a vertical up: right is positive x.
    camera.go(Way::Right(2 * SCALE));
    assert_eq!(camera.position, Vec3 { x: 2 * SCALE, y: 0, z: 3 * SCALE });
    camera.go(Way::Left(2 * SCALE));
    assert_eq!(camera.position, Vec3 { x: 0, y: 0, z: 3 * SCALE });
    camera.go(Way::Backward(SCALE));
    assert_eq!(camera.position, Vec3 { x: 0, y: 0, z: 4 * SCALE });
}

#[test]
fn view_matches_look_at_exactly() {
    let mut camera = demo_camera();
    camera.rotate(7 * SCALE, -31 * SCALE);
    camera.go(Way::Forward(3 * SCALE));
    let view = camera.view();
    let center = Vec3 {
        x: camera.position.x + camera.front.x,
        y: camera.position.y + camera.front.y,
        z: camera.position.z + camera.front.z,
    };
    let look_at = Camera::look_at_rh(camera.position, center, camera.up);
    for i in 0..16 {
        assert_eq!(view.entry(i), look_at.entry(i), "entry {}", i);
    }
}

#[test]
fn view_matches_reference_look_at() {
    let mut camera = demo_camera();
    camera.rotate(-12 * SCALE, 40 * SCALE);
    let view = camera.view();

    let s = SCALE as f32;
    let pos = Point3::new(
        camera.position.x as f32 / s,
        camera.position.y as f32 / s,
        camera.position.z as f32 / s,
    );
    let front = Vector3::new(
        camera.front.x as f32 / s,
        camera.front.y as f32 / s,
        camera.front.z as f32 / s,
    ).normalize();
    let up = Vector3::new(0.0f32, 1.0, 0.0);
    let reference: Matrix4<f32> = Matrix4::look_at_rh(pos, pos + front, up);
    let flat: &[f32; 16] = reference.as_ref();
    for i in 0..16 {
        let got = view.entry(i) as f32 / s;
        assert!(
            (got - flat[i]).abs() < 1e-3,
            "entry {}: got {} reference {}",
            i, got, flat[i]
        );
    }
}

#[test]
fn projection_matches_reference_perspective() {
    let camera = demo_camera();
    let proj = camera.projection();
    let s = SCALE as f32;
    let reference: Matrix4<f32> =
        perspective(Deg(45.0f32), ASPECT as f32 / s, 0.1, 100.0);
    let flat: &[f32; 16] = reference.as_ref();
    for i in 0..16 {
        let got = proj.entry(i) as f32 / s;
        assert!(
            (got - flat[i]).abs() < 1e-3,
            "entry {}: got {} reference {}",
            i, got, flat[i]
        );
    }
}

#[test]
fn builder_defaults_are_permissive_zeros() {
    let camera = CameraOptions::new().build();
    assert_eq!(camera.position, Vec3 { x: 0, y: 0, z: 0 });
    assert_eq!(camera.front, Vec3 { x: 0, y: 0, z: 0 });
    assert_eq!(camera.up, Vec3 { x: 0, y: 0, z: 0 });
    assert_eq!(camera.zoom, 0);
    assert_eq!(camera.aspect_ratio, 0);
    assert_eq!(camera.yaw, 0);
    assert_eq!(camera.pitch, 0);
    assert!(camera.fly);
}
