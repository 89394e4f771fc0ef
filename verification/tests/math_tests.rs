//! The fixed-point arithmetic, the table trigonometry, and the matrix
//! and shape layers underneath the camera.

use glcam::entities::{bald_cube, cube_indices, normalized_cube, textured_cube, Shape, Triangle, VertLine};
use glcam::fixed::{clamp, fxdiv, fxmul, isqrt, trunc_div, SCALE};
use glcam::frame_rate::FrameRate;
use glcam::gl::{Command, Gl, ARRAY_BUFFER};
use glcam::mat4::{mat_mul, Mat4};
use glcam::movement::{MoveBitMap, Way};
use glcam::roller::Roller;
use glcam::trig::{cos_fp, sin_fp};
use glcam::vec3::Vec3;
use glcam::Error;

#[test]
fn fixed_point_operations_are_exact() {
    assert_eq!(fxmul(2 * SCALE, 3 * SCALE), 6 * SCALE);
    assert_eq!(fxmul(-2 * SCALE, 3 * SCALE), -6 * SCALE);
    assert_eq!(fxmul(1, 1), 0);
    assert_eq!(fxdiv(SCALE, 2 * SCALE), 500_000);
    assert_eq!(fxdiv(-SCALE, 3 * SCALE), -333_333);
    assert_eq!(trunc_div(-7, 2), -3);
    assert_eq!(clamp(10, 0, 5), 5);
    assert_eq!(clamp(-10, 0, 5), 0);
    assert_eq!(clamp(3, 0, 5), 3);
    assert_eq!(isqrt(0), 0);
    assert_eq!(isqrt(1), 1);
    assert_eq!(isqrt(999_999_999_999), 999_999);
    assert_eq!(isqrt(1_000_000_000_000), 1_000_000);
}

#[test]
fn trigonometry_hits_exact_table_values() {
    assert_eq!(sin_fp(0), 0);
    assert_eq!(sin_fp(30 * SCALE), 500_000);
    assert_eq!(sin_fp(90 * SCALE), SCALE);
    assert_eq!(sin_fp(180 * SCALE), 0);
    assert_eq!(sin_fp(270 * SCALE), -SCALE);
    assert_eq!(sin_fp(-90 * SCALE), -SCALE);
    assert_eq!(cos_fp(0), SCALE);
    assert_eq!(cos_fp(60 * SCALE), 500_000);
    assert_eq!(cos_fp(90 * SCALE), 0);
    assert_eq!(cos_fp(180 * SCALE), -SCALE);
}

#[test]
fn trigonometry_is_periodic_and_tracks_the_reference() {
    let samples = [
        -1234 * SCALE + 777,
        -300 * SCALE,
        -1,
        0,
        123_456,
        45 * SCALE,
        89 * SCALE + 999_999,
        359 * SCALE,
        123_456_789_012,
    ];
    for a in samples {
        assert_eq!(sin_fp(a + 360 * SCALE), sin_fp(a));
        assert_eq!(cos_fp(a + 360 * SCALE), cos_fp(a));
        let deg = a as f64 / SCALE as f64;
        let s = sin_fp(a) as f64 / SCALE as f64;
        let c = cos_fp(a) as f64 / SCALE as f64;
        assert!((s - deg.to_radians().sin()).abs() < 1e-4, "sin at {}", deg);
        assert!((c - deg.to_radians().cos()).abs() < 1e-4, "cos at {}", deg);
    }
}

#[test]
fn identity_is_neutral_for_matrix_multiplication() {
    let one = Mat4::one();
    let rot = Mat4::from_angle_z(37 * SCALE);
    let left = mat_mul(&one, &rot);
    let right = mat_mul(&rot, &one);
    for i in 0..16 {
        assert_eq!(left.entry(i), rot.entry(i));
        assert_eq!(right.entry(i), rot.entry(i));
    }
}

#[test]
fn quarter_turn_about_depth_swaps_axes() {
    let rot = Mat4::from_angle_z(90 * SCALE);
    assert_eq!(rot.entry(0), 0);
    assert_eq!(rot.entry(1), SCALE);
    assert_eq!(rot.entry(4), -SCALE);
    assert_eq!(rot.entry(5), 0);
    assert_eq!(rot.entry(10), SCALE);
    assert_eq!(rot.entry(15), SCALE);
}

#[test]
fn roller_accumulates_roll_and_keeps_a_matrix() {
    let mut roller = Roller::new(Vec3 { x: 0, y: 3 * SCALE, z: 10 * SCALE }, 45 * SCALE);
    roller.add_rot_z(20 * SCALE);
    roller.add_rot_z(15 * SCALE);
    assert_eq!(roller.rot_z, 35 * SCALE);
    let m = roller.model_matrix();
    // The second row of the turn-then-roll rotation is (sin 35, cos 35, 0),
    // so the transformed translation's vertical entry is cos 35 times 3.
    assert_eq!(m.entry(13), 3 * 819_152);
    assert_eq!(m.entry(15), SCALE);
}

#[test]
fn move_bitmap_tracks_keys_independently() {
    let map = MoveBitMap::default();
    assert!(!map.has(Way::Forward));
    let map = map.set(Way::Forward).set(Way::Left);
    assert!(map.has(Way::Forward));
    assert!(map.has(Way::Left));
    assert!(!map.has(Way::Backward));
    assert!(!map.has(Way::Right));
    let map = map.unset(Way::Forward);
    assert!(!map.has(Way::Forward));
    assert!(map.has(Way::Left));
}

#[test]
fn frame_rate_advances_and_refuses_backwards_clocks() {
    let mut rate = FrameRate { last: 1_000, duration: 0 };
    assert_eq!(rate.advance(1_016), Ok(()));
    assert_eq!(rate.last, 1_016);
    assert_eq!(rate.duration, 16);
    assert_eq!(rate.advance(1_000), Err(Error::ClockWentBackwards));
    assert_eq!(rate.last, 1_016);
    let mut started = FrameRate::start();
    assert_eq!(started.duration, 0);
    assert_eq!(started.update(), Ok(()));
}

#[test]
fn cube_shapes_record_their_uploads() {
    let mut gl = Gl::new();
    let cube = textured_cube(&mut gl);
    assert_eq!(cube.vbo, 1);
    assert_eq!(cube.vao, 2);
    // Uploading: three handles, bind, vertex data, index bind, index
    // data, three attribute pairs' worth of layout, two unbinds.
    assert_eq!(gl.commands.len(), 16);
    match &gl.commands[5] {
        Command::BufferData { target, data, .. } => {
            assert_eq!(*target, ARRAY_BUFFER);
            assert_eq!(data.len(), 8 * 8);
            assert_eq!(data[0], -500_000);
        }
        other => panic!("unexpected command {:?}", other),
    }
    match &gl.commands[7] {
        Command::BufferIndexData { data, .. } => {
            assert_eq!(data.len(), 36);
        }
        other => panic!("unexpected command {:?}", other),
    }

    let mut gl = Gl::new();
    let plain = bald_cube(&mut gl);
    assert_eq!(plain.vao, 2);

    let mut gl = Gl::new();
    let normals = normalized_cube(&mut gl);
    assert_eq!(normals.vao, 2);
    match &gl.commands[4] {
        Command::BufferData { data, .. } => {
            assert_eq!(data.len(), 36 * 8);
        }
        other => panic!("unexpected command {:?}", other),
    }
    assert_eq!(cube_indices().len(), 36);
}

#[test]
fn simple_shapes_bind_and_update() {
    let mut gl = Gl::new();
    let triangle = Triangle::new(&mut gl);
    triangle.bind(&mut gl);
    triangle.unbind(&mut gl);
    let n = gl.commands.len();
    assert_eq!(gl.commands[n - 2], Command::BindVertexArray { id: triangle.vao });
    assert_eq!(gl.commands[n - 1], Command::BindVertexArray { id: 0 });

    let mut gl = Gl::new();
    let mut line = VertLine::new(&mut gl);
    line.x = 250_000;
    let before = gl.commands.len();
    line.update(&mut gl);
    assert_eq!(gl.commands.len(), before + 3);
    match &gl.commands[before + 1] {
        Command::BufferData { data, .. } => {
            assert_eq!(data[0], 250_000);
            assert_eq!(data[3], 250_000);
        }
        other => panic!("unexpected command {:?}", other),
    }

    let mut gl = Gl::new();
    let quad = Shape::parallelogram(&mut gl);
    assert_eq!(quad.vao, 2);
    let tri = Shape::triangle(&mut gl);
    assert_eq!(tri.vao, 5);
}
