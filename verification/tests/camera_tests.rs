//! Cameras: angle derivation, rotation chains, ray generation, and the
//! viewer-facing mutators.

use renderer::camera::{Camera, Dimensions};
use renderer::fisheye::FishEyeCamera;
use renderer::fixed::FX_ONE;
use renderer::matrix::Matrix;
use renderer::model::{Move, Rotate};
use renderer::perspective::PerspectiveCamera;
use renderer::vector::{Unit, Vector};

fn fx(v: f64) -> i64 {
    (v * 4294967296.0).round() as i64
}

fn unfx(v: i64) -> f64 {
    v as f64 / 4294967296.0
}

fn vec3(x: f64, y: f64, z: f64) -> Vector {
    Vector::new(fx(x), fx(y), fx(z), 0)
}

fn assert_close(a: f64, b: f64, tol: f64) {
    assert!((a - b).abs() <= tol, "{a} vs {b} (tol {tol})");
}

#[test]
fn test_straight_angles_definition() {
    let target_dir = Unit::new_normalize(vec3(0.0, -1.0, 0.0));
    let angles = PerspectiveCamera::define_angles(&target_dir);
    assert_close(unfx(angles[0]), 90f64.to_radians(), 0.002);
    assert_close(unfx(angles[1]), 180f64.to_radians(), 0.004);
}

#[test]
fn test_angles_definition() {
    let target_dir = Unit::new_normalize(vec3(1.0, 1.0, 0.0));
    let angles = PerspectiveCamera::define_angles(&target_dir);
    assert_close(unfx(angles[0]), 90f64.to_radians(), 0.002);
    assert_close(unfx(angles[1]), -45f64.to_radians(), 0.002);
}

#[test]
fn test_pitch_definition() {
    let target_dir = Unit::new_normalize(vec3(0.0, 1.0, 1.0));
    let angles = PerspectiveCamera::define_angles(&target_dir);
    assert_close(unfx(angles[0]), 135f64.to_radians(), 0.002);
}

#[test]
fn test_rotation_chain() {
    let target_dir = Unit::new_normalize(vec3(0.0, -1.0, 0.0));
    let angles = PerspectiveCamera::define_angles(&target_dir);
    let pitch_rot = Matrix::rotation_x(angles[0]).mul_vec(
        &PerspectiveCamera::default_dir().into_inner(),
    );
    let res_dir = Matrix::rotation_z(angles[1]).mul_vec(&pitch_rot);
    let t = target_dir.into_inner();
    assert_close(unfx(res_dir.x), unfx(t.x), 0.005);
    assert_close(unfx(res_dir.y), unfx(t.y), 0.005);
    assert_close(unfx(res_dir.z), unfx(t.z), 0.005);
}

#[test]
fn test_overall() {
    let pos = vec3(5.0, -5.0, 5.0);
    let target = vec3(0.0, 0.0, 0.0);
    let cam = PerspectiveCamera::new(
        pos,
        target,
        Dimensions { width: 40, height: 30 },
        fx(std::f64::consts::FRAC_PI_6),
    );
    assert_close(unfx(cam.rotation.yaw), 45f64.to_radians(), 0.002);
    let res_dir = cam.transition(&PerspectiveCamera::default_dir().into_inner());
    let inv = 1.0 / 75f64.sqrt();
    assert_close(unfx(res_dir.x), -5.0 * inv, 0.005);
    assert_close(unfx(res_dir.y), 5.0 * inv, 0.005);
    assert_close(unfx(res_dir.z), -5.0 * inv, 0.005);
}

#[test]
fn test_camera_center_ray() {
    let cam = PerspectiveCamera::new(
        vec3(0.0, -10.0, 0.0),
        vec3(0.0, 0.0, 0.0),
        Dimensions { width: 100, height: 100 },
        fx(std::f64::consts::FRAC_PI_2),
    );
    let ray = cam.gen_ray(50, 50);
    let d = ray.direction.into_inner();
    let reach = (
        unfx(ray.origin.x) + 10.0 * unfx(d.x),
        unfx(ray.origin.y) + 10.0 * unfx(d.y),
        unfx(ray.origin.z) + 10.0 * unfx(d.z),
    );
    assert_close(reach.0, 0.0, 1e-3);
    assert_close(reach.1, 0.0, 1e-3);
    assert_close(reach.2, 0.0, 1e-3);
}

#[test]
fn test_camera_mutators() {
    let mut cam = PerspectiveCamera::new(
        vec3(0.0, 0.0, 0.0),
        vec3(0.0, -10.0, 0.0),
        Dimensions { width: 10, height: 10 },
        fx(std::f64::consts::FRAC_PI_6),
    );
    cam.reposition_by(&vec3(0.0, 0.0, -3.0));
    assert_close(unfx(cam.pos.x), 0.0, 1e-3);
    assert_close(unfx(cam.pos.y), -3.0, 1e-3);
    assert_close(unfx(cam.pos.z), 0.0, 1e-3);
    cam.set_position(vec3(1.0, 2.0, 3.0));
    assert_eq!(cam.pos, vec3(1.0, 2.0, 3.0));
    let pitch_before = cam.rotation.pitch;
    cam.rotate_by(fx(0.25), fx(-0.5), 0);
    assert_close(unfx(cam.rotation.pitch), unfx(pitch_before) + 0.25, 1e-6);
    cam.set_rotation(fx(0.1), fx(0.2), fx(0.3));
    assert_eq!(cam.rotation.pitch, fx(0.1));
    assert_eq!(cam.rotation.yaw, fx(0.2));
    assert_eq!(cam.rotation.roll, fx(0.3));
}

#[test]
fn test_fisheye_bounds_and_center() {
    let cam = FishEyeCamera::new(
        vec3(0.0, 0.0, 0.0),
        0,
        0,
        fx(std::f64::consts::FRAC_PI_2),
        Dimensions { width: 101, height: 101 },
    );
    assert!(cam.get_vector(200, 0).is_none());
    assert!(cam.get_vector(0, 200).is_none());
    let ray = cam.get_vector(50, 50).expect("center pixel is in range");
    let d = ray.direction.into_inner();
    assert_close(unfx(d.x), 0.0, 1e-3);
    assert_close(unfx(d.y), 0.0, 1e-3);
    assert_close(unfx(d.z), -1.0, 1e-3);
    assert_eq!(cam.get_dimensions(), Dimensions { width: 101, height: 101 });
}
