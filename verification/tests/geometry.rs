//! Geometry: fixed-point scalars, refraction, primitives, and the scene
//! nearest-hit query.

use renderer::fixed::{fx_mul, fx_sqrt, FX_ONE};
use renderer::color::{Rgb, RgbIntensity};
use renderer::material::Material;
use renderer::model::Model;
use renderer::ray::Ray;
use renderer::scene::Scene;
use renderer::sphere::SphereModel;
use renderer::torus::TorusModel;
use renderer::triangle::Triangle;
use renderer::vector::{Unit, Vector};

fn fx(v: f64) -> i64 {
    (v * 4294967296.0).round() as i64
}

fn unfx(v: i64) -> f64 {
    v as f64 / 4294967296.0
}

fn vec3(x: f64, y: f64, z: f64) -> Vector {
    Vector::new(fx(x), fx(y), fx(z), 0)
}

fn assert_close(a: f64, b: f64, tol: f64) {
    assert!((a - b).abs() <= tol, "{a} vs {b} (tol {tol})");
}

#[test]
fn test_fixed_point_ops_exact() {
    assert_eq!(fx_mul(fx(0.5), fx(0.5)), fx(0.25));
    assert_eq!(fx_mul(fx(-3.0), fx(2.0)), fx(-6.0));
    assert_eq!(fx_sqrt(fx(4.0)), fx(2.0));
    assert_eq!(fx_sqrt(fx(81.0)), fx(9.0));
    assert_eq!(fx_sqrt(-FX_ONE), 0);
}

#[test]
fn test_pixel_conversion_exact() {
    let c = Rgb(RgbIntensity::new(fx(0.5), fx(-1.0), fx(2.0)));
    assert_eq!(c.to_pixel(), [128, 0, 255]);
    let back = Rgb::from_pixel([255, 0, 51]);
    assert_close(unfx(back.r), 1.0, 1e-6);
    assert_close(unfx(back.g), 0.0, 1e-9);
    assert_close(unfx(back.b), 0.2, 1e-6);
}

#[test]
fn test_sphere_axis_hit() {
    let sphere = SphereModel::new(vec3(0.0, 0.0, 0.0), FX_ONE, Material::base());
    let ray = Ray::new(vec3(0.0, -10.0, 0.0), Unit::new_normalize(vec3(0.0, 1.0, 0.0)), FX_ONE);
    let hit = sphere.hit(&ray).expect("the axis ray must hit the unit sphere");
    assert_eq!(hit.factor, 9 * FX_ONE);
    let n = hit.normal.into_inner();
    assert_eq!(n.x, 0);
    assert_eq!(n.y, -FX_ONE);
    assert_eq!(n.z, 0);
}

#[test]
fn test_sphere_miss() {
    let sphere = SphereModel::new(vec3(0.0, 0.0, 0.0), FX_ONE, Material::base());
    let ray = Ray::new(vec3(0.0, -10.0, 5.0), Unit::new_normalize(vec3(0.0, 1.0, 0.0)), FX_ONE);
    assert!(sphere.hit(&ray).is_none());
}

fn unit_triangle() -> Triangle {
    Triangle::new(
        Unit::new_unchecked(vec3(0.0, 0.0, 1.0)),
        &[vec3(0.0, 0.0, 0.0), vec3(1.0, 0.0, 0.0), vec3(0.0, 1.0, 0.0)],
    )
}

#[test]
fn test_triangle_boundary_points_inside() {
    let t = unit_triangle();
    assert!(t.point_in(&vec3(0.5, 0.0, 0.0)), "edge midpoint");
    assert!(t.point_in(&vec3(1.0, 0.0, 0.0)), "vertex");
    assert!(t.point_in(&vec3(0.5, 0.5, 0.0)), "hypotenuse midpoint");
    assert!(t.point_in(&vec3(0.25, 0.25, 0.0)), "interior");
}

#[test]
fn test_triangle_outside_points_outside() {
    let t = unit_triangle();
    assert!(!t.point_in(&vec3(1.0, 1.0, 0.0)));
    assert!(!t.point_in(&vec3(-0.5, 0.25, 0.0)));
    assert!(!t.point_in(&vec3(2.0, 0.0, 0.0)));
}

#[test]
fn test_triangle_plane_intersect() {
    let t = unit_triangle();
    let ray = Ray::new(vec3(0.25, 0.25, 5.0), Unit::new_normalize(vec3(0.0, 0.0, -1.0)), FX_ONE);
    assert_close(unfx(t.intersect(&ray)), 5.0, 1e-6);
}

#[test]
fn test_scene_picks_nearest() {
    let near = SphereModel::new(vec3(0.0, -3.0, 0.0), FX_ONE, Material::marble());
    let far = SphereModel::new(vec3(0.0, 4.0, 0.0), FX_ONE, Material::metallic());
    let scene = Scene::new(vec![far, near]);
    let ray = Ray::new(vec3(0.0, -10.0, 0.0), Unit::new_normalize(vec3(0.0, 1.0, 0.0)), FX_ONE);
    let hit = scene.intersect(&ray).expect("two spheres sit on this ray");
    assert_close(unfx(hit.factor), 6.0, 1e-6);
    assert!(scene.intersect(&Ray::new(
        vec3(0.0, -10.0, 5.0),
        Unit::new_normalize(vec3(0.0, 1.0, 0.0)),
        FX_ONE
    ))
        .is_none());
}

#[test]
fn test_refracted_direction() {
    let norm = Unit::new_normalize(vec3(0.0, 0.0, 1.0));
    let (tx, ty) = (0.5f64.sqrt(), 0.5f64.sqrt());
    let start_angle = 30f64.to_radians();
    let end_angle = (1.0 / 1.33 * start_angle.sin()).asin();
    let start_dir = Unit::new_unchecked(vec3(
        -tx * start_angle.sin(),
        -ty * start_angle.sin(),
        -start_angle.cos(),
    ));
    let ray = Ray::new(vec3(0.0, 0.0, 0.0), start_dir, fx(1.0));
    let refracted = ray.refracted_dir(&norm, fx(1.33)).expect("no total internal reflection here");
    let r = refracted.into_inner();
    assert_close(unfx(r.x), -tx * end_angle.sin(), 1e-3);
    assert_close(unfx(r.y), -ty * end_angle.sin(), 1e-3);
    assert_close(unfx(r.z), -end_angle.cos(), 1e-3);
}

#[test]
fn test_inner_refracted_direction() {
    let norm = Unit::new_normalize(vec3(0.0, 0.0, 1.0));
    let (tx, ty) = (0.5f64.sqrt(), 0.5f64.sqrt());
    let start_angle = 30f64.to_radians();
    let end_angle = (1.33 / 1.0 * start_angle.sin()).asin();
    let start_dir = Unit::new_unchecked(vec3(
        -tx * start_angle.sin(),
        -ty * start_angle.sin(),
        -start_angle.cos(),
    ));
    let ray = Ray::new(vec3(0.0, 0.0, 0.0), start_dir, fx(1.33));
    let refracted = ray.refracted_dir(&norm, fx(1.0)).expect("below the critical angle");
    let refracted_2 = ray.refracted_dir(&norm.neg(), fx(1.0)).expect("reoriented normal");
    let r = refracted.into_inner();
    let r2 = refracted_2.into_inner();
    assert_close(unfx(r.x), -tx * end_angle.sin(), 1e-3);
    assert_close(unfx(r.y), -ty * end_angle.sin(), 1e-3);
    assert_close(unfx(r.z), -end_angle.cos(), 1e-3);
    assert_close(unfx(r.x), unfx(r2.x), 1e-6);
    assert_close(unfx(r.y), unfx(r2.y), 1e-6);
    assert_close(unfx(r.z), unfx(r2.z), 1e-6);
}

#[test]
fn test_direction_conservation() {
    let plane_normal = Unit::new_normalize(vec3(1.0, 1.0, 1.0));
    let direction = Unit::new_normalize(vec3(0.0, 0.0, -1.0));
    let direction_2 = Ray::new(vec3(0.0, 0.0, 0.0), direction, fx(1.0))
        .refracted_dir(&plane_normal, fx(1.5))
        .expect("entering the denser medium always refracts");
    let direction_res = Ray::new(vec3(0.0, 0.0, 0.0), direction_2, fx(1.5))
        .refracted_dir(&plane_normal.neg(), fx(1.0))
        .expect("the round trip stays below the critical angle");
    let d0 = direction.into_inner();
    let d1 = direction_res.into_inner();
    assert_close(unfx(d0.x), unfx(d1.x), 1e-3);
    assert_close(unfx(d0.y), unfx(d1.y), 1e-3);
    assert_close(unfx(d0.z), unfx(d1.z), 1e-3);
}

#[test]
fn test_refraction_round_trip() {
    let norm = Unit::new_normalize(vec3(0.0, 0.0, 1.0));
    let a = 30f64.to_radians();
    let start_dir = Unit::new_unchecked(vec3(-a.sin(), 0.0, -a.cos()));
    let into = Ray::new(vec3(0.0, 0.0, 0.0), start_dir, fx(1.0))
        .refracted_dir(&norm, fx(1.33))
        .expect("air to water at 30 degrees refracts");
    let back = Ray::new(vec3(0.0, 0.0, 0.0), into, fx(1.33))
        .refracted_dir(&norm.neg(), fx(1.0))
        .expect("water to air below the critical angle refracts");
    let d0 = start_dir.into_inner();
    let d1 = back.into_inner();
    assert_close(unfx(d0.x), unfx(d1.x), 1e-3);
    assert_close(unfx(d0.y), unfx(d1.y), 1e-3);
    assert_close(unfx(d0.z), unfx(d1.z), 1e-3);
}

#[test]
fn test_total_internal_reflection_suppressed() {
    let norm = Unit::new_normalize(vec3(0.0, 0.0, 1.0));
    let a = 80f64.to_radians();
    let start_dir = Unit::new_unchecked(vec3(-a.sin(), 0.0, -a.cos()));
    let ray = Ray::new(vec3(0.0, 0.0, 0.0), start_dir, fx(1.5));
    assert!(ray.refracted_dir(&norm, fx(1.0)).is_none());
}

#[test]
fn test_torus_march_hit() {
    let torus = TorusModel::new(fx(1.0), fx(0.33), Material::base());
    let ray = Ray::new(vec3(-3.0, 0.0, 0.0), Unit::new_normalize(vec3(1.0, 0.0, 0.0)), FX_ONE);
    let hit = torus.hit(&ray).expect("the ray crosses the tube");
    assert_close(unfx(hit.factor), 1.70, 1e-6);
    let miss = Ray::new(vec3(0.0, 0.0, -3.0), Unit::new_normalize(vec3(0.0, 0.0, 1.0)), FX_ONE);
    assert!(torus.hit(&miss).is_none());
}

#[test]
fn test_reflected_dir() {
    let norm = Unit::new_normalize(vec3(0.0, 0.0, 1.0));
    let dir = Unit::new_normalize(vec3(1.0, 0.0, -1.0));
    let r = Ray::new(vec3(0.0, 0.0, 0.0), dir, FX_ONE).reflected_dir(&norm).into_inner();
    let s = 0.5f64.sqrt();
    assert_close(unfx(r.x), s, 1e-6);
    assert_close(unfx(r.y), 0.0, 1e-9);
    assert_close(unfx(r.z), s, 1e-6);
}
