//! The three renderer strategies and the image-synthesis drivers.

use renderer::camera::Dimensions;
use renderer::color::{Rgb, RgbIntensity};
use renderer::fixed::{FX_MAX, FX_ONE};
use renderer::global_illumination::{GlobalIllumination, PointLight, Solid, WithSky};
use renderer::image_generator::{ImageGenerator, OneThreaded};
use renderer::image_manager::{Block, Manager, MultiThread};
use renderer::material::Material;
use renderer::perspective::PerspectiveCamera;
use renderer::ray::Ray;
use renderer::renderer::Renderer;
use renderer::rng::Pcg;
use renderer::sampling::{Black, Sampling};
use renderer::scene::Scene;
use renderer::simple_illumination::SimpleIllumination;
use renderer::sphere::SphereModel;
use renderer::triangle::{Triangle, TriangleModel};
use renderer::vector::{Unit, Vector};

fn fx(v: f64) -> i64 {
    (v * 4294967296.0).round() as i64
}

fn vec3(x: f64, y: f64, z: f64) -> Vector {
    Vector::new(fx(x), fx(y), fx(z), 0)
}

fn three_spheres() -> Vec<SphereModel> {
    let mut custom = Material::base();
    custom.color = RgbIntensity::new(fx(0.6), fx(0.8), fx(0.4));
    custom.metallic = RgbIntensity::new(fx(0.4), fx(0.4), fx(0.4));
    custom.roughness = RgbIntensity::new(fx(0.3), fx(0.3), fx(0.3));
    custom.k = 4;
    vec![
        SphereModel::new(vec3(0.0, 0.0, 0.0), fx(1.0), Material::metallic()),
        SphereModel::new(vec3(1.0, -2.0, 0.0), fx(0.5), Material::marble()),
        SphereModel::new(vec3(-1.3, 2.0, 0.0), fx(1.5), custom),
    ]
}

fn test_camera(pos: Vector, dims: Dimensions) -> PerspectiveCamera {
    PerspectiveCamera::new(pos, vec3(0.0, 0.0, 0.0), dims, fx(std::f64::consts::FRAC_PI_6))
}

#[test]
fn test_simple_renderer_sphere_model() {
    let dims = Dimensions { width: 100, height: 75 };
    let cam = test_camera(vec3(0.0, -10.0, 0.0), dims);
    let renderer = Sampling::new(Scene::new(three_spheres()), Black {}, 3, 0, 50);
    let image = (OneThreaded {}).create(&cam, &renderer);
    assert_eq!(image.width, 100);
    assert_eq!(image.height, 75);
    assert_eq!(image.pixels.len(), 100 * 75);
}

#[test]
fn test_simple_renderer_triangle_model() {
    let dims = Dimensions { width: 100, height: 75 };
    let cam = test_camera(vec3(0.0, -10.0, 0.0), dims);
    let mut material = Material::base();
    material.color = Rgb::from_pixel([140, 200, 80]);
    material.metallic = Rgb::from_pixel([120, 120, 120]);
    material.roughness = Rgb::from_pixel([200, 200, 200]);
    material.k = 4;
    let up = Unit::new_normalize(vec3(0.0, -1.0, 0.0));
    let mesh = TriangleModel::new(
        vec![
            Triangle::new(up, &[vec3(-2.0, 0.0, -2.0), vec3(2.0, 0.0, -2.0), vec3(0.0, 0.0, 2.0)]),
            Triangle::new(up, &[vec3(-2.0, 1.0, -2.0), vec3(2.0, 1.0, -2.0), vec3(0.0, 1.0, 2.0)]),
        ],
        material,
    );
    let renderer = Sampling::new(Scene::new(vec![mesh]), Black {}, 3, 0, 50);
    let image = (OneThreaded {}).create(&cam, &renderer);
    assert_eq!(image.pixels.len(), 100 * 75);
}

#[test]
fn test_simple_renderer_cam_reposition() {
    let dims = Dimensions { width: 100, height: 75 };
    let cam = test_camera(vec3(10.0, -10.0, 10.0), dims);
    let renderer = SimpleIllumination::new(Scene::new(three_spheres()));
    let image = (OneThreaded {}).create(&cam, &renderer);
    assert_eq!(image.pixels.len(), 100 * 75);
}

#[test]
fn test_simple_illumination_miss_is_background() {
    let renderer = SimpleIllumination::new(Scene::new(vec![SphereModel::new(
        vec3(0.0, 0.0, 0.0),
        fx(1.0),
        Material::metallic(),
    )]));
    let away = Ray::new(vec3(0.0, -10.0, 0.0), Unit::new_normalize(vec3(0.0, -1.0, 0.0)), FX_ONE);
    let c = renderer.cast(&away);
    assert_eq!(c, renderer.background.color);
}

#[test]
fn test_simple_illumination_head_on_diffuse_value() {
    let mut diffuse = Material::base();
    diffuse.color = RgbIntensity::new(fx(0.25), fx(0.5), fx(0.75));
    diffuse.roughness = RgbIntensity::new(fx(1.0), fx(1.0), fx(1.0));
    let renderer = SimpleIllumination::new(Scene::new(vec![SphereModel::new(
        vec3(0.0, 0.0, 0.0),
        fx(1.0),
        diffuse,
    )]));
    let ray = Ray::new(vec3(0.0, -10.0, 0.0), Unit::new_normalize(vec3(0.0, 1.0, 0.0)), FX_ONE);
    // Head on: the diffuse cosine is exactly one and the metallic weight is
    // zero, so the answer is exactly color * roughness.
    assert_eq!(renderer.cast(&ray), RgbIntensity::new(fx(0.25), fx(0.5), fx(0.75)));
}

#[test]
fn test_global_illumination_miss_is_ambient() {
    let renderer = GlobalIllumination::new(
        Scene::new(three_spheres()),
        vec![PointLight::new(vec3(0.0, 0.0, 4.0), fx(20.0), RgbIntensity::white())],
        4,
        Solid::new(RgbIntensity::new(fx(0.05), fx(0.05), fx(0.05))),
    );
    let away = Ray::new(vec3(0.0, -10.0, 0.0), Unit::new_normalize(vec3(0.0, -1.0, 0.0)), FX_ONE);
    assert_eq!(renderer.cast(&away), RgbIntensity::new(fx(0.05), fx(0.05), fx(0.05)));
}

#[test]
fn test_global_illumination_energy_in_range() {
    let renderer = GlobalIllumination::new(
        Scene::new(three_spheres()),
        vec![PointLight::new(vec3(0.0, 0.0, 4.0), fx(20.0), RgbIntensity::white())],
        4,
        WithSky {},
    );
    let dims = Dimensions { width: 8, height: 6 };
    let cam = test_camera(vec3(0.0, -10.0, 0.0), dims);
    let image = (OneThreaded {}).create(&cam, &renderer);
    assert_eq!(image.pixels.len(), 8 * 6);
    let hit_ray = Ray::new(vec3(0.0, -10.0, 0.0), Unit::new_normalize(vec3(0.0, 1.0, 0.0)), FX_ONE);
    let c = renderer.cast(&hit_ray);
    assert!(c.r >= 0 && c.r <= FX_MAX);
    assert!(c.g >= 0 && c.g <= FX_MAX);
    assert!(c.b >= 0 && c.b <= FX_MAX);
}

#[test]
fn test_path_tracer_emissive_convergence() {
    let mut emitter = Material::base();
    emitter.emissivity = RgbIntensity::new(fx(0.8), fx(0.6), fx(0.4));
    let scene = Scene::new(vec![SphereModel::new(vec3(0.0, 0.0, 0.0), fx(1.0), emitter)]);
    let renderer = Sampling::new(scene, Black {}, 3, 7, 5000);
    let ray = Ray::new(vec3(0.0, -10.0, 0.0), Unit::new_normalize(vec3(0.0, 1.0, 0.0)), FX_ONE);
    let c = renderer.cast(&ray);
    // The emitter's color is black, so every walk collects exactly the
    // direct emission and the 5000-sample mean is the emission itself.
    assert_eq!(c, RgbIntensity::new(fx(0.8), fx(0.6), fx(0.4)));
}

#[test]
fn test_seeded_render_reproducible() {
    let dims = Dimensions { width: 20, height: 16 };
    let cam = test_camera(vec3(0.0, -10.0, 0.0), dims);
    let a = Sampling::new(Scene::new(three_spheres()), Black {}, 2, 42, 4);
    let b = Sampling::new(Scene::new(three_spheres()), Black {}, 2, 42, 4);
    let img_a = (OneThreaded {}).create(&cam, &a);
    let img_b = (OneThreaded {}).create(&cam, &b);
    assert_eq!(img_a.pixels, img_b.pixels);
    let other = Sampling::new(Scene::new(three_spheres()), Black {}, 2, 43, 4);
    let img_c = (OneThreaded {}).create(&cam, &other);
    assert_ne!(img_a.pixels, img_c.pixels);
}

#[test]
fn test_parallel_drivers_match_single_thread() {
    let dims = Dimensions { width: 21, height: 13 };
    let cam = test_camera(vec3(0.0, -10.0, 0.0), dims);
    let renderer = Sampling::new(Scene::new(three_spheres()), Black {}, 2, 5, 4);
    let single = (OneThreaded {}).create(&cam, &renderer);
    let pooled = renderer::image_generator::Library::new(32).create(&cam, &renderer);
    let managed = renderer::image_manager::Library::new(17).create(&cam, &renderer);
    let threaded = (MultiThread { thread_count: 4 }).create(&cam, &renderer);
    assert_eq!(single.pixels, pooled.pixels);
    assert_eq!(single.pixels, managed.pixels);
    assert_eq!(single.pixels, threaded.pixels);
}

#[test]
fn test_block_walks_row_major() {
    let dims = Dimensions { width: 5, height: 4 };
    let cam = test_camera(vec3(0.0, -10.0, 0.0), dims);
    let renderer = SimpleIllumination::new(Scene::new(three_spheres()));
    let whole = (OneThreaded {}).create(&cam, &renderer);
    // A block starting mid-row must reproduce the matching flat slice.
    let block = Block::new(7, 3, 1, dims);
    let buffer = block.run(&cam, &renderer);
    assert_eq!(buffer.as_slice(), &whole.pixels[8..15]);
}

#[test]
fn test_empty_grid_renders_empty_raster() {
    let dims = Dimensions { width: 0, height: 7 };
    let cam = test_camera(vec3(0.0, -10.0, 0.0), dims);
    let renderer = SimpleIllumination::new(Scene::new(three_spheres()));
    let image = (MultiThread { thread_count: 3 }).create(&cam, &renderer);
    assert_eq!(image.width, 0);
    assert_eq!(image.height, 7);
    assert!(image.pixels.is_empty());
}

#[test]
fn test_rng_streams() {
    let mut a = Pcg::seed_from_u64(42);
    let mut b = Pcg::seed_from_u64(42);
    let mut c = Pcg::seed_from_u64(43);
    let xs: Vec<i64> = (0..8).map(|_| a.next_fx()).collect();
    let ys: Vec<i64> = (0..8).map(|_| b.next_fx()).collect();
    let zs: Vec<i64> = (0..8).map(|_| c.next_fx()).collect();
    assert_eq!(xs, ys);
    assert_ne!(xs, zs);
    assert!(xs.iter().all(|&v| 0 <= v && v < FX_ONE));
}
