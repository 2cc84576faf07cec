//! A software ray tracer whose arithmetic is fixed-point.
//!
//! Real quantities (coordinates, colors, angles) are carried as `i64` raw
//! values scaled by 2^32; every operation saturates at a fixed representable
//! range, so the whole light-transport pipeline is total and deterministic,
//! and every function's contract states its result exactly.
//!
//! The layers, leaves first:
//! - [`fixed`], [`trig`]: the saturating scalar arithmetic and its
//!   trigonometric approximations;
//! - [`vector`], [`matrix`], [`color`]: homogeneous vectors, unit
//!   directions, rotation matrices, and linear RGB intensities;
//! - [`material`], [`ray`], [`hit`]: surface parameters, rays with their
//!   refraction/reflection helpers, and intersection records;
//! - [`model`], [`sphere`], [`triangle`], [`torus`], [`scene`]: the
//!   primitive interface, the three primitive kinds, and the scene's
//!   nearest-hit query (proved to answer the nearest valid hit);
//! - [`camera`], [`perspective`], [`fisheye`]: pixel-to-ray projection;
//! - [`renderer`], [`simple_illumination`], [`global_illumination`],
//!   [`sampling`], [`rng`]: the three light-transport strategies and the
//!   deterministic generator behind the stochastic one;
//! - [`image_generator`], [`image_manager`]: the drivers that turn a camera
//!   and a renderer into a row-major raster, serially or on a thread pool,
//!   with the pixel order proved independent of the partition.

pub mod camera;
pub mod color;
pub mod fisheye;
pub mod fixed;
pub mod global_illumination;
pub mod hit;
pub mod image_generator;
pub mod image_manager;
pub mod material;
pub mod matrix;
pub mod model;
pub mod perspective;
pub mod ray;
pub mod renderer;
pub mod rng;
pub mod sampling;
pub mod scene;
pub mod simple_illumination;
pub mod sphere;
pub mod torus;
pub mod triangle;
pub mod trig;
pub mod vector;
