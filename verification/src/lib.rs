//! A ray-tracing core over fixed-point arithmetic: geometric primitives with
//! their ray-intersection tests, scenes with bounding-volume culling, and a
//! recursive shading engine.
//!
//! Every scalar is an `i64` counted in millionths of a world unit, and every
//! operation on scalars saturates at the ends of `i64`, so that each function
//! of the library is total and its result is stated exactly.
//!
//! - `fixed`, `vector`, `color`: scalars, vectors and colors.
//! - `aabb`, `cube`, `sphere`, `plane`, `object`: the primitives and their
//!   intersection tests.
//! - `material`, `texture`, `skybox`, `light`: what surfaces, the sky and
//!   the lights look like.
//! - `traverse`, `octree`, `grid`, `diorama`, `terrain`: the collections of
//!   primitives, the searches through them, and the layout of the terrain.
//! - `scene`, `optics`, `shading`: the nearest hit of a ray in a scene and
//!   the color it shows.
//! - `camera`, `render`: the rays of a frame and its pixels.

pub mod aabb;
pub mod camera;
pub mod color;
pub mod cube;
pub mod diorama;
pub mod fixed;
pub mod grid;
pub mod light;
pub mod material;
pub mod object;
pub mod octree;
pub mod optics;
pub mod plane;
pub mod render;
pub mod scene;
pub mod shading;
pub mod skybox;
pub mod sphere;
pub mod terrain;
pub mod texture;
pub mod traverse;
pub mod vector;
