//! Fixed-point core of a grid-based first-person ray-casting renderer.

pub mod angle;
pub mod assets;
pub mod camera;
pub mod canvas;
pub mod context;
pub mod coordinates;
pub mod fixed_point;
pub mod input;
pub mod parameters;
pub mod rendering;
pub mod result;
pub mod scene;
pub mod stimuli;
pub mod texture;
pub mod world;
pub mod trigonometry;
