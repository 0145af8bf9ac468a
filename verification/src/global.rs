//! Per-frame global state shared by every shape: the free-fly camera.

pub mod camera;

pub use camera::Camera;
