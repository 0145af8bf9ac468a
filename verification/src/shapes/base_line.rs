//! The coordinate axis lines drawn under the scene.

pub mod polygon;
