//! The scene's shapes: the textured cube and the coordinate axis lines.

pub mod base_line;
pub mod cube;
