pub mod global;
pub mod loop_clock;
pub mod render_config;
pub mod shapes;

pub use global::Camera;
pub use loop_clock::LoopClock;
