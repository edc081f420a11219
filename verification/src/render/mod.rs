pub mod action;
pub mod compositor;
pub mod context;
pub mod laws;
pub mod scene;
pub mod surface;
pub mod target;

pub use context::RenderContext;
